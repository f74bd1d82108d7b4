//! The proving key of the Orchard action circuit.

use vstd::prelude::*;

use orchard::circuit::ProvingKey as OrchardProvingKey;

verus! {

/// orchard's proving key, which this crate carries and never looks into.
#[verifier::external_type_specification]
#[verifier::external_body]
pub struct ExOrchardProvingKey(OrchardProvingKey);

/// Calls `orchard::circuit::ProvingKey::build` for the circuit that bundles of
/// the Orchard pool are proved with.
#[verifier::external_body]
fn build_circuit_key() -> OrchardProvingKey {
    OrchardProvingKey::build(orchard::bundle::BundleVersion::orchard_v2().circuit_version())
}

/// The key that proofs are made with.
///
/// Building it is slow. It never changes afterwards, so one key serves any
/// number of bundles, from any number of threads.
pub struct ProvingKey {
    pub(crate) inner: OrchardProvingKey,
}

impl ProvingKey {
    /// Builds the key from the circuit. This takes seconds.
    pub fn build() -> ProvingKey {
        ProvingKey { inner: build_circuit_key() }
    }
}

} // verus!
