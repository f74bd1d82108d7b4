//! Construction of shielded Orchard bundles, phase by phase.
//!
//! A [`Builder`] gathers spends and outputs under one anchor and yields a
//! [`Bundle`]. The bundle is then proved, prepared for signing, signed spend by
//! spend with signatures made elsewhere, sealed, and encoded for a version 5
//! transaction. Every step is checked against the phase the bundle is in; a
//! refused step leaves the bundle as it was.
//!
//! The cryptography is orchard's. What this crate states and proves is the
//! bookkeeping around it: the byte layouts, the builder's rules, and the order
//! in which a bundle may move from phase to phase.

pub mod builder;
pub mod bundle;
pub mod encoding;
pub mod error;
pub mod keys;
pub mod note;
pub mod pczt;
pub mod proving;
pub mod random;
pub mod signing;
pub mod state;
pub mod tree;

pub use builder::{Builder, Output, Spend};
pub use bundle::Bundle;
pub use error::Error;
pub use keys::{Address, FullViewingKey};
pub use note::Note;
pub use proving::ProvingKey;
pub use random::Random;
pub use state::{Operation, State};
pub use tree::MerklePath;
