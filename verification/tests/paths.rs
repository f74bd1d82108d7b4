use pyorchard::{Error, MerklePath};

#[test]
fn dummy_path_is_at_position_zero() {
    let path = MerklePath::dummy();
    assert_eq!(path.position(), 0);
}

#[test]
fn path_of_32_siblings_is_taken() {
    let mut siblings = [[0u8; 32]; 32];
    for (i, sibling) in siblings.iter_mut().enumerate() {
        sibling[0] = i as u8;
    }
    let path = MerklePath::from_parts(77, &siblings).unwrap();
    assert_eq!(path.position(), 77);
}

#[test]
fn path_with_missing_levels_is_no_membership_proof() {
    let siblings = [[0u8; 32]; 31];
    assert_eq!(
        MerklePath::from_parts(0, &siblings).err(),
        Some(Error::MissingMembershipProof)
    );
    assert_eq!(MerklePath::from_parts(0, &[]).err(), Some(Error::MissingMembershipProof));
    let siblings = [[0u8; 32]; 33];
    assert_eq!(
        MerklePath::from_parts(0, &siblings).err(),
        Some(Error::MissingMembershipProof)
    );
}

#[test]
fn path_with_invalid_sibling_is_refused() {
    let mut siblings = [[0u8; 32]; 32];
    siblings[31] = [0xff; 32];
    assert_eq!(MerklePath::from_parts(0, &siblings).err(), Some(Error::Decode));
}
