use pyorchard::{Address, Error, FullViewingKey};

const DEFAULT_ADDRESS: [u8; 43] = [
    143, 243, 56, 105, 113, 203, 100, 184, 231, 120, 153, 8, 221, 142, 189, 125, 233, 42, 104,
    229, 134, 163, 77, 184, 254, 169, 153, 239, 210, 1, 111, 174, 118, 117, 10, 250, 231, 238,
    148, 22, 70, 188, 185,
];

#[test]
fn default_address_decodes() {
    let address = Address::default().expect("the default address decodes");
    assert_eq!(address.to_bytes(), DEFAULT_ADDRESS);
}

#[test]
fn address_round_trips() {
    let address = Address::from_bytes(&DEFAULT_ADDRESS).unwrap();
    let again = Address::from_bytes(&address.to_bytes()).unwrap();
    assert_eq!(again.to_bytes(), DEFAULT_ADDRESS);
}

#[test]
fn address_of_wrong_length_is_refused() {
    assert!(matches!(Address::from_bytes(&DEFAULT_ADDRESS[..42]), Err(Error::Decode)));
    assert!(matches!(Address::from_bytes(&[]), Err(Error::Decode)));
    let mut long = DEFAULT_ADDRESS.to_vec();
    long.push(0);
    assert!(matches!(Address::from_bytes(&long), Err(Error::Decode)));
}

#[test]
fn address_with_invalid_key_is_refused() {
    let mut bytes = DEFAULT_ADDRESS;
    for b in bytes[11..].iter_mut() {
        *b = 0xff;
    }
    assert!(matches!(Address::from_bytes(&bytes), Err(Error::Decode)));
}

#[test]
fn full_viewing_key_round_trips() {
    let sk = orchard::keys::SpendingKey::from_bytes([7; 32]).unwrap();
    let encoded = orchard::keys::FullViewingKey::from(&sk).to_bytes();
    let key = FullViewingKey::from_bytes(&encoded).unwrap();
    assert_eq!(key.to_bytes(), encoded);
}

#[test]
fn full_viewing_key_of_wrong_length_is_refused() {
    assert!(matches!(FullViewingKey::from_bytes(&[0u8; 95]), Err(Error::Decode)));
    assert!(matches!(FullViewingKey::from_bytes(&[0u8; 97]), Err(Error::Decode)));
}

#[test]
fn full_viewing_key_with_invalid_content_is_refused() {
    assert!(matches!(FullViewingKey::from_bytes(&[0xffu8; 96]), Err(Error::Decode)));
}
