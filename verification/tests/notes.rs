use orchard::keys::{FullViewingKey as OrchardFullViewingKey, Scope, SpendingKey};
use orchard::note::{NoteVersion, RandomSeed, Rho};
use orchard::value::NoteValue;
use pyorchard::{Error, Note};

/// The bytes of a note that orchard accepts, for the key made of `tag`.
fn note_bytes(tag: u8, value: u64) -> [u8; 115] {
    let sk = SpendingKey::from_bytes([tag; 32]).unwrap();
    let recipient = OrchardFullViewingKey::from(&sk).address_at(0u32, Scope::External);
    let mut rho_bytes = [0u8; 32];
    rho_bytes[0] = tag;
    let rho = Rho::from_bytes(&rho_bytes).unwrap();
    for seed in 0u8..=255 {
        let rseed_bytes = [seed; 32];
        let accepted = RandomSeed::from_bytes(rseed_bytes, &rho)
            .into_option()
            .and_then(|rseed| {
                orchard::Note::from_parts(
                    recipient,
                    NoteValue::from_raw(value),
                    rho,
                    rseed,
                    NoteVersion::V2,
                )
                .into_option()
            })
            .is_some();
        if accepted {
            let mut out = [0u8; 115];
            out[..43].copy_from_slice(&recipient.to_raw_address_bytes());
            out[43..51].copy_from_slice(&value.to_le_bytes());
            out[51..83].copy_from_slice(&rho_bytes);
            out[83..].copy_from_slice(&rseed_bytes);
            return out;
        }
    }
    panic!("no seed gives a note");
}

#[test]
fn note_round_trips() {
    let bytes = note_bytes(7, 123_456_789);
    let note = Note::from_bytes(&bytes).unwrap();
    assert_eq!(note.to_bytes(), bytes);
    let again = Note::from_bytes(&note.to_bytes()).unwrap();
    assert_eq!(again.to_bytes(), bytes);
}

#[test]
fn note_value_is_read_least_significant_byte_first() {
    let bytes = note_bytes(9, 0x0102_0304_0506_0708);
    assert_eq!(&bytes[43..51], &[8, 7, 6, 5, 4, 3, 2, 1]);
    let note = Note::from_bytes(&bytes).unwrap();
    assert_eq!(note.value(), 0x0102_0304_0506_0708);
    assert_eq!(note.to_bytes()[43..51], [8, 7, 6, 5, 4, 3, 2, 1]);
}

#[test]
fn note_of_value_zero_and_of_the_greatest_value_round_trip() {
    for value in [0u64, 1, u64::MAX] {
        let bytes = note_bytes(11, value);
        let note = Note::from_bytes(&bytes).unwrap();
        assert_eq!(note.value(), value);
        assert_eq!(note.to_bytes(), bytes);
    }
}

#[test]
fn note_of_wrong_length_is_refused() {
    let bytes = note_bytes(7, 5);
    assert_eq!(Note::from_bytes(&bytes[..114]).err(), Some(Error::Decode));
    assert_eq!(Note::from_bytes(&[]).err(), Some(Error::Decode));
    let mut long = bytes.to_vec();
    long.push(0);
    assert_eq!(Note::from_bytes(&long).err(), Some(Error::Decode));
}

#[test]
fn note_with_invalid_recipient_is_refused() {
    let mut bytes = note_bytes(7, 5);
    for b in bytes[11..43].iter_mut() {
        *b = 0xff;
    }
    assert_eq!(Note::from_bytes(&bytes).err(), Some(Error::Decode));
}

#[test]
fn note_with_invalid_rho_is_refused() {
    let mut bytes = note_bytes(7, 5);
    for b in bytes[51..83].iter_mut() {
        *b = 0xff;
    }
    assert_eq!(Note::from_bytes(&bytes).err(), Some(Error::Decode));
}
