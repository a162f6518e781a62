use anchor_lang::AnchorSerialize;
use journal::{JournalEntryState, JournalError, Pubkey, DISCRIMINATOR};

fn entry(owner: u8, title: &str, message: &str) -> JournalEntryState {
    JournalEntryState {
        owner: Pubkey::new_from_array([owner; 32]),
        title: title.to_string(),
        message: message.to_string(),
    }
}

#[test]
fn discriminator_is_the_hash_of_the_account_name() {
    let hash = anchor_lang::solana_program::hash::hash(b"account:JournalEntryState");
    assert_eq!(&DISCRIMINATOR[..], &hash.to_bytes()[..8]);
}

#[test]
fn serialize_lays_the_fields_out_in_order() {
    let bytes = entry(1, "Day1", "Hello").try_serialize().unwrap();
    let mut expected = vec![113, 86, 110, 124, 140, 14, 58, 66];
    expected.extend_from_slice(&[1u8; 32]);
    expected.extend_from_slice(&[4, 0, 0, 0]);
    expected.extend_from_slice(b"Day1");
    expected.extend_from_slice(&[5, 0, 0, 0]);
    expected.extend_from_slice(b"Hello");
    assert_eq!(bytes, expected);
    assert_eq!(bytes.len(), 57);
}

#[test]
fn serialize_agrees_with_the_outside_encoding() {
    let owner = anchor_lang::prelude::Pubkey::new_from_array([9u8; 32]);
    let title = "日記".to_string();
    let message = "m".repeat(300);
    let mut expected = DISCRIMINATOR.to_vec();
    expected.extend(owner.try_to_vec().unwrap());
    expected.extend(title.try_to_vec().unwrap());
    expected.extend(message.try_to_vec().unwrap());
    assert_eq!(entry(9, "日記", &message).try_serialize(), Ok(expected));
}

#[test]
fn serialize_writes_the_length_lowest_byte_first() {
    let bytes = entry(0, "", &"m".repeat(1000)).try_serialize().unwrap();
    assert_eq!(&bytes[40..44], &[0, 0, 0, 0]);
    assert_eq!(&bytes[44..48], &[232, 3, 0, 0]);
    assert_eq!(bytes.len(), 8 + 32 + 4 + 4 + 1000);
}

#[test]
fn serialize_fills_the_allocation_at_most() {
    let bytes = entry(1, &"t".repeat(50), &"m".repeat(1000)).try_serialize().unwrap();
    assert_eq!(bytes.len(), 1098);
    assert_eq!(bytes.len(), journal::required_size(50, 1000));
    assert_eq!(entry(1, "", "").try_serialize().unwrap().len(), 48);
}

#[test]
fn serialize_refuses_texts_that_are_too_long() {
    assert_eq!(
        entry(1, &"t".repeat(51), "").try_serialize(),
        Err(JournalError::FieldTooLong)
    );
    assert_eq!(
        entry(1, "", &"m".repeat(1001)).try_serialize(),
        Err(JournalError::FieldTooLong)
    );
    assert_eq!(entry(1, &"€".repeat(17), "").try_serialize(), Err(JournalError::FieldTooLong));
    assert!(entry(1, &"€".repeat(16), "").try_serialize().is_ok());
}

#[test]
fn deserialize_reads_back_what_was_stored() {
    for (title, message) in [("Day1", "Hello"), ("", ""), ("日記", "x€y"), ("Day1", "Hello world")] {
        let stored = entry(5, title, message);
        let bytes = stored.try_serialize().unwrap();
        assert_eq!(JournalEntryState::try_deserialize(&bytes), Some(stored));
    }
    let longest = entry(5, &"t".repeat(50), &"m".repeat(1000));
    let bytes = longest.try_serialize().unwrap();
    assert_eq!(JournalEntryState::try_deserialize(&bytes), Some(longest));
}

#[test]
fn deserialize_passes_over_the_rest_of_the_slot() {
    let stored = entry(5, "Day1", "Hello");
    let mut bytes = stored.try_serialize().unwrap();
    bytes.resize(1098, 0);
    assert_eq!(JournalEntryState::try_deserialize(&bytes), Some(stored.clone()));
    bytes[57] = 255;
    assert_eq!(JournalEntryState::try_deserialize(&bytes), Some(stored));
}

#[test]
fn deserialize_refuses_what_is_no_entry() {
    let bytes = entry(5, "Day1", "Hello").try_serialize().unwrap();
    assert_eq!(JournalEntryState::try_deserialize(&[]), None);
    assert_eq!(JournalEntryState::try_deserialize(&[0u8; 1098]), None);
    for len in 0..bytes.len() {
        assert_eq!(JournalEntryState::try_deserialize(&bytes[..len]), None);
    }
    let mut other_tag = bytes.clone();
    other_tag[7] ^= 1;
    assert_eq!(JournalEntryState::try_deserialize(&other_tag), None);
    let mut not_text = bytes.clone();
    not_text[44] = 0xff;
    assert_eq!(JournalEntryState::try_deserialize(&not_text), None);
    let mut half_a_character = bytes.clone();
    half_a_character[56] = 0xe2;
    assert_eq!(JournalEntryState::try_deserialize(&half_a_character), None);
}

#[test]
fn deserialize_refuses_texts_that_are_too_long() {
    let mut bytes = DISCRIMINATOR.to_vec();
    bytes.extend_from_slice(&[5u8; 32]);
    bytes.extend_from_slice(&[51, 0, 0, 0]);
    bytes.extend_from_slice(&[b't'; 51]);
    bytes.extend_from_slice(&[0, 0, 0, 0]);
    assert_eq!(JournalEntryState::try_deserialize(&bytes), None);

    let mut bytes = DISCRIMINATOR.to_vec();
    bytes.extend_from_slice(&[5u8; 32]);
    bytes.extend_from_slice(&[0, 0, 0, 0]);
    bytes.extend_from_slice(&[233, 3, 0, 0]);
    bytes.extend_from_slice(&[b'm'; 1001]);
    assert_eq!(JournalEntryState::try_deserialize(&bytes), None);

    let mut bytes = DISCRIMINATOR.to_vec();
    bytes.extend_from_slice(&[5u8; 32]);
    bytes.extend_from_slice(&[1, 0, 0, 1]);
    bytes.extend_from_slice(&[b't'; 60]);
    assert_eq!(JournalEntryState::try_deserialize(&bytes), None);
}
