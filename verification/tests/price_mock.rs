use lending_protocol::price_mock::{encode_switchboard_quote, set_mocked_switchboard_quote_data, MockQuoteError};
use lending_protocol::structs::Pubkey;

fn pk(n: u8) -> Pubkey {
    Pubkey { bytes: [n; 32] }
}

/// The SHA-256 digest of the eight little-endian bytes of the slot 42.
const SLOT_42_HASH: [u8; 32] = [
    237, 4, 145, 8, 188, 24, 242, 198, 67, 105, 232, 208, 234, 66, 133, 11, 221, 26, 125, 29, 211, 64, 207, 222, 113,
    99, 21, 87, 151, 2, 167, 108,
];

#[test]
fn an_empty_quote_has_its_fixed_layout() {
    let bytes = encode_switchboard_quote(pk(3), [9; 32], &vec![], &vec![], 1, 0x0102);
    let mut expected: Vec<u8> = vec![3; 32];
    expected.extend_from_slice(&[0, 0]);
    expected.extend_from_slice(&[9; 32]);
    expected.push(0);
    expected.push(0);
    expected.extend_from_slice(&[2, 1, 0, 0, 0, 0, 0, 0]);
    expected.push(1);
    expected.extend_from_slice(b"SBOD");
    assert_eq!(bytes, expected);
}

#[test]
fn feeds_are_written_in_order() {
    let ids = vec![[1u8; 32], [2u8; 32]];
    let values = vec![5i128, -1i128];
    let bytes = encode_switchboard_quote(pk(3), [9; 32], &ids, &values, 4, 7);
    assert_eq!(bytes.len(), 32 + 2 + 32 + 1 + 2 * (32 + 16 + 1) + 1 + 8 + 1 + 4);
    assert_eq!(bytes[66], 2);
    let first = &bytes[67..67 + 49];
    assert_eq!(&first[..32], &[1u8; 32]);
    assert_eq!(&first[32..48], &5i128.to_le_bytes());
    assert_eq!(first[48], 4);
    let second = &bytes[116..116 + 49];
    assert_eq!(&second[..32], &[2u8; 32]);
    assert_eq!(&second[32..48], &[255u8; 16]);
    assert_eq!(second[48], 4);
}

#[test]
fn a_mocked_quote_is_signed_with_the_slot_hash() {
    let bytes = set_mocked_switchboard_quote_data(pk(3), 42, &vec![[1u8; 32]], &vec![10i128], 2).unwrap();
    assert_eq!(&bytes[34..66], &SLOT_42_HASH);
    assert_eq!(bytes, encode_switchboard_quote(pk(3), SLOT_42_HASH, &vec![[1u8; 32]], &vec![10i128], 2, 42));
}

#[test]
fn a_mocked_quote_needs_one_value_per_feed() {
    let r = set_mocked_switchboard_quote_data(pk(3), 42, &vec![[1u8; 32]], &vec![], 2);
    assert_eq!(r, Err(MockQuoteError::ConstraintRaw));
}
