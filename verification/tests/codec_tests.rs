use depool::codec::decode_address;
use depool::codec::decode_address_array;
use depool::codec::decode_bool;
use depool::codec::decode_map_u64_u64;
use depool::codec::decode_u32;
use depool::codec::decode_u64;
use depool::codec::decode_u8;
use depool::codec::encode_address;
use depool::codec::encode_bool;
use depool::codec::encode_u64;
use depool::text::parse_u64;
use depool::Address;
use depool::DePoolError;
use depool::MapEntry;
use depool::ParamType;
use depool::UintValue;
use depool::Value;

fn uint(size: u32, number: u128) -> Value {
    Value::Uint(UintValue { size, number })
}

fn addr(byte: u8) -> Address {
    Address { workchain: 0, account: [byte; 32] }
}

fn map_u64_u64(entries: Vec<(&str, Value)>) -> Value {
    let entries = entries
        .into_iter()
        .map(|(k, v)| MapEntry { key: k.to_owned(), value: v })
        .collect();
    Value::Mapping(ParamType::Uint(64), ParamType::Uint(64), entries)
}

#[test]
fn decode_u64_accepts_exact_width() {
    assert_eq!(decode_u64(&uint(64, 123)), Ok(123u64));
    assert_eq!(decode_u64(&uint(64, u64::MAX as u128)), Ok(u64::MAX));
}

#[test]
fn decode_u32_rejects_width_mismatch() {
    // A 32-bit declared slot actually carrying a 64-bit value is a hard
    // failure, never a silent truncation.
    assert_eq!(decode_u32(&uint(64, 7)), Err(DePoolError::InvalidAbi));
    assert_eq!(decode_u32(&uint(8, 7)), Err(DePoolError::InvalidAbi));
    assert_eq!(decode_u32(&uint(32, 7)), Ok(7u32));
}

#[test]
fn decode_u64_rejects_width_mismatch() {
    assert_eq!(decode_u64(&uint(32, 7)), Err(DePoolError::InvalidAbi));
    assert_eq!(decode_u64(&Value::Bool(true)), Err(DePoolError::InvalidAbi));
}

#[test]
fn decode_rejects_overflowing_number() {
    assert_eq!(
        decode_u64(&uint(64, u64::MAX as u128 + 1)),
        Err(DePoolError::InvalidAbi)
    );
    assert_eq!(decode_u32(&uint(32, u32::MAX as u128 + 1)), Err(DePoolError::InvalidAbi));
    assert_eq!(decode_u8(&uint(8, 256)), Err(DePoolError::InvalidAbi));
}

#[test]
fn decode_bool_and_address_check_the_tag() {
    assert_eq!(decode_bool(&Value::Bool(true)), Ok(true));
    assert_eq!(decode_bool(&uint(8, 1)), Err(DePoolError::InvalidAbi));
    assert_eq!(decode_address(&Value::Address(addr(5))), Ok(addr(5)));
    assert_eq!(decode_address(&Value::Bool(false)), Err(DePoolError::InvalidAbi));
}

#[test]
fn round_trip_u64() {
    assert_eq!(decode_u64(&encode_u64(51000)), Ok(51000u64));
    assert_eq!(decode_u64(&encode_u64(0)), Ok(0u64));
    assert_eq!(decode_u64(&encode_u64(u64::MAX)), Ok(u64::MAX));
}

#[test]
fn round_trip_bool_and_address() {
    assert_eq!(decode_bool(&encode_bool(true)), Ok(true));
    assert_eq!(decode_bool(&encode_bool(false)), Ok(false));
    assert_eq!(decode_address(&encode_address(addr(9))), Ok(addr(9)));
}

#[test]
fn parse_u64_reads_decimal_numerals() {
    assert_eq!(parse_u64("0"), Some(0));
    assert_eq!(parse_u64("007"), Some(7));
    assert_eq!(parse_u64("18446744073709551615"), Some(u64::MAX));
}

#[test]
fn parse_u64_rejects_bad_text() {
    assert_eq!(parse_u64(""), None);
    assert_eq!(parse_u64("12a"), None);
    assert_eq!(parse_u64("-1"), None);
    assert_eq!(parse_u64(" 1"), None);
    assert_eq!(parse_u64("18446744073709551616"), None);
}

#[test]
fn map_decode_preserves_keys_and_orders_them() {
    let v = map_u64_u64(vec![
        ("10", uint(64, 100)),
        ("3", uint(64, 30)),
        ("5", uint(64, 50)),
    ]);
    let m = decode_map_u64_u64(&v).unwrap();
    assert_eq!(m.len(), 3);
    assert_eq!(m.get(3), Some(&30));
    assert_eq!(m.get(5), Some(&50));
    assert_eq!(m.get(10), Some(&100));
    assert_eq!(m.get(4), None);
    assert!(m.contains_key(3));
    assert!(!m.contains_key(4));
    // Iteration is key-ordered, whatever the entry order was.
    assert_eq!(*m.entry_at(0), (3, 30));
    assert_eq!(*m.entry_at(1), (5, 50));
    assert_eq!(*m.entry_at(2), (10, 100));
}

#[test]
fn map_decode_keeps_the_last_duplicate() {
    let v = map_u64_u64(vec![("5", uint(64, 1)), ("5", uint(64, 2))]);
    let m = decode_map_u64_u64(&v).unwrap();
    assert_eq!(m.len(), 1);
    assert_eq!(m.get(5), Some(&2));
}

#[test]
fn map_decode_accepts_the_empty_map() {
    let m = decode_map_u64_u64(&map_u64_u64(vec![])).unwrap();
    assert_eq!(m.len(), 0);
    assert!(m.is_empty());
}

#[test]
fn map_decode_rejects_unparseable_keys() {
    let v = map_u64_u64(vec![("x5", uint(64, 1))]);
    assert!(matches!(decode_map_u64_u64(&v), Err(DePoolError::InvalidAbi)));
}

#[test]
fn map_decode_rejects_mistyped_values() {
    let v = map_u64_u64(vec![("5", uint(32, 1))]);
    assert!(matches!(decode_map_u64_u64(&v), Err(DePoolError::InvalidAbi)));
}

#[test]
fn map_decode_rejects_mismatched_declared_types() {
    let v = Value::Mapping(ParamType::Uint(32), ParamType::Uint(64), Vec::new());
    assert!(matches!(decode_map_u64_u64(&v), Err(DePoolError::InvalidAbi)));
    let v = Value::Mapping(ParamType::Uint(64), ParamType::Bool, Vec::new());
    assert!(matches!(decode_map_u64_u64(&v), Err(DePoolError::InvalidAbi)));
    assert!(matches!(decode_map_u64_u64(&Value::Bool(true)), Err(DePoolError::InvalidAbi)));
}

#[test]
fn address_array_decodes_elementwise() {
    let v = Value::Array(
        ParamType::Address,
        vec![Value::Address(addr(1)), Value::Address(addr(2))],
    );
    let a = decode_address_array(&v).unwrap();
    assert_eq!(a, vec![addr(1), addr(2)]);
}

#[test]
fn address_array_rejects_a_foreign_element() {
    let v = Value::Array(ParamType::Address, vec![Value::Address(addr(1)), uint(64, 2)]);
    assert!(matches!(decode_address_array(&v), Err(DePoolError::InvalidAbi)));
    let v = Value::Array(ParamType::Uint(64), Vec::new());
    assert!(matches!(decode_address_array(&v), Err(DePoolError::InvalidAbi)));
}
