use alphabill::decoder::{Decoder, TagValueIter, Value, ERR_INVALID_UTF8, ERR_TRUNCATED, ERR_UNKNOWN_TYPE};

#[test]
fn primitive_reads() {
    let data = vec![
        0x78, 0x56, 0x34, 0x12, // u32 0x12345678
        0xf0, 0xde, 0xbc, 0x9a, 0x78, 0x56, 0x34, 0x12, // u64 0x123456789abcdef0
        0x03, 0x00, 0x00, 0x00, 0x61, 0x62, 0x63, // 3 bytes "abc"
        0x02, 0x00, 0x00, 0x00, 0xc3, 0xa9, // string "é"
    ];
    let mut p = Decoder::new(&data);
    assert_eq!(0x12345678, p.uint32().unwrap());
    assert_eq!(0x123456789abcdef0, p.uint64().unwrap());
    assert_eq!(vec![0x61, 0x62, 0x63], p.bytes().unwrap());
    assert_eq!("é".to_string(), p.string().unwrap());
}

#[test]
fn primitive_reads_truncated() {
    let mut p = Decoder::new(&[0x01, 0x02]);
    assert_eq!(ERR_TRUNCATED as u64, p.uint32().unwrap_err().code());

    let mut p = Decoder::new(&[0x01, 0x02, 0x03, 0x04, 0x05]);
    assert_eq!(ERR_TRUNCATED as u64, p.uint64().unwrap_err().code());

    // Announced length runs past the end of the buffer.
    let mut p = Decoder::new(&[0x05, 0x00, 0x00, 0x00, 0x61]);
    assert_eq!(ERR_TRUNCATED as u64, p.bytes().unwrap_err().code());
}

#[test]
fn string_rejects_invalid_utf8() {
    let mut p = Decoder::new(&[0x02, 0x00, 0x00, 0x00, 0xff, 0xfe]);
    assert_eq!(ERR_INVALID_UTF8 as u64, p.string().unwrap_err().code());
}

#[test]
fn value_reads_each_kind() {
    let mut p = Decoder::new(&[0x01, 0x02, 0x00, 0x00, 0x00, 0xaa, 0xbb]);
    assert_eq!(Value::Bytes(vec![0xaa, 0xbb]), p.value());

    let mut p = Decoder::new(&[0x02, 0x2a, 0x00, 0x00, 0x00, 0x00, 0x00, 0x00, 0x00]);
    assert_eq!(Value::U64(42), p.value());

    let mut p = Decoder::new(&[0x03, 0x07, 0x00, 0x00, 0x00]);
    assert_eq!(Value::U32(7), p.value());

    let mut p = Decoder::new(&[0x04, 0x02, 0x00, 0x00, 0x00, 0x68, 0x69]);
    assert_eq!(Value::String("hi".to_string()), p.value());

    // A sequence of two values: a u32 and a byte buffer.
    let mut p = Decoder::new(&[
        0x05, 0x02, 0x00, 0x00, 0x00, // two elements
        0x03, 0x09, 0x00, 0x00, 0x00, // u32 9
        0x01, 0x01, 0x00, 0x00, 0x00, 0x55, // bytes [0x55]
    ]);
    assert_eq!(
        Value::Array(vec![Value::U32(9), Value::Bytes(vec![0x55])]),
        p.value()
    );
}

#[test]
fn value_is_total_on_malformed_buffers() {
    // Unknown type discriminant.
    let mut p = Decoder::new(&[0x09]);
    assert_eq!(Value::Error(ERR_UNKNOWN_TYPE), p.value());

    // Empty buffer.
    let mut p = Decoder::new(&[]);
    assert_eq!(Value::Error(ERR_TRUNCATED), p.value());

    // Truncated payload.
    let mut p = Decoder::new(&[0x02, 0x01]);
    assert_eq!(Value::Error(ERR_TRUNCATED), p.value());

    // Truncation inside a sequence element: the element errors, the
    // sequence itself is still one value.
    let mut p = Decoder::new(&[0x05, 0x01, 0x00, 0x00, 0x00, 0x02, 0x01]);
    assert_eq!(Value::Array(vec![Value::Error(ERR_TRUNCATED)]), p.value());
}

#[test]
fn value_stops_at_value_boundary() {
    // Two values back to back: reading the first leaves the cursor at
    // the start of the second.
    let data = [
        0x03, 0x2a, 0x00, 0x00, 0x00, // u32 42
        0x02, 0x07, 0x00, 0x00, 0x00, 0x00, 0x00, 0x00, 0x00, // u64 7
    ];
    let mut p = Decoder::new(&data);
    assert_eq!(Value::U32(42), p.value());
    assert_eq!(Value::U64(7), p.value());
}

#[test]
fn tag_value_iteration() {
    let data = [
        0x07, 0x03, 0x2a, 0x00, 0x00, 0x00, // tag 7: u32 42
        0x09, 0x04, 0x02, 0x00, 0x00, 0x00, 0x68, 0x69, // tag 9: string "hi"
    ];
    let mut it = TagValueIter::new(&data);
    assert_eq!(Some((7, Value::U32(42))), it.next());
    assert_eq!(Some((9, Value::String("hi".to_string()))), it.next());
    assert_eq!(None, it.next());
}

#[test]
fn coercion_widens_u32_to_u64() {
    assert_eq!(7u64, Value::U32(7).into_u64().unwrap());
    assert_eq!(7u64, Value::U64(7).into_u64().unwrap());
    assert_eq!(7u32, Value::U32(7).into_u32().unwrap());
    // The widening goes one way only.
    assert_eq!(
        ERR_UNKNOWN_TYPE as u64,
        Value::U64(7).into_u32().unwrap_err().code()
    );
}

#[test]
fn coercion_aliases_bytes_and_strings() {
    // A byte buffer coerced to a string request: the same bytes read as
    // UTF-8, including a multi-byte character.
    let euro = vec![0xe2, 0x82, 0xac];
    assert_eq!("€".to_string(), Value::Bytes(euro.clone()).into_string().unwrap());

    // A string coerced to a byte-buffer request: its exact UTF-8 bytes.
    assert_eq!(
        euro,
        Value::String("€".to_string()).into_bytes().unwrap()
    );

    // Printable ASCII round-trips exactly, both ways.
    let text = Value::String("round trip".to_string()).into_bytes().unwrap();
    assert_eq!(
        "round trip".to_string(),
        Value::Bytes(text).into_string().unwrap()
    );

    // Bytes that are not valid UTF-8 are refused, not passed through.
    assert_eq!(
        ERR_INVALID_UTF8 as u64,
        Value::Bytes(vec![0xff]).into_string().unwrap_err().code()
    );
}

#[test]
fn coercion_mismatch_codes() {
    assert_eq!(
        ERR_UNKNOWN_TYPE as u64,
        Value::String("x".to_string()).into_u64().unwrap_err().code()
    );
    // The optional u64 read chains one more context code.
    assert_eq!(
        0x0101,
        Value::String("x".to_string()).into_opt_u64().unwrap_err().code()
    );
    assert_eq!(
        ERR_UNKNOWN_TYPE as u64,
        Value::U32(1).into_bytes().unwrap_err().code()
    );
    assert_eq!(
        ERR_UNKNOWN_TYPE as u64,
        Value::U32(1).into_opt_string().unwrap_err().code()
    );
    assert_eq!(Some(vec![0x01]), Value::Bytes(vec![0x01]).into_opt_bytes().unwrap());
    assert_eq!(Some(5u64), Value::U32(5).into_opt_u64().unwrap());
}
