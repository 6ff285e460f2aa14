use lunatic_distributed::value::{
    decode_params, decode_record, encode_params, encode_val, DecodeError, Val, RECORD_LEN,
};

fn record(tag: u8, payload: u128) -> Vec<u8> {
    let mut bytes = vec![tag];
    bytes.extend_from_slice(&payload.to_le_bytes());
    bytes
}

#[test]
fn decode_reads_three_kinds() {
    let mut bytes = record(0x7F, 5);
    bytes.extend(record(0x7E, (-2i64) as u64 as u128));
    bytes.extend(record(0x7B, u128::MAX));
    assert_eq!(
        decode_params(&bytes),
        Ok(vec![Val::I32(5), Val::I64(-2), Val::V128(u128::MAX)])
    );
}

#[test]
fn decode_rejects_unknown_tag() {
    let mut bytes = record(0x7F, 5);
    bytes.extend(record(0x00, 7));
    assert_eq!(decode_params(&bytes), Err(DecodeError::UnsupportedType));
}

#[test]
fn decode_rejects_unknown_tag_before_good_records() {
    let mut bytes = record(0x7D, 5);
    bytes.extend(record(0x7F, 7));
    assert_eq!(decode_params(&bytes), Err(DecodeError::UnsupportedType));
}

#[test]
fn decode_of_nothing_is_nothing() {
    assert_eq!(decode_params(&[]), Ok(vec![]));
}

#[test]
fn decode_ignores_a_trailing_partial_record() {
    let mut bytes = record(0x7F, 9);
    bytes.extend_from_slice(&[0x00, 1, 2, 3]);
    assert_eq!(decode_params(&bytes), Ok(vec![Val::I32(9)]));
    assert_eq!(decode_params(&[0x00; 16]), Ok(vec![]));
}

#[test]
fn decode_cuts_the_payload_to_the_width_of_the_type() {
    let payload: u128 = (0xAAu128 << 64) | 0xFFFF_FFFF_0000_0001;
    assert_eq!(decode_record(&record(0x7F, payload)), Ok(Val::I32(1)));
    assert_eq!(
        decode_record(&record(0x7E, payload)),
        Ok(Val::I64(0xFFFF_FFFF_0000_0001u64 as i64))
    );
    assert_eq!(decode_record(&record(0x7B, payload)), Ok(Val::V128(payload)));
    assert_eq!(decode_record(&record(0x7C, payload)), Err(DecodeError::UnsupportedType));
}

#[test]
fn encode_writes_tag_then_little_endian_payload() {
    let mut out = vec![0xEE];
    encode_val(&Val::I32(-2), &mut out);
    assert_eq!(
        out,
        vec![0xEE, 0x7F, 0xFE, 0xFF, 0xFF, 0xFF, 0, 0, 0, 0, 0, 0, 0, 0, 0, 0, 0, 0]
    );
    assert_eq!(
        encode_params(&[Val::I64(0x0102)]),
        vec![0x7E, 0x02, 0x01, 0, 0, 0, 0, 0, 0, 0, 0, 0, 0, 0, 0, 0, 0]
    );
    assert_eq!(encode_params(&[Val::V128(1 << 120)])[16], 1);
    assert_eq!(encode_params(&[Val::V128(1 << 120)])[0], 0x7B);
}

#[test]
fn tag_and_payload_of_each_kind() {
    assert_eq!(Val::I32(-1).tag(), 0x7F);
    assert_eq!(Val::I64(-1).tag(), 0x7E);
    assert_eq!(Val::V128(3).tag(), 0x7B);
    assert_eq!(Val::I32(-1).payload(), 0xFFFF_FFFF);
    assert_eq!(Val::I64(-1).payload(), 0xFFFF_FFFF_FFFF_FFFF);
    assert_eq!(Val::V128(3).payload(), 3);
}

#[test]
fn encode_then_decode_gives_the_values() {
    let vals = vec![
        Val::I32(-1),
        Val::I64(i64::MIN),
        Val::V128(1 << 100),
        Val::I32(i32::MAX),
        Val::I32(i32::MIN),
        Val::I64(0),
    ];
    let bytes = encode_params(&vals);
    assert_eq!(bytes.len(), RECORD_LEN * vals.len());
    assert_eq!(decode_params(&bytes), Ok(vals));
    assert_eq!(encode_params(&[]), Vec::<u8>::new());
}
