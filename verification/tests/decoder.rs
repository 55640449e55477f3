use logicaldecoding::decoder::decode_datum;
use logicaldecoding::decoder::decode_row_message;
use logicaldecoding::decoder::DecodeError;
use logicaldecoding::model::Datum;
use logicaldecoding::model::DatumValue;
use logicaldecoding::model::Op;
use logicaldecoding::model::RowMessage;
use logicaldecoding::wire::read_key;
use logicaldecoding::wire::read_len_delimited;
use logicaldecoding::wire::read_varint;
use logicaldecoding::wire::skip_value;

fn named(name: &str) -> Vec<u8> {
    let mut buf: Vec<u8> = Vec::new();
    prost::encoding::string::encode(1, &name.to_string(), &mut buf);
    prost::encoding::int64::encode(2, &25, &mut buf);
    buf
}

fn text_datum(name: &str, value: &str) -> Vec<u8> {
    let mut buf = named(name);
    prost::encoding::string::encode(8, &value.to_string(), &mut buf);
    buf
}

fn record(op: Option<i32>, xid: u32, commit_time: u64, table: &str, new: &[Vec<u8>], old: &[Vec<u8>]) -> Vec<u8> {
    let mut buf: Vec<u8> = Vec::new();
    prost::encoding::uint32::encode(1, &xid, &mut buf);
    prost::encoding::uint64::encode(2, &commit_time, &mut buf);
    prost::encoding::string::encode(3, &table.to_string(), &mut buf);
    if let Some(op) = op {
        prost::encoding::int32::encode(4, &op, &mut buf);
    }
    for datum in new {
        prost::encoding::bytes::encode(5, datum, &mut buf);
    }
    for datum in old {
        prost::encoding::bytes::encode(6, datum, &mut buf);
    }
    buf
}

#[test]
fn varint_single_and_multi_byte() {
    assert_eq!(read_varint(&[0x05], 0, 1), Some((5, 1)));
    assert_eq!(read_varint(&[0xac, 0x02], 0, 2), Some((300, 2)));
    assert_eq!(read_varint(&[0xff, 0xac, 0x02, 0xff], 1, 4), Some((300, 3)));
}

#[test]
fn varint_reads_what_prost_writes() {
    let values: [u64; 9] = [0, 1, 127, 128, 16_383, 16_384, 0xffff_ffff, 1 << 63, u64::MAX];
    for value in values {
        let mut buf: Vec<u8> = Vec::new();
        prost::encoding::encode_varint(value, &mut buf);
        assert_eq!(read_varint(&buf, 0, buf.len()), Some((value, buf.len())));
    }
}

#[test]
fn varint_rejects_truncation_and_overflow() {
    assert_eq!(read_varint(&[], 0, 0), None);
    assert_eq!(read_varint(&[0x80], 0, 1), None);
    assert_eq!(read_varint(&[0x80, 0x01], 0, 1), None);
    let too_large: [u8; 10] = [0xff, 0xff, 0xff, 0xff, 0xff, 0xff, 0xff, 0xff, 0xff, 0x02];
    assert_eq!(read_varint(&too_large, 0, 10), None);
    let too_long: [u8; 11] = [0x80, 0x80, 0x80, 0x80, 0x80, 0x80, 0x80, 0x80, 0x80, 0x80, 0x01];
    assert_eq!(read_varint(&too_long, 0, 11), None);
}

#[test]
fn key_splits_field_and_wire_type() {
    assert_eq!(read_key(&[0x08], 0, 1), Some((1, 0, 1)));
    assert_eq!(read_key(&[0x2a], 0, 1), Some((5, 2, 1)));
    assert_eq!(read_key(&[0x00], 0, 1), None);
    assert_eq!(read_key(&[0x0b], 0, 1), None);
    assert_eq!(read_key(&[0x0e], 0, 1), None);
}

#[test]
fn length_delimited_bounds_and_skips() {
    assert_eq!(read_len_delimited(&[0x02, 0xaa, 0xbb], 0, 3), Some((1, 3)));
    assert_eq!(read_len_delimited(&[0x03, 0xaa, 0xbb], 0, 3), None);
    assert_eq!(skip_value(&[0x02, 0xaa, 0xbb, 0xcc], 0, 4, 2), Some(3));
    assert_eq!(skip_value(&[0, 0, 0, 0, 0, 0, 0, 0], 0, 8, 1), Some(8));
    assert_eq!(skip_value(&[0, 0, 0, 0, 0, 0, 0], 0, 7, 1), None);
    assert_eq!(skip_value(&[0, 0, 0, 0], 0, 4, 5), Some(4));
    assert_eq!(skip_value(&[0x80, 0x01, 0x07], 0, 3, 0), Some(2));
}

#[test]
fn decodes_begin_record() {
    let payload = record(Some(3), 5, 100, "", &[], &[]);
    assert_eq!(
        decode_row_message(&payload),
        Ok(RowMessage {
            op: Op::Begin,
            transaction_id: 5,
            commit_time: 100,
            table: String::new(),
            new_tuple: vec![],
            old_tuple: vec![],
        })
    );
}

#[test]
fn decodes_insert_with_text_column() {
    let payload = record(Some(0), 7, 0, "public.t", &[text_datum("id", "a")], &[]);
    assert_eq!(
        decode_row_message(&payload),
        Ok(RowMessage {
            op: Op::Insert,
            transaction_id: 7,
            commit_time: 0,
            table: "public.t".to_string(),
            new_tuple: vec![Datum {
                column_name: "id".to_string(),
                value: DatumValue::Text("a".to_string()),
            }],
            old_tuple: vec![],
        })
    );
}

#[test]
fn decodes_every_kind_of_value() {
    let mut int32 = named("a");
    prost::encoding::int32::encode(3, &-7, &mut int32);
    let mut int64 = named("b");
    prost::encoding::int64::encode(4, &i64::MIN, &mut int64);
    let mut float = named("c");
    prost::encoding::float::encode(5, &1.5f32, &mut float);
    let mut double = named("d");
    prost::encoding::double::encode(6, &-2.25f64, &mut double);
    let mut boolean = named("e");
    prost::encoding::bool::encode(7, &true, &mut boolean);
    let mut bytes = named("f");
    prost::encoding::bytes::encode(9, &vec![0u8, 255u8, 128u8], &mut bytes);
    let text = text_datum("g", "grüße");
    let payload = record(Some(1), 1, 2, "t", &[int32, int64, float, double, boolean, bytes, text], &[]);
    let decoded = decode_row_message(&payload).unwrap();
    assert_eq!(decoded.op, Op::Update);
    let values: Vec<DatumValue> = decoded.new_tuple.iter().map(|d| d.value.clone()).collect();
    assert_eq!(
        values,
        vec![
            DatumValue::Int32(-7),
            DatumValue::Int64(i64::MIN),
            DatumValue::Float32Bits(1.5f32.to_bits()),
            DatumValue::Float64Bits((-2.25f64).to_bits()),
            DatumValue::Bool(true),
            DatumValue::Bytes(vec![0, 255, 128]),
            DatumValue::Text("grüße".to_string()),
        ]
    );
    let names: Vec<String> = decoded.new_tuple.iter().map(|d| d.column_name.clone()).collect();
    assert_eq!(names, vec!["a", "b", "c", "d", "e", "f", "g"]);
}

#[test]
fn null_is_not_the_empty_string() {
    let null = decode_datum(&named("n"), 0, named("n").len()).unwrap();
    assert_eq!(null, Datum { column_name: "n".to_string(), value: DatumValue::Null });
    let empty_bytes = text_datum("n", "");
    let empty = decode_datum(&empty_bytes, 0, empty_bytes.len()).unwrap();
    assert_eq!(empty, Datum { column_name: "n".to_string(), value: DatumValue::Text(String::new()) });
    assert_ne!(null, empty);
}

#[test]
fn delete_carries_the_old_tuple() {
    let payload = record(Some(2), 0, 0, "t", &[], &[text_datum("id", "x")]);
    let decoded = decode_row_message(&payload).unwrap();
    assert_eq!(decoded.op, Op::Delete);
    assert!(decoded.new_tuple.is_empty());
    assert_eq!(decoded.old_tuple.len(), 1);
}

#[test]
fn operation_minus_one_is_unknown() {
    let payload = record(Some(-1), 0, 0, "t", &[text_datum("id", "x")], &[]);
    assert_eq!(decode_row_message(&payload).unwrap().op, Op::Unknown);
}

#[test]
fn rejects_operation_outside_the_known_set() {
    let payload = record(Some(5), 0, 0, "t", &[text_datum("id", "x")], &[]);
    assert_eq!(decode_row_message(&payload), Err(DecodeError::UnknownOperation));
    let payload = record(Some(-2), 0, 0, "t", &[text_datum("id", "x")], &[]);
    assert_eq!(decode_row_message(&payload), Err(DecodeError::UnknownOperation));
}

#[test]
fn rejects_record_without_operation() {
    let payload = record(None, 1, 2, "t", &[text_datum("id", "x")], &[]);
    assert_eq!(decode_row_message(&payload), Err(DecodeError::MissingOperation));
    assert_eq!(decode_row_message(&[]), Err(DecodeError::MissingOperation));
}

#[test]
fn rejects_data_record_without_columns() {
    assert_eq!(decode_row_message(&record(Some(0), 1, 2, "t", &[], &[])), Err(DecodeError::NoColumns));
    assert_eq!(decode_row_message(&record(Some(-1), 1, 2, "t", &[], &[])), Err(DecodeError::NoColumns));
    assert!(decode_row_message(&record(Some(4), 1, 2, "", &[], &[])).is_ok());
}

#[test]
fn rejects_duplicate_column_names() {
    let payload = record(Some(0), 1, 2, "t", &[text_datum("id", "a"), text_datum("id", "b")], &[]);
    assert_eq!(decode_row_message(&payload), Err(DecodeError::DuplicateColumn));
    let payload = record(Some(1), 1, 2, "t", &[text_datum("id", "a")], &[text_datum("id", "b")]);
    assert!(decode_row_message(&payload).is_ok());
}

#[test]
fn rejects_unsupported_values() {
    let mut point = named("p");
    prost::encoding::bytes::encode(10, &vec![0u8; 18], &mut point);
    assert_eq!(decode_datum(&point, 0, point.len()), Err(DecodeError::UnsupportedValue));
    let mut missing = named("m");
    prost::encoding::bool::encode(11, &true, &mut missing);
    let payload = record(Some(1), 1, 2, "t", &[missing], &[]);
    assert_eq!(decode_row_message(&payload), Err(DecodeError::UnsupportedValue));
}

#[test]
fn rejects_malformed_payloads() {
    let good = record(Some(0), 7, 0, "public.t", &[text_datum("id", "a")], &[]);
    assert_eq!(decode_row_message(&good[..good.len() - 1]), Err(DecodeError::Malformed));
    let mut wrong_wire_type: Vec<u8> = Vec::new();
    prost::encoding::string::encode(1, &"x".to_string(), &mut wrong_wire_type);
    assert_eq!(decode_row_message(&wrong_wire_type), Err(DecodeError::Malformed));
    let mut not_utf8: Vec<u8> = Vec::new();
    prost::encoding::bytes::encode(3, &vec![0xffu8, 0xfeu8], &mut not_utf8);
    prost::encoding::int32::encode(4, &3, &mut not_utf8);
    assert_eq!(decode_row_message(&not_utf8), Err(DecodeError::Malformed));
}

#[test]
fn unknown_fields_are_stepped_over() {
    let mut payload: Vec<u8> = Vec::new();
    prost::encoding::bytes::encode(7, &vec![1u8, 2u8, 3u8], &mut payload);
    prost::encoding::uint64::encode(99, &12345, &mut payload);
    prost::encoding::fixed32::encode(100, &1, &mut payload);
    prost::encoding::fixed64::encode(101, &1, &mut payload);
    payload.extend_from_slice(&record(Some(3), 9, 10, "", &[], &[]));
    let decoded = decode_row_message(&payload).unwrap();
    assert_eq!((decoded.op, decoded.transaction_id, decoded.commit_time), (Op::Begin, 9, 10));
}

#[test]
fn later_occurrence_of_a_field_wins() {
    let mut payload = record(Some(3), 9, 10, "", &[], &[]);
    prost::encoding::uint32::encode(1, &11, &mut payload);
    let decoded = decode_row_message(&payload).unwrap();
    assert_eq!(decoded.transaction_id, 11);
    let mut datum = text_datum("c", "first");
    prost::encoding::int32::encode(3, &4, &mut datum);
    assert_eq!(decode_datum(&datum, 0, datum.len()).unwrap().value, DatumValue::Int32(4));
}

#[test]
fn transaction_id_keeps_the_low_32_bits() {
    let mut payload: Vec<u8> = Vec::new();
    prost::encoding::uint64::encode(1, &0x1_0000_0007, &mut payload);
    prost::encoding::int32::encode(4, &3, &mut payload);
    assert_eq!(decode_row_message(&payload).unwrap().transaction_id, 7);
}
