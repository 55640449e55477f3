//! Decoder for change records.
//!
//! A change record is a sequence of fields in the encoding of [`crate::wire`].
//! Its schema:
//!
//! | field | wire type | meaning                                              |
//! |-------|-----------|------------------------------------------------------|
//! | 1     | 0         | transaction id, the low 32 bits of the integer        |
//! | 2     | 0         | commit time                                          |
//! | 3     | 2         | table name, UTF-8                                    |
//! | 4     | 0         | operation: -1 unknown, 0 insert, 1 update, 2 delete, 3 begin, 4 commit |
//! | 5     | 2         | one column of the new tuple, itself a record          |
//! | 6     | 2         | one column of the old tuple, itself a record          |
//!
//! and that of a column:
//!
//! | field | wire type | meaning                                   |
//! |-------|-----------|-------------------------------------------|
//! | 1     | 2         | column name, UTF-8                        |
//! | 3     | 0         | 32-bit integer value                      |
//! | 4     | 0         | 64-bit integer value                      |
//! | 5     | 5         | single precision value, as its bits       |
//! | 6     | 1         | double precision value, as its bits       |
//! | 7     | 0         | boolean value, true unless zero           |
//! | 8     | 2         | text value, UTF-8                         |
//! | 9     | 2         | byte string value                         |
//! | 10    |           | geometric point: not supported            |
//! | 11    |           | value left out by the server: not supported |
//!
//! A column that carries none of the value fields is SQL NULL. Where a field
//! that holds a single value occurs again, the later occurrence replaces the
//! earlier. Fields with other numbers are stepped over.
use crate::model::distinct_columns;
use crate::model::lemma_tuple_view_push;
use crate::model::tuple_view;
use crate::model::Datum;
use crate::model::DatumValue;
use crate::model::DatumValueView;
use crate::model::DatumView;
use crate::model::Op;
use crate::model::RowMessage;
use crate::model::RowMessageView;
use crate::wire::read_fixed32;
use crate::wire::read_fixed64;
use crate::wire::read_key;
use crate::wire::read_len_delimited;
use crate::wire::read_varint;
use crate::wire::skip_value;
use crate::wire::spec_fixed32;
use crate::wire::spec_fixed64;
use crate::wire::spec_key;
use crate::wire::spec_len_delimited;
use crate::wire::spec_skip;
use crate::wire::spec_varint;
use crate::wire::WIRE_FIXED32;
use crate::wire::WIRE_FIXED64;
use crate::wire::WIRE_LEN;
use crate::wire::WIRE_VARINT;
use vstd::prelude::*;
use vstd::slice::slice_subrange;
use vstd::slice::slice_to_vec;
use vstd::utf8::decode_utf8;
use vstd::utf8::valid_utf8;

verus! {

/// Field number of the transaction id in a record.
pub const ROW_TRANSACTION_ID: u32 = 1;

/// Field number of the commit time in a record.
pub const ROW_COMMIT_TIME: u32 = 2;

/// Field number of the table name in a record.
pub const ROW_TABLE: u32 = 3;

/// Field number of the operation in a record.
pub const ROW_OP: u32 = 4;

/// Field number of a column of the new tuple in a record.
pub const ROW_NEW_TUPLE: u32 = 5;

/// Field number of a column of the old tuple in a record.
pub const ROW_OLD_TUPLE: u32 = 6;

/// Field number of the name in a column.
pub const DATUM_COLUMN_NAME: u32 = 1;

/// Field number of a 32-bit integer value in a column.
pub const DATUM_INT32: u32 = 3;

/// Field number of a 64-bit integer value in a column.
pub const DATUM_INT64: u32 = 4;

/// Field number of a single precision value in a column.
pub const DATUM_FLOAT: u32 = 5;

/// Field number of a double precision value in a column.
pub const DATUM_DOUBLE: u32 = 6;

/// Field number of a boolean value in a column.
pub const DATUM_BOOL: u32 = 7;

/// Field number of a text value in a column.
pub const DATUM_STRING: u32 = 8;

/// Field number of a byte string value in a column.
pub const DATUM_BYTES: u32 = 9;

/// Field number of a geometric point in a column.
pub const DATUM_POINT: u32 = 10;

/// Field number of the mark for a value that the server left out.
pub const DATUM_MISSING: u32 = 11;

/// Why a payload is not a change record.
#[derive(Clone, Copy, Debug, PartialEq, Eq, Structural)]
pub enum DecodeError {
    /// The bytes do not follow the encoding: a broken integer or key, a value
    /// that runs past the end, a field with the wrong wire type, or text that
    /// is not UTF-8.
    Malformed,
    /// A column holds a kind of value that this decoder does not support.
    UnsupportedValue,
    /// The record names no operation.
    MissingOperation,
    /// The record names an operation outside the known set.
    UnknownOperation,
    /// The record is neither Begin nor Commit and has no column in either tuple.
    NoColumns,
    /// Two columns of one tuple bear the same name.
    DuplicateColumn,
}

/// The low 32 bits of `v`.
pub open spec fn low32(v: u64) -> u32 {
    (v % 0x1_0000_0000) as u32
}

/// The signed integer whose two's complement representation is `bits`.
pub open spec fn signed32(bits: u32) -> i32 {
    if bits >= 0x8000_0000 {
        (bits - 0x1_0000_0000) as i32
    } else {
        bits as i32
    }
}

/// The signed integer whose two's complement representation is `bits`.
pub open spec fn signed64(bits: u64) -> i64 {
    if bits >= 0x8000_0000_0000_0000 {
        (bits - 0x1_0000_0000_0000_0000) as i64
    } else {
        bits as i64
    }
}

/// The text that the bytes `start..stop` of `s` encode, if they are UTF-8.
pub open spec fn spec_text(s: Seq<u8>, start: int, stop: int) -> Option<Seq<char>> {
    let raw = s.subrange(start, stop);
    if valid_utf8(raw) {
        Some(decode_utf8(raw))
    } else {
        None
    }
}

/// Whether `field` holds the value of a column.
pub open spec fn is_value_field(field: u32) -> bool {
    DATUM_INT32 <= field <= DATUM_BYTES
}

/// The value that the value field `field` holds at `pos`, and the position
/// after it.
pub open spec fn spec_datum_value(s: Seq<u8>, pos: int, end: int, field: u32, wire_type: u8) -> Result<
    (DatumValueView, int),
    DecodeError,
> {
    if field == DATUM_INT32 || field == DATUM_INT64 || field == DATUM_BOOL {
        if wire_type != WIRE_VARINT {
            Err(DecodeError::Malformed)
        } else {
            match spec_varint(s, pos, end) {
                None => Err(DecodeError::Malformed),
                Some((v, next)) => {
                    if field == DATUM_INT32 {
                        Ok((DatumValueView::Int32(signed32(low32(v))), next))
                    } else if field == DATUM_INT64 {
                        Ok((DatumValueView::Int64(signed64(v)), next))
                    } else {
                        Ok((DatumValueView::Bool(v != 0), next))
                    }
                },
            }
        }
    } else if field == DATUM_FLOAT {
        if wire_type != WIRE_FIXED32 {
            Err(DecodeError::Malformed)
        } else {
            match spec_fixed32(s, pos, end) {
                None => Err(DecodeError::Malformed),
                Some((bits, next)) => Ok((DatumValueView::Float32Bits(bits), next)),
            }
        }
    } else if field == DATUM_DOUBLE {
        if wire_type != WIRE_FIXED64 {
            Err(DecodeError::Malformed)
        } else {
            match spec_fixed64(s, pos, end) {
                None => Err(DecodeError::Malformed),
                Some((bits, next)) => Ok((DatumValueView::Float64Bits(bits), next)),
            }
        }
    } else {
        if wire_type != WIRE_LEN {
            Err(DecodeError::Malformed)
        } else {
            match spec_len_delimited(s, pos, end) {
                None => Err(DecodeError::Malformed),
                Some((start, stop)) => {
                    if field == DATUM_STRING {
                        match spec_text(s, start, stop) {
                            None => Err(DecodeError::Malformed),
                            Some(text) => Ok((DatumValueView::Text(text), stop)),
                        }
                    } else {
                        Ok((DatumValueView::Bytes(s.subrange(start, stop)), stop))
                    }
                },
            }
        }
    }
}

/// The column `acc` after the field `field` whose value starts at `pos`, and
/// the position after that value.
pub open spec fn spec_datum_field(
    s: Seq<u8>,
    pos: int,
    end: int,
    field: u32,
    wire_type: u8,
    acc: DatumView,
) -> Result<(DatumView, int), DecodeError> {
    if field == DATUM_COLUMN_NAME {
        if wire_type != WIRE_LEN {
            Err(DecodeError::Malformed)
        } else {
            match spec_len_delimited(s, pos, end) {
                None => Err(DecodeError::Malformed),
                Some((start, stop)) => match spec_text(s, start, stop) {
                    None => Err(DecodeError::Malformed),
                    Some(name) => Ok((DatumView { column_name: name, value: acc.value }, stop)),
                },
            }
        }
    } else if is_value_field(field) {
        match spec_datum_value(s, pos, end, field, wire_type) {
            Err(e) => Err(e),
            Ok((value, next)) => Ok((DatumView { column_name: acc.column_name, value }, next)),
        }
    } else if field == DATUM_POINT || field == DATUM_MISSING {
        Err(DecodeError::UnsupportedValue)
    } else {
        match spec_skip(s, pos, end, wire_type) {
            None => Err(DecodeError::Malformed),
            Some(next) => Ok((acc, next)),
        }
    }
}

/// The column `acc` after all the fields in `pos..end`.
pub open spec fn spec_datum_fields(s: Seq<u8>, pos: int, end: int, acc: DatumView) -> Result<
    DatumView,
    DecodeError,
>
    decreases end - pos,
{
    if pos >= end {
        Ok(acc)
    } else {
        match spec_key(s, pos, end) {
            None => Err(DecodeError::Malformed),
            Some((field, wire_type, value_pos)) => match spec_datum_field(
                s,
                value_pos,
                end,
                field,
                wire_type,
                acc,
            ) {
                Err(e) => Err(e),
                Ok((acc2, next)) => {
                    if pos < next <= end {
                        spec_datum_fields(s, next, end, acc2)
                    } else {
                        Err(DecodeError::Malformed)
                    }
                },
            },
        }
    }
}

/// A column before any field is read: no name, SQL NULL.
pub open spec fn empty_datum() -> DatumView {
    DatumView { column_name: Seq::empty(), value: DatumValueView::Null }
}

/// The column that the bytes `start..end` of `s` encode.
pub open spec fn spec_datum(s: Seq<u8>, start: int, end: int) -> Result<DatumView, DecodeError> {
    spec_datum_fields(s, start, end, empty_datum())
}

/// `String::from_utf8`: the text that the bytes encode, exactly when they are
/// well-formed UTF-8.
#[verifier::external_body]
fn string_from_utf8(raw: Vec<u8>) -> (r: Option<String>)
    ensures
        match r {
            Some(text) => valid_utf8(raw@) && text@ == decode_utf8(raw@),
            None => !valid_utf8(raw@),
        },
{
    match String::from_utf8(raw) {
        Ok(text) => Some(text),
        Err(_) => None,
    }
}

/// Reads the bytes `start..stop` as text.
pub fn read_text(bytes: &[u8], start: usize, stop: usize) -> (r: Option<String>)
    requires
        start <= stop <= bytes@.len(),
    ensures
        match r {
            Some(text) => spec_text(bytes@, start as int, stop as int) == Some(text@),
            None => spec_text(bytes@, start as int, stop as int) is None,
        },
{
    let raw = slice_to_vec(slice_subrange(bytes, start, stop));
    string_from_utf8(raw)
}

/// Reinterprets the low 32 bits of `v` as a signed integer.
pub fn to_signed32(v: u64) -> (r: i32)
    ensures
        r == signed32(low32(v)),
{
    let bits: u64 = v % 0x1_0000_0000;
    if bits >= 0x8000_0000 {
        ((bits as i64) - 0x1_0000_0000) as i32
    } else {
        bits as i32
    }
}

/// Reinterprets `v` as a signed integer.
pub fn to_signed64(v: u64) -> (r: i64)
    ensures
        r == signed64(v),
{
    if v >= 0x8000_0000_0000_0000 {
        ((v - 0x8000_0000_0000_0000) as i64) + i64::MIN
    } else {
        v as i64
    }
}

/// Reads the value of the value field `field` that starts at `pos`.
fn read_datum_value(bytes: &[u8], pos: usize, end: usize, field: u32, wire_type: u8) -> (r:
    Result<(DatumValue, usize), DecodeError>)
    requires
        pos <= end <= bytes@.len(),
        is_value_field(field),
    ensures
        match r {
            Ok((value, next)) => spec_datum_value(bytes@, pos as int, end as int, field, wire_type)
                == Ok::<(DatumValueView, int), DecodeError>((value@, next as int)) && pos < next
                <= end,
            Err(e) => spec_datum_value(bytes@, pos as int, end as int, field, wire_type) == Err::<
                (DatumValueView, int),
                DecodeError,
            >(e),
        },
{
    if field == DATUM_INT32 || field == DATUM_INT64 || field == DATUM_BOOL {
        if wire_type != WIRE_VARINT {
            return Err(DecodeError::Malformed);
        }
        match read_varint(bytes, pos, end) {
            None => Err(DecodeError::Malformed),
            Some((v, next)) => {
                if field == DATUM_INT32 {
                    Ok((DatumValue::Int32(to_signed32(v)), next))
                } else if field == DATUM_INT64 {
                    Ok((DatumValue::Int64(to_signed64(v)), next))
                } else {
                    Ok((DatumValue::Bool(v != 0), next))
                }
            },
        }
    } else if field == DATUM_FLOAT {
        if wire_type != WIRE_FIXED32 {
            return Err(DecodeError::Malformed);
        }
        match read_fixed32(bytes, pos, end) {
            None => Err(DecodeError::Malformed),
            Some((bits, next)) => Ok((DatumValue::Float32Bits(bits), next)),
        }
    } else if field == DATUM_DOUBLE {
        if wire_type != WIRE_FIXED64 {
            return Err(DecodeError::Malformed);
        }
        match read_fixed64(bytes, pos, end) {
            None => Err(DecodeError::Malformed),
            Some((bits, next)) => Ok((DatumValue::Float64Bits(bits), next)),
        }
    } else {
        if wire_type != WIRE_LEN {
            return Err(DecodeError::Malformed);
        }
        match read_len_delimited(bytes, pos, end) {
            None => Err(DecodeError::Malformed),
            Some((start, stop)) => {
                if field == DATUM_STRING {
                    match read_text(bytes, start, stop) {
                        None => Err(DecodeError::Malformed),
                        Some(text) => Ok((DatumValue::Text(text), stop)),
                    }
                } else {
                    let raw = slice_to_vec(slice_subrange(bytes, start, stop));
                    Ok((DatumValue::Bytes(raw), stop))
                }
            },
        }
    }
}

/// Decodes the column that the bytes `start..end` encode.
pub fn decode_datum(bytes: &[u8], start: usize, end: usize) -> (r: Result<Datum, DecodeError>)
    requires
        start <= end <= bytes@.len(),
    ensures
        match r {
            Ok(datum) => spec_datum(bytes@, start as int, end as int) == Ok::<DatumView, DecodeError>(
                datum@,
            ),
            Err(e) => spec_datum(bytes@, start as int, end as int) == Err::<DatumView, DecodeError>(
                e,
            ),
        },
{
    let mut column_name = String::new();
    let mut value = DatumValue::Null;
    let mut pos = start;
    while pos < end
        invariant
            start <= pos <= end <= bytes@.len(),
            spec_datum(bytes@, start as int, end as int) == spec_datum_fields(
                bytes@,
                pos as int,
                end as int,
                DatumView { column_name: column_name@, value: value@ },
            ),
        decreases end - pos,
    {
        let (field, wire_type, value_pos) = match read_key(bytes, pos, end) {
            None => {
                return Err(DecodeError::Malformed);
            },
            Some(key) => key,
        };
        if field == DATUM_COLUMN_NAME {
            if wire_type != WIRE_LEN {
                return Err(DecodeError::Malformed);
            }
            let (text_start, text_stop) = match read_len_delimited(bytes, value_pos, end) {
                None => {
                    return Err(DecodeError::Malformed);
                },
                Some(bounds) => bounds,
            };
            match read_text(bytes, text_start, text_stop) {
                None => {
                    return Err(DecodeError::Malformed);
                },
                Some(name) => {
                    column_name = name;
                },
            }
            pos = text_stop;
        } else if DATUM_INT32 <= field && field <= DATUM_BYTES {
            match read_datum_value(bytes, value_pos, end, field, wire_type) {
                Err(e) => {
                    return Err(e);
                },
                Ok((v, next)) => {
                    value = v;
                    pos = next;
                },
            }
        } else if field == DATUM_POINT || field == DATUM_MISSING {
            return Err(DecodeError::UnsupportedValue);
        } else {
            match skip_value(bytes, value_pos, end, wire_type) {
                None => {
                    return Err(DecodeError::Malformed);
                },
                Some(next) => {
                    pos = next;
                },
            }
        }
    }
    Ok(Datum { column_name, value })
}

/// The fields of a record, gathered while its bytes are read.
pub struct RowFields {
    pub transaction_id: u32,
    pub commit_time: u64,
    pub table: String,
    /// The operation as it was encoded, if the record named one.
    pub op_bits: Option<u32>,
    pub new_tuple: Vec<Datum>,
    pub old_tuple: Vec<Datum>,
}

/// Model of [`RowFields`].
pub struct RowFieldsView {
    pub transaction_id: u32,
    pub commit_time: u64,
    pub table: Seq<char>,
    pub op_bits: Option<u32>,
    pub new_tuple: Seq<DatumView>,
    pub old_tuple: Seq<DatumView>,
}

impl View for RowFields {
    type V = RowFieldsView;

    open spec fn view(&self) -> RowFieldsView {
        RowFieldsView {
            transaction_id: self.transaction_id,
            commit_time: self.commit_time,
            table: self.table@,
            op_bits: self.op_bits,
            new_tuple: tuple_view(self.new_tuple@),
            old_tuple: tuple_view(self.old_tuple@),
        }
    }
}

/// The fields of a record before any is read.
pub open spec fn empty_row() -> RowFieldsView {
    RowFieldsView {
        transaction_id: 0,
        commit_time: 0,
        table: Seq::empty(),
        op_bits: None,
        new_tuple: Seq::empty(),
        old_tuple: Seq::empty(),
    }
}

/// The fields `acc` after the field `field` whose value starts at `pos`, and
/// the position after that value.
pub open spec fn spec_row_field(
    s: Seq<u8>,
    pos: int,
    end: int,
    field: u32,
    wire_type: u8,
    acc: RowFieldsView,
) -> Result<(RowFieldsView, int), DecodeError> {
    if field == ROW_TRANSACTION_ID || field == ROW_COMMIT_TIME || field == ROW_OP {
        if wire_type != WIRE_VARINT {
            Err(DecodeError::Malformed)
        } else {
            match spec_varint(s, pos, end) {
                None => Err(DecodeError::Malformed),
                Some((v, next)) => {
                    if field == ROW_TRANSACTION_ID {
                        Ok((RowFieldsView { transaction_id: low32(v), ..acc }, next))
                    } else if field == ROW_COMMIT_TIME {
                        Ok((RowFieldsView { commit_time: v, ..acc }, next))
                    } else {
                        Ok((RowFieldsView { op_bits: Some(low32(v)), ..acc }, next))
                    }
                },
            }
        }
    } else if field == ROW_TABLE || field == ROW_NEW_TUPLE || field == ROW_OLD_TUPLE {
        if wire_type != WIRE_LEN {
            Err(DecodeError::Malformed)
        } else {
            match spec_len_delimited(s, pos, end) {
                None => Err(DecodeError::Malformed),
                Some((start, stop)) => {
                    if field == ROW_TABLE {
                        match spec_text(s, start, stop) {
                            None => Err(DecodeError::Malformed),
                            Some(table) => Ok((RowFieldsView { table, ..acc }, stop)),
                        }
                    } else {
                        match spec_datum(s, start, stop) {
                            Err(e) => Err(e),
                            Ok(datum) => {
                                if field == ROW_NEW_TUPLE {
                                    Ok(
                                        (
                                            RowFieldsView {
                                                new_tuple: acc.new_tuple.push(datum),
                                                ..acc
                                            },
                                            stop,
                                        ),
                                    )
                                } else {
                                    Ok(
                                        (
                                            RowFieldsView {
                                                old_tuple: acc.old_tuple.push(datum),
                                                ..acc
                                            },
                                            stop,
                                        ),
                                    )
                                }
                            },
                        }
                    }
                },
            }
        }
    } else {
        match spec_skip(s, pos, end, wire_type) {
            None => Err(DecodeError::Malformed),
            Some(next) => Ok((acc, next)),
        }
    }
}

/// The fields `acc` after all the fields in `pos..end`.
pub open spec fn spec_row_fields(s: Seq<u8>, pos: int, end: int, acc: RowFieldsView) -> Result<
    RowFieldsView,
    DecodeError,
>
    decreases end - pos,
{
    if pos >= end {
        Ok(acc)
    } else {
        match spec_key(s, pos, end) {
            None => Err(DecodeError::Malformed),
            Some((field, wire_type, value_pos)) => match spec_row_field(
                s,
                value_pos,
                end,
                field,
                wire_type,
                acc,
            ) {
                Err(e) => Err(e),
                Ok((acc2, next)) => {
                    if pos < next <= end {
                        spec_row_fields(s, next, end, acc2)
                    } else {
                        Err(DecodeError::Malformed)
                    }
                },
            },
        }
    }
}

/// The operation that an encoded value names: the numbers 0 to 4, and -1 in
/// two's complement.
pub open spec fn spec_op(bits: u32) -> Option<Op> {
    if bits == 0 {
        Some(Op::Insert)
    } else if bits == 1 {
        Some(Op::Update)
    } else if bits == 2 {
        Some(Op::Delete)
    } else if bits == 3 {
        Some(Op::Begin)
    } else if bits == 4 {
        Some(Op::Commit)
    } else if bits == 0xffff_ffff {
        Some(Op::Unknown)
    } else {
        None
    }
}

/// The record that gathered fields make, or why they make none.
///
/// A record must name a known operation. One that is neither Begin nor Commit
/// must carry at least one column. No tuple may name a column twice.
pub open spec fn spec_finish_row(fields: RowFieldsView) -> Result<RowMessageView, DecodeError> {
    match fields.op_bits {
        None => Err(DecodeError::MissingOperation),
        Some(bits) => match spec_op(bits) {
            None => Err(DecodeError::UnknownOperation),
            Some(op) => {
                if !op.is_boundary() && fields.new_tuple.len() == 0 && fields.old_tuple.len() == 0 {
                    Err(DecodeError::NoColumns)
                } else if !distinct_columns(fields.new_tuple) || !distinct_columns(
                    fields.old_tuple,
                ) {
                    Err(DecodeError::DuplicateColumn)
                } else {
                    Ok(
                        RowMessageView {
                            op,
                            transaction_id: fields.transaction_id,
                            commit_time: fields.commit_time,
                            table: fields.table,
                            new_tuple: fields.new_tuple,
                            old_tuple: fields.old_tuple,
                        },
                    )
                }
            },
        },
    }
}

/// The record that a payload encodes, or why it encodes none.
pub open spec fn spec_decode_row_message(s: Seq<u8>) -> Result<RowMessageView, DecodeError> {
    match spec_row_fields(s, 0, s.len() as int, empty_row()) {
        Err(e) => Err(e),
        Ok(fields) => spec_finish_row(fields),
    }
}

/// What holds of every record that the decoder lets through.
pub open spec fn record_well_formed(record: RowMessageView) -> bool {
    &&& distinct_columns(record.new_tuple)
    &&& distinct_columns(record.old_tuple)
    &&& record.op.is_boundary() || record.new_tuple.len() > 0 || record.old_tuple.len() > 0
}

/// Every decoded record is well formed.
pub proof fn lemma_decoded_record_well_formed(s: Seq<u8>)
    ensures
        spec_decode_row_message(s) matches Ok(record) ==> record_well_formed(record),
{
}

/// Names the operation that an encoded value stands for.
pub fn op_from_bits(bits: u32) -> (r: Option<Op>)
    ensures
        r == spec_op(bits),
{
    if bits == 0 {
        Some(Op::Insert)
    } else if bits == 1 {
        Some(Op::Update)
    } else if bits == 2 {
        Some(Op::Delete)
    } else if bits == 3 {
        Some(Op::Begin)
    } else if bits == 4 {
        Some(Op::Commit)
    } else if bits == 0xffff_ffff {
        Some(Op::Unknown)
    } else {
        None
    }
}

/// Tells whether no two columns of the tuple bear the same name.
pub fn has_distinct_columns(tuple: &Vec<Datum>) -> (r: bool)
    ensures
        r == distinct_columns(tuple_view(tuple@)),
{
    let ghost names = tuple_view(tuple@);
    let mut j: usize = 0;
    while j < tuple.len()
        invariant
            j <= tuple@.len(),
            names == tuple_view(tuple@),
            forall|a: int, b: int|
                0 <= a < b < j ==> (#[trigger] names[a]).column_name != (
                #[trigger] names[b]).column_name,
        decreases tuple@.len() - j,
    {
        let mut i: usize = 0;
        while i < j
            invariant
                i <= j < tuple@.len(),
                names == tuple_view(tuple@),
                forall|a: int| 0 <= a < i ==> (#[trigger] names[a]).column_name != names[j as int].column_name,
            decreases j - i,
        {
            if tuple[i].column_name == tuple[j].column_name {
                assert(names[i as int].column_name == names[j as int].column_name);
                return false;
            }
            i = i + 1;
        }
        j = j + 1;
    }
    true
}

/// Makes a record of gathered fields, or says why they make none.
pub fn finish_row(fields: RowFields) -> (r: Result<RowMessage, DecodeError>)
    ensures
        match r {
            Ok(record) => spec_finish_row(fields@) == Ok::<RowMessageView, DecodeError>(record@),
            Err(e) => spec_finish_row(fields@) == Err::<RowMessageView, DecodeError>(e),
        },
{
    let bits = match fields.op_bits {
        None => {
            return Err(DecodeError::MissingOperation);
        },
        Some(bits) => bits,
    };
    let op = match op_from_bits(bits) {
        None => {
            return Err(DecodeError::UnknownOperation);
        },
        Some(op) => op,
    };
    let boundary = match op {
        Op::Begin => true,
        Op::Commit => true,
        _ => false,
    };
    if !boundary && fields.new_tuple.len() == 0 && fields.old_tuple.len() == 0 {
        return Err(DecodeError::NoColumns);
    }
    if !has_distinct_columns(&fields.new_tuple) || !has_distinct_columns(&fields.old_tuple) {
        return Err(DecodeError::DuplicateColumn);
    }
    Ok(
        RowMessage {
            op,
            transaction_id: fields.transaction_id,
            commit_time: fields.commit_time,
            table: fields.table,
            new_tuple: fields.new_tuple,
            old_tuple: fields.old_tuple,
        },
    )
}

/// Decodes the payload of a change-data frame into a record.
pub fn decode_row_message(payload: &[u8]) -> (r: Result<RowMessage, DecodeError>)
    ensures
        match r {
            Ok(record) => spec_decode_row_message(payload@) == Ok::<RowMessageView, DecodeError>(
                record@,
            ),
            Err(e) => spec_decode_row_message(payload@) == Err::<RowMessageView, DecodeError>(e),
        },
{
    let end = payload.len();
    let mut fields = RowFields {
        transaction_id: 0,
        commit_time: 0,
        table: String::new(),
        op_bits: None,
        new_tuple: Vec::new(),
        old_tuple: Vec::new(),
    };
    assert(tuple_view(fields.new_tuple@) =~= Seq::<DatumView>::empty());
    assert(tuple_view(fields.old_tuple@) =~= Seq::<DatumView>::empty());
    let mut pos: usize = 0;
    while pos < end
        invariant
            pos <= end == payload@.len(),
            spec_row_fields(payload@, 0, end as int, empty_row()) == spec_row_fields(
                payload@,
                pos as int,
                end as int,
                fields@,
            ),
        decreases end - pos,
    {
        let (field, wire_type, value_pos) = match read_key(payload, pos, end) {
            None => {
                return Err(DecodeError::Malformed);
            },
            Some(key) => key,
        };
        if field == ROW_TRANSACTION_ID || field == ROW_COMMIT_TIME || field == ROW_OP {
            if wire_type != WIRE_VARINT {
                return Err(DecodeError::Malformed);
            }
            let (v, next) = match read_varint(payload, value_pos, end) {
                None => {
                    return Err(DecodeError::Malformed);
                },
                Some(read) => read,
            };
            let low: u32 = (v % 0x1_0000_0000) as u32;
            if field == ROW_TRANSACTION_ID {
                fields.transaction_id = low;
            } else if field == ROW_COMMIT_TIME {
                fields.commit_time = v;
            } else {
                fields.op_bits = Some(low);
            }
            pos = next;
        } else if field == ROW_TABLE || field == ROW_NEW_TUPLE || field == ROW_OLD_TUPLE {
            if wire_type != WIRE_LEN {
                return Err(DecodeError::Malformed);
            }
            let (start, stop) = match read_len_delimited(payload, value_pos, end) {
                None => {
                    return Err(DecodeError::Malformed);
                },
                Some(bounds) => bounds,
            };
            if field == ROW_TABLE {
                match read_text(payload, start, stop) {
                    None => {
                        return Err(DecodeError::Malformed);
                    },
                    Some(table) => {
                        fields.table = table;
                    },
                }
            } else {
                let datum = match decode_datum(payload, start, stop) {
                    Err(e) => {
                        return Err(e);
                    },
                    Ok(datum) => datum,
                };
                if field == ROW_NEW_TUPLE {
                    proof {
                        lemma_tuple_view_push(fields.new_tuple@, datum);
                    }
                    fields.new_tuple.push(datum);
                } else {
                    proof {
                        lemma_tuple_view_push(fields.old_tuple@, datum);
                    }
                    fields.old_tuple.push(datum);
                }
            }
            pos = stop;
        } else {
            match skip_value(payload, value_pos, end, wire_type) {
                None => {
                    return Err(DecodeError::Malformed);
                },
                Some(next) => {
                    pos = next;
                },
            }
        }
    }
    finish_row(fields)
}

} // verus!
