//! The data carried by the change stream, and its mathematical model.
//!
//! Each type has a view that replaces strings and vectors by sequences; all
//! contracts in this crate are stated over these views.
use vstd::prelude::*;

verus! {

/// The kind of a change record.
#[derive(Clone, Copy, Debug, PartialEq, Eq, Structural)]
pub enum Op {
    Unknown,
    Insert,
    Update,
    Delete,
    Begin,
    Commit,
}

impl Op {
    /// Begin and Commit delimit a transaction; every other record carries data.
    pub open spec fn is_boundary(self) -> bool {
        self == Op::Begin || self == Op::Commit
    }
}

/// The value of one column. `Null` is SQL NULL, which is not the empty string.
///
/// Floating point values are kept as their IEEE 754 bit patterns, so that a
/// value read from the stream is never altered.
#[derive(Clone, Debug, PartialEq, Eq)]
pub enum DatumValue {
    Null,
    Int32(i32),
    Int64(i64),
    Float32Bits(u32),
    Float64Bits(u64),
    Bool(bool),
    Text(String),
    Bytes(Vec<u8>),
}

/// Model of a [`DatumValue`].
pub enum DatumValueView {
    Null,
    Int32(i32),
    Int64(i64),
    Float32Bits(u32),
    Float64Bits(u64),
    Bool(bool),
    Text(Seq<char>),
    Bytes(Seq<u8>),
}

impl View for DatumValue {
    type V = DatumValueView;

    open spec fn view(&self) -> DatumValueView {
        match *self {
            DatumValue::Null => DatumValueView::Null,
            DatumValue::Int32(v) => DatumValueView::Int32(v),
            DatumValue::Int64(v) => DatumValueView::Int64(v),
            DatumValue::Float32Bits(v) => DatumValueView::Float32Bits(v),
            DatumValue::Float64Bits(v) => DatumValueView::Float64Bits(v),
            DatumValue::Bool(v) => DatumValueView::Bool(v),
            DatumValue::Text(s) => DatumValueView::Text(s@),
            DatumValue::Bytes(b) => DatumValueView::Bytes(b@),
        }
    }
}

/// One column of a row: its name and its value.
#[derive(Clone, Debug, PartialEq, Eq)]
pub struct Datum {
    pub column_name: String,
    pub value: DatumValue,
}

/// Model of a [`Datum`].
pub struct DatumView {
    pub column_name: Seq<char>,
    pub value: DatumValueView,
}

impl View for Datum {
    type V = DatumView;

    open spec fn view(&self) -> DatumView {
        DatumView { column_name: self.column_name@, value: self.value@ }
    }
}

/// The model of a tuple: the views of its columns, in order.
pub open spec fn tuple_view(tuple: Seq<Datum>) -> Seq<DatumView> {
    Seq::new(tuple.len(), |i: int| tuple[i]@)
}

/// No two columns of the tuple bear the same name.
pub open spec fn distinct_columns(tuple: Seq<DatumView>) -> bool {
    forall|i: int, j: int|
        0 <= i < j < tuple.len() ==> (#[trigger] tuple[i]).column_name != (#[trigger] tuple[j]).column_name
}

/// One decoded change record.
///
/// `transaction_id` and `commit_time` are meaningful on Begin records; `table`
/// and the tuples on data records.
#[derive(Clone, Debug, PartialEq, Eq)]
pub struct RowMessage {
    pub op: Op,
    pub transaction_id: u32,
    pub commit_time: u64,
    pub table: String,
    pub new_tuple: Vec<Datum>,
    pub old_tuple: Vec<Datum>,
}

/// Model of a [`RowMessage`].
pub struct RowMessageView {
    pub op: Op,
    pub transaction_id: u32,
    pub commit_time: u64,
    pub table: Seq<char>,
    pub new_tuple: Seq<DatumView>,
    pub old_tuple: Seq<DatumView>,
}

impl View for RowMessage {
    type V = RowMessageView;

    open spec fn view(&self) -> RowMessageView {
        RowMessageView {
            op: self.op,
            transaction_id: self.transaction_id,
            commit_time: self.commit_time,
            table: self.table@,
            new_tuple: tuple_view(self.new_tuple@),
            old_tuple: tuple_view(self.old_tuple@),
        }
    }
}

/// The model of a list of records: their views, in order.
pub open spec fn events_view(events: Seq<RowMessage>) -> Seq<RowMessageView> {
    Seq::new(events.len(), |i: int| events[i]@)
}

/// A committed unit of work: the identifier and commit time announced by its
/// Begin record, and the data records that arrived before its Commit, in
/// arrival order.
#[derive(Clone, Debug, PartialEq, Eq)]
pub struct Transaction {
    pub xid: u32,
    pub commit_time: u64,
    pub events: Vec<RowMessage>,
}

/// Model of a [`Transaction`].
pub struct TransactionView {
    pub xid: u32,
    pub commit_time: u64,
    pub events: Seq<RowMessageView>,
}

impl View for Transaction {
    type V = TransactionView;

    open spec fn view(&self) -> TransactionView {
        TransactionView {
            xid: self.xid,
            commit_time: self.commit_time,
            events: events_view(self.events@),
        }
    }
}

/// Appending a record to a list appends its view to the list's view.
pub proof fn lemma_events_view_push(events: Seq<RowMessage>, record: RowMessage)
    ensures
        events_view(events.push(record)) == events_view(events).push(record@),
{
    assert(events_view(events.push(record)) =~= events_view(events).push(record@));
}

/// Appending a column to a tuple appends its view to the tuple's view.
pub proof fn lemma_tuple_view_push(tuple: Seq<Datum>, datum: Datum)
    ensures
        tuple_view(tuple.push(datum)) == tuple_view(tuple).push(datum@),
{
    assert(tuple_view(tuple.push(datum)) =~= tuple_view(tuple).push(datum@));
}

} // verus!
