//! The assembler groups change records into transactions.
//!
//! It is a machine with two states. While idle it accepts only a Begin
//! record, which opens a transaction that bears the identifier and the commit
//! time of that record. While a transaction is open every data record is
//! appended to it, a Commit record closes it and hands it out, and a second
//! Begin is a violation that discards it. A transaction is handed out whole,
//! once, at its Commit, and never in part.
use crate::model::events_view;
use crate::model::lemma_events_view_push;
use crate::model::Op;
use crate::model::RowMessage;
use crate::model::RowMessageView;
use crate::model::Transaction;
use crate::model::TransactionView;
use vstd::prelude::*;

verus! {

/// The state of the assembler.
pub enum AssemblerState {
    /// No transaction is open.
    Idle,
    /// A transaction is open and holds the records received so far.
    InTransaction(TransactionView),
}

/// A record that the protocol does not allow in the state in which it came.
#[derive(Clone, Copy, Debug, PartialEq, Eq, Structural)]
pub enum ProtocolViolation {
    /// A record other than Begin arrived while no transaction was open.
    OrphanRecord,
    /// A Begin record arrived while a transaction was open.
    NestedBegin,
}

/// The transaction that a Begin record opens.
pub open spec fn opened_by(begin: RowMessageView) -> TransactionView {
    TransactionView {
        xid: begin.transaction_id,
        commit_time: begin.commit_time,
        events: Seq::empty(),
    }
}

/// The transaction `open` after one more data record.
pub open spec fn extended_by(open: TransactionView, record: RowMessageView) -> TransactionView {
    TransactionView { xid: open.xid, commit_time: open.commit_time, events: open.events.push(record) }
}

/// One step of the machine: the state after `record`, and what the step
/// yields: nothing, a committed transaction, or a violation.
pub open spec fn spec_feed(state: AssemblerState, record: RowMessageView) -> (
    AssemblerState,
    Result<Option<TransactionView>, ProtocolViolation>,
) {
    match state {
        AssemblerState::Idle => {
            if record.op == Op::Begin {
                (AssemblerState::InTransaction(opened_by(record)), Ok(None))
            } else {
                (AssemblerState::Idle, Err(ProtocolViolation::OrphanRecord))
            }
        },
        AssemblerState::InTransaction(open) => {
            if record.op == Op::Begin {
                (AssemblerState::Idle, Err(ProtocolViolation::NestedBegin))
            } else if record.op == Op::Commit {
                (AssemblerState::Idle, Ok(Some(open)))
            } else {
                (AssemblerState::InTransaction(extended_by(open, record)), Ok(None))
            }
        },
    }
}

/// The view of what a step yields.
pub open spec fn yield_view(r: Result<Option<Transaction>, ProtocolViolation>) -> Result<
    Option<TransactionView>,
    ProtocolViolation,
> {
    match r {
        Ok(Some(t)) => Ok(Some(t@)),
        Ok(None) => Ok(None),
        Err(v) => Err(v),
    }
}

/// The view of a transaction that may be there.
pub open spec fn optional_view(t: Option<Transaction>) -> Option<TransactionView> {
    match t {
        Some(t) => Some(t@),
        None => None,
    }
}

/// The transaction assembler.
pub struct Assembler {
    open: Option<Transaction>,
}

impl View for Assembler {
    type V = AssemblerState;

    closed spec fn view(&self) -> AssemblerState {
        match self.open {
            None => AssemblerState::Idle,
            Some(t) => AssemblerState::InTransaction(t@),
        }
    }
}

impl Assembler {
    /// An idle assembler.
    pub fn new() -> (a: Assembler)
        ensures
            a@ == AssemblerState::Idle,
    {
        Assembler { open: None }
    }

    /// Tells whether no transaction is open.
    pub fn is_idle(&self) -> (r: bool)
        ensures
            r == (self@ == AssemblerState::Idle),
    {
        self.open.is_none()
    }

    /// Takes one record and makes the step that [`spec_feed`] describes.
    ///
    /// Returns the transaction that a Commit closes, nothing for a record
    /// that opens or extends a transaction, and the violation for a record
    /// that may not come in this state.
    pub fn feed(&mut self, record: RowMessage) -> (r: Result<Option<Transaction>, ProtocolViolation>)
        ensures
            final(self)@ == spec_feed(old(self)@, record@).0,
            yield_view(r) == spec_feed(old(self)@, record@).1,
    {
        match self.open.take() {
            None => match record.op {
                Op::Begin => {
                    let opened = Transaction {
                        xid: record.transaction_id,
                        commit_time: record.commit_time,
                        events: Vec::new(),
                    };
                    assert(opened@ =~= opened_by(record@)) by {
                        assert(events_view(opened.events@) =~= Seq::<RowMessageView>::empty());
                    }
                    self.open = Some(opened);
                    Ok(None)
                },
                _ => Err(ProtocolViolation::OrphanRecord),
            },
            Some(open) => match record.op {
                Op::Begin => Err(ProtocolViolation::NestedBegin),
                Op::Commit => Ok(Some(open)),
                _ => {
                    let mut open = open;
                    proof {
                        lemma_events_view_push(open.events@, record);
                    }
                    open.events.push(record);
                    self.open = Some(open);
                    Ok(None)
                },
            },
        }
    }

    /// Drops the open transaction, if there is one, and returns it.
    pub fn discard(&mut self) -> (dropped: Option<Transaction>)
        ensures
            final(self)@ == AssemblerState::Idle,
            match old(self)@ {
                AssemblerState::Idle => dropped is None,
                AssemblerState::InTransaction(open) => optional_view(dropped) == Some(open),
            },
    {
        self.open.take()
    }
}

/// What a run of the machine has come to: its state, the transactions handed
/// out so far in the order of their Commits, and the violation that stopped
/// it, if one did.
pub struct Run {
    pub state: AssemblerState,
    pub published: Seq<TransactionView>,
    pub violation: Option<ProtocolViolation>,
}

/// The run that starts idle and takes `records` in order. A violation ends
/// the run: later records change nothing.
pub open spec fn spec_run(records: Seq<RowMessageView>) -> Run
    decreases records.len(),
{
    if records.len() == 0 {
        Run { state: AssemblerState::Idle, published: Seq::empty(), violation: None }
    } else {
        let before = spec_run(records.drop_last());
        if before.violation is Some {
            before
        } else {
            let (state, yielded) = spec_feed(before.state, records.last());
            match yielded {
                Ok(None) => Run { state, published: before.published, violation: None },
                Ok(Some(t)) => Run { state, published: before.published.push(t), violation: None },
                Err(v) => Run { state, published: before.published, violation: Some(v) },
            }
        }
    }
}

/// After a Begin and the first `k` of the data records that follow it, the
/// transaction is open with exactly those records, and nothing was handed out.
proof fn lemma_run_open(begin: RowMessageView, events: Seq<RowMessageView>, k: int)
    requires
        begin.op == Op::Begin,
        forall|i: int| 0 <= i < events.len() ==> !(#[trigger] events[i]).op.is_boundary(),
        0 <= k <= events.len(),
    ensures
        spec_run(seq![begin] + events.take(k)) == (Run {
            state: AssemblerState::InTransaction(
                TransactionView {
                    xid: begin.transaction_id,
                    commit_time: begin.commit_time,
                    events: events.take(k),
                },
            ),
            published: Seq::empty(),
            violation: None,
        }),
    decreases k,
{
    let records = seq![begin] + events.take(k);
    reveal_with_fuel(spec_run, 2);
    if k == 0 {
        assert(records.drop_last() =~= Seq::<RowMessageView>::empty());
        assert(events.take(0) =~= Seq::<RowMessageView>::empty());
        assert(records.last() == begin);
    } else {
        lemma_run_open(begin, events, k - 1);
        assert(records.drop_last() =~= seq![begin] + events.take(k - 1));
        assert(records.last() == events[k - 1]);
        assert(events.take(k) =~= events.take(k - 1).push(events[k - 1]));
    }
}

/// Atomicity. A Begin, any data records and a Commit, taken from the idle
/// state, hand out exactly one transaction. It bears the identifier and the
/// commit time of the Begin record and holds the data records in the order in
/// which they came. Nothing is handed out before the Commit is taken, and the
/// machine is idle again after it.
pub proof fn lemma_atomicity(begin: RowMessageView, events: Seq<RowMessageView>, commit: RowMessageView)
    requires
        begin.op == Op::Begin,
        forall|i: int| 0 <= i < events.len() ==> !(#[trigger] events[i]).op.is_boundary(),
        commit.op == Op::Commit,
    ensures
        spec_run(seq![begin] + events + seq![commit]) == (Run {
            state: AssemblerState::Idle,
            published: seq![
                TransactionView {
                    xid: begin.transaction_id,
                    commit_time: begin.commit_time,
                    events,
                },
            ],
            violation: None,
        }),
        forall|k: int|
            0 <= k <= events.len() + 1 ==> (#[trigger] spec_run(
                (seq![begin] + events + seq![commit]).take(k),
            )).published.len() == 0,
{
    let whole = seq![begin] + events + seq![commit];
    let n = events.len() as int;
    lemma_run_open(begin, events, n);
    assert(events.take(n) =~= events);
    assert(whole.drop_last() =~= seq![begin] + events.take(n));
    assert(whole.last() == commit);
    assert(spec_run(whole).published =~= seq![
        TransactionView { xid: begin.transaction_id, commit_time: begin.commit_time, events },
    ]);
    assert forall|k: int| 0 <= k <= events.len() + 1 implies (#[trigger] spec_run(
        whole.take(k),
    )).published.len() == 0 by {
        if k == 0 {
            assert(whole.take(0) =~= Seq::<RowMessageView>::empty());
        } else {
            lemma_run_open(begin, events, k - 1);
            assert(whole.take(k) =~= seq![begin] + events.take(k - 1));
        }
    }
}

/// The records of one transaction as they come: a Begin, the data records,
/// a Commit.
pub struct Group {
    pub begin: RowMessageView,
    pub events: Seq<RowMessageView>,
    pub commit: RowMessageView,
}

impl Group {
    /// The group starts with a Begin, ends with a Commit and has only data
    /// records in between.
    pub open spec fn complete(self) -> bool {
        &&& self.begin.op == Op::Begin
        &&& self.commit.op == Op::Commit
        &&& forall|i: int|
            0 <= i < self.events.len() ==> !(#[trigger] self.events[i]).op.is_boundary()
    }

    /// The records of the group, in order.
    pub open spec fn records(self) -> Seq<RowMessageView> {
        seq![self.begin] + self.events + seq![self.commit]
    }

    /// The transaction that the group makes.
    pub open spec fn transaction(self) -> TransactionView {
        TransactionView {
            xid: self.begin.transaction_id,
            commit_time: self.begin.commit_time,
            events: self.events,
        }
    }
}

/// The records of a number of groups, one group after the other.
pub open spec fn records_of_groups(groups: Seq<Group>) -> Seq<RowMessageView>
    decreases groups.len(),
{
    if groups.len() == 0 {
        Seq::empty()
    } else {
        records_of_groups(groups.drop_last()) + groups.last().records()
    }
}

/// The transactions that a number of groups make, in the order of the groups.
pub open spec fn transactions_of(groups: Seq<Group>) -> Seq<TransactionView> {
    Seq::new(groups.len(), |i: int| groups[i].transaction())
}

/// After records that leave the machine idle, a Begin and the first `k` of the
/// data records that follow it, the transaction is open with exactly those
/// records, and nothing more was handed out.
proof fn lemma_run_open_after(
    prefix: Seq<RowMessageView>,
    begin: RowMessageView,
    events: Seq<RowMessageView>,
    k: int,
)
    requires
        spec_run(prefix).state == AssemblerState::Idle,
        spec_run(prefix).violation is None,
        begin.op == Op::Begin,
        forall|i: int| 0 <= i < events.len() ==> !(#[trigger] events[i]).op.is_boundary(),
        0 <= k <= events.len(),
    ensures
        spec_run(prefix + seq![begin] + events.take(k)) == (Run {
            state: AssemblerState::InTransaction(
                TransactionView {
                    xid: begin.transaction_id,
                    commit_time: begin.commit_time,
                    events: events.take(k),
                },
            ),
            published: spec_run(prefix).published,
            violation: None,
        }),
    decreases k,
{
    let records = prefix + seq![begin] + events.take(k);
    if k == 0 {
        assert(records.drop_last() =~= prefix);
        assert(events.take(0) =~= Seq::<RowMessageView>::empty());
        assert(records.last() == begin);
    } else {
        lemma_run_open_after(prefix, begin, events, k - 1);
        assert(records.drop_last() =~= prefix + seq![begin] + events.take(k - 1));
        assert(records.last() == events[k - 1]);
        assert(events.take(k) =~= events.take(k - 1).push(events[k - 1]));
    }
}

/// One more transaction. After records that leave the machine idle, the
/// records of a complete group hand out the transaction of that group, after
/// those handed out before, and leave the machine idle again.
pub proof fn lemma_group_after(prefix: Seq<RowMessageView>, group: Group)
    requires
        spec_run(prefix).state == AssemblerState::Idle,
        spec_run(prefix).violation is None,
        group.complete(),
    ensures
        spec_run(prefix + group.records()) == (Run {
            state: AssemblerState::Idle,
            published: spec_run(prefix).published.push(group.transaction()),
            violation: None,
        }),
{
    let n = group.events.len() as int;
    let whole = prefix + group.records();
    lemma_run_open_after(prefix, group.begin, group.events, n);
    assert(group.events.take(n) =~= group.events);
    assert(whole.drop_last() =~= prefix + seq![group.begin] + group.events.take(n));
    assert(whole.last() == group.commit);
}

/// Transactions come out in the order of their Commits. Any number of
/// complete groups, taken one after the other from the idle state, hand out
/// exactly the transactions of the groups, in the order of the groups, and
/// leave the machine idle.
pub proof fn lemma_groups_in_commit_order(groups: Seq<Group>)
    requires
        forall|i: int| 0 <= i < groups.len() ==> (#[trigger] groups[i]).complete(),
    ensures
        spec_run(records_of_groups(groups)) == (Run {
            state: AssemblerState::Idle,
            published: transactions_of(groups),
            violation: None,
        }),
    decreases groups.len(),
{
    if groups.len() == 0 {
        assert(transactions_of(groups) =~= Seq::<TransactionView>::empty());
    } else {
        let earlier = groups.drop_last();
        assert forall|i: int| 0 <= i < earlier.len() implies (#[trigger] earlier[i]).complete() by {
            assert(earlier[i] == groups[i]);
        }
        lemma_groups_in_commit_order(earlier);
        lemma_group_after(records_of_groups(earlier), groups.last());
        assert(transactions_of(groups) =~= transactions_of(earlier).push(
            groups.last().transaction(),
        ));
    }
}

/// No orphan records. A record other than Begin that comes first is a
/// violation: the run stops idle and has handed out nothing.
pub proof fn lemma_no_orphan_records(record: RowMessageView)
    requires
        record.op != Op::Begin,
    ensures
        spec_feed(AssemblerState::Idle, record) == (
            AssemblerState::Idle,
            Err::<Option<TransactionView>, ProtocolViolation>(ProtocolViolation::OrphanRecord),
        ),
        spec_run(seq![record]) == (Run {
            state: AssemblerState::Idle,
            published: Seq::empty(),
            violation: Some(ProtocolViolation::OrphanRecord),
        }),
{
    reveal_with_fuel(spec_run, 2);
    assert(seq![record].drop_last() =~= Seq::<RowMessageView>::empty());
}

/// No nested transactions. A Begin that comes while a transaction is open is
/// a violation; the open transaction is dropped and is not handed out.
pub proof fn lemma_no_nested_transactions(open: TransactionView, begin: RowMessageView)
    requires
        begin.op == Op::Begin,
    ensures
        spec_feed(AssemblerState::InTransaction(open), begin) == (
            AssemblerState::Idle,
            Err::<Option<TransactionView>, ProtocolViolation>(ProtocolViolation::NestedBegin),
        ),
{
}

/// A run that was stopped by a violation stays as it is, whatever comes
/// after: nothing more is handed out.
pub proof fn lemma_run_stops_at_violation(records: Seq<RowMessageView>, more: RowMessageView)
    requires
        spec_run(records).violation is Some,
    ensures
        spec_run(records.push(more)) == spec_run(records),
{
    assert(records.push(more).drop_last() =~= records);
}

} // verus!
