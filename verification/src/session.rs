//! The replication session: what to do with each frame that arrives.
//!
//! The session owns the assembler. For every received frame it decides what
//! happens next: a committed transaction to publish, a status update to send,
//! both left out, or an error. It performs no input or output itself; the
//! caller reads the frames, hands them in together with the current time, and
//! carries out what comes back.
//!
//! Errors come in two classes. A buffer that is no frame is skipped: nothing
//! changes and the session goes on. A payload that is no change record drops
//! the open transaction and puts the session into resynchronisation, which
//! lasts until the next Begin record is taken; a second undecodable payload
//! in that time, a record that breaks the transaction protocol, and a status
//! update that cannot be built are fatal, and the caller ends the session.
use crate::assembler::optional_view;
use crate::assembler::lemma_groups_in_commit_order;
use crate::assembler::records_of_groups;
use crate::assembler::spec_feed;
use crate::assembler::spec_run;
use crate::assembler::transactions_of;
use crate::assembler::Assembler;
use crate::assembler::AssemblerState;
use crate::assembler::Group;
use crate::assembler::ProtocolViolation;
use crate::buffer::buffer_bytes;
use crate::decoder::decode_row_message;
use crate::decoder::spec_decode_row_message;
use crate::decoder::DecodeError;
use crate::frame::be_u64;
use crate::frame::encode_status_update;
use crate::frame::lemma_postgres_clock_monotone;
use crate::frame::lemma_status_update_layout;
use crate::frame::parse_frame;
use crate::frame::postgres_clock;
use crate::frame::spec_parse_frame;
use crate::frame::spec_postgres_clock;
use crate::frame::status_update_bytes;
use crate::frame::Frame;
use crate::frame::FrameError;
use crate::frame::FrameView;
use crate::model::Op;
use crate::model::RowMessageView;
use crate::model::Transaction;
use crate::model::TransactionView;
use crate::publisher::PublishError;
use crate::publisher::Publisher;
use vstd::prelude::*;

verus! {

/// The log position that status updates report as written, flushed and
/// applied. The session keeps nothing on disk and so confirms nothing.
pub const REPORTED_LSN: u64 = 0;

/// Why a frame was not taken.
#[derive(Clone, Copy, Debug, PartialEq, Eq, Structural)]
pub enum SessionError {
    /// The buffer is no frame. It was skipped; the session is unchanged.
    Frame(FrameError),
    /// The payload is no change record. The open transaction, if any, was
    /// dropped, and the session waits for the next Begin.
    Decode(DecodeError),
    /// The payload is no change record, and the session was still waiting for
    /// a Begin after an earlier such payload.
    ResyncFailed(DecodeError),
    /// The record may not come in the state the session is in.
    Protocol(ProtocolViolation),
    /// A status update is due, but the time given lies before the year 2000
    /// and has no clock value.
    ClockBeforeEpoch,
}

impl SessionError {
    /// Whether the session must end on this error.
    pub open spec fn spec_is_fatal(self) -> bool {
        !(self is Frame || self is Decode)
    }

    /// Tells whether the session must end on this error.
    pub fn is_fatal(&self) -> (r: bool)
        ensures
            r == self.spec_is_fatal(),
    {
        match self {
            SessionError::Frame(_) => false,
            SessionError::Decode(_) => false,
            _ => true,
        }
    }
}

/// What the caller is to do after a frame was taken.
#[derive(Debug)]
pub struct Reaction {
    /// The transaction that the frame committed, to be published.
    pub published: Option<Transaction>,
    /// The status update to send to the server at once.
    pub reply: Option<bytes::BytesMut>,
}

/// Model of a [`Reaction`].
pub struct ReactionView {
    pub published: Option<TransactionView>,
    pub reply: Option<Seq<u8>>,
}

impl View for Reaction {
    type V = ReactionView;

    open spec fn view(&self) -> ReactionView {
        ReactionView {
            published: optional_view(self.published),
            reply: match self.reply {
                Some(buf) => Some(buffer_bytes(buf)),
                None => None,
            },
        }
    }
}

/// What was done with a frame, and what is left for the caller to do.
#[derive(Debug)]
pub struct Handled {
    /// What became of the transaction that the frame committed: the number
    /// of subscribers it was handed to, or the transaction back when there
    /// was none. `None` when the frame committed nothing.
    pub delivery: Option<Result<usize, PublishError>>,
    /// The status update to send to the server at once.
    pub reply: Option<bytes::BytesMut>,
}

/// The state of a session.
pub struct SessionState {
    /// The state of the assembler.
    pub assembler: AssemblerState,
    /// Whether the session waits for a Begin after an undecodable payload.
    pub resyncing: bool,
}

/// The status update that answers the server at the clock value `clock`.
pub open spec fn reply_bytes(clock: u64) -> Seq<u8> {
    status_update_bytes(REPORTED_LSN, REPORTED_LSN, REPORTED_LSN, clock, true)
}

/// One step of the session: the state after `frame` arrived at the time
/// `unix_micros`, in microseconds since the Unix epoch, and the reaction or
/// the error.
pub open spec fn spec_on_frame(state: SessionState, frame: Seq<u8>, unix_micros: u64) -> (
    SessionState,
    Result<ReactionView, SessionError>,
) {
    match spec_parse_frame(frame) {
        Err(e) => (state, Err(SessionError::Frame(e))),
        Ok(FrameView::PrimaryKeepalive { end_lsn, server_clock, reply_requested }) => {
            if !reply_requested {
                (state, Ok(ReactionView { published: None, reply: None }))
            } else {
                match spec_postgres_clock(unix_micros) {
                    None => (state, Err(SessionError::ClockBeforeEpoch)),
                    Some(clock) => (
                        state,
                        Ok(ReactionView { published: None, reply: Some(reply_bytes(clock)) }),
                    ),
                }
            }
        },
        Ok(FrameView::XLogData { start_lsn, end_lsn, server_clock, payload }) => {
            match spec_decode_row_message(payload) {
                Err(e) => (
                    SessionState { assembler: AssemblerState::Idle, resyncing: true },
                    if state.resyncing {
                        Err(SessionError::ResyncFailed(e))
                    } else {
                        Err(SessionError::Decode(e))
                    },
                ),
                Ok(record) => {
                    let (assembler, yielded) = spec_feed(state.assembler, record);
                    match yielded {
                        Err(v) => (
                            SessionState { assembler, resyncing: state.resyncing },
                            Err(SessionError::Protocol(v)),
                        ),
                        Ok(published) => (
                            SessionState { assembler, resyncing: false },
                            Ok(ReactionView { published, reply: None }),
                        ),
                    }
                },
            }
        },
    }
}

/// The view of the result of a step.
pub open spec fn step_view(r: Result<Reaction, SessionError>) -> Result<ReactionView, SessionError> {
    match r {
        Ok(reaction) => Ok(reaction@),
        Err(e) => Err(e),
    }
}

/// How a session ended.
#[derive(Clone, Copy, Debug, PartialEq, Eq, Structural)]
pub enum StreamEnd {
    /// The stream ended between transactions.
    Clean,
    /// The stream ended inside a transaction. The transaction was dropped
    /// and was not published: `xid` is its identifier, `records` the number
    /// of data records it held.
    Discarded { xid: u32, records: usize },
}

/// How a session that is in `state` ends.
pub open spec fn spec_stream_end(state: SessionState) -> StreamEnd {
    match state.assembler {
        AssemblerState::Idle => StreamEnd::Clean,
        AssemblerState::InTransaction(open) => StreamEnd::Discarded {
            xid: open.xid,
            records: open.events.len() as usize,
        },
    }
}

/// Builds the status update for the time `unix_micros`, in microseconds since
/// the Unix epoch. The same frame opens the stream as a handshake and answers
/// a keepalive. There is none for a time before the year 2000.
pub fn status_reply(unix_micros: u64) -> (r: Option<bytes::BytesMut>)
    ensures
        match r {
            Some(buf) => spec_postgres_clock(unix_micros) == Some(
                be_u64(buffer_bytes(buf), 25),
            ) && buffer_bytes(buf) == reply_bytes(be_u64(buffer_bytes(buf), 25)),
            None => spec_postgres_clock(unix_micros) is None,
        },
{
    match postgres_clock(unix_micros) {
        None => None,
        Some(clock) => {
            proof {
                lemma_status_update_layout(REPORTED_LSN, REPORTED_LSN, REPORTED_LSN, clock, true);
            }
            Some(encode_status_update(REPORTED_LSN, REPORTED_LSN, REPORTED_LSN, clock, true))
        },
    }
}

/// A replication session.
pub struct Session {
    assembler: Assembler,
    resyncing: bool,
}

impl View for Session {
    type V = SessionState;

    closed spec fn view(&self) -> SessionState {
        SessionState { assembler: self.assembler@, resyncing: self.resyncing }
    }
}

impl Session {
    /// A session in which no transaction is open.
    pub fn new() -> (s: Session)
        ensures
            s@ == (SessionState { assembler: AssemblerState::Idle, resyncing: false }),
    {
        Session { assembler: Assembler::new(), resyncing: false }
    }

    /// Tells whether no transaction is open.
    pub fn is_idle(&self) -> (r: bool)
        ensures
            r == (self@.assembler == AssemblerState::Idle),
    {
        self.assembler.is_idle()
    }

    /// Tells whether the session waits for a Begin after an undecodable payload.
    pub fn is_resyncing(&self) -> (r: bool)
        ensures
            r == self@.resyncing,
    {
        self.resyncing
    }

    /// Takes the frame that arrived at the time `unix_micros` and makes the
    /// step that [`spec_on_frame`] describes.
    pub fn on_frame(&mut self, frame: &[u8], unix_micros: u64) -> (r: Result<Reaction, SessionError>)
        ensures
            final(self)@ == spec_on_frame(old(self)@, frame@, unix_micros).0,
            step_view(r) == spec_on_frame(old(self)@, frame@, unix_micros).1,
    {
        match parse_frame(frame) {
            Err(e) => Err(SessionError::Frame(e)),
            Ok(Frame::PrimaryKeepalive { end_lsn: _, server_clock: _, reply_requested }) => {
                if !reply_requested {
                    Ok(Reaction { published: None, reply: None })
                } else {
                    match status_reply(unix_micros) {
                        None => Err(SessionError::ClockBeforeEpoch),
                        Some(buf) => Ok(Reaction { published: None, reply: Some(buf) }),
                    }
                }
            },
            Ok(Frame::XLogData { start_lsn: _, end_lsn: _, server_clock: _, payload }) => {
                match decode_row_message(payload.as_slice()) {
                    Err(e) => {
                        let was_resyncing = self.resyncing;
                        let _ = self.assembler.discard();
                        self.resyncing = true;
                        if was_resyncing {
                            Err(SessionError::ResyncFailed(e))
                        } else {
                            Err(SessionError::Decode(e))
                        }
                    },
                    Ok(record) => match self.assembler.feed(record) {
                        Err(v) => Err(SessionError::Protocol(v)),
                        Ok(published) => {
                            self.resyncing = false;
                            Ok(Reaction { published, reply: None })
                        },
                    },
                }
            },
        }
    }

    /// Takes a frame as [`Session::on_frame`] does and hands the transaction
    /// that it commits, if any, to the publisher.
    ///
    /// The step is the one that [`spec_on_frame`] describes. A transaction is
    /// handed to the publisher exactly when the step publishes one; when no
    /// subscriber was there it comes back unchanged.
    pub fn handle(&mut self, frame: &[u8], unix_micros: u64, publisher: &Publisher) -> (r: Result<
        Handled,
        SessionError,
    >)
        ensures
            final(self)@ == spec_on_frame(old(self)@, frame@, unix_micros).0,
            match r {
                Err(e) => spec_on_frame(old(self)@, frame@, unix_micros).1 == Err::<
                    ReactionView,
                    SessionError,
                >(e),
                Ok(handled) => {
                    &&& spec_on_frame(old(self)@, frame@, unix_micros).1 matches Ok(reaction)
                    &&& handled.delivery is Some <==> reaction.published is Some
                    &&& handled.delivery matches Some(Ok(receivers)) ==> receivers >= 1
                    &&& handled.delivery matches Some(Err(PublishError::NoSubscribers(back)))
                        ==> reaction.published == Some(back@)
                    &&& match handled.reply {
                        Some(buf) => reaction.reply == Some(buffer_bytes(buf)),
                        None => reaction.reply is None,
                    }
                },
            },
    {
        match self.on_frame(frame, unix_micros) {
            Err(e) => Err(e),
            Ok(reaction) => {
                let delivery = match reaction.published {
                    None => None,
                    Some(transaction) => Some(publisher.publish(transaction)),
                };
                Ok(Handled { delivery, reply: reaction.reply })
            },
        }
    }

    /// Ends the session at the end of the stream. A transaction that is still
    /// open is dropped, never published; the result says whether one was.
    pub fn end_of_stream(self) -> (end: StreamEnd)
        ensures
            end == spec_stream_end(self@),
    {
        let mut assembler = self.assembler;
        match assembler.discard() {
            None => StreamEnd::Clean,
            Some(open) => StreamEnd::Discarded { xid: open.xid, records: open.events.len() },
        }
    }
}

/// The record that a frame carries: the one that the payload of a
/// change-data frame decodes to, if the buffer is such a frame and decodes.
pub open spec fn carried_record(frame: Seq<u8>) -> Option<RowMessageView> {
    match spec_parse_frame(frame) {
        Ok(FrameView::XLogData { start_lsn, end_lsn, server_clock, payload }) => {
            match spec_decode_row_message(payload) {
                Ok(record) => Some(record),
                Err(_) => None,
            }
        },
        _ => None,
    }
}

/// Transactions leave the session only whole. A step publishes a transaction
/// only when the frame carries a Commit record and that very transaction was
/// open, with all its records; the session is idle afterwards.
pub proof fn lemma_published_only_on_commit(state: SessionState, frame: Seq<u8>, unix_micros: u64)
    ensures
        match spec_on_frame(state, frame, unix_micros).1 {
            Ok(reaction) => match reaction.published {
                Some(t) => {
                    &&& state.assembler == AssemblerState::InTransaction(t)
                    &&& spec_on_frame(state, frame, unix_micros).0.assembler
                        == AssemblerState::Idle
                    &&& reaction.reply is None
                    &&& carried_record(frame) is Some
                    &&& carried_record(frame)->Some_0.op == Op::Commit
                },
                None => true,
            },
            Err(_) => true,
        },
{
}

/// A frame that carries a record moves the session as the record moves the
/// assembler, so what holds of runs of the assembler holds of the frames of a
/// session.
pub proof fn lemma_session_follows_assembler(state: SessionState, frame: Seq<u8>, unix_micros: u64)
    requires
        carried_record(frame) is Some,
    ensures
        spec_on_frame(state, frame, unix_micros).0.assembler == spec_feed(
            state.assembler,
            carried_record(frame)->Some_0,
        ).0,
        match spec_feed(state.assembler, carried_record(frame)->Some_0).1 {
            Ok(published) => spec_on_frame(state, frame, unix_micros).1 == Ok::<
                ReactionView,
                SessionError,
            >(ReactionView { published, reply: None }),
            Err(v) => spec_on_frame(state, frame, unix_micros).1 == Err::<
                ReactionView,
                SessionError,
            >(SessionError::Protocol(v)),
        },
{
}

/// A frame together with the time at which it arrived, in microseconds since
/// the Unix epoch.
pub struct Arrival {
    pub frame: Seq<u8>,
    pub unix_micros: u64,
}

/// What a session has come to after a number of frames: its state, the
/// transactions published so far in the order of their Commits, the status
/// updates sent so far, and the fatal error that ended it, if one did.
pub struct SessionRun {
    pub state: SessionState,
    pub published: Seq<TransactionView>,
    pub replies: Seq<Seq<u8>>,
    pub fatal: Option<SessionError>,
}

/// The session that starts fresh and takes `arrivals` in order. A fatal error
/// ends it: later frames change nothing. Other errors only lose their frame.
pub open spec fn spec_session_run(arrivals: Seq<Arrival>) -> SessionRun
    decreases arrivals.len(),
{
    if arrivals.len() == 0 {
        SessionRun {
            state: SessionState { assembler: AssemblerState::Idle, resyncing: false },
            published: Seq::empty(),
            replies: Seq::empty(),
            fatal: None,
        }
    } else {
        let before = spec_session_run(arrivals.drop_last());
        if before.fatal is Some {
            before
        } else {
            let (state, result) = spec_on_frame(
                before.state,
                arrivals.last().frame,
                arrivals.last().unix_micros,
            );
            match result {
                Ok(reaction) => SessionRun {
                    state,
                    published: match reaction.published {
                        Some(t) => before.published.push(t),
                        None => before.published,
                    },
                    replies: match reaction.reply {
                        Some(bytes) => before.replies.push(bytes),
                        None => before.replies,
                    },
                    fatal: None,
                },
                Err(e) => SessionRun {
                    state,
                    published: before.published,
                    replies: before.replies,
                    fatal: if e.spec_is_fatal() {
                        Some(e)
                    } else {
                        None
                    },
                },
            }
        }
    }
}

/// The frames of `arrivals` carry, one each and in order, the records `records`.
pub open spec fn carries(arrivals: Seq<Arrival>, records: Seq<RowMessageView>) -> bool {
    &&& arrivals.len() == records.len()
    &&& forall|i: int|
        0 <= i < arrivals.len() ==> carried_record((#[trigger] arrivals[i]).frame) == Some(
            records[i],
        )
}

/// After the frame of a Begin and the frames of the first `k` data records
/// that follow it, the transaction is open with exactly those records, and
/// nothing was published or sent.
proof fn lemma_session_open(arrivals: Seq<Arrival>, begin: RowMessageView, events: Seq<RowMessageView>, k: int)
    requires
        begin.op == Op::Begin,
        forall|i: int| 0 <= i < events.len() ==> !(#[trigger] events[i]).op.is_boundary(),
        0 <= k <= events.len(),
        arrivals.len() >= k + 1,
        carries(arrivals.take(k + 1), seq![begin] + events.take(k)),
    ensures
        spec_session_run(arrivals.take(k + 1)) == (SessionRun {
            state: SessionState {
                assembler: AssemblerState::InTransaction(
                    TransactionView {
                        xid: begin.transaction_id,
                        commit_time: begin.commit_time,
                        events: events.take(k),
                    },
                ),
                resyncing: false,
            },
            published: Seq::empty(),
            replies: Seq::empty(),
            fatal: None,
        }),
    decreases k,
{
    let taken = arrivals.take(k + 1);
    let records = seq![begin] + events.take(k);
    reveal_with_fuel(spec_session_run, 2);
    assert(carried_record(taken[k].frame) == Some(records[k]));
    assert(taken.last() == taken[k]);
    if k == 0 {
        assert(taken.drop_last() =~= Seq::<Arrival>::empty());
        assert(events.take(0) =~= Seq::<RowMessageView>::empty());
        assert(records[0] == begin);
    } else {
        assert(taken.drop_last() =~= arrivals.take(k));
        let fewer = seq![begin] + events.take(k - 1);
        assert forall|i: int| 0 <= i < arrivals.take(k).len() implies carried_record(
            (#[trigger] arrivals.take(k)[i]).frame,
        ) == Some(fewer[i]) by {
            assert(arrivals.take(k)[i] == taken[i]);
            assert(fewer[i] == records[i]);
        }
        lemma_session_open(arrivals, begin, events, k - 1);
        assert(records[k] == events[k - 1]);
        assert(events.take(k) =~= events.take(k - 1).push(events[k - 1]));
    }
}

/// Atomicity, for the frames of a session. Frames that carry a Begin, any
/// data records and a Commit, taken by a fresh session, publish exactly one
/// transaction. It bears the identifier and the commit time of the Begin
/// record and holds the data records in the order in which they came. Nothing
/// is published before the frame of the Commit is taken, no reply is sent,
/// and the session is idle at the end.
pub proof fn lemma_session_atomicity(
    arrivals: Seq<Arrival>,
    begin: RowMessageView,
    events: Seq<RowMessageView>,
    commit: RowMessageView,
)
    requires
        begin.op == Op::Begin,
        forall|i: int| 0 <= i < events.len() ==> !(#[trigger] events[i]).op.is_boundary(),
        commit.op == Op::Commit,
        carries(arrivals, seq![begin] + events + seq![commit]),
    ensures
        spec_session_run(arrivals) == (SessionRun {
            state: SessionState { assembler: AssemblerState::Idle, resyncing: false },
            published: seq![
                TransactionView {
                    xid: begin.transaction_id,
                    commit_time: begin.commit_time,
                    events,
                },
            ],
            replies: Seq::empty(),
            fatal: None,
        }),
        forall|k: int|
            0 <= k < arrivals.len() ==> (#[trigger] spec_session_run(
                arrivals.take(k),
            )).published.len() == 0,
{
    let whole = seq![begin] + events + seq![commit];
    let n = events.len() as int;
    assert forall|k: int| 0 <= k <= n implies carries(
        #[trigger] arrivals.take(k + 1),
        seq![begin] + events.take(k),
    ) by {
        let part = seq![begin] + events.take(k);
        assert forall|i: int| 0 <= i < k + 1 implies carried_record(
            (#[trigger] arrivals.take(k + 1)[i]).frame,
        ) == Some(part[i]) by {
            assert(arrivals.take(k + 1)[i] == arrivals[i]);
            assert(part[i] == whole[i]);
        }
    }
    lemma_session_open(arrivals, begin, events, n);
    reveal_with_fuel(spec_session_run, 2);
    assert(events.take(n) =~= events);
    assert(arrivals.drop_last() =~= arrivals.take(n + 1));
    assert(carried_record(arrivals[n + 1].frame) == Some(whole[n + 1]));
    assert(whole[n + 1] == commit);
    assert(spec_session_run(arrivals).published =~= seq![
        TransactionView { xid: begin.transaction_id, commit_time: begin.commit_time, events },
    ]);
    assert forall|k: int| 0 <= k < arrivals.len() implies (#[trigger] spec_session_run(
        arrivals.take(k),
    )).published.len() == 0 by {
        if k == 0 {
            assert(arrivals.take(0) =~= Seq::<Arrival>::empty());
        } else {
            lemma_session_open(arrivals, begin, events, k - 1);
        }
    }
}

/// An arrival that cannot by itself disturb the session: a buffer that is no
/// frame and is skipped, a keepalive that asks for no reply or comes at a time
/// that has a clock value, or a change-data frame whose payload decodes.
pub open spec fn benign(arrival: Arrival) -> bool {
    match spec_parse_frame(arrival.frame) {
        Err(_) => true,
        Ok(FrameView::PrimaryKeepalive { end_lsn, server_clock, reply_requested }) => {
            reply_requested ==> spec_postgres_clock(arrival.unix_micros) is Some
        },
        Ok(FrameView::XLogData { start_lsn, end_lsn, server_clock, payload }) => {
            spec_decode_row_message(payload) is Ok
        },
    }
}

/// The records that the frames of `arrivals` carry, in order. Frames that
/// carry none, such as keepalives, are passed over.
pub open spec fn records_of(arrivals: Seq<Arrival>) -> Seq<RowMessageView>
    decreases arrivals.len(),
{
    if arrivals.len() == 0 {
        Seq::empty()
    } else {
        let earlier = records_of(arrivals.drop_last());
        match carried_record(arrivals.last().frame) {
            Some(record) => earlier.push(record),
            None => earlier,
        }
    }
}

/// The status update that an arrival calls for, if it calls for one: the
/// reply to a keepalive that asks for it, bearing the clock of its time.
pub open spec fn reply_due(arrival: Arrival) -> Option<Seq<u8>> {
    match spec_parse_frame(arrival.frame) {
        Ok(FrameView::PrimaryKeepalive { end_lsn, server_clock, reply_requested }) => {
            if reply_requested {
                match spec_postgres_clock(arrival.unix_micros) {
                    Some(clock) => Some(reply_bytes(clock)),
                    None => None,
                }
            } else {
                None
            }
        },
        _ => None,
    }
}

/// The status updates that `arrivals` call for, in order.
pub open spec fn replies_due(arrivals: Seq<Arrival>) -> Seq<Seq<u8>>
    decreases arrivals.len(),
{
    if arrivals.len() == 0 {
        Seq::empty()
    } else {
        let earlier = replies_due(arrivals.drop_last());
        match reply_due(arrivals.last()) {
            Some(bytes) => earlier.push(bytes),
            None => earlier,
        }
    }
}

/// Keepalives and skipped buffers are transparent. A session that takes only
/// benign arrivals goes as the assembler goes on the records that the frames
/// carry: the same state, the same transactions published, and a fatal error
/// exactly where a record breaks the protocol. It never resynchronises. As
/// long as no record breaks the protocol it sends exactly the status updates
/// that the keepalives call for, one each and in order.
pub proof fn lemma_session_follows_records(arrivals: Seq<Arrival>)
    requires
        forall|i: int| 0 <= i < arrivals.len() ==> benign(#[trigger] arrivals[i]),
    ensures
        spec_session_run(arrivals).state == (SessionState {
            assembler: spec_run(records_of(arrivals)).state,
            resyncing: false,
        }),
        spec_session_run(arrivals).published == spec_run(records_of(arrivals)).published,
        spec_session_run(arrivals).fatal == match spec_run(records_of(arrivals)).violation {
            Some(v) => Some(SessionError::Protocol(v)),
            None => None,
        },
        spec_run(records_of(arrivals)).violation is None ==> spec_session_run(arrivals).replies
            == replies_due(arrivals),
    decreases arrivals.len(),
{
    if arrivals.len() > 0 {
        let earlier = arrivals.drop_last();
        let last = arrivals.last();
        assert forall|i: int| 0 <= i < earlier.len() implies benign(#[trigger] earlier[i]) by {
            assert(earlier[i] == arrivals[i]);
        }
        lemma_session_follows_records(earlier);
        assert(benign(last));
        let before = spec_session_run(earlier);
        let records_before = records_of(earlier);
        match carried_record(last.frame) {
            Some(record) => {
                let records = records_before.push(record);
                assert(records_of(arrivals) == records);
                assert(records.drop_last() =~= records_before);
                assert(records.last() == record);
                assert(reply_due(last) is None);
            },
            None => {
                assert(records_of(arrivals) == records_before);
            },
        }
    }
}

/// Graceful end of stream, in general. A stream brings any number of complete
/// Begin..Commit groups, with keepalives and skipped buffers anywhere among
/// their frames, and then ends. The session has met no error, has published
/// exactly the transactions of the groups in the order of their Commits, has
/// answered exactly the keepalives that asked for it, and ends clean.
pub proof fn lemma_stream_of_groups_ends_clean(arrivals: Seq<Arrival>, groups: Seq<Group>)
    requires
        forall|i: int| 0 <= i < arrivals.len() ==> benign(#[trigger] arrivals[i]),
        forall|i: int| 0 <= i < groups.len() ==> (#[trigger] groups[i]).complete(),
        records_of(arrivals) == records_of_groups(groups),
    ensures
        spec_session_run(arrivals).fatal is None,
        spec_session_run(arrivals).published == transactions_of(groups),
        spec_session_run(arrivals).replies == replies_due(arrivals),
        spec_stream_end(spec_session_run(arrivals).state) == StreamEnd::Clean,
{
    lemma_session_follows_records(arrivals);
    lemma_groups_in_commit_order(groups);
}

/// A stream of benign arrivals that ends inside a transaction: the open
/// transaction is reported as dropped, and what was published before stays
/// published.
pub proof fn lemma_stream_ends_inside_transaction(arrivals: Seq<Arrival>)
    requires
        forall|i: int| 0 <= i < arrivals.len() ==> benign(#[trigger] arrivals[i]),
        spec_run(records_of(arrivals)).state is InTransaction,
    ensures
        spec_session_run(arrivals).published == spec_run(records_of(arrivals)).published,
        spec_stream_end(spec_session_run(arrivals).state) == (StreamEnd::Discarded {
            xid: spec_run(records_of(arrivals)).state->InTransaction_0.xid,
            records: spec_run(records_of(arrivals)).state->InTransaction_0.events.len() as usize,
        }),
{
    lemma_session_follows_records(arrivals);
}

/// No orphan events. A frame that carries a record other than Begin while no
/// transaction is open is refused as a fatal protocol violation; nothing is
/// published and the session stays idle.
pub proof fn lemma_session_no_orphan_events(state: SessionState, frame: Seq<u8>, unix_micros: u64)
    requires
        state.assembler == AssemblerState::Idle,
        carried_record(frame) matches Some(record) && record.op != Op::Begin,
    ensures
        spec_on_frame(state, frame, unix_micros).1 == Err::<ReactionView, SessionError>(
            SessionError::Protocol(ProtocolViolation::OrphanRecord),
        ),
        spec_on_frame(state, frame, unix_micros).0.assembler == AssemblerState::Idle,
        SessionError::Protocol(ProtocolViolation::OrphanRecord).spec_is_fatal(),
{
}

/// No nested transactions. A frame that carries a Begin while a transaction
/// is open is refused as a fatal protocol violation; the open transaction is
/// dropped and not published.
pub proof fn lemma_session_no_nested_transactions(state: SessionState, frame: Seq<u8>, unix_micros: u64)
    requires
        state.assembler is InTransaction,
        carried_record(frame) matches Some(record) && record.op == Op::Begin,
    ensures
        spec_on_frame(state, frame, unix_micros).1 == Err::<ReactionView, SessionError>(
            SessionError::Protocol(ProtocolViolation::NestedBegin),
        ),
        spec_on_frame(state, frame, unix_micros).0.assembler == AssemblerState::Idle,
        SessionError::Protocol(ProtocolViolation::NestedBegin).spec_is_fatal(),
{
}

/// Keepalive round trip. A keepalive that asks for a reply is answered by
/// exactly one status update and changes nothing else. The update bears the
/// clock value of the time given, so of two answers the one given at the later
/// time bears the later clock, or the same.
pub proof fn lemma_keepalive_round_trip(state: SessionState, frame: Seq<u8>, earlier: u64, later: u64)
    requires
        spec_parse_frame(frame) matches Ok(
            FrameView::PrimaryKeepalive { end_lsn, server_clock, reply_requested },
        ) && reply_requested,
        earlier <= later,
        spec_postgres_clock(earlier) is Some,
    ensures
        ({
            let (after1, first) = spec_on_frame(state, frame, earlier);
            let (after2, second) = spec_on_frame(state, frame, later);
            &&& after1 == state
            &&& after2 == state
            &&& first matches Ok(a)
            &&& second matches Ok(b)
            &&& a.published is None
            &&& b.published is None
            &&& a.reply matches Some(bytes1)
            &&& b.reply matches Some(bytes2)
            &&& be_u64(bytes1, 25) == spec_postgres_clock(earlier)->Some_0
            &&& be_u64(bytes2, 25) == spec_postgres_clock(later)->Some_0
            &&& be_u64(bytes1, 25) <= be_u64(bytes2, 25)
        }),
{
    lemma_postgres_clock_monotone(earlier, later);
    let c1 = spec_postgres_clock(earlier)->Some_0;
    let c2 = spec_postgres_clock(later)->Some_0;
    lemma_status_update_layout(REPORTED_LSN, REPORTED_LSN, REPORTED_LSN, c1, true);
    lemma_status_update_layout(REPORTED_LSN, REPORTED_LSN, REPORTED_LSN, c2, true);
}

/// A keepalive that asks for no reply changes nothing and calls for nothing.
pub proof fn lemma_keepalive_without_reply(state: SessionState, frame: Seq<u8>, unix_micros: u64)
    requires
        spec_parse_frame(frame) matches Ok(
            FrameView::PrimaryKeepalive { end_lsn, server_clock, reply_requested },
        ) && !reply_requested,
    ensures
        spec_on_frame(state, frame, unix_micros) == (
            state,
            Ok::<ReactionView, SessionError>(ReactionView { published: None, reply: None }),
        ),
{
}

/// Graceful end of stream. A stream that ends between transactions ends
/// clean; one that ends inside a transaction reports the transaction that was
/// dropped.
pub proof fn lemma_graceful_end(state: SessionState)
    ensures
        state.assembler == AssemblerState::Idle ==> spec_stream_end(state) == StreamEnd::Clean,
        state.assembler matches AssemblerState::InTransaction(open) ==> spec_stream_end(state) == (
        StreamEnd::Discarded { xid: open.xid, records: open.events.len() as usize }),
{
}

} // verus!
