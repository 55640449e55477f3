use logicaldecoding::assembler::ProtocolViolation;
use logicaldecoding::decoder::DecodeError;
use logicaldecoding::frame::FrameError;
use logicaldecoding::model::Datum;
use logicaldecoding::model::DatumValue;
use logicaldecoding::model::Op;
use logicaldecoding::model::RowMessage;
use logicaldecoding::model::Transaction;
use logicaldecoding::publisher::Delivery;
use logicaldecoding::publisher::PublishError;
use logicaldecoding::publisher::Publisher;
use logicaldecoding::session::status_reply;
use logicaldecoding::session::Session;
use logicaldecoding::session::SessionError;
use logicaldecoding::session::StreamEnd;

const NOW: u64 = 1_700_000_000_000_000;

fn frame_of(payload: &[u8]) -> Vec<u8> {
    let mut frame: Vec<u8> = vec![b'w'];
    frame.extend_from_slice(&[0u8; 24]);
    frame.extend_from_slice(payload);
    frame
}

fn boundary_frame(op: i32, xid: u32, commit_time: u64) -> Vec<u8> {
    let mut payload: Vec<u8> = Vec::new();
    prost::encoding::uint32::encode(1, &xid, &mut payload);
    prost::encoding::uint64::encode(2, &commit_time, &mut payload);
    prost::encoding::int32::encode(4, &op, &mut payload);
    frame_of(&payload)
}

fn change_frame(op: i32, table: &str, id: &str) -> Vec<u8> {
    let mut datum: Vec<u8> = Vec::new();
    prost::encoding::string::encode(1, &"id".to_string(), &mut datum);
    prost::encoding::string::encode(8, &id.to_string(), &mut datum);
    let mut payload: Vec<u8> = Vec::new();
    prost::encoding::string::encode(3, &table.to_string(), &mut payload);
    prost::encoding::int32::encode(4, &op, &mut payload);
    prost::encoding::bytes::encode(5, &datum, &mut payload);
    frame_of(&payload)
}

fn change(op: Op, table: &str, id: &str) -> RowMessage {
    RowMessage {
        op,
        transaction_id: 0,
        commit_time: 0,
        table: table.to_string(),
        new_tuple: vec![Datum {
            column_name: "id".to_string(),
            value: DatumValue::Text(id.to_string()),
        }],
        old_tuple: vec![],
    }
}

fn keepalive(flag: u8) -> Vec<u8> {
    let mut frame: Vec<u8> = vec![b'k'];
    frame.extend_from_slice(&[0u8; 16]);
    frame.push(flag);
    frame
}

fn clock_of(reply: &[u8]) -> u64 {
    let mut field = [0u8; 8];
    field.copy_from_slice(&reply[25..33]);
    u64::from_be_bytes(field)
}

#[test]
fn end_to_end_scenario() {
    let mut session = Session::new();
    let begin = session.on_frame(&boundary_frame(3, 5, 100), NOW).unwrap();
    assert!(begin.published.is_none() && begin.reply.is_none());
    let insert = session.on_frame(&change_frame(0, "t", "a"), NOW).unwrap();
    assert!(insert.published.is_none() && insert.reply.is_none());
    let update = session.on_frame(&change_frame(1, "t", "a"), NOW).unwrap();
    assert!(update.published.is_none() && update.reply.is_none());
    assert!(!session.is_idle());
    let commit = session.on_frame(&boundary_frame(4, 5, 100), NOW).unwrap();
    assert!(commit.reply.is_none());
    assert_eq!(
        commit.published,
        Some(Transaction {
            xid: 5,
            commit_time: 100,
            events: vec![change(Op::Insert, "t", "a"), change(Op::Update, "t", "a")],
        })
    );
    assert!(session.is_idle());
    assert_eq!(session.end_of_stream(), StreamEnd::Clean);
}

#[test]
fn orphan_data_frame_is_a_fatal_violation() {
    let mut session = Session::new();
    let error = session.on_frame(&change_frame(0, "t", "a"), NOW).unwrap_err();
    assert_eq!(error, SessionError::Protocol(ProtocolViolation::OrphanRecord));
    assert!(error.is_fatal());
    assert!(session.is_idle());
}

#[test]
fn second_begin_is_a_fatal_violation_and_drops_the_transaction() {
    let mut session = Session::new();
    session.on_frame(&boundary_frame(3, 1, 1), NOW).unwrap();
    session.on_frame(&change_frame(0, "t", "a"), NOW).unwrap();
    let error = session.on_frame(&boundary_frame(3, 2, 2), NOW).unwrap_err();
    assert_eq!(error, SessionError::Protocol(ProtocolViolation::NestedBegin));
    assert!(error.is_fatal());
    assert!(session.is_idle());
    assert_eq!(session.end_of_stream(), StreamEnd::Clean);
}

#[test]
fn keepalive_with_reply_request_is_answered_once() {
    let mut session = Session::new();
    let reaction = session.on_frame(&keepalive(1), NOW).unwrap();
    assert!(reaction.published.is_none());
    let reply = reaction.reply.unwrap();
    assert_eq!(reply.len(), 34);
    assert_eq!(reply[0], b'r');
    assert_eq!(&reply[1..25], &[0u8; 24]);
    assert_eq!(clock_of(&reply), NOW - 946_684_800_000_000);
    assert_eq!(reply[33], 1);
    assert!(session.is_idle());
}

#[test]
fn later_replies_bear_later_clocks() {
    let mut session = Session::new();
    let first = session.on_frame(&keepalive(1), NOW).unwrap().reply.unwrap();
    let second = session.on_frame(&keepalive(1), NOW + 250).unwrap().reply.unwrap();
    let third = session.on_frame(&keepalive(1), NOW + 250).unwrap().reply.unwrap();
    assert!(clock_of(&first) <= clock_of(&second));
    assert_eq!(clock_of(&second) - clock_of(&first), 250);
    assert_eq!(clock_of(&second), clock_of(&third));
}

#[test]
fn keepalive_without_reply_request_calls_for_nothing() {
    let mut session = Session::new();
    let reaction = session.on_frame(&keepalive(0), 0).unwrap();
    assert!(reaction.published.is_none() && reaction.reply.is_none());
}

#[test]
fn keepalive_inside_a_transaction_leaves_it_open() {
    let mut session = Session::new();
    session.on_frame(&boundary_frame(3, 8, 9), NOW).unwrap();
    session.on_frame(&change_frame(0, "t", "a"), NOW).unwrap();
    assert!(session.on_frame(&keepalive(1), NOW).unwrap().reply.is_some());
    let committed = session.on_frame(&boundary_frame(4, 0, 0), NOW).unwrap().published.unwrap();
    assert_eq!(committed.xid, 8);
    assert_eq!(committed.events.len(), 1);
}

#[test]
fn reply_before_the_year_2000_is_refused() {
    let mut session = Session::new();
    let error = session.on_frame(&keepalive(1), 946_684_799_999_999).unwrap_err();
    assert_eq!(error, SessionError::ClockBeforeEpoch);
    assert!(error.is_fatal());
    assert!(status_reply(946_684_799_999_999).is_none());
}

#[test]
fn handshake_frame_is_a_status_update() {
    let reply = status_reply(946_684_800_000_001).unwrap();
    let mut expected = [0u8; 34];
    expected[0] = b'r';
    expected[32] = 1;
    expected[33] = 1;
    assert_eq!(&reply[..], &expected[..]);
}

#[test]
fn bad_frames_are_skipped() {
    let mut session = Session::new();
    session.on_frame(&boundary_frame(3, 1, 1), NOW).unwrap();
    let error = session.on_frame(&[b'?', 1, 2, 3], NOW).unwrap_err();
    assert_eq!(error, SessionError::Frame(FrameError::UnknownTag(b'?')));
    assert!(!error.is_fatal());
    let error = session.on_frame(&[], NOW).unwrap_err();
    assert_eq!(error, SessionError::Frame(FrameError::Truncated));
    let error = session.on_frame(&[b'k', 0], NOW).unwrap_err();
    assert_eq!(error, SessionError::Frame(FrameError::Truncated));
    assert!(!session.is_idle());
    assert!(!session.is_resyncing());
    let committed = session.on_frame(&boundary_frame(4, 0, 0), NOW).unwrap().published.unwrap();
    assert_eq!(committed.xid, 1);
}

#[test]
fn decode_error_drops_the_transaction_and_resynchronises() {
    let mut session = Session::new();
    session.on_frame(&boundary_frame(3, 1, 1), NOW).unwrap();
    session.on_frame(&change_frame(0, "t", "a"), NOW).unwrap();
    let error = session.on_frame(&frame_of(&[0xff]), NOW).unwrap_err();
    assert_eq!(error, SessionError::Decode(DecodeError::Malformed));
    assert!(!error.is_fatal());
    assert!(session.is_idle());
    assert!(session.is_resyncing());
    session.on_frame(&boundary_frame(3, 2, 2), NOW).unwrap();
    assert!(!session.is_resyncing());
    let committed = session.on_frame(&boundary_frame(4, 0, 0), NOW).unwrap().published.unwrap();
    assert_eq!(committed, Transaction { xid: 2, commit_time: 2, events: vec![] });
}

#[test]
fn second_decode_error_while_resynchronising_is_fatal() {
    let mut session = Session::new();
    let first = session.on_frame(&change_frame(9, "t", "a"), NOW).unwrap_err();
    assert_eq!(first, SessionError::Decode(DecodeError::UnknownOperation));
    let second = session.on_frame(&frame_of(&[]), NOW).unwrap_err();
    assert_eq!(second, SessionError::ResyncFailed(DecodeError::MissingOperation));
    assert!(second.is_fatal());
}

#[test]
fn data_after_a_decode_error_is_an_orphan() {
    let mut session = Session::new();
    session.on_frame(&boundary_frame(3, 1, 1), NOW).unwrap();
    session.on_frame(&frame_of(&[0x08]), NOW).unwrap_err();
    let error = session.on_frame(&change_frame(0, "t", "a"), NOW).unwrap_err();
    assert_eq!(error, SessionError::Protocol(ProtocolViolation::OrphanRecord));
}

#[test]
fn stream_end_while_idle_is_clean() {
    assert_eq!(Session::new().end_of_stream(), StreamEnd::Clean);
}

#[test]
fn stream_end_inside_a_transaction_discards_it() {
    let mut session = Session::new();
    session.on_frame(&boundary_frame(3, 77, 1), NOW).unwrap();
    session.on_frame(&change_frame(0, "t", "a"), NOW).unwrap();
    session.on_frame(&change_frame(2, "t", "b"), NOW).unwrap();
    assert_eq!(session.end_of_stream(), StreamEnd::Discarded { xid: 77, records: 2 });
}

#[test]
fn handle_publishes_committed_transactions() {
    let publisher = Publisher::new(4).unwrap();
    let mut subscription = publisher.subscribe();
    let mut session = Session::new();
    let begin = session.handle(&boundary_frame(3, 5, 100), NOW, &publisher).unwrap();
    assert!(begin.delivery.is_none());
    assert_eq!(subscription.poll(), Delivery::Empty);
    session.handle(&change_frame(0, "t", "a"), NOW, &publisher).unwrap();
    assert_eq!(subscription.poll(), Delivery::Empty);
    let commit = session.handle(&boundary_frame(4, 0, 0), NOW, &publisher).unwrap();
    assert_eq!(commit.delivery, Some(Ok(1)));
    assert!(commit.reply.is_none());
    assert_eq!(
        subscription.poll(),
        Delivery::Transaction(Transaction {
            xid: 5,
            commit_time: 100,
            events: vec![change(Op::Insert, "t", "a")],
        })
    );
    assert_eq!(subscription.poll(), Delivery::Empty);
}

#[test]
fn handle_returns_the_transaction_when_nobody_listens() {
    let publisher = Publisher::new(4).unwrap();
    let mut session = Session::new();
    session.handle(&boundary_frame(3, 5, 100), NOW, &publisher).unwrap();
    let commit = session.handle(&boundary_frame(4, 0, 0), NOW, &publisher).unwrap();
    assert_eq!(
        commit.delivery,
        Some(Err(PublishError::NoSubscribers(Transaction {
            xid: 5,
            commit_time: 100,
            events: vec![],
        })))
    );
}

#[test]
fn handle_passes_replies_and_errors_through() {
    let publisher = Publisher::with_default_capacity();
    let mut session = Session::new();
    let handled = session.handle(&keepalive(1), NOW, &publisher).unwrap();
    assert!(handled.delivery.is_none());
    assert_eq!(handled.reply.unwrap().len(), 34);
    let error = session.handle(&boundary_frame(4, 0, 0), NOW, &publisher).unwrap_err();
    assert_eq!(error, SessionError::Protocol(ProtocolViolation::OrphanRecord));
}

#[test]
fn groups_with_keepalives_among_them_end_clean() {
    let mut session = Session::new();
    let mut published: Vec<Transaction> = Vec::new();
    let mut replies: usize = 0;
    let frames: Vec<Vec<u8>> = vec![
        keepalive(1),
        boundary_frame(3, 1, 10),
        keepalive(0),
        change_frame(0, "t", "a"),
        keepalive(1),
        boundary_frame(4, 0, 0),
        vec![b'?'],
        boundary_frame(3, 2, 20),
        boundary_frame(4, 0, 0),
        keepalive(1),
    ];
    for frame in &frames {
        match session.on_frame(frame, NOW) {
            Ok(reaction) => {
                published.extend(reaction.published);
                replies += reaction.reply.iter().count();
            }
            Err(error) => assert_eq!(error, SessionError::Frame(FrameError::UnknownTag(b'?'))),
        }
    }
    assert_eq!(
        published,
        vec![
            Transaction { xid: 1, commit_time: 10, events: vec![change(Op::Insert, "t", "a")] },
            Transaction { xid: 2, commit_time: 20, events: vec![] },
        ]
    );
    assert_eq!(replies, 3);
    assert_eq!(session.end_of_stream(), StreamEnd::Clean);
}

#[test]
fn empty_stream_ends_clean() {
    let session = Session::new();
    assert!(session.is_idle());
    assert_eq!(session.end_of_stream(), StreamEnd::Clean);
}
