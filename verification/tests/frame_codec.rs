use logicaldecoding::frame::encode_status_update;
use logicaldecoding::frame::parse_frame;
use logicaldecoding::frame::postgres_clock;
use logicaldecoding::frame::read_be_u64;
use logicaldecoding::frame::Frame;
use logicaldecoding::frame::FrameError;
use logicaldecoding::frame::POSTGRES_EPOCH_UNIX_MICROS;

fn xlog_frame(start_lsn: u64, end_lsn: u64, clock: u64, payload: &[u8]) -> Vec<u8> {
    let mut frame: Vec<u8> = vec![b'w'];
    frame.extend_from_slice(&start_lsn.to_be_bytes());
    frame.extend_from_slice(&end_lsn.to_be_bytes());
    frame.extend_from_slice(&clock.to_be_bytes());
    frame.extend_from_slice(payload);
    frame
}

fn keepalive_frame(end_lsn: u64, clock: u64, flag: u8) -> Vec<u8> {
    let mut frame: Vec<u8> = vec![b'k'];
    frame.extend_from_slice(&end_lsn.to_be_bytes());
    frame.extend_from_slice(&clock.to_be_bytes());
    frame.push(flag);
    frame
}

#[test]
fn parses_change_data_frame() {
    let frame = xlog_frame(0x0102_0304_0506_0708, 22, 33, &[9, 8, 7]);
    assert_eq!(
        parse_frame(&frame),
        Ok(Frame::XLogData {
            start_lsn: 0x0102_0304_0506_0708,
            end_lsn: 22,
            server_clock: 33,
            payload: vec![9, 8, 7],
        })
    );
}

#[test]
fn parses_change_data_frame_with_empty_payload() {
    let frame = xlog_frame(1, 2, 3, &[]);
    assert_eq!(frame.len(), 25);
    assert_eq!(
        parse_frame(&frame),
        Ok(Frame::XLogData { start_lsn: 1, end_lsn: 2, server_clock: 3, payload: vec![] })
    );
}

#[test]
fn parses_keepalive_with_and_without_reply_request() {
    assert_eq!(
        parse_frame(&keepalive_frame(u64::MAX, 7, 1)),
        Ok(Frame::PrimaryKeepalive { end_lsn: u64::MAX, server_clock: 7, reply_requested: true })
    );
    assert_eq!(
        parse_frame(&keepalive_frame(5, 7, 0)),
        Ok(Frame::PrimaryKeepalive { end_lsn: 5, server_clock: 7, reply_requested: false })
    );
}

#[test]
fn keepalive_flag_is_read_at_its_offset() {
    let mut frame = keepalive_frame(5, 7, 0);
    frame.push(1);
    assert_eq!(
        parse_frame(&frame),
        Ok(Frame::PrimaryKeepalive { end_lsn: 5, server_clock: 7, reply_requested: false })
    );
}

#[test]
fn rejects_empty_buffer() {
    assert_eq!(parse_frame(&[]), Err(FrameError::Truncated));
}

#[test]
fn rejects_unknown_tag() {
    assert_eq!(parse_frame(&[b'x', 0, 0]), Err(FrameError::UnknownTag(b'x')));
    assert_eq!(parse_frame(&[b'r']), Err(FrameError::UnknownTag(b'r')));
}

#[test]
fn rejects_short_frames() {
    let xlog = xlog_frame(1, 2, 3, &[]);
    assert_eq!(parse_frame(&xlog[..24]), Err(FrameError::Truncated));
    assert_eq!(parse_frame(&xlog[..1]), Err(FrameError::Truncated));
    let keepalive = keepalive_frame(1, 2, 1);
    assert_eq!(keepalive.len(), 18);
    assert_eq!(parse_frame(&keepalive[..17]), Err(FrameError::Truncated));
}

#[test]
fn reads_big_endian_integers() {
    let bytes: [u8; 10] = [0xff, 0x01, 0x02, 0x03, 0x04, 0x05, 0x06, 0x07, 0x08, 0xff];
    assert_eq!(read_be_u64(&bytes, 1), 0x0102_0304_0506_0708);
    assert_eq!(read_be_u64(&[0xff; 8], 0), u64::MAX);
}

#[test]
fn status_update_has_the_documented_layout() {
    let frame = encode_status_update(1, 2, 3, 0x1122_3344_5566_7788, true);
    let expected: [u8; 34] = [
        b'r', 0, 0, 0, 0, 0, 0, 0, 1, 0, 0, 0, 0, 0, 0, 0, 2, 0, 0, 0, 0, 0, 0, 0, 3, 0x11, 0x22,
        0x33, 0x44, 0x55, 0x66, 0x77, 0x88, 1,
    ];
    assert_eq!(&frame[..], &expected[..]);
}

#[test]
fn status_update_without_reply_request_ends_in_zero() {
    let frame = encode_status_update(u64::MAX, 0, 0, 0, false);
    assert_eq!(frame.len(), 34);
    assert_eq!(&frame[1..9], &[0xff; 8]);
    assert_eq!(frame[33], 0);
}

#[test]
fn clock_counts_from_the_year_2000() {
    assert_eq!(POSTGRES_EPOCH_UNIX_MICROS, 946_684_800_000_000);
    assert_eq!(postgres_clock(946_684_800_000_000), Some(0));
    assert_eq!(postgres_clock(946_684_800_000_005), Some(5));
    assert_eq!(postgres_clock(1_700_000_000_000_000), Some(753_315_200_000_000));
    assert_eq!(postgres_clock(u64::MAX), Some(u64::MAX - 946_684_800_000_000));
}

#[test]
fn clock_has_no_value_before_the_year_2000() {
    assert_eq!(postgres_clock(946_684_799_999_999), None);
    assert_eq!(postgres_clock(0), None);
}
