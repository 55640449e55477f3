//! Codec for the frames of the streaming replication protocol.
//!
//! Two kinds of frame arrive from the server, told apart by their first byte:
//!
//! | tag | frame             | layout after the tag                                   |
//! |-----|-------------------|--------------------------------------------------------|
//! | `w` | change data       | start LSN (8), end LSN (8), server clock (8), payload   |
//! | `k` | primary keepalive | end LSN (8), server clock (8), reply requested (1)      |
//!
//! One kind is sent back:
//!
//! | tag | frame                 | layout after the tag                                          |
//! |-----|-----------------------|---------------------------------------------------------------|
//! | `r` | standby status update | written LSN (8), flushed LSN (8), applied LSN (8), client clock (8), reply requested (1) |
//!
//! All integers are big-endian. Clocks count microseconds since
//! 2000-01-01T00:00:00Z.
use crate::buffer::buffer_bytes;
use crate::buffer::put_u64;
use crate::buffer::put_u8;
use crate::buffer::with_capacity;
use vstd::prelude::*;
use vstd::slice::slice_subrange;
use vstd::slice::slice_to_vec;

verus! {

/// Tag byte of a change-data frame, `w`.
pub const TAG_XLOG_DATA: u8 = 0x77;

/// Tag byte of a primary keepalive frame, `k`.
pub const TAG_KEEPALIVE: u8 = 0x6b;

/// Tag byte of a standby status update frame, `r`.
pub const TAG_STATUS_UPDATE: u8 = 0x72;

/// Length of the header of a change-data frame, tag included.
pub const XLOG_HEADER_LEN: usize = 25;

/// Length of a primary keepalive frame, tag included.
pub const KEEPALIVE_LEN: usize = 18;

/// Length of a standby status update frame, tag included.
pub const STATUS_UPDATE_LEN: usize = 34;

/// Microseconds from 1970-01-01T00:00:00Z to 2000-01-01T00:00:00Z.
pub const POSTGRES_EPOCH_UNIX_MICROS: u64 = 946_684_800_000_000;

/// The unsigned integer that the eight bytes of `s` starting at `at` spell in
/// big-endian order.
pub open spec fn be_u64(s: Seq<u8>, at: int) -> u64 {
    (s[at] as int * 0x100_0000_0000_0000 + s[at + 1] as int * 0x1_0000_0000_0000 + s[at + 2] as int
        * 0x100_0000_0000 + s[at + 3] as int * 0x1_0000_0000 + s[at + 4] as int * 0x100_0000 + s[at
        + 5] as int * 0x1_0000 + s[at + 6] as int * 0x100 + s[at + 7] as int) as u64
}

/// The eight bytes that spell `n` in big-endian order.
pub open spec fn be_bytes(n: u64) -> Seq<u8> {
    seq![
        (n / 0x100_0000_0000_0000) as u8,
        (n / 0x1_0000_0000_0000 % 0x100) as u8,
        (n / 0x100_0000_0000 % 0x100) as u8,
        (n / 0x1_0000_0000 % 0x100) as u8,
        (n / 0x100_0000 % 0x100) as u8,
        (n / 0x1_0000 % 0x100) as u8,
        (n / 0x100 % 0x100) as u8,
        (n % 0x100) as u8,
    ]
}

/// The bytes of `n` weighted by their place add up to `n`.
proof fn lemma_be_digits(n: u64)
    ensures
        n == (n / 0x100_0000_0000_0000) * 0x100_0000_0000_0000 + (n / 0x1_0000_0000_0000 % 0x100)
            * 0x1_0000_0000_0000 + (n / 0x100_0000_0000 % 0x100) * 0x100_0000_0000 + (n
            / 0x1_0000_0000 % 0x100) * 0x1_0000_0000 + (n / 0x100_0000 % 0x100) * 0x100_0000 + (n
            / 0x1_0000 % 0x100) * 0x1_0000 + (n / 0x100 % 0x100) * 0x100 + n % 0x100,
        n / 0x100_0000_0000_0000 < 0x100,
{
    assert(n == (n / 0x100_0000_0000_0000) * 0x100_0000_0000_0000 + (n / 0x1_0000_0000_0000
        % 0x100) * 0x1_0000_0000_0000 + (n / 0x100_0000_0000 % 0x100) * 0x100_0000_0000 + (n
        / 0x1_0000_0000 % 0x100) * 0x1_0000_0000 + (n / 0x100_0000 % 0x100) * 0x100_0000 + (n
        / 0x1_0000 % 0x100) * 0x1_0000 + (n / 0x100 % 0x100) * 0x100 + n % 0x100) by (bit_vector);
    assert(n / 0x100_0000_0000_0000 < 0x100) by (bit_vector);
}

/// Where the bytes written for `n` stand in `s`, reading gives `n` back.
pub proof fn lemma_be_round_trip(n: u64, s: Seq<u8>, at: int)
    requires
        0 <= at,
        at + 8 <= s.len(),
        s.subrange(at, at + 8) == be_bytes(n),
    ensures
        be_u64(s, at) == n,
{
    let d = s.subrange(at, at + 8);
    assert(s[at] == d[0]);
    assert(s[at + 1] == d[1]);
    assert(s[at + 2] == d[2]);
    assert(s[at + 3] == d[3]);
    assert(s[at + 4] == d[4]);
    assert(s[at + 5] == d[5]);
    assert(s[at + 6] == d[6]);
    assert(s[at + 7] == d[7]);
    lemma_be_digits(n);
}

/// A frame received from the server.
#[derive(Clone, Debug, PartialEq, Eq)]
pub enum Frame {
    /// A piece of the write-ahead log. `payload` is one encoded change record.
    XLogData { start_lsn: u64, end_lsn: u64, server_clock: u64, payload: Vec<u8> },
    /// A sign of life. When `reply_requested` is set the server expects a
    /// status update at once.
    PrimaryKeepalive { end_lsn: u64, server_clock: u64, reply_requested: bool },
}

/// Model of a [`Frame`].
pub enum FrameView {
    XLogData { start_lsn: u64, end_lsn: u64, server_clock: u64, payload: Seq<u8> },
    PrimaryKeepalive { end_lsn: u64, server_clock: u64, reply_requested: bool },
}

impl View for Frame {
    type V = FrameView;

    open spec fn view(&self) -> FrameView {
        match *self {
            Frame::XLogData { start_lsn, end_lsn, server_clock, payload } => FrameView::XLogData {
                start_lsn,
                end_lsn,
                server_clock,
                payload: payload@,
            },
            Frame::PrimaryKeepalive {
                end_lsn,
                server_clock,
                reply_requested,
            } => FrameView::PrimaryKeepalive { end_lsn, server_clock, reply_requested },
        }
    }
}

/// Why a byte buffer is not a frame.
#[derive(Clone, Copy, Debug, PartialEq, Eq, Structural)]
pub enum FrameError {
    /// The buffer is shorter than the layout that its tag announces, or empty.
    Truncated,
    /// The first byte is neither `w` nor `k`.
    UnknownTag(u8),
}

/// What a received buffer means as a frame.
pub open spec fn spec_parse_frame(s: Seq<u8>) -> Result<FrameView, FrameError> {
    if s.len() == 0 {
        Err(FrameError::Truncated)
    } else if s[0] == TAG_XLOG_DATA {
        if s.len() < XLOG_HEADER_LEN {
            Err(FrameError::Truncated)
        } else {
            Ok(
                FrameView::XLogData {
                    start_lsn: be_u64(s, 1),
                    end_lsn: be_u64(s, 9),
                    server_clock: be_u64(s, 17),
                    payload: s.subrange(XLOG_HEADER_LEN as int, s.len() as int),
                },
            )
        }
    } else if s[0] == TAG_KEEPALIVE {
        if s.len() < KEEPALIVE_LEN {
            Err(FrameError::Truncated)
        } else {
            Ok(
                FrameView::PrimaryKeepalive {
                    end_lsn: be_u64(s, 1),
                    server_clock: be_u64(s, 9),
                    reply_requested: s[17] == 1,
                },
            )
        }
    } else {
        Err(FrameError::UnknownTag(s[0]))
    }
}

/// The view of a parse result.
pub open spec fn parsed_view(r: Result<Frame, FrameError>) -> Result<FrameView, FrameError> {
    match r {
        Ok(frame) => Ok(frame@),
        Err(e) => Err(e),
    }
}

/// Reads the big-endian integer that starts at `at`.
pub fn read_be_u64(bytes: &[u8], at: usize) -> (n: u64)
    requires
        at + 8 <= bytes@.len(),
    ensures
        n == be_u64(bytes@, at as int),
{
    let b0: u64 = bytes[at] as u64;
    let b1: u64 = bytes[at + 1] as u64;
    let b2: u64 = bytes[at + 2] as u64;
    let b3: u64 = bytes[at + 3] as u64;
    let b4: u64 = bytes[at + 4] as u64;
    let b5: u64 = bytes[at + 5] as u64;
    let b6: u64 = bytes[at + 6] as u64;
    let b7: u64 = bytes[at + 7] as u64;
    b0 * 0x100_0000_0000_0000 + b1 * 0x1_0000_0000_0000 + b2 * 0x100_0000_0000 + b3
        * 0x1_0000_0000 + b4 * 0x100_0000 + b5 * 0x1_0000 + b6 * 0x100 + b7
}

/// Classifies a received buffer and reads its fields.
///
/// Bytes after the declared layout of a keepalive are ignored.
pub fn parse_frame(bytes: &[u8]) -> (r: Result<Frame, FrameError>)
    ensures
        parsed_view(r) == spec_parse_frame(bytes@),
{
    if bytes.len() == 0 {
        return Err(FrameError::Truncated);
    }
    let tag = bytes[0];
    if tag == TAG_XLOG_DATA {
        if bytes.len() < XLOG_HEADER_LEN {
            return Err(FrameError::Truncated);
        }
        let start_lsn = read_be_u64(bytes, 1);
        let end_lsn = read_be_u64(bytes, 9);
        let server_clock = read_be_u64(bytes, 17);
        let payload = slice_to_vec(slice_subrange(bytes, XLOG_HEADER_LEN, bytes.len()));
        Ok(Frame::XLogData { start_lsn, end_lsn, server_clock, payload })
    } else if tag == TAG_KEEPALIVE {
        if bytes.len() < KEEPALIVE_LEN {
            return Err(FrameError::Truncated);
        }
        let end_lsn = read_be_u64(bytes, 1);
        let server_clock = read_be_u64(bytes, 9);
        let reply_requested = bytes[17] == 1;
        Ok(Frame::PrimaryKeepalive { end_lsn, server_clock, reply_requested })
    } else {
        Err(FrameError::UnknownTag(tag))
    }
}

/// The clock value of the replication protocol for a time given in
/// microseconds since the Unix epoch: the microseconds since the start of the
/// year 2000. Earlier times have no clock value.
pub open spec fn spec_postgres_clock(unix_micros: u64) -> Option<u64> {
    if unix_micros >= POSTGRES_EPOCH_UNIX_MICROS {
        Some((unix_micros - POSTGRES_EPOCH_UNIX_MICROS) as u64)
    } else {
        None
    }
}

/// Converts a Unix time in microseconds to the protocol's clock.
pub fn postgres_clock(unix_micros: u64) -> (r: Option<u64>)
    ensures
        r == spec_postgres_clock(unix_micros),
{
    if unix_micros >= POSTGRES_EPOCH_UNIX_MICROS {
        Some(unix_micros - POSTGRES_EPOCH_UNIX_MICROS)
    } else {
        None
    }
}

/// A later time never has an earlier clock value.
pub proof fn lemma_postgres_clock_monotone(earlier: u64, later: u64)
    requires
        earlier <= later,
        spec_postgres_clock(earlier) is Some,
    ensures
        spec_postgres_clock(later) is Some,
        spec_postgres_clock(earlier)->Some_0 <= spec_postgres_clock(later)->Some_0,
{
}

/// The bytes of a standby status update.
pub open spec fn status_update_bytes(
    written_lsn: u64,
    flushed_lsn: u64,
    applied_lsn: u64,
    client_clock: u64,
    reply_requested: bool,
) -> Seq<u8> {
    seq![TAG_STATUS_UPDATE] + be_bytes(written_lsn) + be_bytes(flushed_lsn) + be_bytes(applied_lsn)
        + be_bytes(client_clock) + seq![if reply_requested { 1u8 } else { 0u8 }]
}

/// Where each field of a status update stands: the tag first, the three
/// positions at offsets 1, 9 and 17, the clock at offset 25, the flag last.
pub proof fn lemma_status_update_layout(
    written_lsn: u64,
    flushed_lsn: u64,
    applied_lsn: u64,
    client_clock: u64,
    reply_requested: bool,
)
    ensures
        ({
            let s = status_update_bytes(
                written_lsn,
                flushed_lsn,
                applied_lsn,
                client_clock,
                reply_requested,
            );
            &&& s.len() == STATUS_UPDATE_LEN
            &&& s[0] == TAG_STATUS_UPDATE
            &&& be_u64(s, 1) == written_lsn
            &&& be_u64(s, 9) == flushed_lsn
            &&& be_u64(s, 17) == applied_lsn
            &&& be_u64(s, 25) == client_clock
            &&& s[33] == (if reply_requested { 1u8 } else { 0u8 })
        }),
{
    let w = be_bytes(written_lsn);
    let f = be_bytes(flushed_lsn);
    let a = be_bytes(applied_lsn);
    let c = be_bytes(client_clock);
    let s = status_update_bytes(written_lsn, flushed_lsn, applied_lsn, client_clock, reply_requested);
    assert(w.len() == 8 && f.len() == 8 && a.len() == 8 && c.len() == 8);
    assert(s.len() == 34);
    assert(s.subrange(1, 9) =~= w);
    assert(s.subrange(9, 17) =~= f);
    assert(s.subrange(17, 25) =~= a);
    assert(s.subrange(25, 33) =~= c);
    lemma_be_round_trip(written_lsn, s, 1);
    lemma_be_round_trip(flushed_lsn, s, 9);
    lemma_be_round_trip(applied_lsn, s, 17);
    lemma_be_round_trip(client_clock, s, 25);
}

/// Builds a standby status update in a fresh buffer.
pub fn encode_status_update(
    written_lsn: u64,
    flushed_lsn: u64,
    applied_lsn: u64,
    client_clock: u64,
    reply_requested: bool,
) -> (buf: bytes::BytesMut)
    ensures
        buffer_bytes(buf) == status_update_bytes(
            written_lsn,
            flushed_lsn,
            applied_lsn,
            client_clock,
            reply_requested,
        ),
{
    let mut buf = with_capacity(STATUS_UPDATE_LEN);
    put_u8(&mut buf, TAG_STATUS_UPDATE);
    put_u64(&mut buf, written_lsn);
    put_u64(&mut buf, flushed_lsn);
    put_u64(&mut buf, applied_lsn);
    put_u64(&mut buf, client_clock);
    let flag: u8 = if reply_requested {
        1
    } else {
        0
    };
    put_u8(&mut buf, flag);
    assert(buffer_bytes(buf) =~= status_update_bytes(
        written_lsn,
        flushed_lsn,
        applied_lsn,
        client_clock,
        reply_requested,
    ));
    buf
}

} // verus!
