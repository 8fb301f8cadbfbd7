//! The wire envelope: a length of four little-endian bytes, then exactly that
//! many bytes of payload, frame after frame.
//!
//! This module says what a stream of bytes holds. [`scan`] looks at the front
//! of a buffer, [`drain`] takes every complete frame off it, and [`deliver`]
//! follows a stream as it arrives piece by piece. The laws at the end relate
//! them: frames come out in the order they went in, and how the transport cuts
//! the stream into pieces changes nothing.

use crate::applet::wire::fixed32;
use vstd::prelude::*;

verus! {

/// The number of bytes in a length prefix.
pub const PREFIX_LEN: usize = 4;

/// The largest payload length that a prefix can announce.
pub const MAX_FRAME_LEN: u32 = 0xffff_ffff;

/// The length that the first four bytes of `buffer` announce.
pub open spec fn declared_len(buffer: Seq<u8>) -> nat
    recommends
        buffer.len() >= 4,
{
    (buffer[0] as nat) + 256 * (buffer[1] as nat) + 65536 * (buffer[2] as nat) + 16777216 * (
    buffer[3] as nat)
}

/// The frame that carries `payload`.
pub open spec fn frame(payload: Seq<u8>) -> Seq<u8>
    recommends
        payload.len() <= MAX_FRAME_LEN,
{
    fixed32(payload.len() as u32) + payload
}

/// What stands at the front of a buffer.
pub enum Scan {
    /// Not yet a whole frame: the prefix or part of the payload is missing.
    Incomplete,
    /// A prefix that announces more than the reader accepts.
    TooLong { declared: nat },
    /// A whole frame, and the bytes behind it.
    Complete { payload: Seq<u8>, rest: Seq<u8> },
}

/// Looks at the front of `buffer`, for a reader that accepts payloads of up to
/// `limit` bytes. The length is judged as soon as its four bytes are there,
/// before any of the payload is.
pub open spec fn scan(buffer: Seq<u8>, limit: nat) -> Scan {
    if buffer.len() < 4 {
        Scan::Incomplete
    } else if declared_len(buffer) > limit {
        Scan::TooLong { declared: declared_len(buffer) }
    } else if buffer.len() < 4 + declared_len(buffer) {
        Scan::Incomplete
    } else {
        Scan::Complete {
            payload: buffer.subrange(4, 4 + declared_len(buffer) as int),
            rest: buffer.skip(4 + declared_len(buffer) as int),
        }
    }
}

/// The payloads of all whole frames at the front of `buffer`, in order, and
/// the bytes that are left behind them.
pub open spec fn drain(buffer: Seq<u8>, limit: nat) -> (Seq<Seq<u8>>, Seq<u8>)
    decreases buffer.len(),
{
    match scan(buffer, limit) {
        Scan::Complete { payload, rest } => {
            let (more, left) = drain(rest, limit);
            (seq![payload] + more, left)
        },
        _ => (Seq::empty(), buffer),
    }
}

/// The stream that carries `payloads` one frame after the other.
pub open spec fn frames(payloads: Seq<Seq<u8>>) -> Seq<u8>
    decreases payloads.len(),
{
    if payloads.len() == 0 {
        Seq::empty()
    } else {
        frame(payloads[0]) + frames(payloads.skip(1))
    }
}

/// The pieces of a stream put together again.
pub open spec fn joined(pieces: Seq<Seq<u8>>) -> Seq<u8>
    decreases pieces.len(),
{
    if pieces.len() == 0 {
        Seq::empty()
    } else {
        joined(pieces.drop_last()) + pieces.last()
    }
}

/// A reader that receives a stream piece by piece, and after each piece takes
/// every whole frame off its buffer: the payloads it has handed out so far,
/// and the bytes it still holds.
pub open spec fn deliver(pieces: Seq<Seq<u8>>, limit: nat) -> (Seq<Seq<u8>>, Seq<u8>)
    decreases pieces.len(),
{
    if pieces.len() == 0 {
        (Seq::empty(), Seq::empty())
    } else {
        let (before, held) = deliver(pieces.drop_last(), limit);
        let (now, left) = drain(held + pieces.last(), limit);
        (before + now, left)
    }
}

/// Whether every payload can be framed and is accepted by a reader with this
/// limit.
pub open spec fn all_fit(payloads: Seq<Seq<u8>>, limit: nat) -> bool {
    forall|i: int|
        0 <= i < payloads.len() ==> (#[trigger] payloads[i]).len() <= limit && payloads[i].len()
            <= MAX_FRAME_LEN
}

/// A prefix announces the length it was written for.
pub proof fn lemma_declared_len(payload: Seq<u8>, rest: Seq<u8>)
    requires
        payload.len() <= MAX_FRAME_LEN,
    ensures
        declared_len(frame(payload) + rest) == payload.len(),
        frame(payload).len() == 4 + payload.len(),
{
    let n = payload.len() as u32;
    let s = frame(payload) + rest;
    assert(s[0] == (n % 256) as u8);
    assert(s[1] == (n / 256 % 256) as u8);
    assert(s[2] == (n / 256 / 256 % 256) as u8);
    assert(s[3] == (n / 256 / 256 / 256) as u8);
}

/// A frame at the front of a buffer is found whole, with its payload, and
/// everything behind it is left.
pub proof fn lemma_scan_frame(payload: Seq<u8>, rest: Seq<u8>, limit: nat)
    requires
        payload.len() <= MAX_FRAME_LEN,
        payload.len() <= limit,
    ensures
        scan(frame(payload) + rest, limit) == (Scan::Complete { payload, rest }),
{
    lemma_declared_len(payload, rest);
    let s = frame(payload) + rest;
    assert(s.subrange(4, 4 + payload.len() as int) =~= payload);
    assert(s.skip(4 + payload.len() as int) =~= rest);
}

/// Until the last byte of a frame has arrived, no frame is found.
pub proof fn lemma_scan_partial(payload: Seq<u8>, arrived: int, limit: nat)
    requires
        payload.len() <= MAX_FRAME_LEN,
        payload.len() <= limit,
        0 <= arrived < frame(payload).len(),
    ensures
        scan(frame(payload).take(arrived), limit) == Scan::Incomplete,
{
    lemma_declared_len(payload, Seq::empty());
    let whole = frame(payload);
    let part = whole.take(arrived);
    if arrived >= 4 {
        assert(whole + Seq::<u8>::empty() =~= whole);
        assert(part[0] == whole[0] && part[1] == whole[1] && part[2] == whole[2] && part[3]
            == whole[3]);
    }
}

/// Bytes that arrive behind a whole frame, or behind a refused prefix, do not
/// change what stands at the front.
pub proof fn lemma_scan_more(buffer: Seq<u8>, more: Seq<u8>, limit: nat)
    ensures
        scan(buffer, limit) matches Scan::Complete { payload, rest } ==> scan(
            buffer + more,
            limit,
        ) == (Scan::Complete { payload, rest: rest + more }),
        scan(buffer, limit) is TooLong ==> scan(buffer + more, limit) == scan(buffer, limit),
{
    let longer = buffer + more;
    if buffer.len() >= 4 {
        assert(longer[0] == buffer[0] && longer[1] == buffer[1] && longer[2] == buffer[2]
            && longer[3] == buffer[3]);
        let n = declared_len(buffer) as int;
        if n <= limit && buffer.len() >= 4 + n {
            assert(longer.subrange(4, 4 + n) =~= buffer.subrange(4, 4 + n));
            assert(longer.skip(4 + n) =~= buffer.skip(4 + n) + more);
        }
    }
}

/// What is left after draining holds no whole frame, and draining it again
/// changes nothing.
pub proof fn lemma_drain_settles(buffer: Seq<u8>, limit: nat)
    ensures
        !(scan(drain(buffer, limit).1, limit) is Complete),
        drain(drain(buffer, limit).1, limit) == (Seq::<Seq<u8>>::empty(), drain(buffer, limit).1),
        drain(buffer, limit).1.len() <= buffer.len(),
    decreases buffer.len(),
{
    match scan(buffer, limit) {
        Scan::Complete { payload, rest } => {
            lemma_drain_settles(rest, limit);
        },
        _ => {},
    }
}

/// Draining a buffer, and then draining what is left together with the bytes
/// that arrived meanwhile, hands out the same payloads as draining all of it
/// at once.
pub proof fn lemma_drain_in_two(buffer: Seq<u8>, more: Seq<u8>, limit: nat)
    ensures
        drain(buffer + more, limit) == (
            drain(buffer, limit).0 + drain(drain(buffer, limit).1 + more, limit).0,
            drain(drain(buffer, limit).1 + more, limit).1,
        ),
    decreases buffer.len(),
{
    match scan(buffer, limit) {
        Scan::Complete { payload, rest } => {
            lemma_scan_more(buffer, more, limit);
            lemma_drain_in_two(rest, more, limit);
            let first = drain(rest, limit);
            let second = drain(first.1 + more, limit);
            assert(seq![payload] + (first.0 + second.0) =~= (seq![payload] + first.0) + second.0);
        },
        _ => {
            assert(Seq::<Seq<u8>>::empty() + drain(buffer + more, limit).0 =~= drain(
                buffer + more,
                limit,
            ).0);
        },
    }
}

/// Frames delivered in one read come out in the order in which they were
/// written, and no byte is left unexplained.
pub proof fn lemma_frames_in_order(payloads: Seq<Seq<u8>>, limit: nat)
    requires
        all_fit(payloads, limit),
    ensures
        drain(frames(payloads), limit) == (payloads, Seq::<u8>::empty()),
    decreases payloads.len(),
{
    if payloads.len() == 0 {
        assert(payloads =~= Seq::<Seq<u8>>::empty());
    } else {
        let tail = payloads.skip(1);
        assert(all_fit(tail, limit)) by {
            assert forall|i: int| 0 <= i < tail.len() implies (#[trigger] tail[i]).len() <= limit
                && tail[i].len() <= MAX_FRAME_LEN by {
                assert(tail[i] == payloads[i + 1]);
            }
        }
        lemma_frames_in_order(tail, limit);
        lemma_scan_frame(payloads[0], frames(tail), limit);
        assert(seq![payloads[0]] + tail =~= payloads);
    }
}

/// However the transport cuts a stream into pieces, a reader that drains
/// after every piece hands out what a reader would that got the stream in one
/// piece.
pub proof fn lemma_pieces_do_not_matter(pieces: Seq<Seq<u8>>, limit: nat)
    ensures
        deliver(pieces, limit) == drain(joined(pieces), limit),
    decreases pieces.len(),
{
    if pieces.len() == 0 {
    } else {
        lemma_pieces_do_not_matter(pieces.drop_last(), limit);
        lemma_drain_in_two(joined(pieces.drop_last()), pieces.last(), limit);
    }
}

/// A frame that arrives in any number of pieces, down to one byte at a time,
/// is handed out exactly once: the reader ends with that one payload and an
/// empty buffer.
pub proof fn lemma_split_frame_arrives_once(payload: Seq<u8>, pieces: Seq<Seq<u8>>, limit: nat)
    requires
        payload.len() <= MAX_FRAME_LEN,
        payload.len() <= limit,
        joined(pieces) == frame(payload),
    ensures
        deliver(pieces, limit) == (seq![payload], Seq::<u8>::empty()),
{
    lemma_pieces_do_not_matter(pieces, limit);
    lemma_scan_frame(payload, Seq::empty(), limit);
    assert(frame(payload) + Seq::<u8>::empty() =~= frame(payload));
    assert(drain(Seq::<u8>::empty(), limit) == (Seq::<Seq<u8>>::empty(), Seq::<u8>::empty()));
    assert(seq![payload] + Seq::<Seq<u8>>::empty() =~= seq![payload]);
}

} // verus!
