//! The reading and writing side of one connection, without the transport.
//!
//! A [`BufConnection`] owns the accumulator of one stream. The task that
//! drives the stream hands it every piece the transport delivers
//! ([`BufConnection::fill`]) and asks it for the next message
//! ([`BufConnection::parse_frame`]); the other direction turns one message
//! into the bytes to write ([`write_frame`]).

use crate::applet::buffer;
use crate::applet::buffer::{contents, largest_allocation};
use crate::applet::frame::{
    all_fit, declared_len, drain, frame, frames, lemma_frames_in_order, lemma_scan_frame,
    lemma_scan_partial, scan, Scan, MAX_FRAME_LEN, PREFIX_LEN,
};
use crate::applet::payload::{Payload, MAX_PAYLOAD};
use crate::applet::wire::fixed32;
use bytes::BytesMut;
use vstd::prelude::*;

verus! {

/// The room that a new accumulator starts with; it grows on demand.
pub const INITIAL_CAPACITY: usize = 4096;

/// Why a stream cannot be read any further. After any of these the
/// connection is to be closed: the stream holds no marker at which reading
/// could start again.
#[derive(Debug, Clone, Copy, PartialEq, Eq, Structural)]
pub enum FrameError {
    /// A prefix announces more bytes than this reader accepts.
    TooLong { declared: u32 },
    /// A whole frame arrived, and its payload stands for no message.
    Malformed,
    /// The stream ended in the middle of a frame.
    ConnectionReset,
    /// The pieces handed in do not fit into memory together.
    BufferFull,
}

/// Why a read on a connection gave no message.
#[derive(Debug, Clone, Copy, PartialEq, Eq, Structural)]
pub enum ReadError {
    /// The stream cannot be decoded any further.
    Frame(FrameError),
    /// The transport failed.
    Transport,
}

/// The two states of the decoder.
#[derive(Debug, Clone, Copy, PartialEq, Eq, Structural)]
pub enum DecodeState {
    /// Fewer than four bytes are held: the length is not known yet.
    AwaitingLength,
    /// The length is known, and `missing` bytes of the frame are still to
    /// come. With `missing` at zero a whole frame is held.
    AwaitingPayload { length: u32, missing: u32 },
}

/// What became of a piece handed to [`BufConnection::fill`].
#[derive(Debug, Clone, Copy, PartialEq, Eq, Structural)]
pub enum Fill {
    /// The stream goes on: there is something to parse, now or later.
    More,
    /// The stream ended between two frames: there are no more messages.
    End,
}

/// What a reader that holds `held` makes of the next piece of its stream. An
/// empty piece is the end of the stream.
pub open spec fn fill_outcome(held: Seq<u8>, limit: nat, piece: Seq<u8>) -> Result<
    Fill,
    FrameError,
> {
    if piece.len() > 0 {
        if held.len() + piece.len() <= largest_allocation() {
            Ok(Fill::More)
        } else {
            Err(FrameError::BufferFull)
        }
    } else if held.len() == 0 {
        Ok(Fill::End)
    } else if scan(held, limit) is Complete {
        Ok(Fill::More)
    } else {
        Err(FrameError::ConnectionReset)
    }
}

/// The accumulator of one stream and the decoder that works on it.
pub struct BufConnection {
    buffer: BytesMut,
    max_frame_len: u32,
}

impl BufConnection {
    /// The bytes that have arrived and belong to no message handed out yet.
    pub closed spec fn held(&self) -> Seq<u8> {
        contents(&self.buffer)
    }

    /// The longest payload that this reader accepts.
    pub closed spec fn limit(&self) -> nat {
        self.max_frame_len as nat
    }

    /// A reader that holds nothing and accepts every length that a prefix can
    /// announce.
    pub fn new() -> (r: Self)
        ensures
            r.held() == Seq::<u8>::empty(),
            r.limit() == MAX_FRAME_LEN,
    {
        BufConnection { buffer: buffer::with_capacity(INITIAL_CAPACITY), max_frame_len: MAX_FRAME_LEN }
    }

    /// A reader that holds nothing and accepts payloads of up to
    /// `max_frame_len` bytes.
    pub fn with_max_frame_len(max_frame_len: u32) -> (r: Self)
        ensures
            r.held() == Seq::<u8>::empty(),
            r.limit() == max_frame_len,
    {
        BufConnection { buffer: buffer::with_capacity(INITIAL_CAPACITY), max_frame_len }
    }

    /// The longest payload that this reader accepts.
    pub fn max_frame_len(&self) -> (r: u32)
        ensures
            r == self.limit(),
    {
        self.max_frame_len
    }

    /// The number of bytes held.
    pub fn buffered(&self) -> (r: usize)
        ensures
            r == self.held().len(),
    {
        buffer::len(&self.buffer)
    }

    /// Whether nothing is held.
    pub fn is_empty(&self) -> (r: bool)
        ensures
            r == (self.held().len() == 0),
    {
        buffer::len(&self.buffer) == 0
    }

    /// The decoder's state as a function of what is held.
    pub open spec fn spec_state(&self) -> DecodeState {
        if self.held().len() < 4 {
            DecodeState::AwaitingLength
        } else {
            let length = declared_len(self.held());
            let whole = 4 + length;
            DecodeState::AwaitingPayload {
                length: length as u32,
                missing: if self.held().len() >= whole {
                    0u32
                } else {
                    (whole - self.held().len()) as u32
                },
            }
        }
    }

    /// The decoder's state.
    pub fn state(&self) -> (r: DecodeState)
        ensures
            r == self.spec_state(),
    {
        let bytes = buffer::as_slice(&self.buffer);
        if bytes.len() < PREFIX_LEN {
            DecodeState::AwaitingLength
        } else {
            let length = read_prefix(bytes);
            let whole: u64 = 4 + length as u64;
            let have: u64 = bytes.len() as u64;
            DecodeState::AwaitingPayload {
                length,
                missing: if have >= whole {
                    0
                } else {
                    (whole - have) as u32
                },
            }
        }
    }

    /// Takes the next piece of the stream. An empty piece is the end of the stream.
    ///
    /// A piece with bytes in it is appended and the stream goes on. At the
    /// end of the stream an empty accumulator is a clean close, and one that
    /// holds part of a frame is a reset by the peer. Nothing is ever dropped:
    /// on an error, and at the end, what is held stays as it is.
    pub fn fill(&mut self, piece: &[u8]) -> (r: Result<Fill, FrameError>)
        ensures
            r == fill_outcome(old(self).held(), old(self).limit(), piece@),
            final(self).limit() == old(self).limit(),
            final(self).held() == if r is Ok {
                old(self).held() + piece@
            } else {
                old(self).held()
            },
    {
        let have = buffer::len(&self.buffer);
        if piece.len() > 0 {
            let fits = match have.checked_add(piece.len()) {
                Some(total) => total <= isize::MAX as usize,
                None => false,
            };
            if fits {
                buffer::extend_from_slice(&mut self.buffer, piece);
                Ok(Fill::More)
            } else {
                Err(FrameError::BufferFull)
            }
        } else {
            assert(old(self).held() + piece@ =~= old(self).held());
            if have == 0 {
                Ok(Fill::End)
            } else {
                match self.state() {
                    DecodeState::AwaitingPayload { length, missing } => {
                        if missing == 0 && length <= self.max_frame_len {
                            Ok(Fill::More)
                        } else {
                            Err(FrameError::ConnectionReset)
                        }
                    },
                    DecodeState::AwaitingLength => Err(FrameError::ConnectionReset),
                }
            }
        }
    }

    /// Takes the payload of the next frame off the accumulator.
    ///
    /// `Ok(None)` says that no whole frame is held yet. On an error and on
    /// `Ok(None)` nothing is consumed.
    pub fn next_payload(&mut self) -> (r: Result<Option<Vec<u8>>, FrameError>)
        ensures
            final(self).limit() == old(self).limit(),
            scan(old(self).held(), old(self).limit()) is Incomplete ==> r == Ok::<
                Option<Vec<u8>>,
                FrameError,
            >(None) && final(self).held() == old(self).held(),
            scan(old(self).held(), old(self).limit()) matches Scan::TooLong { declared } ==> r
                == Err::<Option<Vec<u8>>, FrameError>(
                FrameError::TooLong { declared: declared as u32 },
            ) && final(self).held() == old(self).held(),
            scan(old(self).held(), old(self).limit()) matches Scan::Complete { payload, rest }
                ==> (r matches Ok(Some(got)) && got@ == payload) && final(self).held() == rest,
    {
        let bytes = buffer::as_slice(&self.buffer);
        if bytes.len() < PREFIX_LEN {
            return Ok(None);
        }
        let length = read_prefix(bytes);
        if length > self.max_frame_len {
            return Err(FrameError::TooLong { declared: length });
        }
        if (bytes.len() as u64) < 4 + length as u64 {
            return Ok(None);
        }
        let end: usize = PREFIX_LEN + length as usize;
        let payload = vstd::slice::slice_to_vec(vstd::slice::slice_subrange(bytes, PREFIX_LEN, end));
        buffer::advance(&mut self.buffer, end);
        Ok(Some(payload))
    }

    /// Takes the next message off the accumulator.
    ///
    /// `Ok(None)` says that no whole frame is held yet. A frame is consumed
    /// only together with the message it carries: on an error and on
    /// `Ok(None)` nothing is consumed.
    pub fn parse_frame<T: Payload>(&mut self) -> (r: Result<Option<T>, FrameError>)
        ensures
            final(self).limit() == old(self).limit(),
            r == parsed::<T>(old(self).held(), old(self).limit()).0,
            final(self).held() == parsed::<T>(old(self).held(), old(self).limit()).1,
    {
        let bytes = buffer::as_slice(&self.buffer);
        if bytes.len() < PREFIX_LEN {
            return Ok(None);
        }
        let length = read_prefix(bytes);
        if length > self.max_frame_len {
            return Err(FrameError::TooLong { declared: length });
        }
        if (bytes.len() as u64) < 4 + length as u64 {
            return Ok(None);
        }
        let end: usize = PREFIX_LEN + length as usize;
        match T::decode(vstd::slice::slice_subrange(bytes, PREFIX_LEN, end)) {
            Some(message) => {
                buffer::advance(&mut self.buffer, end);
                Ok(Some(message))
            },
            None => Err(FrameError::Malformed),
        }
    }
}

/// What [`BufConnection::parse_frame`] returns on a reader that holds
/// `held`, and what the reader holds afterwards.
pub open spec fn parsed<T: Payload>(held: Seq<u8>, limit: nat) -> (
    Result<Option<T>, FrameError>,
    Seq<u8>,
) {
    match scan(held, limit) {
        Scan::Incomplete => (Ok(None), held),
        Scan::TooLong { declared } => (Err(FrameError::TooLong { declared: declared as u32 }), held),
        Scan::Complete { payload, rest } => match T::from_payload(payload) {
            Some(message) => (Ok(Some(message)), rest),
            None => (Err(FrameError::Malformed), held),
        },
    }
}

/// Reads the length that the first four bytes announce.
fn read_prefix(bytes: &[u8]) -> (length: u32)
    requires
        bytes@.len() >= 4,
    ensures
        length == declared_len(bytes@),
{
    let b0: u32 = bytes[0] as u32;
    let b1: u32 = bytes[1] as u32;
    let b2: u32 = bytes[2] as u32;
    let b3: u32 = bytes[3] as u32;
    b0 + 256 * b1 + 65536 * b2 + 16777216 * b3
}

/// Puts `payload` into a frame: its length as four little-endian bytes, then
/// the payload itself. A payload too long for the prefix is refused.
pub fn encode_frame(payload: &[u8]) -> (r: Result<Vec<u8>, FrameError>)
    ensures
        payload@.len() <= MAX_FRAME_LEN ==> (r matches Ok(bytes) && bytes@ == frame(payload@)),
        payload@.len() > MAX_FRAME_LEN ==> r == Err::<Vec<u8>, FrameError>(
            FrameError::TooLong { declared: MAX_FRAME_LEN },
        ),
{
    if payload.len() > MAX_FRAME_LEN as usize {
        return Err(FrameError::TooLong { declared: MAX_FRAME_LEN });
    }
    let length: u32 = payload.len() as u32;
    let mut out: Vec<u8> = Vec::new();
    out.push((length % 256) as u8);
    out.push((length / 256 % 256) as u8);
    out.push((length / 256 / 256 % 256) as u8);
    out.push((length / 256 / 256 / 256) as u8);
    assert(out@ =~= fixed32(length));
    out.extend_from_slice(payload);
    Ok(out)
}

/// The bytes to write for one message: the frame around its payload. The
/// caller writes them in one piece and flushes.
pub fn write_frame<T: Payload>(message: &T) -> (bytes: Vec<u8>)
    ensures
        bytes@ == frame(message.payload()),
{
    proof {
        message.lemma_round_trip();
    }
    let payload = message.encode();
    encode_frame(payload.as_slice()).unwrap()
}

/// The payloads of a sequence of messages, in order.
pub open spec fn payloads<T: Payload>(messages: Seq<T>) -> Seq<Seq<u8>> {
    Seq::new(messages.len(), |i: int| messages[i].payload())
}

/// Decoding undoes encoding: a reader that holds the frame of a message,
/// followed by anything, hands out that message and keeps what followed. The
/// reader must accept the payload's length; every reader with a limit of
/// [`MAX_PAYLOAD`] or more accepts every message.
pub proof fn lemma_decode_encode<T: Payload>(message: T, rest: Seq<u8>, limit: nat)
    requires
        message.payload().len() <= limit,
    ensures
        parsed::<T>(frame(message.payload()) + rest, limit) == (
            Ok::<Option<T>, FrameError>(Some(message)),
            rest,
        ),
        message.payload().len() <= MAX_PAYLOAD,
{
    message.lemma_round_trip();
    lemma_scan_frame(message.payload(), rest, limit);
}

/// Until the last byte of a message's frame has arrived, the reader hands
/// out nothing and keeps what it holds.
pub proof fn lemma_partial_message<T: Payload>(message: T, arrived: int, limit: nat)
    requires
        message.payload().len() <= limit,
        0 <= arrived < frame(message.payload()).len(),
    ensures
        parsed::<T>(frame(message.payload()).take(arrived), limit) == (
            Ok::<Option<T>, FrameError>(None),
            frame(message.payload()).take(arrived),
        ),
{
    message.lemma_round_trip();
    lemma_scan_partial(message.payload(), arrived, limit);
}

/// Messages written one after the other are found again one after the
/// other: the stream drains into their payloads, in order, with no byte left
/// over, and each payload reads as the message it was written for.
pub proof fn lemma_messages_in_order<T: Payload>(messages: Seq<T>, limit: nat)
    requires
        limit >= MAX_PAYLOAD,
    ensures
        drain(frames(payloads(messages)), limit) == (payloads(messages), Seq::<u8>::empty()),
        forall|i: int|
            0 <= i < messages.len() ==> T::from_payload(#[trigger] payloads(messages)[i]) == Some(
                messages[i],
            ),
{
    assert forall|i: int| 0 <= i < messages.len() implies (#[trigger] payloads(messages)[i]).len()
        <= MAX_PAYLOAD && T::from_payload(payloads(messages)[i]) == Some(messages[i]) by {
        messages[i].lemma_round_trip();
    }
    assert(all_fit(payloads(messages), limit));
    lemma_frames_in_order(payloads(messages), limit);
}

/// A reader consumes a frame only together with the message it hands out:
/// whenever it hands out none, be it for want of bytes or for an error, it
/// holds afterwards what it held before. An error therefore comes again on
/// every further attempt.
pub proof fn lemma_nothing_lost<T: Payload>(held: Seq<u8>, limit: nat)
    requires
        !(parsed::<T>(held, limit).0 matches Ok(Some(_))),
    ensures
        parsed::<T>(held, limit).1 == held,
        parsed::<T>(parsed::<T>(held, limit).1, limit) == parsed::<T>(held, limit),
{
}

/// When the stream ends after whole frames only, however many, the reader
/// holds nothing and reports a clean end, not an error.
pub proof fn lemma_end_between_frames(sent: Seq<Seq<u8>>, limit: nat)
    requires
        all_fit(sent, limit),
    ensures
        fill_outcome(drain(frames(sent), limit).1, limit, Seq::<u8>::empty()) == Ok::<
            Fill,
            FrameError,
        >(Fill::End),
{
    lemma_frames_in_order(sent, limit);
}

/// When the stream ends while the reader holds bytes that make no whole
/// frame, the reader reports a reset.
pub proof fn lemma_end_inside_frame(held: Seq<u8>, limit: nat)
    requires
        held.len() > 0,
        !(scan(held, limit) is Complete),
    ensures
        fill_outcome(held, limit, Seq::<u8>::empty()) == Err::<Fill, FrameError>(
            FrameError::ConnectionReset,
        ),
{
}

} // verus!
