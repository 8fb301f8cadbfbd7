//! The payload of each message: which bytes stand for which value.

use crate::applet::interface::{AppletEvent, AppletRequest, Direction, Limits, Size};
use crate::applet::wire::{
    fixed32, fixed32_at, get_fixed32, get_i32, get_u32, i32_at, lemma_fixed32_round_trip,
    lemma_signed_round_trip, lemma_varint_round_trip, put_fixed32, put_i32, put_u32, u32_at,
    varint, zigzag,
};
use vstd::prelude::*;

verus! {

/// A message that can travel as the payload of a frame.
pub trait Payload: Sized {
    /// The bytes that stand for `self`.
    spec fn payload(&self) -> Seq<u8>;

    /// The value that `bytes` stand for, or `None` where they stand for none:
    /// where a field is missing or malformed, or bytes are left over.
    spec fn from_payload(bytes: Seq<u8>) -> Option<Self>;

    /// Writes `self` as a payload.
    fn encode(&self) -> (bytes: Vec<u8>)
        ensures
            bytes@ == self.payload(),
    ;

    /// Reads a whole payload.
    fn decode(bytes: &[u8]) -> (r: Option<Self>)
        ensures
            r == Self::from_payload(bytes@),
    ;

    /// Reading what was written gives the value back, and no payload is
    /// longer than [`MAX_PAYLOAD`] bytes.
    proof fn lemma_round_trip(&self)
        ensures
            Self::from_payload(self.payload()) == Some(*self),
            self.payload().len() <= MAX_PAYLOAD,
    ;
}

/// The length that no payload of the library's messages exceeds: a variant
/// number and four integers of five bytes each.
pub const MAX_PAYLOAD: usize = 21;

/// The unsigned integer between `pre` and `post` is found at the end of `pre`.
pub proof fn lemma_u32_between(pre: Seq<u8>, v: u32, post: Seq<u8>)
    ensures
        u32_at(pre + varint(v) + post, pre.len()) == Some((v, pre.len() + varint(v).len())),
        1 <= varint(v).len() <= 5,
{
    reveal(u32_at);
    assert((pre + varint(v) + post).skip(pre.len() as int) =~= varint(v) + post);
    lemma_varint_round_trip(v, post);
}

/// The signed integer between `pre` and `post` is found at the end of `pre`.
pub proof fn lemma_i32_between(pre: Seq<u8>, v: i32, post: Seq<u8>)
    ensures
        i32_at(pre + varint(zigzag(v)) + post, pre.len()) == Some(
            (v, pre.len() + varint(zigzag(v)).len()),
        ),
        1 <= varint(zigzag(v)).len() <= 5,
{
    reveal(i32_at);
    assert((pre + varint(zigzag(v)) + post).skip(pre.len() as int) =~= varint(zigzag(v)) + post);
    lemma_signed_round_trip(v, post);
}

/// The four-byte value between `pre` and `post` is found at the end of `pre`.
pub proof fn lemma_fixed32_between(pre: Seq<u8>, v: u32, post: Seq<u8>)
    ensures
        fixed32_at(pre + fixed32(v) + post, pre.len()) == Some((v, pre.len() + 4)),
        fixed32(v).len() == 4,
{
    reveal(fixed32_at);
    assert((pre + fixed32(v) + post).skip(pre.len() as int) =~= fixed32(v) + post);
    lemma_fixed32_round_trip(v, post);
}

impl Direction {
    /// The edge that a number stands for on the wire.
    pub open spec fn from_index(index: u32) -> Option<Direction> {
        if index == 0 {
            Some(Direction::Left)
        } else if index == 1 {
            Some(Direction::Right)
        } else if index == 2 {
            Some(Direction::Top)
        } else if index == 3 {
            Some(Direction::Bottom)
        } else {
            None
        }
    }
}

impl Payload for AppletEvent {
    /// The variant's number, then its fields in order.
    open spec fn payload(&self) -> Seq<u8> {
        match *self {
            AppletEvent::GridSize(cell) => varint(0) + varint(cell),
            AppletEvent::Size(width, height) => varint(1) + varint(width) + varint(height),
            AppletEvent::Margin { top, right, bottom, left } => varint(2) + varint(zigzag(top))
                + varint(zigzag(right)) + varint(zigzag(bottom)) + varint(zigzag(left)),
            AppletEvent::Direction(direction) => varint(3) + varint(direction.index()),
            AppletEvent::Show => varint(4),
            AppletEvent::Hide => varint(5),
        }
    }

    open spec fn from_payload(bytes: Seq<u8>) -> Option<Self> {
        match u32_at(bytes, 0) {
            None => None,
            Some((variant, p)) => {
                if variant == 0 {
                    match u32_at(bytes, p) {
                        Some((cell, end)) if end == bytes.len() => Some(
                            AppletEvent::GridSize(cell),
                        ),
                        _ => None,
                    }
                } else if variant == 1 {
                    match u32_at(bytes, p) {
                        Some((width, q)) => match u32_at(bytes, q) {
                            Some((height, end)) if end == bytes.len() => Some(
                                AppletEvent::Size(width, height),
                            ),
                            _ => None,
                        },
                        None => None,
                    }
                } else if variant == 2 {
                    match i32_at(bytes, p) {
                        Some((top, q)) => match i32_at(bytes, q) {
                            Some((right, r)) => match i32_at(bytes, r) {
                                Some((bottom, s)) => match i32_at(bytes, s) {
                                    Some((left, end)) if end == bytes.len() => Some(
                                        AppletEvent::Margin { top, right, bottom, left },
                                    ),
                                    _ => None,
                                },
                                None => None,
                            },
                            None => None,
                        },
                        None => None,
                    }
                } else if variant == 3 {
                    match u32_at(bytes, p) {
                        Some((index, end)) if end == bytes.len() => match Direction::from_index(
                            index,
                        ) {
                            Some(direction) => Some(AppletEvent::Direction(direction)),
                            None => None,
                        },
                        _ => None,
                    }
                } else if variant == 4 && p == bytes.len() {
                    Some(AppletEvent::Show)
                } else if variant == 5 && p == bytes.len() {
                    Some(AppletEvent::Hide)
                } else {
                    None
                }
            },
        }
    }

    fn encode(&self) -> (bytes: Vec<u8>) {
        let mut out: Vec<u8> = Vec::new();
        assert(out@ + varint(0) =~= varint(0));
        assert(out@ + varint(1) =~= varint(1));
        assert(out@ + varint(2) =~= varint(2));
        assert(out@ + varint(3) =~= varint(3));
        assert(out@ + varint(4) =~= varint(4));
        assert(out@ + varint(5) =~= varint(5));
        match *self {
            AppletEvent::GridSize(cell) => {
                put_u32(&mut out, 0);
                put_u32(&mut out, cell);
            },
            AppletEvent::Size(width, height) => {
                put_u32(&mut out, 1);
                put_u32(&mut out, width);
                put_u32(&mut out, height);
            },
            AppletEvent::Margin { top, right, bottom, left } => {
                put_u32(&mut out, 2);
                put_i32(&mut out, top);
                put_i32(&mut out, right);
                put_i32(&mut out, bottom);
                put_i32(&mut out, left);
            },
            AppletEvent::Direction(direction) => {
                put_u32(&mut out, 3);
                let index: u32 = match direction {
                    Direction::Left => 0,
                    Direction::Right => 1,
                    Direction::Top => 2,
                    Direction::Bottom => 3,
                };
                put_u32(&mut out, index);
            },
            AppletEvent::Show => {
                put_u32(&mut out, 4);
            },
            AppletEvent::Hide => {
                put_u32(&mut out, 5);
            },
        }
        out
    }

    fn decode(bytes: &[u8]) -> (r: Option<Self>) {
        let (variant, p) = get_u32(bytes, 0)?;
        if variant == 0 {
            let (cell, end) = get_u32(bytes, p)?;
            if end == bytes.len() {
                Some(AppletEvent::GridSize(cell))
            } else {
                None
            }
        } else if variant == 1 {
            let (width, q) = get_u32(bytes, p)?;
            let (height, end) = get_u32(bytes, q)?;
            if end == bytes.len() {
                Some(AppletEvent::Size(width, height))
            } else {
                None
            }
        } else if variant == 2 {
            let (top, q) = get_i32(bytes, p)?;
            let (right, r) = get_i32(bytes, q)?;
            let (bottom, s) = get_i32(bytes, r)?;
            let (left, end) = get_i32(bytes, s)?;
            if end == bytes.len() {
                Some(AppletEvent::Margin { top, right, bottom, left })
            } else {
                None
            }
        } else if variant == 3 {
            let (index, end) = get_u32(bytes, p)?;
            if end != bytes.len() {
                None
            } else if index == 0 {
                Some(AppletEvent::Direction(Direction::Left))
            } else if index == 1 {
                Some(AppletEvent::Direction(Direction::Right))
            } else if index == 2 {
                Some(AppletEvent::Direction(Direction::Top))
            } else if index == 3 {
                Some(AppletEvent::Direction(Direction::Bottom))
            } else {
                None
            }
        } else if variant == 4 && p == bytes.len() {
            Some(AppletEvent::Show)
        } else if variant == 5 && p == bytes.len() {
            Some(AppletEvent::Hide)
        } else {
            None
        }
    }

    proof fn lemma_round_trip(&self) {
        let none = Seq::<u8>::empty();
        match *self {
            AppletEvent::GridSize(cell) => {
                let a = varint(0);
                lemma_u32_between(none, 0, varint(cell));
                lemma_u32_between(a, cell, none);
                assert(none + a + varint(cell) =~= self.payload());
                assert(a + varint(cell) + none =~= self.payload());
            },
            AppletEvent::Size(width, height) => {
                let a = varint(1);
                let b = a + varint(width);
                lemma_u32_between(none, 1, varint(width) + varint(height));
                lemma_u32_between(a, width, varint(height));
                lemma_u32_between(b, height, none);
                assert(none + a + (varint(width) + varint(height)) =~= self.payload());
                assert(b + varint(height) + none =~= self.payload());
            },
            AppletEvent::Margin { top, right, bottom, left } => {
                let a = varint(2);
                let b = a + varint(zigzag(top));
                let c = b + varint(zigzag(right));
                let d = c + varint(zigzag(bottom));
                let zl = varint(zigzag(left));
                let zb = varint(zigzag(bottom));
                let zr = varint(zigzag(right));
                let zt = varint(zigzag(top));
                lemma_u32_between(none, 2, zt + zr + zb + zl);
                lemma_i32_between(a, top, zr + zb + zl);
                lemma_i32_between(b, right, zb + zl);
                lemma_i32_between(c, bottom, zl);
                lemma_i32_between(d, left, none);
                assert(none + a + (zt + zr + zb + zl) =~= self.payload());
                assert(a + zt + (zr + zb + zl) =~= self.payload());
                assert(b + zr + (zb + zl) =~= self.payload());
                assert(d + zl + none =~= self.payload());
            },
            AppletEvent::Direction(direction) => {
                let a = varint(3);
                lemma_u32_between(none, 3, varint(direction.index()));
                lemma_u32_between(a, direction.index(), none);
                assert(none + a + varint(direction.index()) =~= self.payload());
                assert(a + varint(direction.index()) + none =~= self.payload());
            },
            AppletEvent::Show => {
                lemma_u32_between(none, 4, none);
                assert(none + varint(4) + none =~= self.payload());
            },
            AppletEvent::Hide => {
                lemma_u32_between(none, 5, none);
                assert(none + varint(5) + none =~= self.payload());
            },
        }
    }
}

impl Payload for AppletRequest {
    /// The variant's number, then each measure as four little-endian bytes:
    /// width before height, smallest size before largest.
    open spec fn payload(&self) -> Seq<u8> {
        match *self {
            AppletRequest::Limits(limits) => varint(0) + fixed32(limits.min.width) + fixed32(
                limits.min.height,
            ) + fixed32(limits.max.width) + fixed32(limits.max.height),
            AppletRequest::Intrinsic(size) => varint(1) + fixed32(size.width) + fixed32(
                size.height,
            ),
        }
    }

    open spec fn from_payload(bytes: Seq<u8>) -> Option<Self> {
        match u32_at(bytes, 0) {
            None => None,
            Some((variant, p)) => {
                if variant == 0 {
                    match fixed32_at(bytes, p) {
                        Some((min_width, q)) => match fixed32_at(bytes, q) {
                            Some((min_height, r)) => match fixed32_at(bytes, r) {
                                Some((max_width, s)) => match fixed32_at(bytes, s) {
                                    Some((max_height, end)) if end == bytes.len() => Some(
                                        AppletRequest::Limits(
                                            Limits {
                                                min: Size { width: min_width, height: min_height },
                                                max: Size { width: max_width, height: max_height },
                                            },
                                        ),
                                    ),
                                    _ => None,
                                },
                                None => None,
                            },
                            None => None,
                        },
                        None => None,
                    }
                } else if variant == 1 {
                    match fixed32_at(bytes, p) {
                        Some((width, q)) => match fixed32_at(bytes, q) {
                            Some((height, end)) if end == bytes.len() => Some(
                                AppletRequest::Intrinsic(Size { width, height }),
                            ),
                            _ => None,
                        },
                        None => None,
                    }
                } else {
                    None
                }
            },
        }
    }

    fn encode(&self) -> (bytes: Vec<u8>) {
        let mut out: Vec<u8> = Vec::new();
        assert(out@ + varint(0) =~= varint(0));
        assert(out@ + varint(1) =~= varint(1));
        match *self {
            AppletRequest::Limits(limits) => {
                put_u32(&mut out, 0);
                put_fixed32(&mut out, limits.min.width);
                put_fixed32(&mut out, limits.min.height);
                put_fixed32(&mut out, limits.max.width);
                put_fixed32(&mut out, limits.max.height);
            },
            AppletRequest::Intrinsic(size) => {
                put_u32(&mut out, 1);
                put_fixed32(&mut out, size.width);
                put_fixed32(&mut out, size.height);
            },
        }
        out
    }

    fn decode(bytes: &[u8]) -> (r: Option<Self>) {
        let (variant, p) = get_u32(bytes, 0)?;
        if variant == 0 {
            let (min_width, q) = get_fixed32(bytes, p)?;
            let (min_height, r) = get_fixed32(bytes, q)?;
            let (max_width, s) = get_fixed32(bytes, r)?;
            let (max_height, end) = get_fixed32(bytes, s)?;
            if end == bytes.len() {
                Some(
                    AppletRequest::Limits(
                        Limits {
                            min: Size { width: min_width, height: min_height },
                            max: Size { width: max_width, height: max_height },
                        },
                    ),
                )
            } else {
                None
            }
        } else if variant == 1 {
            let (width, q) = get_fixed32(bytes, p)?;
            let (height, end) = get_fixed32(bytes, q)?;
            if end == bytes.len() {
                Some(AppletRequest::Intrinsic(Size { width, height }))
            } else {
                None
            }
        } else {
            None
        }
    }

    proof fn lemma_round_trip(&self) {
        let none = Seq::<u8>::empty();
        match *self {
            AppletRequest::Limits(limits) => {
                let f1 = fixed32(limits.min.width);
                let f2 = fixed32(limits.min.height);
                let f3 = fixed32(limits.max.width);
                let f4 = fixed32(limits.max.height);
                let a = varint(0);
                let b = a + f1;
                let c = b + f2;
                let d = c + f3;
                lemma_u32_between(none, 0, f1 + f2 + f3 + f4);
                lemma_fixed32_between(a, limits.min.width, f2 + f3 + f4);
                lemma_fixed32_between(b, limits.min.height, f3 + f4);
                lemma_fixed32_between(c, limits.max.width, f4);
                lemma_fixed32_between(d, limits.max.height, none);
                assert(none + a + (f1 + f2 + f3 + f4) =~= self.payload());
                assert(a + f1 + (f2 + f3 + f4) =~= self.payload());
                assert(b + f2 + (f3 + f4) =~= self.payload());
                assert(d + f4 + none =~= self.payload());
            },
            AppletRequest::Intrinsic(size) => {
                let f1 = fixed32(size.width);
                let f2 = fixed32(size.height);
                let a = varint(1);
                let b = a + f1;
                lemma_u32_between(none, 1, f1 + f2);
                lemma_fixed32_between(a, size.width, f2);
                lemma_fixed32_between(b, size.height, none);
                assert(none + a + (f1 + f2) =~= self.payload());
                assert(b + f2 + none =~= self.payload());
            },
        }
    }
}

} // verus!
