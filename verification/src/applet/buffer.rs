//! The accumulator behind a connection: a `BytesMut` of the bytes crate, and
//! what the library relies on of it.

use bytes::Buf;
use bytes::BytesMut;
use vstd::prelude::*;

verus! {

/// A growable byte buffer of the bytes crate. Verus sees nothing inside it;
/// [`contents`] names what it holds.
#[verifier::external_type_specification]
#[verifier::external_body]
pub struct ExBytesMut(bytes::BytesMut);

/// The bytes that a buffer holds, oldest first.
pub uninterp spec fn contents(buffer: &bytes::BytesMut) -> Seq<u8>;

/// The most bytes that one allocation can hold.
pub open spec fn largest_allocation() -> nat {
    isize::MAX as nat
}

/// `BytesMut::with_capacity`: a buffer with room for `capacity` bytes that
/// holds none yet.
#[verifier::external_body]
pub(crate) fn with_capacity(capacity: usize) -> (buffer: BytesMut)
    requires
        capacity <= largest_allocation(),
    ensures
        contents(&buffer) == Seq::<u8>::empty(),
{
    BytesMut::with_capacity(capacity)
}

/// `BytesMut::len`: the number of bytes held.
#[verifier::external_body]
pub(crate) fn len(buffer: &BytesMut) -> (n: usize)
    ensures
        n == contents(buffer).len(),
{
    buffer.len()
}

/// `BytesMut::as_ref`: the bytes held, as a slice.
#[verifier::external_body]
pub(crate) fn as_slice(buffer: &BytesMut) -> (bytes: &[u8])
    ensures
        bytes@ == contents(buffer),
{
    buffer.as_ref()
}

/// `Buf::advance` on a `BytesMut`: drops the `count` oldest bytes. It panics
/// where fewer are held.
#[verifier::external_body]
pub(crate) fn advance(buffer: &mut BytesMut, count: usize)
    requires
        count <= contents(old(buffer)).len(),
    ensures
        contents(final(buffer)) == contents(old(buffer)).skip(count as int),
{
    buffer.advance(count)
}

/// `BytesMut::extend_from_slice`: appends `bytes` behind what is held. It
/// panics where the result would not fit one allocation.
#[verifier::external_body]
pub(crate) fn extend_from_slice(buffer: &mut BytesMut, bytes: &[u8])
    requires
        contents(old(buffer)).len() + bytes@.len() <= largest_allocation(),
    ensures
        contents(final(buffer)) == contents(old(buffer)) + bytes@,
{
    buffer.extend_from_slice(bytes)
}

} // verus!
