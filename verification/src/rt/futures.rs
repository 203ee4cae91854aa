//! Byte-stream adapter between `futures-io` readers and `hyper`'s read cursor.
//!
//! A `futures-io` reader fills a plain `&mut [u8]`, while `hyper` hands out a
//! cursor over a buffer that may not be initialised. One read through the
//! adapter therefore has three steps: [`read_region`] makes a zeroed region as
//! long as the cursor's room, the reader fills a prefix of it, and
//! [`complete_read`] moves that prefix into the cursor.

use hyper::rt::ReadBufCursor;
use std::io;
use std::task::Poll;
use vstd::prelude::*;

verus! {

/// `hyper::rt::ReadBufCursor`, the unfilled end of a `hyper::rt::ReadBuf`.
#[verifier::external_type_specification]
#[verifier::external_body]
pub struct ExReadBufCursor<'a>(hyper::rt::ReadBufCursor<'a>);

/// `std::io::Error`, carried through unchanged.
#[verifier::external_type_specification]
#[verifier::external_body]
pub struct ExIoError(std::io::Error);

/// The bytes that the buffer behind the cursor holds as filled, oldest first
/// (what `hyper::rt::ReadBuf::filled` returns).
pub uninterp spec fn cursor_filled(buf: ReadBufCursor<'_>) -> Seq<u8>;

/// The length of the whole buffer behind the cursor, filled or not.
pub uninterp spec fn cursor_capacity(buf: ReadBufCursor<'_>) -> nat;

/// How many more bytes the cursor can take.
pub open spec fn cursor_room(buf: ReadBufCursor<'_>) -> int {
    cursor_capacity(buf) - cursor_filled(buf).len()
}

/// `n` zero bytes.
pub open spec fn zeros(n: nat) -> Seq<u8> {
    Seq::new(n, |i: int| 0u8)
}

/// What the filled bytes are after a read that reported `n` bytes in `region`.
pub open spec fn filled_after_read(filled: Seq<u8>, region: Seq<u8>, n: int) -> Seq<u8> {
    filled + region.subrange(0, n)
}

/// Whether `polled` is something that a reader may report after it was handed
/// a region of `region_len` bytes, for a cursor with `room` bytes left: a
/// count of bytes read is within both.
pub open spec fn fits(polled: Poll<io::Result<usize>>, region_len: int, room: int) -> bool {
    polled matches Poll::Ready(Ok(n)) ==> n <= region_len && n <= room
}

/// What finishing a read does, from the cursor `before` to the cursor `after`,
/// when the reader was handed `region` and reported `polled`, and the adapter
/// reports `done`.
pub open spec fn read_outcome(
    before: ReadBufCursor<'_>,
    after: ReadBufCursor<'_>,
    region: Seq<u8>,
    polled: Poll<io::Result<usize>>,
    done: Poll<io::Result<()>>,
) -> bool {
    match polled {
        Poll::Ready(Ok(n)) => {
            &&& done == Poll::<io::Result<()>>::Ready(Ok(()))
            &&& cursor_filled(after) == filled_after_read(cursor_filled(before), region, n as int)
            &&& cursor_capacity(after) == cursor_capacity(before)
        },
        Poll::Ready(Err(e)) => {
            &&& done == Poll::<io::Result<()>>::Ready(Err(e))
            &&& after == before
        },
        Poll::Pending => {
            &&& done == Poll::<io::Result<()>>::Pending
            &&& after == before
        },
    }
}

/// Calls `hyper::rt::ReadBufCursor::remaining`, which returns the buffer's
/// length less the number of filled bytes; the filled bytes never outnumber
/// the buffer.
#[verifier::external_body]
fn cursor_remaining(buf: &ReadBufCursor<'_>) -> (n: usize)
    ensures
        n == cursor_room(*buf),
{
    buf.remaining()
}

/// Calls `hyper::rt::ReadBufCursor::put_slice`, which copies `src` behind the
/// filled bytes and counts it as filled. It panics when `src` is longer than
/// the room that is left, so that is required here.
#[verifier::external_body]
fn cursor_put_slice(buf: &mut ReadBufCursor<'_>, src: &[u8])
    requires
        src@.len() <= cursor_room(*old(buf)),
    ensures
        cursor_filled(*final(buf)) == cursor_filled(*old(buf)) + src@,
        cursor_capacity(*final(buf)) == cursor_capacity(*old(buf)),
{
    buf.put_slice(src)
}

/// This type carries a `futures-io` stream into `hyper`'s I/O interfaces.
///
/// It owns exactly one inner value and adds no state to it.
#[derive(Debug)]
pub struct FuturesIo<T: ?Sized> {
    inner: T,
}

impl<T: ?Sized> FuturesIo<T> {
    /// The wrapped value.
    pub closed spec fn inner(&self) -> &T {
        &self.inner
    }

    /// Get a reference to the inner type.
    pub fn get_ref(&self) -> (inner: &T)
        ensures
            inner == self.inner(),
    {
        &self.inner
    }

    /// Get a mutable reference to the inner type.
    pub fn get_mut(&mut self) -> (inner: &mut T)
        ensures
            &*inner == old(self).inner(),
            final(self).inner() == &*final(inner),
    {
        &mut self.inner
    }
}

impl<T> FuturesIo<T> {
    /// The wrapper that holds `io`.
    pub closed spec fn wrapping(io: T) -> Self {
        FuturesIo { inner: io }
    }

    /// Wrap a type implementing I/O traits.
    pub fn new(io: T) -> (s: Self)
        ensures
            s == Self::wrapping(io),
            *s.inner() == io,
    {
        FuturesIo { inner: io }
    }

    /// Get the inner type back.
    pub fn into_inner(self) -> (io: T)
        ensures
            io == *self.inner(),
    {
        self.inner
    }

    /// A wrapper holds the value it was made around and nothing else: two
    /// wrappers around the same value are the same wrapper.
    pub proof fn lemma_wrapping(io: T, other: Self)
        ensures
            *Self::wrapping(io).inner() == io,
            *other.inner() == io ==> other == Self::wrapping(io),
    {
    }
}

impl<T: Clone> Clone for FuturesIo<T> {
    fn clone(&self) -> (s: Self)
        ensures
            cloned(*self.inner(), *s.inner()),
    {
        FuturesIo { inner: self.inner.clone() }
    }
}

impl<T: Copy> Copy for FuturesIo<T> {}

impl<T> From<T> for FuturesIo<T> {
    fn from(inner: T) -> (s: Self)
        ensures
            *s.inner() == inner,
    {
        FuturesIo { inner }
    }
}

impl<T> vstd::std_specs::convert::FromSpecImpl<T> for FuturesIo<T> {
    open spec fn obeys_from_spec() -> bool {
        true
    }

    open spec fn from_spec(inner: T) -> Self {
        Self::wrapping(inner)
    }
}

impl<T: ?Sized> AsRef<T> for FuturesIo<T> {
    fn as_ref(&self) -> (inner: &T)
        ensures
            inner == self.inner(),
    {
        self.get_ref()
    }
}

impl<T: ?Sized> AsMut<T> for FuturesIo<T> {
    fn as_mut(&mut self) -> (inner: &mut T)
        ensures
            &*inner == old(self).inner(),
            final(self).inner() == &*final(inner),
    {
        self.get_mut()
    }
}

impl<T: Default> Default for FuturesIo<T> {
    fn default() -> (s: Self)
        ensures
            call_ensures(T::default, (), *s.inner()),
    {
        FuturesIo { inner: T::default() }
    }
}

/// The region to hand to the inner reader: as long as the room left behind the
/// cursor, and zero in every byte, so that the reader never sees memory that
/// nothing has written.
pub fn read_region(buf: &ReadBufCursor<'_>) -> (region: Vec<u8>)
    ensures
        region@ == zeros(cursor_room(*buf) as nat),
{
    let len: usize = cursor_remaining(buf);
    let mut region: Vec<u8> = Vec::with_capacity(len);
    let mut i: usize = 0;
    while i < len
        invariant
            i <= len,
            region@ == zeros(i as nat),
        decreases len - i,
    {
        region.push(0u8);
        i += 1;
    }
    region
}

/// Finish one read: `polled` is what the inner reader returned after it was
/// handed `region`.
///
/// When it reported `n` bytes, the first `n` bytes of `region` are put behind
/// the filled bytes, in their order, and the cursor advances by exactly `n`.
/// When it failed, the error comes back as it is; when it was not ready, so is
/// the result. In both of these cases the cursor is left alone.
///
/// A reader never reports more bytes than the region it was given holds, and
/// the region is no longer than the cursor's room: see [`fits`]. Where that is
/// not known, [`checked_complete_read`] tests it.
pub fn complete_read(
    buf: &mut ReadBufCursor<'_>,
    region: &[u8],
    polled: Poll<io::Result<usize>>,
) -> (done: Poll<io::Result<()>>)
    requires
        fits(polled, region@.len() as int, cursor_room(*old(buf))),
    ensures
        read_outcome(*old(buf), *final(buf), region@, polled, done),
        polled matches Poll::Ready(Ok(n)) ==> cursor_filled(*final(buf)).len() == cursor_filled(
            *old(buf),
        ).len() + n,
{
    match polled {
        Poll::Ready(Ok(n)) => {
            cursor_put_slice(buf, vstd::slice::slice_subrange(region, 0, n));
            Poll::Ready(Ok(()))
        },
        Poll::Ready(Err(e)) => Poll::Ready(Err(e)),
        Poll::Pending => Poll::Pending,
    }
}

/// Finish one read as [`complete_read`] does, unless the reader reported more
/// bytes than the region holds or the cursor has room for: then nothing is
/// done, and `None` says so.
pub fn checked_complete_read(
    buf: &mut ReadBufCursor<'_>,
    region: &[u8],
    polled: Poll<io::Result<usize>>,
) -> (r: Option<Poll<io::Result<()>>>)
    ensures
        r is Some <==> fits(polled, region@.len() as int, cursor_room(*old(buf))),
        r matches Some(done) ==> read_outcome(*old(buf), *final(buf), region@, polled, done),
        r is None ==> *final(buf) == *old(buf),
{
    match polled {
        Poll::Ready(Ok(n)) => {
            if n <= region.len() && n <= cursor_remaining(buf) {
                Some(complete_read(buf, region, Poll::Ready(Ok(n))))
            } else {
                None
            }
        },
        other => Some(complete_read(buf, region, other)),
    }
}

/// A read through the adapter keeps what was filled before, and behind it
/// holds the bytes that the reader wrote, each at its place; the filled bytes
/// grow by the count that the reader reported.
pub proof fn lemma_read_keeps_order(filled: Seq<u8>, region: Seq<u8>, n: int)
    requires
        0 <= n <= region.len(),
    ensures
        filled_after_read(filled, region, n).len() == filled.len() + n,
        forall|i: int| 0 <= i < filled.len() ==> filled_after_read(filled, region, n)[i] == filled[i],
        forall|i: int|
            0 <= i < n ==> #[trigger] filled_after_read(filled, region, n)[filled.len() + i]
                == region[i],
{
}

/// A read that reports no bytes leaves the filled bytes as they were, whatever
/// the region holds: nothing of the zeroed region is ever counted as read.
pub proof fn lemma_empty_read_shows_nothing(filled: Seq<u8>, region: Seq<u8>)
    ensures
        filled_after_read(filled, region, 0) == filled,
{
}

} // verus!
