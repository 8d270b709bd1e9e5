use vstd::prelude::*;

use crate::bridge::cairo_status_t;
use crate::bridge::status_ok;
use crate::error::RenderError;

verus! {

/// The capacity the sink holds after an append of `len` bytes onto
/// `size` stored bytes: grown to exactly `size + len` when the old
/// capacity `cap` would not hold them, otherwise left alone. Growth is
/// exact — no over-allocation — and capacity never shrinks.
pub open spec fn spec_grown_capacity(size: int, cap: int, len: int) -> int {
    if size + len > cap {
        size + len
    } else {
        cap
    }
}

/// A growable byte sink: the destination of a streamed PNG encode.
///
/// The encoder pushes chunks through a callback that is invoked out of
/// this layer's control, so the sink keeps its own books: the bytes
/// stored so far and the capacity accounted to the backing allocation.
/// Stored size never exceeds capacity, growth preserves every byte
/// already stored, and a failed growth leaves the sink exactly as it
/// was, still safe to read and to release. The sink knows nothing of
/// PNG structure; it accepts any byte stream.
pub struct ByteBuffer {
    bytes: Vec<u8>,
    cap: usize,
}

impl View for ByteBuffer {
    type V = Seq<u8>;

    closed spec fn view(&self) -> Seq<u8> {
        self.bytes@
    }
}

impl ByteBuffer {
    /// The capacity the sink accounts to its backing allocation.
    pub closed spec fn spec_capacity(&self) -> int {
        self.cap as int
    }

    /// The one invariant every operation preserves: the stored bytes
    /// fit the accounted capacity.
    pub open spec fn well_formed(&self) -> bool {
        self@.len() <= self.spec_capacity()
    }

    /// An empty sink with no allocation at all.
    pub fn new() -> (b: ByteBuffer)
        ensures
            b@ == Seq::<u8>::empty(),
            b.spec_capacity() == 0,
            b.well_formed(),
    {
        ByteBuffer { bytes: Vec::new(), cap: 0 }
    }

    /// Wraps an already-complete byte blob as a sink whose capacity is
    /// exactly its size.
    pub fn from_vec(data: Vec<u8>) -> (b: ByteBuffer)
        ensures
            b@ == data@,
            b.spec_capacity() == data@.len(),
            b.well_formed(),
    {
        let cap = data.len();
        ByteBuffer { bytes: data, cap }
    }

    /// The number of bytes stored so far.
    pub fn size(&self) -> (n: usize)
        ensures
            n == self@.len(),
    {
        self.bytes.len()
    }

    /// The capacity accounted to the backing allocation.
    pub fn capacity(&self) -> (n: usize)
        ensures
            n == self.spec_capacity(),
    {
        self.cap
    }

    /// A read-only view of the stored bytes.
    pub fn data(&self) -> (d: &[u8])
        ensures
            d@ == self@,
    {
        self.bytes.as_slice()
    }

    /// Hands the collected bytes to the caller, consuming the sink.
    pub fn into_bytes(self) -> (v: Vec<u8>)
        ensures
            v@ == self@,
    {
        self.bytes
    }

    /// Accepts one chunk from the encoder: grows the allocation if the
    /// chunk does not fit, copies the chunk to the tail, and advances
    /// the size.
    ///
    /// When growth is needed and cannot be had, the append reports
    /// `OutOfMemory` and leaves the sink untouched — same bytes, same
    /// capacity — so the caller can still read or release it. A chunk
    /// that fits the current capacity is always accepted.
    pub fn accept(&mut self, chunk: &[u8]) -> (r: Result<(), RenderError>)
        requires
            old(self).well_formed(),
        ensures
            final(self).well_formed(),
            r is Ok ==> final(self)@ == old(self)@ + chunk@,
            r is Ok ==> final(self).spec_capacity() == spec_grown_capacity(
                old(self)@.len() as int,
                old(self).spec_capacity(),
                chunk@.len() as int,
            ),
            r is Err ==> r == Err::<(), RenderError>(RenderError::OutOfMemory) && final(self)@
                == old(self)@ && final(self).spec_capacity() == old(self).spec_capacity(),
            old(self)@.len() + chunk@.len() <= old(self).spec_capacity() ==> r is Ok,
    {
        let len = chunk.len();
        if len > usize::MAX - self.bytes.len() {
            return Err(RenderError::OutOfMemory);
        }
        let needed = self.bytes.len() + len;
        if needed > self.cap {
            match self.bytes.try_reserve(len) {
                Ok(()) => {
                    self.cap = needed;
                },
                Err(_) => {
                    return Err(RenderError::OutOfMemory);
                },
            }
        }
        let mut i: usize = 0;
        while i < len
            invariant
                i <= len,
                len == chunk@.len(),
                self.bytes@ == old(self).bytes@ + chunk@.subrange(0, i as int),
                self.cap as int == spec_grown_capacity(
                    old(self)@.len() as int,
                    old(self).spec_capacity(),
                    chunk@.len() as int,
                ),
                old(self)@.len() + chunk@.len() <= self.cap,
            decreases len - i,
        {
            self.bytes.push(chunk[i]);
            assert(self.bytes@ == old(self).bytes@ + chunk@.subrange(0, i + 1));
            i = i + 1;
        }
        assert(chunk@.subrange(0, len as int) == chunk@);
        Ok(())
    }
}

/// The verified core of the stream-encode callback: hands one chunk
/// from the encoder to the sink and answers in the rasterizer's own
/// vocabulary — the success sentinel when the chunk was stored, its
/// out-of-memory status when the sink could not grow (in which case the
/// sink is unchanged). A chunk that fits the capacity already there
/// needs no allocation and is always stored.
pub fn write_to_memory(buffer: &mut ByteBuffer, data: &[u8]) -> (s: cairo_status_t)
    requires
        old(buffer).well_formed(),
    ensures
        final(buffer).well_formed(),
        old(buffer)@.len() + data@.len() <= old(buffer).spec_capacity() ==> status_ok(s),
        status_ok(s) ==> final(buffer)@ == old(buffer)@ + data@ && final(buffer).spec_capacity()
            == spec_grown_capacity(
            old(buffer)@.len() as int,
            old(buffer).spec_capacity(),
            data@.len() as int,
        ),
        !status_ok(s) ==> s == cairo_status_t::CAIRO_STATUS_NO_MEMORY && final(buffer)@ == old(
            buffer,
        )@ && final(buffer).spec_capacity() == old(buffer).spec_capacity(),
{
    match buffer.accept(data) {
        Ok(()) => cairo_status_t::CAIRO_STATUS_SUCCESS,
        Err(_) => cairo_status_t::CAIRO_STATUS_NO_MEMORY,
    }
}

} // verus!
