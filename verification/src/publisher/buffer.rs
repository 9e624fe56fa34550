//! Reusable serialization buffer: one allocation reused for many payloads,
//! with counts of reuse, growth and the peak size reached.

pub mod size_hints;

use vstd::prelude::*;

verus! {

/// Default buffer capacity (8 KiB, enough for a 50-level JSON book).
pub const DEFAULT_BUFFER_CAPACITY: usize = 8192;

/// Largest capacity requested at creation (1 MiB).
pub const MAX_BUFFER_CAPACITY: usize = 1024 * 1024;

/// Capacity of a byte vector.
///
/// Calls `Vec::capacity`, which the documentation describes as the number of
/// elements the vector holds without reallocating; the contract states only
/// that it is at least the length. The exact value is the allocator's.
#[verifier::external_body]
fn vec_capacity(v: &Vec<u8>) -> (c: usize)
    ensures
        c >= v@.len(),
{
    v.capacity()
}

/// Statistics of a buffer.
#[derive(Debug, Clone, Copy, PartialEq, Eq, Structural)]
pub struct BufferStats {
    /// Allocated capacity.
    pub capacity: usize,
    /// Bytes held now.
    pub current_len: usize,
    /// Largest number of bytes held after a write.
    pub peak_size: usize,
    /// Number of reuses.
    pub reuse_count: u64,
    /// Number of times the buffer grew past the default capacity (at most once counted).
    pub growth_count: u32,
}

/// A byte buffer reused across serializations.
pub struct SerializationBuffer {
    buffer: Vec<u8>,
    reuse_count: u64,
    growth_count: u32,
    peak_size: usize,
    requested: Ghost<usize>,
}

impl SerializationBuffer {
    /// Bytes held.
    pub closed spec fn bytes(&self) -> Seq<u8> {
        self.buffer@
    }

    /// Number of reuses so far.
    pub closed spec fn reuses(&self) -> u64 {
        self.reuse_count
    }

    /// Number of growths counted.
    pub closed spec fn growths(&self) -> u32 {
        self.growth_count
    }

    /// Largest number of bytes held after a write.
    pub closed spec fn peak(&self) -> usize {
        self.peak_size
    }

    /// Capacity requested when the buffer was made.
    pub closed spec fn requested_capacity(&self) -> usize {
        self.requested@
    }

    /// Growth is counted at most once.
    pub closed spec fn wf(&self) -> bool {
        self.growth_count <= 1
    }

    /// A buffer with the default capacity.
    pub fn new() -> (b: SerializationBuffer)
        ensures
            b.wf(),
            b.bytes().len() == 0,
            b.reuses() == 0,
            b.growths() == 0,
            b.peak() == 0,
            b.requested_capacity() == DEFAULT_BUFFER_CAPACITY,
    {
        SerializationBuffer::with_capacity(DEFAULT_BUFFER_CAPACITY)
    }

    /// A buffer with room for `capacity` bytes, capped at `MAX_BUFFER_CAPACITY`.
    pub fn with_capacity(capacity: usize) -> (b: SerializationBuffer)
        ensures
            b.wf(),
            b.bytes().len() == 0,
            b.reuses() == 0,
            b.growths() == 0,
            b.peak() == 0,
            b.requested_capacity() == if capacity < MAX_BUFFER_CAPACITY { capacity } else { MAX_BUFFER_CAPACITY },
    {
        let capped = if capacity < MAX_BUFFER_CAPACITY { capacity } else { MAX_BUFFER_CAPACITY };
        SerializationBuffer {
            buffer: Vec::with_capacity(capped),
            reuse_count: 0,
            growth_count: 0,
            peak_size: 0,
            requested: Ghost(capped),
        }
    }

    /// Empty the buffer for reuse, keeping its allocation; counts a reuse.
    pub fn clear(&mut self)
        requires
            old(self).reuses() < u64::MAX,
        ensures
            final(self).bytes().len() == 0,
            final(self).reuses() == old(self).reuses() + 1,
            final(self).growths() == old(self).growths(),
            final(self).peak() == old(self).peak(),
            final(self).requested_capacity() == old(self).requested_capacity(),
            old(self).wf() ==> final(self).wf(),
    {
        self.buffer.clear();
        self.reuse_count = self.reuse_count + 1;
    }

    /// Replace the contents with a freshly serialized payload. A write into a
    /// buffer that holds bytes or has held some counts as a reuse; the peak
    /// size follows the new length, and growth past the default capacity is
    /// counted once.
    pub fn write_bytes(&mut self, payload: &[u8])
        requires
            old(self).wf(),
            old(self).reuses() < u64::MAX,
        ensures
            final(self).wf(),
            final(self).bytes() == payload@,
            final(self).reuses() == if old(self).bytes().len() > 0 || old(self).peak() > 0 {
                old(self).reuses() + 1
            } else {
                old(self).reuses() as int
            },
            final(self).peak() == if payload@.len() > old(self).peak() { payload@.len() as usize } else { old(self).peak() },
            final(self).growths() >= old(self).growths(),
            final(self).requested_capacity() == old(self).requested_capacity(),
    {
        if self.buffer.len() > 0 || self.peak_size > 0 {
            self.reuse_count = self.reuse_count + 1;
        }
        self.buffer.clear();
        let ghost reuses = self.reuse_count;
        let ghost growths = self.growth_count;
        let ghost peak = self.peak_size;
        let ghost requested = self.requested@;
        let mut i: usize = 0;
        while i < payload.len()
            invariant
                i <= payload@.len(),
                self.buffer@ == payload@.take(i as int),
                self.reuse_count == reuses,
                self.growth_count == growths,
                self.peak_size == peak,
                self.requested@ == requested,
            decreases payload@.len() - i,
        {
            self.buffer.push(payload[i]);
            assert(payload@.take(i as int + 1) =~= payload@.take(i as int).push(payload@[i as int]));
            i = i + 1;
        }
        assert(payload@.take(payload@.len() as int) =~= payload@);
        self.update_peak();
    }

    /// The bytes held.
    pub fn as_slice(&self) -> (s: &[u8])
        ensures
            s@ == self.bytes(),
    {
        self.buffer.as_slice()
    }

    /// Number of bytes held.
    pub fn len(&self) -> (n: usize)
        ensures
            n == self.bytes().len(),
    {
        self.buffer.len()
    }

    /// Whether no byte is held.
    pub fn is_empty(&self) -> (b: bool)
        ensures
            b == (self.bytes().len() == 0),
    {
        self.buffer.len() == 0
    }

    /// Allocated capacity.
    pub fn capacity(&self) -> (c: usize)
        ensures
            c >= self.bytes().len(),
    {
        vec_capacity(&self.buffer)
    }

    /// Statistics of the buffer.
    pub fn stats(&self) -> (s: BufferStats)
        ensures
            s.capacity >= self.bytes().len(),
            s.current_len == self.bytes().len(),
            s.peak_size == self.peak(),
            s.reuse_count == self.reuses(),
            s.growth_count == self.growths(),
    {
        BufferStats {
            capacity: vec_capacity(&self.buffer),
            current_len: self.buffer.len(),
            peak_size: self.peak_size,
            reuse_count: self.reuse_count,
            growth_count: self.growth_count,
        }
    }

    /// Raise the peak to the current length; count growth past the default
    /// capacity the first time it is seen.
    fn update_peak(&mut self)
        requires
            old(self).wf(),
        ensures
            final(self).wf(),
            final(self).bytes() == old(self).bytes(),
            final(self).reuses() == old(self).reuses(),
            final(self).peak() == if old(self).bytes().len() > old(self).peak() { old(self).bytes().len() as usize } else { old(self).peak() },
            final(self).growths() >= old(self).growths(),
            final(self).requested_capacity() == old(self).requested_capacity(),
    {
        let current_len = self.buffer.len();
        if current_len > self.peak_size {
            self.peak_size = current_len;
        }
        if vec_capacity(&self.buffer) > DEFAULT_BUFFER_CAPACITY && self.growth_count == 0 {
            self.growth_count = self.growth_count + 1;
        }
    }

    /// Reserve room for `additional` more bytes; the contents are unchanged.
    pub fn reserve(&mut self, additional: usize)
        requires
            old(self).bytes().len() + additional <= isize::MAX,
        ensures
            final(self).bytes() == old(self).bytes(),
            final(self).reuses() == old(self).reuses(),
            final(self).growths() == old(self).growths(),
            final(self).peak() == old(self).peak(),
            final(self).requested_capacity() == old(self).requested_capacity(),
            old(self).wf() ==> final(self).wf(),
    {
        self.buffer.reserve(additional);
    }
}

impl Default for SerializationBuffer {
    fn default() -> (b: SerializationBuffer)
        ensures
            b.wf(),
            b.bytes().len() == 0,
            b.reuses() == 0,
            b.growths() == 0,
            b.peak() == 0,
            b.requested_capacity() == DEFAULT_BUFFER_CAPACITY,
    {
        SerializationBuffer::new()
    }
}

} // verus!
