//! The backing store behind an address space: an arena of byte buffers that
//! descriptors name by index.

use vstd::prelude::*;
use vstd::slice::{slice_subrange, slice_to_vec};
use crate::memory_map::Region;

verus! {

/// Whether `region` lies wholly inside one of the buffers of `store`.
pub open spec fn region_in_store(store: Seq<Seq<u8>>, region: Region) -> bool {
    &&& region.buffer < store.len()
    &&& region.offset + region.len <= store[region.buffer as int].len()
}

/// The bytes of `region`, or nothing where the region does not lie inside
/// the store.
pub open spec fn region_bytes(store: Seq<Seq<u8>>, region: Region) -> Seq<u8> {
    if region_in_store(store, region) {
        store[region.buffer as int].subrange(
            region.offset as int,
            region.offset + region.len,
        )
    } else {
        Seq::empty()
    }
}

/// How many of `count` offered bytes a write to `region` takes.
pub open spec fn accepted(store: Seq<Seq<u8>>, region: Region, count: int) -> int {
    if region_in_store(store, region) {
        if region.len <= count {
            region.len as int
        } else {
            count
        }
    } else {
        0
    }
}

/// The store after the first `accepted` bytes of `bytes` have been written
/// at the start of `region`. Nothing outside those bytes changes.
pub open spec fn store_after_write(store: Seq<Seq<u8>>, region: Region, bytes: Seq<u8>) -> Seq<
    Seq<u8>,
> {
    let n = accepted(store, region, bytes.len() as int);
    if n > 0 {
        store.update(
            region.buffer as int,
            overwritten(store[region.buffer as int], region.offset as int, bytes, n),
        )
    } else {
        store
    }
}

/// An arena of byte buffers.
#[derive(Debug)]
pub struct Memory {
    buffers: Vec<Vec<u8>>,
}

impl View for Memory {
    type V = Seq<Seq<u8>>;

    closed spec fn view(&self) -> Seq<Seq<u8>> {
        Seq::new(self.buffers@.len(), |i: int| self.buffers@[i]@)
    }
}

impl Memory {
    /// The arena without buffers.
    pub fn new() -> (r: Memory)
        ensures
            r@ == Seq::<Seq<u8>>::empty(),
    {
        let r = Memory { buffers: Vec::new() };
        assert(r@ =~= Seq::<Seq<u8>>::empty());
        r
    }

    /// Number of buffers.
    pub fn len(&self) -> (r: usize)
        ensures
            r == self@.len(),
    {
        self.buffers.len()
    }

    /// Adds a buffer and returns the index that descriptors name it by.
    pub fn add_buffer(&mut self, bytes: Vec<u8>) -> (r: usize)
        ensures
            r == old(self)@.len(),
            final(self)@ == old(self)@.push(bytes@),
    {
        let id = self.buffers.len();
        self.buffers.push(bytes);
        assert(self@ =~= old(self)@.push(bytes@));
        id
    }

    /// The buffer that descriptors name by `index`, if there is one.
    pub fn buffer(&self, index: usize) -> (r: Option<&[u8]>)
        ensures
            r is Some <==> index < self@.len(),
            r matches Some(bytes) ==> bytes@ == self@[index as int],
    {
        if index < self.buffers.len() {
            Some(self.buffers[index].as_slice())
        } else {
            None
        }
    }

    /// A copy of the bytes of `region`; empty where the region does not lie
    /// inside the store.
    pub fn read(&self, region: Region) -> (r: Vec<u8>)
        ensures
            r@ == region_bytes(self@, region),
    {
        if region.buffer >= self.buffers.len() {
            return Vec::new();
        }
        let buffer = self.buffers[region.buffer].as_slice();
        if region.offset > buffer.len() || region.len > buffer.len() - region.offset {
            return Vec::new();
        }
        slice_to_vec(slice_subrange(buffer, region.offset, region.offset + region.len))
    }

    /// Writes the leading bytes of `bytes` at the start of `region`, as many
    /// as the region holds, and returns their number. A region that does not
    /// lie inside the store takes none.
    pub fn write(&mut self, region: Region, bytes: &[u8]) -> (r: usize)
        ensures
            r == accepted(old(self)@, region, bytes@.len() as int),
            final(self)@ == store_after_write(old(self)@, region, bytes@),
    {
        if region.buffer >= self.buffers.len() {
            return 0;
        }
        let buffer_len = self.buffers[region.buffer].len();
        if region.offset > buffer_len || region.len > buffer_len - region.offset {
            return 0;
        }
        let n = if region.len <= bytes.len() { region.len } else { bytes.len() };
        overwrite(&mut self.buffers[region.buffer], region.offset, bytes, n);
        proof {
            let expected = store_after_write(old(self)@, region, bytes@);
            assert(self@.len() == expected.len());
            assert forall|i: int| 0 <= i < self@.len() implies self@[i] =~= expected[i] by {}
            assert(self@ =~= expected);
        }
        n
    }
}

/// `buffer` with `bytes[..n]` written over `buffer[offset..offset + n]`.
pub open spec fn overwritten(buffer: Seq<u8>, offset: int, bytes: Seq<u8>, n: int) -> Seq<u8> {
    Seq::new(
        buffer.len(),
        |i: int|
            if offset <= i < offset + n {
                bytes[i - offset]
            } else {
                buffer[i]
            },
    )
}

/// Copies `bytes[..n]` over `buffer[offset..offset + n]`.
fn overwrite(buffer: &mut Vec<u8>, offset: usize, bytes: &[u8], n: usize)
    requires
        n <= bytes@.len(),
        offset + n <= old(buffer)@.len(),
    ensures
        final(buffer)@ == overwritten(old(buffer)@, offset as int, bytes@, n as int),
{
    let len = buffer.len();
    let mut k: usize = 0;
    while k < n
        invariant
            k <= n,
            n <= bytes@.len(),
            offset + n <= len,
            buffer@.len() == len,
            buffer@ == overwritten(old(buffer)@, offset as int, bytes@, k as int),
        decreases n - k,
    {
        buffer[offset + k] = bytes[k];
        k += 1;
    }
}

} // verus!
