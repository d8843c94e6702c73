//! A region of guest physical memory: `mem_size` bytes starting at guest
//! address `mem_offset`.
use vstd::prelude::*;

verus! {

pub struct MemoryRegion {
    mem_offset: u64,
    bytes: Vec<u8>,
}

impl View for MemoryRegion {
    /// `(guest address of the first byte, the bytes)`.
    type V = (u64, Seq<u8>);

    closed spec fn view(&self) -> (u64, Seq<u8>) {
        (self.mem_offset, self.bytes@)
    }
}

impl MemoryRegion {
    /// The region ends within the 64-bit guest address space.
    pub open spec fn wf(&self) -> bool {
        self@.0 + self@.1.len() <= u64::MAX
    }

    /// A zeroed region of `mem_size` bytes at guest address `mem_offset`.
    pub fn new(mem_size: usize, mem_offset: u64) -> (r: Self)
        requires
            mem_offset + mem_size <= u64::MAX,
        ensures
            r@ == (mem_offset, Seq::new(mem_size as nat, |i: int| 0u8)),
            r.wf(),
    {
        let bytes = vec![0u8; mem_size];
        assert(bytes@ =~= Seq::new(mem_size as nat, |i: int| 0u8));
        Self { mem_offset, bytes }
    }

    /// A region holding `bytes` at guest address `mem_offset`.
    pub fn from_bytes(bytes: Vec<u8>, mem_offset: u64) -> (r: Self)
        requires
            mem_offset + bytes@.len() <= u64::MAX,
        ensures
            r@ == (mem_offset, bytes@),
            r.wf(),
    {
        Self { mem_offset, bytes }
    }

    pub fn mem_offset(&self) -> (r: u64)
        ensures
            r == self@.0,
    {
        self.mem_offset
    }

    pub fn mem_size(&self) -> (r: usize)
        ensures
            r == self@.1.len(),
    {
        self.bytes.len()
    }

    /// The `length` bytes at `offset` within the region, or `None` when they do
    /// not all lie in it.
    pub fn read(&self, offset: usize, length: usize) -> (r: Option<Vec<u8>>)
        ensures
            match r {
                Some(v) => offset + length <= self@.1.len() && v@ == self@.1.subrange(
                    offset as int,
                    offset + length,
                ),
                None => offset + length > self@.1.len(),
            },
    {
        if offset > self.bytes.len() || length > self.bytes.len() - offset {
            return None;
        }
        let mut out: Vec<u8> = Vec::new();
        let n = self.bytes.len();
        let mut i: usize = 0;
        while i < length
            invariant
                i <= length,
                n == self.bytes@.len(),
                offset + length <= self.bytes@.len(),
                out@ == self.bytes@.subrange(offset as int, offset + i),
            decreases length - i,
        {
            out.push(self.bytes[offset + i]);
            i = i + 1;
            assert(out@ =~= self.bytes@.subrange(offset as int, offset + i));
        }
        Some(out)
    }

    /// Copies `data` to `offset` within the region; does nothing when `data`
    /// would not fit there. Returns whether it was written.
    pub fn write(&mut self, data: &[u8], offset: usize) -> (written: bool)
        ensures
            written == (offset + data@.len() <= old(self)@.1.len()),
            final(self)@.0 == old(self)@.0,
            final(self)@.1 == if written {
                splice(old(self)@.1, offset as int, data@)
            } else {
                old(self)@.1
            },
    {
        if offset > self.bytes.len() || data.len() > self.bytes.len() - offset {
            return false;
        }
        let ghost before = self.bytes@;
        let n = self.bytes.len();
        let mut i: usize = 0;
        while i < data.len()
            invariant
                i <= data@.len(),
                n == self.bytes@.len(),
                offset + data@.len() <= before.len(),
                self.mem_offset == old(self).mem_offset,
                self.bytes@ == splice(before, offset as int, data@.subrange(0, i as int)),
            decreases data@.len() - i,
        {
            self.bytes.set(offset + i, data[i]);
            i = i + 1;
            assert(self.bytes@ =~= splice(before, offset as int, data@.subrange(0, i as int)));
        }
        assert(data@.subrange(0, data@.len() as int) =~= data@);
        true
    }
}

/// `s` with the bytes from `offset` on replaced by `data` (which must fit).
pub open spec fn splice(s: Seq<u8>, offset: int, data: Seq<u8>) -> Seq<u8> {
    s.subrange(0, offset) + data + s.subrange(offset + data.len(), s.len() as int)
}

} // verus!
