use vstd::prelude::*;

verus! {

/// Little-endian halfword made of two bytes.
pub open spec fn le_u16(b0: u8, b1: u8) -> u16 {
    ((b0 as u16) | ((b1 as u16) << 8u16)) as u16
}

/// Little-endian word made of four bytes.
pub open spec fn le_u32(b0: u8, b1: u8, b2: u8, b3: u8) -> u32 {
    ((b0 as u32) | ((b1 as u32) << 8u32) | ((b2 as u32) << 16u32) | ((b3 as u32) << 24u32)) as u32
}

/// Halfword stored little-endian at `offset` of a byte sequence.
pub open spec fn spec_read_u16(bytes: Seq<u8>, offset: int) -> u16 {
    le_u16(bytes[offset], bytes[offset + 1])
}

/// Word stored little-endian at `offset` of a byte sequence.
pub open spec fn spec_read_u32(bytes: Seq<u8>, offset: int) -> u32 {
    le_u32(bytes[offset], bytes[offset + 1], bytes[offset + 2], bytes[offset + 3])
}

/// The bytes after storing `value` little-endian at `offset`.
pub open spec fn spec_write_u16(bytes: Seq<u8>, offset: int, value: u16) -> Seq<u8> {
    bytes.update(offset, value as u8).update(offset + 1, (value >> 8u16) as u8)
}

/// The bytes after storing `value` little-endian at `offset`.
pub open spec fn spec_write_u32(bytes: Seq<u8>, offset: int, value: u32) -> Seq<u8> {
    bytes.update(offset, value as u8).update(offset + 1, (value >> 8u32) as u8).update(
        offset + 2,
        (value >> 16u32) as u8,
    ).update(offset + 3, (value >> 24u32) as u8)
}

/// Byte-addressed memory (main RAM, BIOS ROM, scratchpad, ...).
pub struct B8Memory {
    pub data: Vec<u8>,
}

impl View for B8Memory {
    type V = Seq<u8>;

    open spec fn view(&self) -> Seq<u8> {
        self.data@
    }
}

impl B8Memory {
    /// Memory of `size` bytes, all zero.
    pub fn new(size: usize) -> (m: B8Memory)
        ensures
            m@ == Seq::new(size as nat, |i: int| 0u8),
    {
        Self::new_initialized(size, 0)
    }

    /// Memory of `size` bytes, all equal to `value`.
    pub fn new_initialized(size: usize, value: u8) -> (m: B8Memory)
        ensures
            m@ == Seq::new(size as nat, |i: int| value),
    {
        let mut data: Vec<u8> = Vec::with_capacity(size);
        let mut i: usize = 0;
        while i < size
            invariant
                i <= size,
                data@ == Seq::new(i as nat, |j: int| value),
            decreases size - i,
        {
            data.push(value);
            i = i + 1;
        }
        B8Memory { data }
    }

    pub fn len(&self) -> (n: usize)
        ensures
            n == self@.len(),
    {
        self.data.len()
    }

    pub fn read_u8(&self, offset: u32) -> (r: u8)
        requires
            offset < self@.len(),
        ensures
            r == self@[offset as int],
    {
        self.data[offset as usize]
    }

    pub fn write_u8(&mut self, offset: u32, value: u8)
        requires
            offset < old(self)@.len(),
        ensures
            final(self)@ == old(self)@.update(offset as int, value),
    {
        self.data.set(offset as usize, value);
    }

    pub fn read_u16(&self, offset: u32) -> (r: u16)
        requires
            offset + 2 <= self@.len(),
        ensures
            r == spec_read_u16(self@, offset as int),
    {
        let o = offset as usize;
        let _n = self.data.len();
        let b0 = self.data[o];
        let b1 = self.data[o + 1];
        (b0 as u16) | ((b1 as u16) << 8u16)
    }

    pub fn write_u16(&mut self, offset: u32, value: u16)
        requires
            offset + 2 <= old(self)@.len(),
        ensures
            final(self)@ == spec_write_u16(old(self)@, offset as int, value),
    {
        let o = offset as usize;
        let _n = self.data.len();
        self.data.set(o, value as u8);
        self.data.set(o + 1, (value >> 8u16) as u8);
    }

    pub fn read_u32(&self, offset: u32) -> (r: u32)
        requires
            offset + 4 <= self@.len(),
        ensures
            r == spec_read_u32(self@, offset as int),
    {
        let o = offset as usize;
        let _n = self.data.len();
        let b0 = self.data[o];
        let b1 = self.data[o + 1];
        let b2 = self.data[o + 2];
        let b3 = self.data[o + 3];
        (b0 as u32) | ((b1 as u32) << 8u32) | ((b2 as u32) << 16u32) | ((b3 as u32) << 24u32)
    }

    pub fn write_u32(&mut self, offset: u32, value: u32)
        requires
            offset + 4 <= old(self)@.len(),
        ensures
            final(self)@ == spec_write_u32(old(self)@, offset as int, value),
    {
        let o = offset as usize;
        let _n = self.data.len();
        self.data.set(o, value as u8);
        self.data.set(o + 1, (value >> 8u32) as u8);
        self.data.set(o + 2, (value >> 16u32) as u8);
        self.data.set(o + 3, (value >> 24u32) as u8);
    }
}

/// A halfword written to memory reads back unchanged, and bytes outside it are untouched.
pub proof fn lemma_write_read_u16(bytes: Seq<u8>, offset: int, value: u16, other: int)
    requires
        0 <= offset,
        offset + 2 <= bytes.len(),
        0 <= other < bytes.len(),
        other < offset || other >= offset + 2,
    ensures
        spec_read_u16(spec_write_u16(bytes, offset, value), offset) == value,
        spec_write_u16(bytes, offset, value)[other] == bytes[other],
        spec_write_u16(bytes, offset, value).len() == bytes.len(),
{
    let b0 = value as u8;
    let b1 = (value >> 8u16) as u8;
    assert(le_u16(value as u8, (value >> 8u16) as u8) == value) by (bit_vector);
}

/// A word written to memory reads back unchanged, and bytes outside it are untouched.
pub proof fn lemma_write_read_u32(bytes: Seq<u8>, offset: int, value: u32, other: int)
    requires
        0 <= offset,
        offset + 4 <= bytes.len(),
        0 <= other < bytes.len(),
        other < offset || other >= offset + 4,
    ensures
        spec_read_u32(spec_write_u32(bytes, offset, value), offset) == value,
        spec_write_u32(bytes, offset, value)[other] == bytes[other],
        spec_write_u32(bytes, offset, value).len() == bytes.len(),
{
    assert(le_u32(
        value as u8,
        (value >> 8u32) as u8,
        (value >> 16u32) as u8,
        (value >> 24u32) as u8,
    ) == value) by (bit_vector);
}

/// A word read is the two halfwords read at the same place, low one first.
pub proof fn lemma_read_u32_halves(bytes: Seq<u8>, offset: int)
    requires
        0 <= offset,
        offset + 4 <= bytes.len(),
    ensures
        spec_read_u32(bytes, offset) == (spec_read_u16(bytes, offset) as u32) | ((spec_read_u16(
            bytes,
            offset + 2,
        ) as u32) << 16u32),
{
    let b0 = bytes[offset];
    let b1 = bytes[offset + 1];
    let b2 = bytes[offset + 2];
    let b3 = bytes[offset + 3];
    assert(le_u32(b0, b1, b2, b3) == (le_u16(b0, b1) as u32) | ((le_u16(b2, b3) as u32) << 16u32))
        by (bit_vector);
}

} // verus!
