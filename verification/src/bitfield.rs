use vstd::prelude::*;

verus! {

/// Mask with the low `length` bits set, for a field inside a 32-bit word.
pub open spec fn low_mask32(length: u32) -> u32 {
    if length >= 32 {
        0xFFFF_FFFFu32
    } else {
        ((1u32 << length) - 1) as u32
    }
}

/// The bitfield of `length` bits starting at bit `start`.
pub open spec fn field(start: u32, length: u32) -> Bitfield {
    Bitfield { start, length }
}

/// A contiguous run of bits inside a register: `length` bits starting at bit `start`.
#[derive(Clone, Copy)]
pub struct Bitfield {
    pub start: u32,
    pub length: u32,
}

impl Bitfield {
    /// A bitfield is valid when it lies entirely inside a 32-bit word.
    pub open spec fn wf(self) -> bool {
        &&& 1 <= self.length
        &&& self.start + self.length <= 32
    }

    /// The field's mask, aligned to bit 0.
    pub open spec fn mask(self) -> u32 {
        low_mask32(self.length)
    }

    /// What `extract_from` gives on a 32-bit value.
    pub open spec fn spec_extract(self, value: u32) -> u32 {
        (value >> self.start) & self.mask()
    }

    /// What `insert_into` gives on a 32-bit value.
    pub open spec fn spec_insert(self, value: u32, field: u32) -> u32 {
        (value & !(self.mask() << self.start)) | ((field & self.mask()) << self.start)
    }

    pub fn new(start: u32, length: u32) -> (b: Bitfield)
        ensures
            b.start == start,
            b.length == length,
    {
        Bitfield { start, length }
    }

    fn mask_value(&self) -> (m: u32)
        requires
            self.wf(),
        ensures
            m == self.mask(),
    {
        if self.length >= 32 {
            0xFFFF_FFFF
        } else {
            proof {
                let l = self.length;
                assert(1u32 << l >= 1) by (bit_vector)
                    requires l < 32;
            }
            (1u32 << self.length) - 1
        }
    }

    pub fn extract_from(&self, value: u32) -> (r: u32)
        requires
            self.wf(),
        ensures
            r == self.spec_extract(value),
    {
        (value >> self.start) & self.mask_value()
    }

    pub fn insert_into(&self, value: u32, field: u32) -> (r: u32)
        requires
            self.wf(),
        ensures
            r == self.spec_insert(value, field),
    {
        let m = self.mask_value();
        (value & !(m << self.start)) | ((field & m) << self.start)
    }

    /// Reading a field back after writing it gives the written value, cut to the field's width.
    pub proof fn lemma_extract_insert(self, value: u32, field: u32)
        requires
            self.wf(),
        ensures
            self.spec_extract(self.spec_insert(value, field)) == field & self.mask(),
    {
        let s = self.start;
        let l = self.length;
        let m = self.mask();
        if l >= 32 {
            assert(s == 0);
            assert((((value & !(m << s)) | ((field & m) << s)) >> s) & m == field & m) by (bit_vector)
                requires m == 0xFFFF_FFFFu32, s == 0u32;
        } else {
            assert((((value & !(m << s)) | ((field & m) << s)) >> s) & m == field & m) by (bit_vector)
                requires m == ((1u32 << l) - 1) as u32, l < 32, s + l <= 32, 1 <= l;
        }
    }
}

} // verus!
