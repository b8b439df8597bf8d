use vstd::prelude::*;
use crate::bitfield::Bitfield;

verus! {

/// Halfword `index` (0 = low, 1 = high) of a 32-bit word.
pub open spec fn spec_half(value: u32, index: u32) -> u16 {
    (value >> (16 * index)) as u16
}

/// Byte `index` (0 = lowest) of a 32-bit word.
pub open spec fn spec_byte(value: u32, index: u32) -> u8 {
    (value >> (8 * index)) as u8
}

/// The word with halfword `index` replaced by `half`.
pub open spec fn spec_with_half(value: u32, index: u32, half: u16) -> u32 {
    (value & !(0xFFFFu32 << (16 * index))) | ((half as u32) << (16 * index))
}

/// The word with byte `index` replaced by `byte`.
pub open spec fn spec_with_byte(value: u32, index: u32, byte: u8) -> u32 {
    (value & !(0xFFu32 << (8 * index))) | ((byte as u32) << (8 * index))
}

pub fn half_of(value: u32, index: u32) -> (r: u16)
    requires
        index < 2,
    ensures
        r == spec_half(value, index),
{
    (value >> (16 * index)) as u16
}

pub fn byte_of(value: u32, index: u32) -> (r: u8)
    requires
        index < 4,
    ensures
        r == spec_byte(value, index),
{
    (value >> (8 * index)) as u8
}

pub fn with_half(value: u32, index: u32, half: u16) -> (r: u32)
    requires
        index < 2,
    ensures
        r == spec_with_half(value, index, half),
{
    (value & !(0xFFFFu32 << (16 * index))) | ((half as u32) << (16 * index))
}

pub fn with_byte(value: u32, index: u32, byte: u8) -> (r: u32)
    requires
        index < 4,
    ensures
        r == spec_with_byte(value, index, byte),
{
    (value & !(0xFFu32 << (8 * index))) | ((byte as u32) << (8 * index))
}

/// Writing a halfword and reading it back gives it; the other halfword is untouched.
pub proof fn lemma_half_write_read(value: u32, index: u32, half: u16)
    requires
        index < 2,
    ensures
        spec_half(spec_with_half(value, index, half), index) == half,
        spec_half(spec_with_half(value, index, half), (1 - index) as u32) == spec_half(value, (1 - index) as u32),
{
    if index == 0 {
        assert(spec_half(spec_with_half(value, 0, half), 0) == half) by (bit_vector);
        assert(spec_half(spec_with_half(value, 0, half), 1) == spec_half(value, 1)) by (bit_vector);
    } else {
        assert(spec_half(spec_with_half(value, 1, half), 1) == half) by (bit_vector);
        assert(spec_half(spec_with_half(value, 1, half), 0) == spec_half(value, 0)) by (bit_vector);
    }
}

/// Writing a byte and reading it back gives it; every other byte is untouched.
pub proof fn lemma_byte_write_read(value: u32, index: u32, byte: u8, other: u32)
    requires
        index < 4,
        other < 4,
        other != index,
    ensures
        spec_byte(spec_with_byte(value, index, byte), index) == byte,
        spec_byte(spec_with_byte(value, index, byte), other) == spec_byte(value, other),
{
    assert(spec_byte(spec_with_byte(value, index, byte), index) == byte) by (bit_vector)
        requires index < 4;
    assert(spec_byte(spec_with_byte(value, index, byte), other) == spec_byte(value, other)) by (bit_vector)
        requires index < 4, other < 4, other != index;
}

/// A 32-bit register (CPU general purpose, coprocessor, or a memory-mapped level register).
#[derive(Clone, Copy)]
pub struct Register {
    pub value: u32,
}

/// Memory-mapped 32-bit register whose value is simply what was last written.
pub type B32LevelRegister = Register;

impl Register {
    pub fn new() -> (r: Register)
        ensures
            r.value == 0,
    {
        Register { value: 0 }
    }

    pub fn read_u32(&self) -> (r: u32)
        ensures
            r == self.value,
    {
        self.value
    }

    pub fn write_u32(&mut self, value: u32)
        ensures
            final(self).value == value,
    {
        self.value = value;
    }

    pub fn read_u16(&self, offset: u32) -> (r: u16)
        requires
            offset < 2,
        ensures
            r == spec_half(self.value, offset),
    {
        half_of(self.value, offset)
    }

    pub fn write_u16(&mut self, offset: u32, value: u16)
        requires
            offset < 2,
        ensures
            final(self).value == spec_with_half(old(self).value, offset, value),
    {
        self.value = with_half(self.value, offset, value);
    }

    pub fn read_u8(&self, offset: u32) -> (r: u8)
        requires
            offset < 4,
        ensures
            r == spec_byte(self.value, offset),
    {
        byte_of(self.value, offset)
    }

    pub fn write_u8(&mut self, offset: u32, value: u8)
        requires
            offset < 4,
        ensures
            final(self).value == spec_with_byte(old(self).value, offset, value),
    {
        self.value = with_byte(self.value, offset, value);
    }

    pub fn read_bitfield(&self, bitfield: Bitfield) -> (r: u32)
        requires
            bitfield.wf(),
        ensures
            r == bitfield.spec_extract(self.value),
    {
        bitfield.extract_from(self.value)
    }

    pub fn write_bitfield(&mut self, bitfield: Bitfield, value: u32)
        requires
            bitfield.wf(),
        ensures
            final(self).value == bitfield.spec_insert(old(self).value, value),
    {
        self.value = bitfield.insert_into(self.value, value);
    }
}

/// Memory-mapped 16-bit register whose value is what was last written.
#[derive(Clone, Copy)]
pub struct B16LevelRegister {
    pub value: u16,
}

impl B16LevelRegister {
    pub fn new() -> (r: B16LevelRegister)
        ensures
            r.value == 0,
    {
        B16LevelRegister { value: 0 }
    }

    pub fn read_u16(&self) -> (r: u16)
        ensures
            r == self.value,
    {
        self.value
    }

    pub fn write_u16(&mut self, value: u16)
        ensures
            final(self).value == value,
    {
        self.value = value;
    }
}

/// Memory-mapped 8-bit register whose value is what was last written.
#[derive(Clone, Copy)]
pub struct B8LevelRegister {
    pub value: u8,
}

impl B8LevelRegister {
    pub fn new() -> (r: B8LevelRegister)
        ensures
            r.value == 0,
    {
        B8LevelRegister { value: 0 }
    }

    pub fn read_u8(&self) -> (r: u8)
        ensures
            r == self.value,
    {
        self.value
    }

    pub fn write_u8(&mut self, value: u8)
        ensures
            final(self).value == value,
    {
        self.value = value;
    }
}

/// Which bus access left an edge register latched.
#[derive(Clone, Copy, Debug, PartialEq, Eq, Structural)]
pub enum LatchKind {
    Read,
    Write,
}

/// Memory-mapped 16-bit register that latches each access until the owning
/// controller acknowledges it; while latched, further accesses are refused.
#[derive(Clone, Copy)]
pub struct B16EdgeRegister {
    pub value: u16,
    pub latch: Option<LatchKind>,
}

impl B16EdgeRegister {
    pub fn new() -> (r: B16EdgeRegister)
        ensures
            r.value == 0,
            r.latch is None,
    {
        B16EdgeRegister { value: 0, latch: None }
    }

    pub fn read_u16(&mut self) -> (r: Result<u16, ()>)
        ensures
            old(self).latch is Some ==> r is Err && *final(self) == *old(self),
            old(self).latch is None ==> r == Ok::<u16, ()>(old(self).value) && final(self).value
                == old(self).value && final(self).latch == Some(LatchKind::Read),
    {
        if self.latch.is_some() {
            return Err(());
        }
        self.latch = Some(LatchKind::Read);
        Ok(self.value)
    }

    pub fn write_u16(&mut self, value: u16) -> (r: Result<(), ()>)
        ensures
            old(self).latch is Some ==> r is Err && *final(self) == *old(self),
            old(self).latch is None ==> r is Ok && final(self).value == value && final(self).latch
                == Some(LatchKind::Write),
    {
        if self.latch.is_some() {
            return Err(());
        }
        self.value = value;
        self.latch = Some(LatchKind::Write);
        Ok(())
    }

    /// Releases the latch, storing the value that the controller settled on.
    pub fn acknowledge(&mut self, value: u16)
        ensures
            final(self).value == value,
            final(self).latch is None,
    {
        self.value = value;
        self.latch = None;
    }
}

/// Memory-mapped 32-bit register with the same latching behaviour as [`B16EdgeRegister`].
#[derive(Clone, Copy)]
pub struct B32EdgeRegister {
    pub value: u32,
    pub latch: Option<LatchKind>,
}

impl B32EdgeRegister {
    pub fn new() -> (r: B32EdgeRegister)
        ensures
            r.value == 0,
            r.latch is None,
    {
        B32EdgeRegister { value: 0, latch: None }
    }

    pub fn write_u32(&mut self, value: u32) -> (r: Result<(), ()>)
        ensures
            old(self).latch is Some ==> r is Err && *final(self) == *old(self),
            old(self).latch is None ==> r is Ok && final(self).value == value && final(self).latch
                == Some(LatchKind::Write),
    {
        if self.latch.is_some() {
            return Err(());
        }
        self.value = value;
        self.latch = Some(LatchKind::Write);
        Ok(())
    }

    pub fn acknowledge(&mut self, value: u32)
        ensures
            final(self).value == value,
            final(self).latch is None,
    {
        self.value = value;
        self.latch = None;
    }
}

} // verus!
