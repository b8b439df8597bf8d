use vstd::prelude::*;
use crate::memory::{B8Memory, spec_read_u16, spec_read_u32, spec_write_u16, spec_write_u32};
use crate::register::{B8LevelRegister, Register};
use crate::system::bus_types::{ReadErrorKind, ReadResult, WriteErrorKind, WriteResult};
use crate::system::state::SystemView;

verus! {

pub const MAIN_MEMORY_SIZE: usize = 0x20_0000;

pub const BIOS_SIZE: usize = 0x8_0000;

pub const SCRATCHPAD_SIZE: usize = 0x400;

pub const CACHE_CONTROL_SIZE: usize = 0x2_0000;

pub const PIO_SIZE: usize = 0x100;

/// Memories and memory-control registers of the machine.
pub struct State {
    pub main_memory: B8Memory,
    pub bios: B8Memory,
    pub scratchpad: B8Memory,
    pub expansion_1_base_address: Register,
    pub expansion_2_base_address: Register,
    pub expansion_1_delay: Register,
    pub expansion_3_delay: Register,
    pub bios_rom_control: Register,
    pub spu_delay: Register,
    pub cdrom_delay: Register,
    pub expansion_2_delay: Register,
    pub common_delay_control: Register,
    pub ram_size_control: Register,
    pub cache_control: B8Memory,
    pub post_display: B8LevelRegister,
    pub pio: B8Memory,
}

/// Contents of the memories and memory-control registers.
pub struct MemoryView {
    pub main_memory: Seq<u8>,
    pub bios: Seq<u8>,
    pub scratchpad: Seq<u8>,
    pub expansion_1_base_address: Register,
    pub expansion_2_base_address: Register,
    pub expansion_1_delay: Register,
    pub expansion_3_delay: Register,
    pub bios_rom_control: Register,
    pub spu_delay: Register,
    pub cdrom_delay: Register,
    pub expansion_2_delay: Register,
    pub common_delay_control: Register,
    pub ram_size_control: Register,
    pub cache_control: Seq<u8>,
    pub post_display: B8LevelRegister,
    pub pio: Seq<u8>,
}

impl View for State {
    type V = MemoryView;

    open spec fn view(&self) -> MemoryView {
        MemoryView {
            main_memory: self.main_memory@,
            bios: self.bios@,
            scratchpad: self.scratchpad@,
            expansion_1_base_address: self.expansion_1_base_address,
            expansion_2_base_address: self.expansion_2_base_address,
            expansion_1_delay: self.expansion_1_delay,
            expansion_3_delay: self.expansion_3_delay,
            bios_rom_control: self.bios_rom_control,
            spu_delay: self.spu_delay,
            cdrom_delay: self.cdrom_delay,
            expansion_2_delay: self.expansion_2_delay,
            common_delay_control: self.common_delay_control,
            ram_size_control: self.ram_size_control,
            cache_control: self.cache_control@,
            post_display: self.post_display,
            pio: self.pio@,
        }
    }
}

impl State {
    /// Every memory has its fixed size.
    pub open spec fn wf(&self) -> bool {
        &&& self.main_memory@.len() == MAIN_MEMORY_SIZE
        &&& self.bios@.len() == BIOS_SIZE
        &&& self.scratchpad@.len() == SCRATCHPAD_SIZE
        &&& self.cache_control@.len() == CACHE_CONTROL_SIZE
        &&& self.pio@.len() == PIO_SIZE
    }

    /// Power-on state: memories zeroed except the parallel port, which reads all ones.
    pub fn new() -> (s: State)
        ensures
            s.wf(),
            s.main_memory@ == Seq::new(MAIN_MEMORY_SIZE as nat, |i: int| 0u8),
            s.pio@ == Seq::new(PIO_SIZE as nat, |i: int| 0xFFu8),
    {
        State {
            main_memory: B8Memory::new(MAIN_MEMORY_SIZE),
            bios: B8Memory::new(BIOS_SIZE),
            scratchpad: B8Memory::new(SCRATCHPAD_SIZE),
            expansion_1_base_address: Register::new(),
            expansion_2_base_address: Register::new(),
            expansion_1_delay: Register::new(),
            expansion_3_delay: Register::new(),
            bios_rom_control: Register::new(),
            spu_delay: Register::new(),
            cdrom_delay: Register::new(),
            expansion_2_delay: Register::new(),
            common_delay_control: Register::new(),
            ram_size_control: Register::new(),
            cache_control: B8Memory::new(CACHE_CONTROL_SIZE),
            post_display: B8LevelRegister::new(),
            pio: B8Memory::new_initialized(PIO_SIZE, 0xFF),
        }
    }
}

/// Memory-control register at byte offset `offset` from 0x1F801000
/// (expansion bases and delays, BIOS ROM, SPU, CD-ROM, common delay), and
/// RAM size control at offset 0x60.
pub open spec fn memory_control_register(m: MemoryView, offset: u32) -> Option<Register> {
    if offset == 0x00 {
        Some(m.expansion_1_base_address)
    } else if offset == 0x04 {
        Some(m.expansion_2_base_address)
    } else if offset == 0x08 {
        Some(m.expansion_1_delay)
    } else if offset == 0x0C {
        Some(m.expansion_3_delay)
    } else if offset == 0x10 {
        Some(m.bios_rom_control)
    } else if offset == 0x14 {
        Some(m.spu_delay)
    } else if offset == 0x18 {
        Some(m.cdrom_delay)
    } else if offset == 0x1C {
        Some(m.expansion_2_delay)
    } else if offset == 0x20 {
        Some(m.common_delay_control)
    } else if offset == 0x60 {
        Some(m.ram_size_control)
    } else {
        None
    }
}

/// The memory view with the memory-control register at `offset` set to `value`.
pub open spec fn with_memory_control_register(m: MemoryView, offset: u32, value: u32) -> MemoryView {
    let r = Register { value };
    if offset == 0x00 {
        MemoryView { expansion_1_base_address: r, ..m }
    } else if offset == 0x04 {
        MemoryView { expansion_2_base_address: r, ..m }
    } else if offset == 0x08 {
        MemoryView { expansion_1_delay: r, ..m }
    } else if offset == 0x0C {
        MemoryView { expansion_3_delay: r, ..m }
    } else if offset == 0x10 {
        MemoryView { bios_rom_control: r, ..m }
    } else if offset == 0x14 {
        MemoryView { spu_delay: r, ..m }
    } else if offset == 0x18 {
        MemoryView { cdrom_delay: r, ..m }
    } else if offset == 0x1C {
        MemoryView { expansion_2_delay: r, ..m }
    } else if offset == 0x20 {
        MemoryView { common_delay_control: r, ..m }
    } else if offset == 0x60 {
        MemoryView { ram_size_control: r, ..m }
    } else {
        m
    }
}

pub fn memory_control_read_u32(state: &State, offset: u32) -> (r: Option<u32>)
    ensures
        r == (match memory_control_register(state@, offset) {
            Some(reg) => Some(reg.value),
            None => None,
        }),
{
    if offset == 0x00 {
        Some(state.expansion_1_base_address.read_u32())
    } else if offset == 0x04 {
        Some(state.expansion_2_base_address.read_u32())
    } else if offset == 0x08 {
        Some(state.expansion_1_delay.read_u32())
    } else if offset == 0x0C {
        Some(state.expansion_3_delay.read_u32())
    } else if offset == 0x10 {
        Some(state.bios_rom_control.read_u32())
    } else if offset == 0x14 {
        Some(state.spu_delay.read_u32())
    } else if offset == 0x18 {
        Some(state.cdrom_delay.read_u32())
    } else if offset == 0x1C {
        Some(state.expansion_2_delay.read_u32())
    } else if offset == 0x20 {
        Some(state.common_delay_control.read_u32())
    } else if offset == 0x60 {
        Some(state.ram_size_control.read_u32())
    } else {
        None
    }
}

pub fn memory_control_write_u32(state: &mut State, offset: u32, value: u32)
    ensures
        final(state)@ == with_memory_control_register(old(state)@, offset, value),
{
    if offset == 0x00 {
        state.expansion_1_base_address.write_u32(value);
    } else if offset == 0x04 {
        state.expansion_2_base_address.write_u32(value);
    } else if offset == 0x08 {
        state.expansion_1_delay.write_u32(value);
    } else if offset == 0x0C {
        state.expansion_3_delay.write_u32(value);
    } else if offset == 0x10 {
        state.bios_rom_control.write_u32(value);
    } else if offset == 0x14 {
        state.spu_delay.write_u32(value);
    } else if offset == 0x18 {
        state.cdrom_delay.write_u32(value);
    } else if offset == 0x1C {
        state.expansion_2_delay.write_u32(value);
    } else if offset == 0x20 {
        state.common_delay_control.write_u32(value);
    } else if offset == 0x60 {
        state.ram_size_control.write_u32(value);
    }
}

pub fn main_memory_read_u8(state: &crate::system::State, offset: u32) -> (r: ReadResult<u8>)
    requires
        state.wf(),
        offset < MAIN_MEMORY_SIZE,
    ensures
        r == Ok::<u8, ReadErrorKind>(state@.memory.main_memory[offset as int]),
{
    Ok(state.memory.main_memory.read_u8(offset))
}

pub fn main_memory_write_u8(state: &mut crate::system::State, offset: u32, value: u8) -> (r: WriteResult)
    requires
        old(state).wf(),
        offset < MAIN_MEMORY_SIZE,
    ensures
        final(state).wf(),
        r == Ok::<(), WriteErrorKind>(()),
        final(state)@ == (SystemView {
            memory: MemoryView { main_memory: old(state)@.memory.main_memory.update(offset as int, value), ..old(state)@.memory },
            ..old(state)@
        }),
{
    state.memory.main_memory.write_u8(offset, value);
    Ok(())
}

pub fn main_memory_read_u16(state: &crate::system::State, offset: u32) -> (r: ReadResult<u16>)
    requires
        state.wf(),
        offset + 2 <= MAIN_MEMORY_SIZE,
    ensures
        r == Ok::<u16, ReadErrorKind>(spec_read_u16(state@.memory.main_memory, offset as int)),
{
    Ok(state.memory.main_memory.read_u16(offset))
}

pub fn main_memory_write_u16(state: &mut crate::system::State, offset: u32, value: u16) -> (r: WriteResult)
    requires
        old(state).wf(),
        offset + 2 <= MAIN_MEMORY_SIZE,
    ensures
        final(state).wf(),
        r == Ok::<(), WriteErrorKind>(()),
        final(state)@ == (SystemView {
            memory: MemoryView { main_memory: spec_write_u16(old(state)@.memory.main_memory, offset as int, value), ..old(state)@.memory },
            ..old(state)@
        }),
{
    state.memory.main_memory.write_u16(offset, value);
    Ok(())
}

pub fn main_memory_read_u32(state: &crate::system::State, offset: u32) -> (r: ReadResult<u32>)
    requires
        state.wf(),
        offset + 4 <= MAIN_MEMORY_SIZE,
    ensures
        r == Ok::<u32, ReadErrorKind>(spec_read_u32(state@.memory.main_memory, offset as int)),
{
    Ok(state.memory.main_memory.read_u32(offset))
}

pub fn main_memory_write_u32(state: &mut crate::system::State, offset: u32, value: u32) -> (r: WriteResult)
    requires
        old(state).wf(),
        offset + 4 <= MAIN_MEMORY_SIZE,
    ensures
        final(state).wf(),
        r == Ok::<(), WriteErrorKind>(()),
        final(state)@ == (SystemView {
            memory: MemoryView { main_memory: spec_write_u32(old(state)@.memory.main_memory, offset as int, value), ..old(state)@.memory },
            ..old(state)@
        }),
{
    state.memory.main_memory.write_u32(offset, value);
    Ok(())
}

} // verus!
