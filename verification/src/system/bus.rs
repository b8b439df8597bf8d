use vstd::prelude::*;
use crate::memory::{spec_read_u16, spec_read_u32, spec_write_u16, spec_write_u32};
use crate::register::{B8LevelRegister, Register, spec_half, spec_with_half};
use crate::system::bus_types::{ReadErrorKind, ReadResult, WriteErrorKind, WriteResult};
use crate::system::gpu::memory::{
    gpu1810_read_u32, gpu1810_write_u32, gpu1814_read_u32, gpu1814_write_u32, spec_gpu1810_read,
    spec_gpu1810_write, spec_gpu1814_write, spec_gpustat,
};
use crate::system::intc::spec_acknowledge;
use crate::system::memory::{
    memory_control_read_u32, memory_control_register, memory_control_write_u32,
    with_memory_control_register, MemoryView, BIOS_SIZE, CACHE_CONTROL_SIZE, MAIN_MEMORY_SIZE,
    PIO_SIZE, SCRATCHPAD_SIZE,
};
use crate::system::padmc::{
    baud_reload_read_u16, baud_reload_write_u16, ctrl_read_u16, ctrl_write_u16, mode_read_u16,
    mode_write_u16, padmc1040_read_u8, padmc1040_write_u8, spec_ctrl_read, spec_ctrl_write,
    spec_padmc1040_read, spec_padmc1040_write, spec_stat_value, stat_read_u16, stat_read_u32,
    stat_write_u32, PadmcView,
};
use crate::system::state::{State, SystemView};

verus! {

/// The byte-addressed memories on the bus.
#[derive(Clone, Copy, Debug, PartialEq, Eq, Structural)]
pub enum MemoryRegion {
    Main,
    Pio,
    Scratchpad,
    Bios,
    CacheControl,
}

/// What a physical address selects, with the offset inside it.
#[derive(Clone, Copy, Debug, PartialEq, Eq, Structural)]
pub enum Target {
    Memory(MemoryRegion, u32),
    MemoryControl(u32),
    Padmc(u32),
    Intc(u32),
    Gpu(u32),
    PostDisplay,
    Unmapped,
}

/// The physical memory map.
pub open spec fn spec_decode(address: u32) -> Target {
    if address < 0x20_0000 {
        Target::Memory(MemoryRegion::Main, address)
    } else if 0x1F00_0000 <= address < 0x1F00_0100 {
        Target::Memory(MemoryRegion::Pio, (address - 0x1F00_0000) as u32)
    } else if 0x1F80_0000 <= address < 0x1F80_0400 {
        Target::Memory(MemoryRegion::Scratchpad, (address - 0x1F80_0000) as u32)
    } else if 0x1F80_1000 <= address < 0x1F80_1024 || address == 0x1F80_1060 {
        Target::MemoryControl((address - 0x1F80_1000) as u32)
    } else if 0x1F80_1040 <= address < 0x1F80_1050 {
        Target::Padmc((address - 0x1F80_1040) as u32)
    } else if 0x1F80_1070 <= address < 0x1F80_1078 {
        Target::Intc((address - 0x1F80_1070) as u32)
    } else if 0x1F80_1810 <= address < 0x1F80_1818 {
        Target::Gpu((address - 0x1F80_1810) as u32)
    } else if address == 0x1F80_2041 {
        Target::PostDisplay
    } else if 0x1FC0_0000 <= address < 0x1FC8_0000 {
        Target::Memory(MemoryRegion::Bios, (address - 0x1FC0_0000) as u32)
    } else if 0xFFFE_0000 <= address {
        Target::Memory(MemoryRegion::CacheControl, (address - 0xFFFE_0000) as u32)
    } else {
        Target::Unmapped
    }
}

pub fn decode(address: u32) -> (t: Target)
    ensures
        t == spec_decode(address),
{
    if address < 0x20_0000 {
        Target::Memory(MemoryRegion::Main, address)
    } else if 0x1F00_0000 <= address && address < 0x1F00_0100 {
        Target::Memory(MemoryRegion::Pio, address - 0x1F00_0000)
    } else if 0x1F80_0000 <= address && address < 0x1F80_0400 {
        Target::Memory(MemoryRegion::Scratchpad, address - 0x1F80_0000)
    } else if (0x1F80_1000 <= address && address < 0x1F80_1024) || address == 0x1F80_1060 {
        Target::MemoryControl(address - 0x1F80_1000)
    } else if 0x1F80_1040 <= address && address < 0x1F80_1050 {
        Target::Padmc(address - 0x1F80_1040)
    } else if 0x1F80_1070 <= address && address < 0x1F80_1078 {
        Target::Intc(address - 0x1F80_1070)
    } else if 0x1F80_1810 <= address && address < 0x1F80_1818 {
        Target::Gpu(address - 0x1F80_1810)
    } else if address == 0x1F80_2041 {
        Target::PostDisplay
    } else if 0x1FC0_0000 <= address && address < 0x1FC8_0000 {
        Target::Memory(MemoryRegion::Bios, address - 0x1FC0_0000)
    } else if 0xFFFE_0000 <= address {
        Target::Memory(MemoryRegion::CacheControl, address - 0xFFFE_0000)
    } else {
        Target::Unmapped
    }
}

/// The contents of a memory region.
pub open spec fn region_bytes(m: MemoryView, region: MemoryRegion) -> Seq<u8> {
    match region {
        MemoryRegion::Main => m.main_memory,
        MemoryRegion::Pio => m.pio,
        MemoryRegion::Scratchpad => m.scratchpad,
        MemoryRegion::Bios => m.bios,
        MemoryRegion::CacheControl => m.cache_control,
    }
}

/// The memories with a region's contents replaced.
pub open spec fn with_region_bytes(m: MemoryView, region: MemoryRegion, bytes: Seq<u8>) -> MemoryView {
    match region {
        MemoryRegion::Main => MemoryView { main_memory: bytes, ..m },
        MemoryRegion::Pio => MemoryView { pio: bytes, ..m },
        MemoryRegion::Scratchpad => MemoryView { scratchpad: bytes, ..m },
        MemoryRegion::Bios => MemoryView { bios: bytes, ..m },
        MemoryRegion::CacheControl => MemoryView { cache_control: bytes, ..m },
    }
}

pub open spec fn region_size(region: MemoryRegion) -> nat {
    match region {
        MemoryRegion::Main => MAIN_MEMORY_SIZE as nat,
        MemoryRegion::Pio => PIO_SIZE as nat,
        MemoryRegion::Scratchpad => SCRATCHPAD_SIZE as nat,
        MemoryRegion::Bios => BIOS_SIZE as nat,
        MemoryRegion::CacheControl => CACHE_CONTROL_SIZE as nat,
    }
}

fn region_memory(state: &State, region: MemoryRegion) -> (m: &crate::memory::B8Memory)
    requires
        state.wf(),
    ensures
        m@ == region_bytes(state@.memory, region),
        m@.len() == region_size(region),
{
    match region {
        MemoryRegion::Main => &state.memory.main_memory,
        MemoryRegion::Pio => &state.memory.pio,
        MemoryRegion::Scratchpad => &state.memory.scratchpad,
        MemoryRegion::Bios => &state.memory.bios,
        MemoryRegion::CacheControl => &state.memory.cache_control,
    }
}

fn region_size_exec(region: MemoryRegion) -> (n: u32)
    ensures
        n == region_size(region),
{
    match region {
        MemoryRegion::Main => MAIN_MEMORY_SIZE as u32,
        MemoryRegion::Pio => PIO_SIZE as u32,
        MemoryRegion::Scratchpad => SCRATCHPAD_SIZE as u32,
        MemoryRegion::Bios => BIOS_SIZE as u32,
        MemoryRegion::CacheControl => CACHE_CONTROL_SIZE as u32,
    }
}

/// Byte read from the bus.
pub open spec fn spec_bus_read_u8(s: SystemView, address: u32) -> (SystemView, ReadResult<u8>) {
    match spec_decode(address) {
        Target::Memory(region, offset) => (s, Ok(region_bytes(s.memory, region)[offset as int])),
        Target::Padmc(offset) => if offset == 0 {
            spec_padmc1040_read(s)
        } else {
            (s, Err(ReadErrorKind::Unmapped))
        },
        Target::PostDisplay => (s, Ok(s.memory.post_display.value)),
        _ => (s, Err(ReadErrorKind::Unmapped)),
    }
}

/// Halfword read from the bus; halfwords that straddle the end of a memory are unmapped.
pub open spec fn spec_bus_read_u16(s: SystemView, address: u32) -> (SystemView, ReadResult<u16>) {
    match spec_decode(address) {
        Target::Memory(region, offset) => if offset + 2 <= region_size(region) {
            (s, Ok(spec_read_u16(region_bytes(s.memory, region), offset as int)))
        } else {
            (s, Err(ReadErrorKind::Unmapped))
        },
        Target::Padmc(offset) => if offset == 4 {
            (s, Ok(spec_half(spec_stat_value(s.padmc.stat.value, s.padmc.rx_fifo.len() > 0), 0)))
        } else if offset == 8 {
            (s, Ok(s.padmc.mode.value))
        } else if offset == 0xA {
            spec_ctrl_read(s)
        } else if offset == 0xE {
            (s, Ok(s.padmc.baud_reload.value))
        } else {
            (s, Err(ReadErrorKind::Unmapped))
        },
        Target::Intc(offset) => if offset == 0 {
            (s, Ok(spec_half(s.intc.stat.register.value, 0)))
        } else if offset == 4 {
            (s, Ok(spec_half(s.intc.mask.value, 0)))
        } else {
            (s, Err(ReadErrorKind::Unmapped))
        },
        _ => (s, Err(ReadErrorKind::Unmapped)),
    }
}

/// Word read from the bus; words that straddle the end of a memory are unmapped.
pub open spec fn spec_bus_read_u32(s: SystemView, address: u32) -> (SystemView, ReadResult<u32>) {
    match spec_decode(address) {
        Target::Memory(region, offset) => if offset + 4 <= region_size(region) {
            (s, Ok(spec_read_u32(region_bytes(s.memory, region), offset as int)))
        } else {
            (s, Err(ReadErrorKind::Unmapped))
        },
        Target::MemoryControl(offset) => match memory_control_register(s.memory, offset) {
            Some(r) => (s, Ok(r.value)),
            None => (s, Err(ReadErrorKind::Unmapped)),
        },
        Target::Padmc(offset) => if offset == 4 {
            (s, Ok(spec_stat_value(s.padmc.stat.value, s.padmc.rx_fifo.len() > 0)))
        } else {
            (s, Err(ReadErrorKind::Unmapped))
        },
        Target::Intc(offset) => if offset == 0 {
            (s, Ok(s.intc.stat.register.value))
        } else if offset == 4 {
            (s, Ok(s.intc.mask.value))
        } else {
            (s, Err(ReadErrorKind::Unmapped))
        },
        Target::Gpu(offset) => if offset == 0 {
            spec_gpu1810_read(s)
        } else if offset == 4 {
            (s, Ok(spec_gpustat(s.gpu)))
        } else {
            (s, Err(ReadErrorKind::Unmapped))
        },
        _ => (s, Err(ReadErrorKind::Unmapped)),
    }
}

/// Byte write to the bus.
pub open spec fn spec_bus_write_u8(s: SystemView, address: u32, value: u8) -> (SystemView, WriteResult) {
    match spec_decode(address) {
        Target::Memory(region, offset) => (
            SystemView {
                memory: with_region_bytes(s.memory, region, region_bytes(s.memory, region).update(offset as int, value)),
                ..s
            },
            Ok(()),
        ),
        Target::Padmc(offset) => if offset == 0 {
            spec_padmc1040_write(s, value)
        } else {
            (s, Err(WriteErrorKind::Unmapped))
        },
        Target::PostDisplay => (
            SystemView { memory: MemoryView { post_display: B8LevelRegister { value }, ..s.memory }, ..s },
            Ok(()),
        ),
        _ => (s, Err(WriteErrorKind::Unmapped)),
    }
}

/// Halfword write to the bus.
pub open spec fn spec_bus_write_u16(s: SystemView, address: u32, value: u16) -> (SystemView, WriteResult) {
    match spec_decode(address) {
        Target::Memory(region, offset) => if offset + 2 <= region_size(region) {
            (
                SystemView {
                    memory: with_region_bytes(
                        s.memory,
                        region,
                        spec_write_u16(region_bytes(s.memory, region), offset as int, value),
                    ),
                    ..s
                },
                Ok(()),
            )
        } else {
            (s, Err(WriteErrorKind::Unmapped))
        },
        Target::Padmc(offset) => if offset == 8 {
            (SystemView { padmc: PadmcView { mode: crate::register::B16LevelRegister { value }, ..s.padmc }, ..s }, Ok(()))
        } else if offset == 0xA {
            spec_ctrl_write(s, value)
        } else if offset == 0xE {
            (
                SystemView {
                    padmc: PadmcView { baud_reload: crate::register::B16LevelRegister { value }, ..s.padmc },
                    ..s
                },
                Ok(()),
            )
        } else {
            (s, Err(WriteErrorKind::Unmapped))
        },
        Target::Intc(offset) => if offset == 0 {
            (
                SystemView {
                    intc: crate::system::intc::State {
                        stat: crate::system::intc::Stat {
                            register: Register { value: spec_acknowledge(s.intc.stat.register.value, value as u32) },
                        },
                        ..s.intc
                    },
                    ..s
                },
                Ok(()),
            )
        } else if offset == 4 {
            (
                SystemView {
                    intc: crate::system::intc::State {
                        mask: Register { value: spec_with_half(s.intc.mask.value, 0, value) },
                        ..s.intc
                    },
                    ..s
                },
                Ok(()),
            )
        } else {
            (s, Err(WriteErrorKind::Unmapped))
        },
        _ => (s, Err(WriteErrorKind::Unmapped)),
    }
}

/// Word write to the bus.
pub open spec fn spec_bus_write_u32(s: SystemView, address: u32, value: u32) -> (SystemView, WriteResult) {
    match spec_decode(address) {
        Target::Memory(region, offset) => if offset + 4 <= region_size(region) {
            (
                SystemView {
                    memory: with_region_bytes(
                        s.memory,
                        region,
                        spec_write_u32(region_bytes(s.memory, region), offset as int, value),
                    ),
                    ..s
                },
                Ok(()),
            )
        } else {
            (s, Err(WriteErrorKind::Unmapped))
        },
        Target::MemoryControl(offset) => if memory_control_register(s.memory, offset) is Some {
            (SystemView { memory: with_memory_control_register(s.memory, offset, value), ..s }, Ok(()))
        } else {
            (s, Err(WriteErrorKind::Unmapped))
        },
        Target::Padmc(offset) => if offset == 4 {
            (SystemView { padmc: PadmcView { stat: Register { value }, ..s.padmc }, ..s }, Ok(()))
        } else {
            (s, Err(WriteErrorKind::Unmapped))
        },
        Target::Intc(offset) => if offset == 0 {
            (
                SystemView {
                    intc: crate::system::intc::State {
                        stat: crate::system::intc::Stat {
                            register: Register { value: spec_acknowledge(s.intc.stat.register.value, value) },
                        },
                        ..s.intc
                    },
                    ..s
                },
                Ok(()),
            )
        } else if offset == 4 {
            (SystemView { intc: crate::system::intc::State { mask: Register { value }, ..s.intc }, ..s }, Ok(()))
        } else {
            (s, Err(WriteErrorKind::Unmapped))
        },
        Target::Gpu(offset) => if offset == 0 {
            spec_gpu1810_write(s, value)
        } else if offset == 4 {
            spec_gpu1814_write(s, value)
        } else {
            (s, Err(WriteErrorKind::Unmapped))
        },
        _ => (s, Err(WriteErrorKind::Unmapped)),
    }
}

pub fn bus_read_u8(state: &mut State, address: u32) -> (r: ReadResult<u8>)
    requires
        old(state).wf(),
    ensures
        final(state).wf(),
        (final(state)@, r) == spec_bus_read_u8(old(state)@, address),
{
    match decode(address) {
        Target::Memory(region, offset) => {
            let m = region_memory(state, region);
            Ok(m.read_u8(offset))
        },
        Target::Padmc(offset) => {
            if offset == 0 {
                padmc1040_read_u8(state, 0)
            } else {
                Err(ReadErrorKind::Unmapped)
            }
        },
        Target::PostDisplay => Ok(state.memory.post_display.read_u8()),
        _ => Err(ReadErrorKind::Unmapped),
    }
}

pub fn bus_read_u16(state: &mut State, address: u32) -> (r: ReadResult<u16>)
    requires
        old(state).wf(),
    ensures
        final(state).wf(),
        (final(state)@, r) == spec_bus_read_u16(old(state)@, address),
{
    match decode(address) {
        Target::Memory(region, offset) => {
            if offset <= region_size_exec(region) - 2 {
                let m = region_memory(state, region);
                Ok(m.read_u16(offset))
            } else {
                Err(ReadErrorKind::Unmapped)
            }
        },
        Target::Padmc(offset) => {
            if offset == 4 {
                stat_read_u16(state, 0)
            } else if offset == 8 {
                mode_read_u16(state, 0)
            } else if offset == 0xA {
                ctrl_read_u16(state, 0)
            } else if offset == 0xE {
                baud_reload_read_u16(state, 0)
            } else {
                Err(ReadErrorKind::Unmapped)
            }
        },
        Target::Intc(offset) => {
            if offset == 0 {
                crate::system::intc::stat_read_u16(state, 0)
            } else if offset == 4 {
                crate::system::intc::mask_read_u16(state, 0)
            } else {
                Err(ReadErrorKind::Unmapped)
            }
        },
        _ => Err(ReadErrorKind::Unmapped),
    }
}

pub fn bus_read_u32(state: &mut State, address: u32) -> (r: ReadResult<u32>)
    requires
        old(state).wf(),
    ensures
        final(state).wf(),
        (final(state)@, r) == spec_bus_read_u32(old(state)@, address),
{
    match decode(address) {
        Target::Memory(region, offset) => {
            if offset <= region_size_exec(region) - 4 {
                let m = region_memory(state, region);
                Ok(m.read_u32(offset))
            } else {
                Err(ReadErrorKind::Unmapped)
            }
        },
        Target::MemoryControl(offset) => {
            match memory_control_read_u32(&state.memory, offset) {
                Some(v) => Ok(v),
                None => Err(ReadErrorKind::Unmapped),
            }
        },
        Target::Padmc(offset) => {
            if offset == 4 {
                stat_read_u32(state, 0)
            } else {
                Err(ReadErrorKind::Unmapped)
            }
        },
        Target::Intc(offset) => {
            if offset == 0 {
                crate::system::intc::stat_read_u32(state, 0)
            } else if offset == 4 {
                crate::system::intc::mask_read_u32(state, 0)
            } else {
                Err(ReadErrorKind::Unmapped)
            }
        },
        Target::Gpu(offset) => {
            if offset == 0 {
                gpu1810_read_u32(state, 0)
            } else if offset == 4 {
                gpu1814_read_u32(state, 0)
            } else {
                Err(ReadErrorKind::Unmapped)
            }
        },
        _ => Err(ReadErrorKind::Unmapped),
    }
}

fn write_region_u8(state: &mut State, region: MemoryRegion, offset: u32, value: u8)
    requires
        old(state).wf(),
        offset < region_size(region),
    ensures
        final(state).wf(),
        final(state)@ == (SystemView {
            memory: with_region_bytes(
                old(state)@.memory,
                region,
                region_bytes(old(state)@.memory, region).update(offset as int, value),
            ),
            ..old(state)@
        }),
{
    match region {
        MemoryRegion::Main => state.memory.main_memory.write_u8(offset, value),
        MemoryRegion::Pio => state.memory.pio.write_u8(offset, value),
        MemoryRegion::Scratchpad => state.memory.scratchpad.write_u8(offset, value),
        MemoryRegion::Bios => state.memory.bios.write_u8(offset, value),
        MemoryRegion::CacheControl => state.memory.cache_control.write_u8(offset, value),
    }
}

fn write_region_u16(state: &mut State, region: MemoryRegion, offset: u32, value: u16)
    requires
        old(state).wf(),
        offset + 2 <= region_size(region),
    ensures
        final(state).wf(),
        final(state)@ == (SystemView {
            memory: with_region_bytes(
                old(state)@.memory,
                region,
                spec_write_u16(region_bytes(old(state)@.memory, region), offset as int, value),
            ),
            ..old(state)@
        }),
{
    match region {
        MemoryRegion::Main => state.memory.main_memory.write_u16(offset, value),
        MemoryRegion::Pio => state.memory.pio.write_u16(offset, value),
        MemoryRegion::Scratchpad => state.memory.scratchpad.write_u16(offset, value),
        MemoryRegion::Bios => state.memory.bios.write_u16(offset, value),
        MemoryRegion::CacheControl => state.memory.cache_control.write_u16(offset, value),
    }
}

fn write_region_u32(state: &mut State, region: MemoryRegion, offset: u32, value: u32)
    requires
        old(state).wf(),
        offset + 4 <= region_size(region),
    ensures
        final(state).wf(),
        final(state)@ == (SystemView {
            memory: with_region_bytes(
                old(state)@.memory,
                region,
                spec_write_u32(region_bytes(old(state)@.memory, region), offset as int, value),
            ),
            ..old(state)@
        }),
{
    match region {
        MemoryRegion::Main => state.memory.main_memory.write_u32(offset, value),
        MemoryRegion::Pio => state.memory.pio.write_u32(offset, value),
        MemoryRegion::Scratchpad => state.memory.scratchpad.write_u32(offset, value),
        MemoryRegion::Bios => state.memory.bios.write_u32(offset, value),
        MemoryRegion::CacheControl => state.memory.cache_control.write_u32(offset, value),
    }
}

pub fn bus_write_u8(state: &mut State, address: u32, value: u8) -> (r: WriteResult)
    requires
        old(state).wf(),
    ensures
        final(state).wf(),
        (final(state)@, r) == spec_bus_write_u8(old(state)@, address, value),
{
    match decode(address) {
        Target::Memory(region, offset) => {
            write_region_u8(state, region, offset, value);
            Ok(())
        },
        Target::Padmc(offset) => {
            if offset == 0 {
                padmc1040_write_u8(state, 0, value)
            } else {
                Err(WriteErrorKind::Unmapped)
            }
        },
        Target::PostDisplay => {
            state.memory.post_display.write_u8(value);
            Ok(())
        },
        _ => Err(WriteErrorKind::Unmapped),
    }
}

pub fn bus_write_u16(state: &mut State, address: u32, value: u16) -> (r: WriteResult)
    requires
        old(state).wf(),
    ensures
        final(state).wf(),
        (final(state)@, r) == spec_bus_write_u16(old(state)@, address, value),
{
    match decode(address) {
        Target::Memory(region, offset) => {
            if offset <= region_size_exec(region) - 2 {
                write_region_u16(state, region, offset, value);
                Ok(())
            } else {
                Err(WriteErrorKind::Unmapped)
            }
        },
        Target::Padmc(offset) => {
            if offset == 8 {
                mode_write_u16(state, 0, value)
            } else if offset == 0xA {
                ctrl_write_u16(state, 0, value)
            } else if offset == 0xE {
                baud_reload_write_u16(state, 0, value)
            } else {
                Err(WriteErrorKind::Unmapped)
            }
        },
        Target::Intc(offset) => {
            if offset == 0 {
                crate::system::intc::stat_write_u16(state, 0, value)
            } else if offset == 4 {
                crate::system::intc::mask_write_u16(state, 0, value)
            } else {
                Err(WriteErrorKind::Unmapped)
            }
        },
        _ => Err(WriteErrorKind::Unmapped),
    }
}

pub fn bus_write_u32(state: &mut State, address: u32, value: u32) -> (r: WriteResult)
    requires
        old(state).wf(),
    ensures
        final(state).wf(),
        (final(state)@, r) == spec_bus_write_u32(old(state)@, address, value),
{
    match decode(address) {
        Target::Memory(region, offset) => {
            if offset <= region_size_exec(region) - 4 {
                write_region_u32(state, region, offset, value);
                Ok(())
            } else {
                Err(WriteErrorKind::Unmapped)
            }
        },
        Target::MemoryControl(offset) => {
            if memory_control_read_u32(&state.memory, offset).is_some() {
                memory_control_write_u32(&mut state.memory, offset, value);
                Ok(())
            } else {
                Err(WriteErrorKind::Unmapped)
            }
        },
        Target::Padmc(offset) => {
            if offset == 4 {
                stat_write_u32(state, 0, value)
            } else {
                Err(WriteErrorKind::Unmapped)
            }
        },
        Target::Intc(offset) => {
            if offset == 0 {
                crate::system::intc::stat_write_u32(state, 0, value)
            } else if offset == 4 {
                crate::system::intc::mask_write_u32(state, 0, value)
            } else {
                Err(WriteErrorKind::Unmapped)
            }
        },
        Target::Gpu(offset) => {
            if offset == 0 {
                gpu1810_write_u32(state, 0, value)
            } else if offset == 4 {
                gpu1814_write_u32(state, 0, value)
            } else {
                Err(WriteErrorKind::Unmapped)
            }
        },
        _ => Err(WriteErrorKind::Unmapped),
    }
}


/// In a memory region, a word read returns the word last written at that
/// address, and a word write leaves the bytes around it as they were.
pub proof fn lemma_bus_write_read_u32(s: SystemView, address: u32, value: u32, region: MemoryRegion, offset: u32, other: int)
    requires
        spec_decode(address) == Target::Memory(region, offset),
        offset + 4 <= region_size(region),
        region_bytes(s.memory, region).len() == region_size(region),
        0 <= other < region_size(region),
        other < offset || other >= offset + 4,
    ensures
        spec_bus_write_u32(s, address, value).1 is Ok,
        spec_bus_read_u32(spec_bus_write_u32(s, address, value).0, address).1 == Ok::<u32, ReadErrorKind>(value),
        region_bytes(spec_bus_write_u32(s, address, value).0.memory, region)[other] == region_bytes(s.memory, region)[other],
{
    let bytes = region_bytes(s.memory, region);
    crate::memory::lemma_write_read_u32(bytes, offset as int, value, other);
    let written = spec_write_u32(bytes, offset as int, value);
    assert(region_bytes(with_region_bytes(s.memory, region, written), region) == written);
}


/// The physical memory map. A word at physical address `a` is read from,
/// and written to, exactly one memory, and the others stay as they were:
/// main RAM for `a` below 0x20_0000, the 1 KiB scratchpad for
/// 0x1F80_0000..0x1F80_03FF, the parallel port for 0x1F00_0000..0x1F00_00FF
/// and the BIOS ROM for 0x1FC0_0000..0x1FC7_FFFF; the word's offset in that
/// memory is `a` less the memory's base address.
pub proof fn lemma_memory_map_u32(s: SystemView, a: u32, value: u32)
    ensures
        a + 4 <= 0x20_0000 ==> {
            &&& spec_bus_read_u32(s, a) == (s, Ok::<u32, ReadErrorKind>(spec_read_u32(s.memory.main_memory, a as int)))
            &&& spec_bus_write_u32(s, a, value) == (SystemView {
                memory: MemoryView { main_memory: spec_write_u32(s.memory.main_memory, a as int, value), ..s.memory },
                ..s
            }, Ok::<(), WriteErrorKind>(()))
        },
        0x1F80_0000 <= a && a + 4 <= 0x1F80_0400 ==> {
            &&& spec_bus_read_u32(s, a) == (s, Ok::<u32, ReadErrorKind>(spec_read_u32(s.memory.scratchpad, a - 0x1F80_0000)))
            &&& spec_bus_write_u32(s, a, value) == (SystemView {
                memory: MemoryView { scratchpad: spec_write_u32(s.memory.scratchpad, a - 0x1F80_0000, value), ..s.memory },
                ..s
            }, Ok::<(), WriteErrorKind>(()))
        },
        0x1F00_0000 <= a && a + 4 <= 0x1F00_0100 ==> {
            &&& spec_bus_read_u32(s, a) == (s, Ok::<u32, ReadErrorKind>(spec_read_u32(s.memory.pio, a - 0x1F00_0000)))
            &&& spec_bus_write_u32(s, a, value) == (SystemView {
                memory: MemoryView { pio: spec_write_u32(s.memory.pio, a - 0x1F00_0000, value), ..s.memory },
                ..s
            }, Ok::<(), WriteErrorKind>(()))
        },
        0x1FC0_0000 <= a && a + 4 <= 0x1FC8_0000 ==> {
            &&& spec_bus_read_u32(s, a) == (s, Ok::<u32, ReadErrorKind>(spec_read_u32(s.memory.bios, a - 0x1FC0_0000)))
            &&& spec_bus_write_u32(s, a, value) == (SystemView {
                memory: MemoryView { bios: spec_write_u32(s.memory.bios, a - 0x1FC0_0000, value), ..s.memory },
                ..s
            }, Ok::<(), WriteErrorKind>(()))
        },
{
}


/// Registers on the bus: a word read at 0x1F80_1070 gives the interrupt
/// status, at 0x1F80_1074 the interrupt mask and at 0x1F80_1814 GPUSTAT,
/// with nothing changed.
pub proof fn lemma_register_map_u32(s: SystemView)
    ensures
        spec_bus_read_u32(s, 0x1F80_1070) == (s, Ok::<u32, ReadErrorKind>(s.intc.stat.register.value)),
        spec_bus_read_u32(s, 0x1F80_1074) == (s, Ok::<u32, ReadErrorKind>(s.intc.mask.value)),
        spec_bus_read_u32(s, 0x1F80_1814) == (s, Ok::<u32, ReadErrorKind>(spec_gpustat(s.gpu))),
{
}


/// Interrupt controller writes on the bus: a word written to 0x1F80_1070
/// acknowledges, clearing each of the 11 status bits whose bit in the word is
/// 0 and keeping the others; a word written to 0x1F80_1074 becomes the mask.
/// Nothing else changes.
pub proof fn lemma_interrupt_register_writes(s: SystemView, value: u32)
    ensures
        spec_bus_write_u32(s, 0x1F80_1070, value) == (SystemView {
            intc: crate::system::intc::State {
                stat: crate::system::intc::Stat {
                    register: Register { value: s.intc.stat.register.value & (value | !0x7FFu32) },
                },
                ..s.intc
            },
            ..s
        }, Ok::<(), WriteErrorKind>(())),
        spec_bus_write_u32(s, 0x1F80_1074, value) == (SystemView {
            intc: crate::system::intc::State { mask: Register { value }, ..s.intc },
            ..s
        }, Ok::<(), WriteErrorKind>(())),
{
}

} // verus!
