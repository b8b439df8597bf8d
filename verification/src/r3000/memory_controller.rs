use vstd::prelude::*;
use crate::r3000::types::Hazard;
use crate::system::bus::{
    bus_read_u16, bus_read_u32, bus_read_u8, bus_write_u16, bus_write_u32, bus_write_u8,
    spec_bus_read_u16, spec_bus_read_u32, spec_bus_read_u8, spec_bus_write_u16, spec_bus_write_u32,
    spec_bus_write_u8,
};
use crate::system::state::{State, SystemView};

verus! {

/// kseg2 (0xC000_0000..0xFFFD_FFFF) has no translation in this machine model.
pub open spec fn is_kseg2(va: u32) -> bool {
    0xC000_0000 <= va <= 0xFFFD_FFFF
}

/// Virtual to physical address: kuseg and the cache-control ports map
/// directly, kseg0 and kseg1 are the first 512 MiB mirrored.
pub open spec fn spec_translate_address(va: u32) -> u32 {
    if va <= 0x7FFF_FFFF {
        va
    } else if va <= 0x9FFF_FFFF {
        (va - 0x8000_0000) as u32
    } else if va <= 0xBFFF_FFFF {
        (va - 0xA000_0000) as u32
    } else {
        va
    }
}

pub fn in_kseg2(va: u32) -> (b: bool)
    ensures
        b == is_kseg2(va),
{
    0xC000_0000 <= va && va <= 0xFFFD_FFFF
}

pub fn translate_address(va: u32) -> (pa: u32)
    requires
        !is_kseg2(va),
    ensures
        pa == spec_translate_address(va),
{
    if va <= 0x7FFF_FFFF {
        va
    } else if va <= 0x9FFF_FFFF {
        va - 0x8000_0000
    } else if va <= 0xBFFF_FFFF {
        va - 0xA000_0000
    } else {
        va
    }
}

/// The cached (kseg0) and uncached (kseg1) views of the low 512 MiB reach the
/// same physical address.
pub proof fn lemma_kseg0_kseg1_mirror(offset: u32)
    requires
        offset < 0x2000_0000,
    ensures
        spec_translate_address((0x8000_0000 + offset) as u32) == offset,
        spec_translate_address((0xA000_0000 + offset) as u32) == offset,
        spec_translate_address(offset) == offset,
{
}

/// A CPU memory access: stalls while the bus is locked; a refused bus access is a hazard.
pub open spec fn spec_memory_read_u8(s: SystemView, physical_address: u32) -> (SystemView, Result<u8, Hazard>) {
    if s.bus_locked {
        (s, Err(Hazard::BusLockedMemoryRead(physical_address)))
    } else {
        let (s2, r) = spec_bus_read_u8(s, physical_address);
        (s2, match r {
            Ok(v) => Ok(v),
            Err(_) => Err(Hazard::MemoryRead(physical_address)),
        })
    }
}

pub open spec fn spec_memory_read_u16(s: SystemView, physical_address: u32) -> (SystemView, Result<u16, Hazard>) {
    if s.bus_locked {
        (s, Err(Hazard::BusLockedMemoryRead(physical_address)))
    } else {
        let (s2, r) = spec_bus_read_u16(s, physical_address);
        (s2, match r {
            Ok(v) => Ok(v),
            Err(_) => Err(Hazard::MemoryRead(physical_address)),
        })
    }
}

pub open spec fn spec_memory_read_u32(s: SystemView, physical_address: u32) -> (SystemView, Result<u32, Hazard>) {
    if s.bus_locked {
        (s, Err(Hazard::BusLockedMemoryRead(physical_address)))
    } else {
        let (s2, r) = spec_bus_read_u32(s, physical_address);
        (s2, match r {
            Ok(v) => Ok(v),
            Err(_) => Err(Hazard::MemoryRead(physical_address)),
        })
    }
}

pub open spec fn spec_memory_write_u8(s: SystemView, physical_address: u32, value: u8) -> (SystemView, Result<(), Hazard>) {
    if s.bus_locked {
        (s, Err(Hazard::BusLockedMemoryWrite(physical_address)))
    } else {
        let (s2, r) = spec_bus_write_u8(s, physical_address, value);
        (s2, match r {
            Ok(()) => Ok(()),
            Err(_) => Err(Hazard::MemoryWrite(physical_address)),
        })
    }
}

pub open spec fn spec_memory_write_u16(s: SystemView, physical_address: u32, value: u16) -> (SystemView, Result<(), Hazard>) {
    if s.bus_locked {
        (s, Err(Hazard::BusLockedMemoryWrite(physical_address)))
    } else {
        let (s2, r) = spec_bus_write_u16(s, physical_address, value);
        (s2, match r {
            Ok(()) => Ok(()),
            Err(_) => Err(Hazard::MemoryWrite(physical_address)),
        })
    }
}

pub open spec fn spec_memory_write_u32(s: SystemView, physical_address: u32, value: u32) -> (SystemView, Result<(), Hazard>) {
    if s.bus_locked {
        (s, Err(Hazard::BusLockedMemoryWrite(physical_address)))
    } else {
        let (s2, r) = spec_bus_write_u32(s, physical_address, value);
        (s2, match r {
            Ok(()) => Ok(()),
            Err(_) => Err(Hazard::MemoryWrite(physical_address)),
        })
    }
}

pub fn read_u8(state: &mut State, physical_address: u32) -> (r: Result<u8, Hazard>)
    requires
        old(state).wf(),
    ensures
        final(state).wf(),
        (final(state)@, r) == spec_memory_read_u8(old(state)@, physical_address),
{
    if state.bus_locked {
        return Err(Hazard::BusLockedMemoryRead(physical_address));
    }
    match bus_read_u8(state, physical_address) {
        Ok(v) => Ok(v),
        Err(_) => Err(Hazard::MemoryRead(physical_address)),
    }
}

pub fn read_u16(state: &mut State, physical_address: u32) -> (r: Result<u16, Hazard>)
    requires
        old(state).wf(),
    ensures
        final(state).wf(),
        (final(state)@, r) == spec_memory_read_u16(old(state)@, physical_address),
{
    if state.bus_locked {
        return Err(Hazard::BusLockedMemoryRead(physical_address));
    }
    match bus_read_u16(state, physical_address) {
        Ok(v) => Ok(v),
        Err(_) => Err(Hazard::MemoryRead(physical_address)),
    }
}

pub fn read_u32(state: &mut State, physical_address: u32) -> (r: Result<u32, Hazard>)
    requires
        old(state).wf(),
    ensures
        final(state).wf(),
        (final(state)@, r) == spec_memory_read_u32(old(state)@, physical_address),
{
    if state.bus_locked {
        return Err(Hazard::BusLockedMemoryRead(physical_address));
    }
    match bus_read_u32(state, physical_address) {
        Ok(v) => Ok(v),
        Err(_) => Err(Hazard::MemoryRead(physical_address)),
    }
}

pub fn write_u8(state: &mut State, physical_address: u32, value: u8) -> (r: Result<(), Hazard>)
    requires
        old(state).wf(),
    ensures
        final(state).wf(),
        (final(state)@, r) == spec_memory_write_u8(old(state)@, physical_address, value),
{
    if state.bus_locked {
        return Err(Hazard::BusLockedMemoryWrite(physical_address));
    }
    match bus_write_u8(state, physical_address, value) {
        Ok(()) => Ok(()),
        Err(_) => Err(Hazard::MemoryWrite(physical_address)),
    }
}

pub fn write_u16(state: &mut State, physical_address: u32, value: u16) -> (r: Result<(), Hazard>)
    requires
        old(state).wf(),
    ensures
        final(state).wf(),
        (final(state)@, r) == spec_memory_write_u16(old(state)@, physical_address, value),
{
    if state.bus_locked {
        return Err(Hazard::BusLockedMemoryWrite(physical_address));
    }
    match bus_write_u16(state, physical_address, value) {
        Ok(()) => Ok(()),
        Err(_) => Err(Hazard::MemoryWrite(physical_address)),
    }
}

pub fn write_u32(state: &mut State, physical_address: u32, value: u32) -> (r: Result<(), Hazard>)
    requires
        old(state).wf(),
    ensures
        final(state).wf(),
        (final(state)@, r) == spec_memory_write_u32(old(state)@, physical_address, value),
{
    if state.bus_locked {
        return Err(Hazard::BusLockedMemoryWrite(physical_address));
    }
    match bus_write_u32(state, physical_address, value) {
        Ok(()) => Ok(()),
        Err(_) => Err(Hazard::MemoryWrite(physical_address)),
    }
}

} // verus!
