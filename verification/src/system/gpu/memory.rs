use vstd::prelude::*;
use crate::bitfield::Bitfield;
use crate::register::{LatchKind, Register};
use crate::system::bus_types::{ReadErrorKind, ReadResult, WriteErrorKind, WriteResult};
use crate::system::gpu::types::{GpuView, GPU_FIFO_DEPTH};
use crate::system::state::{State, SystemView};

verus! {

/// GPUREAD (0x1F801810) read: refused while a GP1 command is pending; pops the
/// GPUREAD FIFO, reading as 0xFFFF_FFFF when it is empty.
pub open spec fn spec_gpu1810_read(s: SystemView) -> (SystemView, ReadResult<u32>) {
    if s.gpu.gp1_command_pending {
        (s, Err(ReadErrorKind::NotReady))
    } else if s.gpu.read.len() == 0 {
        (s, Ok(0xFFFF_FFFFu32))
    } else {
        (SystemView { gpu: GpuView { read: s.gpu.read.drop_first(), ..s.gpu }, ..s }, Ok(s.gpu.read[0]))
    }
}

/// GP0 (0x1F801810) write: queues a command word; refused when the FIFO is full.
pub open spec fn spec_gpu1810_write(s: SystemView, value: u32) -> (SystemView, WriteResult) {
    if s.gpu.gp0.len() >= GPU_FIFO_DEPTH {
        (s, Err(WriteErrorKind::Full))
    } else {
        (SystemView { gpu: GpuView { gp0: s.gpu.gp0.push(value), ..s.gpu }, ..s }, Ok(()))
    }
}

/// GPUSTAT (0x1F801814) as read: the stored value with "ready to receive
/// command" and "ready to receive DMA" set when GP0 has room, and "ready to
/// send VRAM" set when GPUREAD holds data.
pub open spec fn spec_gpustat(s: GpuView) -> u32 {
    let gp0_not_full = s.gp0.len() < GPU_FIFO_DEPTH;
    let read_not_empty = s.read.len() > 0;
    Bitfield { start: 28, length: 1 }.spec_insert(
        Bitfield { start: 27, length: 1 }.spec_insert(
            Bitfield { start: 26, length: 1 }.spec_insert(s.stat.value, if gp0_not_full { 1 } else { 0 }),
            if read_not_empty { 1 } else { 0 },
        ),
        if gp0_not_full { 1 } else { 0 },
    )
}

/// GP1 (0x1F801814) write: latches a display control command for the GPU
/// controller; refused while one is pending.
pub open spec fn spec_gpu1814_write(s: SystemView, value: u32) -> (SystemView, WriteResult) {
    if s.gpu.gp1_command_pending || s.gpu.gp1.latch is Some {
        (s, Err(WriteErrorKind::NotReady))
    } else {
        (
            SystemView {
                gpu: GpuView {
                    gp1: crate::register::B32EdgeRegister { value, latch: Some(LatchKind::Write) },
                    gp1_command_pending: true,
                    ..s.gpu
                },
                ..s
            },
            Ok(()),
        )
    }
}

pub fn gpu1810_read_u32(state: &mut State, offset: u32) -> (r: ReadResult<u32>)
    requires
        offset == 0,
        old(state).wf(),
    ensures
        final(state).wf(),
        (final(state)@, r) == spec_gpu1810_read(old(state)@),
{
    if state.gpu.gp1_command_pending {
        return Err(ReadErrorKind::NotReady);
    }
    match state.gpu.read.read_one() {
        Ok(v) => Ok(v),
        Err(_) => Ok(0xFFFF_FFFF),
    }
}

pub fn gpu1810_write_u32(state: &mut State, offset: u32, value: u32) -> (r: WriteResult)
    requires
        offset == 0,
        old(state).wf(),
    ensures
        final(state).wf(),
        (final(state)@, r) == spec_gpu1810_write(old(state)@, value),
{
    match state.gpu.gp0.write_one(value) {
        Ok(()) => Ok(()),
        Err(_) => Err(WriteErrorKind::Full),
    }
}

pub fn gpu1814_read_u32(state: &State, offset: u32) -> (r: ReadResult<u32>)
    requires
        offset == 0,
        state.wf(),
    ensures
        r == Ok::<u32, ReadErrorKind>(spec_gpustat(state@.gpu)),
{
    let mut value = state.gpu.stat.read_u32();
    let gp0_not_full: u32 = if state.gpu.gp0.is_full() {
        0
    } else {
        1
    };
    let read_not_empty: u32 = if state.gpu.read.is_empty() {
        0
    } else {
        1
    };
    value = Bitfield::new(26, 1).insert_into(value, gp0_not_full);
    value = Bitfield::new(27, 1).insert_into(value, read_not_empty);
    value = Bitfield::new(28, 1).insert_into(value, gp0_not_full);
    Ok(value)
}

pub fn gpu1814_write_u32(state: &mut State, offset: u32, value: u32) -> (r: WriteResult)
    requires
        offset == 0,
        old(state).wf(),
    ensures
        final(state).wf(),
        (final(state)@, r) == spec_gpu1814_write(old(state)@, value),
{
    if state.gpu.gp1_command_pending {
        return Err(WriteErrorKind::NotReady);
    }
    match state.gpu.gp1.write_u32(value) {
        Ok(()) => {
            state.gpu.gp1_command_pending = true;
            Ok(())
        },
        Err(_) => Err(WriteErrorKind::NotReady),
    }
}

} // verus!
