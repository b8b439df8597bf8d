use vstd::prelude::*;
use crate::mips1::{Instruction, wrap32};
use crate::r3000::cp0::{field, status_isc};
use crate::r3000::instruction_impl::{completed, failed, gpr_written, reg};
use crate::r3000::memory_controller::{
    in_kseg2, is_kseg2, read_u16, read_u32, read_u8, spec_memory_read_u16, spec_memory_read_u32,
    spec_memory_read_u8, spec_memory_write_u16, spec_memory_write_u32, spec_memory_write_u8,
    spec_translate_address, translate_address, write_u16, write_u32, write_u8,
};
use crate::r3000::register::{handle_cp2_sxyp_mirror, handle_cp2_sxyp_write};
use crate::r3000::types::{ControllerContext, ControllerError, ControllerResult, Hazard};
use crate::system::state::{State, SystemView};

verus! {

/// The result of an instruction that hit a hazard and must be retried.
pub open spec fn hazard(h: Hazard) -> ControllerResult {
    Ok(Err(h))
}

/// Virtual address of a load or store: base register plus sign-extended offset.
pub open spec fn spec_va(c: ControllerContext, instruction: Instruction) -> u32 {
    wrap32(reg(c, instruction.spec_rs()) + instruction.spec_i_imm())
}

/// Whether the cache is isolated (status ISC): loads then read 0 and stores are dropped.
pub open spec fn spec_isc(c: ControllerContext) -> bool {
    field(16, 1).spec_extract(c.cp0_state.status.value) != 0
}

/// Result of a load whose bus outcome (after extension into a register value) is `outcome`.
pub open spec fn load_effect(
    old_c: ControllerContext,
    new_c: ControllerContext,
    new_s: SystemView,
    r: ControllerResult,
    rt: u32,
    outcome: (SystemView, Result<u32, Hazard>),
) -> bool {
    &&& new_s == outcome.0
    &&& match outcome.1 {
        Ok(v) => r == completed() && gpr_written(old_c, new_c, rt, v),
        Err(h) => r == hazard(h) && new_c == old_c,
    }
}

/// Result of a store whose bus outcome is `outcome`; stores leave the CPU registers alone.
pub open spec fn store_effect(
    old_c: ControllerContext,
    new_c: ControllerContext,
    new_s: SystemView,
    r: ControllerResult,
    outcome: (SystemView, Result<(), Hazard>),
) -> bool {
    &&& new_s == outcome.0
    &&& new_c == old_c
    &&& match outcome.1 {
        Ok(()) => r == completed(),
        Err(h) => r == hazard(h),
    }
}

/// An access to kseg2 stops emulation with nothing changed.
pub open spec fn kseg2_fault(
    old_c: ControllerContext,
    new_c: ControllerContext,
    old_s: SystemView,
    new_s: SystemView,
    r: ControllerResult,
    va: u32,
) -> bool {
    r == failed(ControllerError::AddressTranslation(va)) && new_c == old_c && new_s == old_s
}

pub open spec fn extend_u8_signed(o: (SystemView, Result<u8, Hazard>)) -> (SystemView, Result<u32, Hazard>) {
    (o.0, match o.1 {
        Ok(v) => Ok(v as i8 as i32 as u32),
        Err(h) => Err(h),
    })
}

pub open spec fn extend_u8(o: (SystemView, Result<u8, Hazard>)) -> (SystemView, Result<u32, Hazard>) {
    (o.0, match o.1 {
        Ok(v) => Ok(v as u32),
        Err(h) => Err(h),
    })
}

pub open spec fn extend_u16_signed(o: (SystemView, Result<u16, Hazard>)) -> (SystemView, Result<u32, Hazard>) {
    (o.0, match o.1 {
        Ok(v) => Ok(v as i16 as i32 as u32),
        Err(h) => Err(h),
    })
}

pub open spec fn extend_u16(o: (SystemView, Result<u16, Hazard>)) -> (SystemView, Result<u32, Hazard>) {
    (o.0, match o.1 {
        Ok(v) => Ok(v as u32),
        Err(h) => Err(h),
    })
}

/// Loads read 0 without touching the bus while the cache is isolated.
pub open spec fn isolated_or(
    c: ControllerContext,
    s: SystemView,
    o: (SystemView, Result<u32, Hazard>),
) -> (SystemView, Result<u32, Hazard>) {
    if spec_isc(c) {
        (s, Ok(0u32))
    } else {
        o
    }
}

fn effective_address(context: &ControllerContext, instruction: Instruction) -> (va: u32)
    ensures
        va == spec_va(*context, instruction),
{
    context.r3000_state.gpr[instruction.rs()].wrapping_add_signed(instruction.i_imm() as i32)
}

fn isolated(context: &ControllerContext) -> (b: bool)
    ensures
        b == spec_isc(*context),
{
    context.cp0_state.status.read_bitfield(status_isc()) != 0
}

fn write_gpr(context: &mut ControllerContext, i: usize, v: u32)
    requires
        i < 32,
    ensures
        gpr_written(*old(context), *final(context), i as u32, v),
{
    context.r3000_state.gpr[i] = v;
    context.r3000_state.gpr[0] = 0;
}

/// Outcome of `lb`: its result, and the context and shared state after it.
pub open spec fn lb_effect(c0: ControllerContext, s0: State, instruction: Instruction, c1: ControllerContext, s1: State, r: ControllerResult) -> bool {
    &&& s1.wf()
    &&& ({
                let va = spec_va(c0, instruction);
                &&& is_kseg2(va) ==> kseg2_fault(c0, c1, s0@, s1@, r, va)
                &&& !is_kseg2(va) ==> load_effect(c0, c1, s1@, r, instruction.spec_rt(),
                    isolated_or(c0, s0@,
                        extend_u8_signed(spec_memory_read_u8(s0@, spec_translate_address(va)))))
            })
}

pub fn lb(context: &mut ControllerContext, state: &mut State, instruction: Instruction) -> (r: ControllerResult)
    requires
        old(state).wf(),

    ensures
        lb_effect(*old(context), *old(state), instruction, *final(context), *final(state), r),
{
    let va = effective_address(context, instruction);
    if in_kseg2(va) {
        return Err(ControllerError::AddressTranslation(va));
    }
    let addr = translate_address(va);
    let value = if !isolated(context) {
        match read_u8(state, addr) {
            Ok(v) => v as i8 as i32 as u32,
            Err(h) => return Ok(Err(h)),
        }
    } else {
        0
    };
    write_gpr(context, instruction.rt(), value);
    Ok(Ok(()))
}

/// Outcome of `lbu`: its result, and the context and shared state after it.
pub open spec fn lbu_effect(c0: ControllerContext, s0: State, instruction: Instruction, c1: ControllerContext, s1: State, r: ControllerResult) -> bool {
    &&& s1.wf()
    &&& ({
                let va = spec_va(c0, instruction);
                &&& is_kseg2(va) ==> kseg2_fault(c0, c1, s0@, s1@, r, va)
                &&& !is_kseg2(va) ==> load_effect(c0, c1, s1@, r, instruction.spec_rt(),
                    isolated_or(c0, s0@,
                        extend_u8(spec_memory_read_u8(s0@, spec_translate_address(va)))))
            })
}

pub fn lbu(context: &mut ControllerContext, state: &mut State, instruction: Instruction) -> (r: ControllerResult)
    requires
        old(state).wf(),

    ensures
        lbu_effect(*old(context), *old(state), instruction, *final(context), *final(state), r),
{
    let va = effective_address(context, instruction);
    if in_kseg2(va) {
        return Err(ControllerError::AddressTranslation(va));
    }
    let addr = translate_address(va);
    let value = if !isolated(context) {
        match read_u8(state, addr) {
            Ok(v) => v as u32,
            Err(h) => return Ok(Err(h)),
        }
    } else {
        0
    };
    write_gpr(context, instruction.rt(), value);
    Ok(Ok(()))
}

/// Outcome of `lh`: its result, and the context and shared state after it.
pub open spec fn lh_effect(c0: ControllerContext, s0: State, instruction: Instruction, c1: ControllerContext, s1: State, r: ControllerResult) -> bool {
    &&& s1.wf()
    &&& ({
                let va = spec_va(c0, instruction);
                &&& is_kseg2(va) ==> kseg2_fault(c0, c1, s0@, s1@, r, va)
                &&& !is_kseg2(va) ==> load_effect(c0, c1, s1@, r, instruction.spec_rt(),
                    isolated_or(c0, s0@,
                        extend_u16_signed(spec_memory_read_u16(s0@, spec_translate_address(va)))))
            })
}

pub fn lh(context: &mut ControllerContext, state: &mut State, instruction: Instruction) -> (r: ControllerResult)
    requires
        old(state).wf(),

    ensures
        lh_effect(*old(context), *old(state), instruction, *final(context), *final(state), r),
{
    let va = effective_address(context, instruction);
    if in_kseg2(va) {
        return Err(ControllerError::AddressTranslation(va));
    }
    let addr = translate_address(va);
    let value = if !isolated(context) {
        match read_u16(state, addr) {
            Ok(v) => v as i16 as i32 as u32,
            Err(h) => return Ok(Err(h)),
        }
    } else {
        0
    };
    write_gpr(context, instruction.rt(), value);
    Ok(Ok(()))
}

/// Outcome of `lhu`: its result, and the context and shared state after it.
pub open spec fn lhu_effect(c0: ControllerContext, s0: State, instruction: Instruction, c1: ControllerContext, s1: State, r: ControllerResult) -> bool {
    &&& s1.wf()
    &&& ({
                let va = spec_va(c0, instruction);
                &&& is_kseg2(va) ==> kseg2_fault(c0, c1, s0@, s1@, r, va)
                &&& !is_kseg2(va) ==> load_effect(c0, c1, s1@, r, instruction.spec_rt(),
                    isolated_or(c0, s0@,
                        extend_u16(spec_memory_read_u16(s0@, spec_translate_address(va)))))
            })
}

pub fn lhu(context: &mut ControllerContext, state: &mut State, instruction: Instruction) -> (r: ControllerResult)
    requires
        old(state).wf(),

    ensures
        lhu_effect(*old(context), *old(state), instruction, *final(context), *final(state), r),
{
    let va = effective_address(context, instruction);
    if in_kseg2(va) {
        return Err(ControllerError::AddressTranslation(va));
    }
    let addr = translate_address(va);
    let value = if !isolated(context) {
        match read_u16(state, addr) {
            Ok(v) => v as u32,
            Err(h) => return Ok(Err(h)),
        }
    } else {
        0
    };
    write_gpr(context, instruction.rt(), value);
    Ok(Ok(()))
}

/// Outcome of `lw`: its result, and the context and shared state after it.
pub open spec fn lw_effect(c0: ControllerContext, s0: State, instruction: Instruction, c1: ControllerContext, s1: State, r: ControllerResult) -> bool {
    &&& s1.wf()
    &&& ({
                let va = spec_va(c0, instruction);
                &&& is_kseg2(va) ==> kseg2_fault(c0, c1, s0@, s1@, r, va)
                &&& !is_kseg2(va) ==> load_effect(c0, c1, s1@, r, instruction.spec_rt(),
                    isolated_or(c0, s0@,
                        spec_memory_read_u32(s0@, spec_translate_address(va))))
            })
}

pub fn lw(context: &mut ControllerContext, state: &mut State, instruction: Instruction) -> (r: ControllerResult)
    requires
        old(state).wf(),

    ensures
        lw_effect(*old(context), *old(state), instruction, *final(context), *final(state), r),
{
    let va = effective_address(context, instruction);
    if in_kseg2(va) {
        return Err(ControllerError::AddressTranslation(va));
    }
    let addr = translate_address(va);
    let value = if !isolated(context) {
        match read_u32(state, addr) {
            Ok(v) => v,
            Err(h) => return Ok(Err(h)),
        }
    } else {
        0
    };
    write_gpr(context, instruction.rt(), value);
    Ok(Ok(()))
}

/// LWL merge: the aligned memory word shifted left into the register, keeping
/// the register's low bytes that the load does not cover.
pub open spec fn spec_lwl_merge(rt_value: u32, mem: u32, shift: u32) -> u32 {
    if shift == 0 {
        (rt_value & 0x00FF_FFFF) | (mem << 24u32)
    } else if shift == 1 {
        (rt_value & 0x0000_FFFF) | (mem << 16u32)
    } else if shift == 2 {
        (rt_value & 0x0000_00FF) | (mem << 8u32)
    } else {
        mem
    }
}

/// LWR merge: the aligned memory word shifted right into the register, keeping
/// the register's high bytes that the load does not cover.
pub open spec fn spec_lwr_merge(rt_value: u32, mem: u32, shift: u32) -> u32 {
    if shift == 0 {
        mem
    } else if shift == 1 {
        (rt_value & 0xFF00_0000) | (mem >> 8u32)
    } else if shift == 2 {
        (rt_value & 0xFFFF_0000) | (mem >> 16u32)
    } else {
        (rt_value & 0xFFFF_FF00) | (mem >> 24u32)
    }
}

/// SWL merge: the register shifted right into the aligned memory word.
pub open spec fn spec_swl_merge(rt_value: u32, mem: u32, shift: u32) -> u32 {
    if shift == 0 {
        (rt_value >> 24u32) | (mem & 0xFFFF_FF00)
    } else if shift == 1 {
        (rt_value >> 16u32) | (mem & 0xFFFF_0000)
    } else if shift == 2 {
        (rt_value >> 8u32) | (mem & 0xFF00_0000)
    } else {
        rt_value
    }
}

/// SWR merge: the register shifted left into the aligned memory word.
pub open spec fn spec_swr_merge(rt_value: u32, mem: u32, shift: u32) -> u32 {
    if shift == 0 {
        rt_value
    } else if shift == 1 {
        (rt_value << 8u32) | (mem & 0x0000_00FF)
    } else if shift == 2 {
        (rt_value << 16u32) | (mem & 0x0000_FFFF)
    } else {
        (rt_value << 24u32) | (mem & 0x00FF_FFFF)
    }
}

/// The little-endian word that starts `shift` bytes into the aligned word
/// `low` and continues into the next aligned word `high`.
pub open spec fn unaligned_word(low: u32, high: u32, shift: u32) -> u32 {
    if shift == 0 {
        low
    } else if shift == 1 {
        (low >> 8u32) | (high << 24u32)
    } else if shift == 2 {
        (low >> 16u32) | (high << 16u32)
    } else {
        (low >> 24u32) | (high << 8u32)
    }
}

/// Byte offset, within its aligned word, of the address 3 bytes further on.
pub open spec fn last_byte_shift(shift: u32) -> u32 {
    if shift == 0 {
        3u32
    } else if shift == 1 {
        0u32
    } else if shift == 2 {
        1u32
    } else {
        2u32
    }
}

/// LWR at an address followed by LWL at that address plus 3 loads the
/// unaligned word found there, whatever the register held before: LWR merges
/// from the aligned word `low`, LWL from the word holding the last byte
/// (`low` again when the address is aligned, else the next word `high`).
pub proof fn lemma_lwr_lwl_load(rt_value: u32, low: u32, high: u32, shift: u32)
    by (bit_vector)
    requires
        shift < 4,
    ensures
        spec_lwl_merge(spec_lwr_merge(rt_value, low, shift), if shift == 0 { low } else { high }, last_byte_shift(shift))
            == unaligned_word(low, high, shift),
{
}

/// SWR at an address followed by SWL at that address plus 3 stores the
/// register as the unaligned word there and keeps every other byte: the
/// bytes of `low` below the address and the bytes of `high` after the word.
pub proof fn lemma_swr_swl_store(v: u32, low: u32, high: u32, shift: u32)
    by (bit_vector)
    requires
        shift < 4,
    ensures
        shift == 0 ==> spec_swl_merge(v, spec_swr_merge(v, low, 0), 3) == v,
        shift != 0 ==> unaligned_word(spec_swr_merge(v, low, shift), spec_swl_merge(v, high, last_byte_shift(shift)), shift) == v,
        shift == 1 ==> spec_swr_merge(v, low, shift) & 0xFF == low & 0xFF && spec_swl_merge(v, high, 0) & 0xFFFF_FF00
            == high & 0xFFFF_FF00,
        shift == 2 ==> spec_swr_merge(v, low, shift) & 0xFFFF == low & 0xFFFF && spec_swl_merge(v, high, 1) & 0xFFFF_0000
            == high & 0xFFFF_0000,
        shift == 3 ==> spec_swr_merge(v, low, shift) & 0xFF_FFFF == low & 0xFF_FFFF && spec_swl_merge(v, high, 2)
            & 0xFF00_0000 == high & 0xFF00_0000,
{
}

fn lwl_merge(rt_value: u32, mem: u32, shift: u32) -> (r: u32)
    ensures
        r == spec_lwl_merge(rt_value, mem, shift),
{
    if shift == 0 {
        (rt_value & 0x00FF_FFFF) | (mem << 24u32)
    } else if shift == 1 {
        (rt_value & 0x0000_FFFF) | (mem << 16u32)
    } else if shift == 2 {
        (rt_value & 0x0000_00FF) | (mem << 8u32)
    } else {
        mem
    }
}

fn lwr_merge(rt_value: u32, mem: u32, shift: u32) -> (r: u32)
    ensures
        r == spec_lwr_merge(rt_value, mem, shift),
{
    if shift == 0 {
        mem
    } else if shift == 1 {
        (rt_value & 0xFF00_0000) | (mem >> 8u32)
    } else if shift == 2 {
        (rt_value & 0xFFFF_0000) | (mem >> 16u32)
    } else {
        (rt_value & 0xFFFF_FF00) | (mem >> 24u32)
    }
}

fn swl_merge(rt_value: u32, mem: u32, shift: u32) -> (r: u32)
    ensures
        r == spec_swl_merge(rt_value, mem, shift),
{
    if shift == 0 {
        (rt_value >> 24u32) | (mem & 0xFFFF_FF00)
    } else if shift == 1 {
        (rt_value >> 16u32) | (mem & 0xFFFF_0000)
    } else if shift == 2 {
        (rt_value >> 8u32) | (mem & 0xFF00_0000)
    } else {
        rt_value
    }
}

fn swr_merge(rt_value: u32, mem: u32, shift: u32) -> (r: u32)
    ensures
        r == spec_swr_merge(rt_value, mem, shift),
{
    if shift == 0 {
        rt_value
    } else if shift == 1 {
        (rt_value << 8u32) | (mem & 0x0000_00FF)
    } else if shift == 2 {
        (rt_value << 16u32) | (mem & 0x0000_FFFF)
    } else {
        (rt_value << 24u32) | (mem & 0x00FF_FFFF)
    }
}

/// Outcome of an unaligned load: the aligned word read (0 while isolated), merged into `rt_value`.
pub open spec fn unaligned_load_outcome(
    c: ControllerContext,
    s: SystemView,
    pa: u32,
    rt_value: u32,
    left: bool,
) -> (SystemView, Result<u32, Hazard>) {
    let shift = pa & 3;
    let read = isolated_or(c, s, spec_memory_read_u32(s, pa & !3u32));
    (read.0, match read.1 {
        Ok(m) => Ok(if left {
            spec_lwl_merge(rt_value, m, shift)
        } else {
            spec_lwr_merge(rt_value, m, shift)
        }),
        Err(h) => Err(h),
    })
}

/// Outcome of `lwl`: its result, and the context and shared state after it.
pub open spec fn lwl_effect(c0: ControllerContext, s0: State, instruction: Instruction, c1: ControllerContext, s1: State, r: ControllerResult) -> bool {
    &&& s1.wf()
    &&& ({
                let va = spec_va(c0, instruction);
                &&& is_kseg2(va) ==> kseg2_fault(c0, c1, s0@, s1@, r, va)
                &&& !is_kseg2(va) ==> load_effect(c0, c1, s1@, r, instruction.spec_rt(),
                    unaligned_load_outcome(c0, s0@, spec_translate_address(va),
                        reg(c0, instruction.spec_rt()), true))
            })
}

/// Load word left (unaligned load, upper part).
pub fn lwl(context: &mut ControllerContext, state: &mut State, instruction: Instruction) -> (r: ControllerResult)
    requires
        old(state).wf(),

    ensures
        lwl_effect(*old(context), *old(state), instruction, *final(context), *final(state), r),
{
    let va = effective_address(context, instruction);
    if in_kseg2(va) {
        return Err(ControllerError::AddressTranslation(va));
    }
    let addr = translate_address(va);
    let shift = addr & 3;
    let aligned = addr & !3u32;
    let value = if !isolated(context) {
        match read_u32(state, aligned) {
            Ok(v) => v,
            Err(h) => return Ok(Err(h)),
        }
    } else {
        0
    };
    let rt_value = context.r3000_state.gpr[instruction.rt()];
    write_gpr(context, instruction.rt(), lwl_merge(rt_value, value, shift));
    Ok(Ok(()))
}

/// Outcome of `lwr`: its result, and the context and shared state after it.
pub open spec fn lwr_effect(c0: ControllerContext, s0: State, instruction: Instruction, c1: ControllerContext, s1: State, r: ControllerResult) -> bool {
    &&& s1.wf()
    &&& ({
                let va = spec_va(c0, instruction);
                &&& is_kseg2(va) ==> kseg2_fault(c0, c1, s0@, s1@, r, va)
                &&& !is_kseg2(va) ==> load_effect(c0, c1, s1@, r, instruction.spec_rt(),
                    unaligned_load_outcome(c0, s0@, spec_translate_address(va),
                        reg(c0, instruction.spec_rt()), false))
            })
}

/// Load word right (unaligned load, lower part).
pub fn lwr(context: &mut ControllerContext, state: &mut State, instruction: Instruction) -> (r: ControllerResult)
    requires
        old(state).wf(),

    ensures
        lwr_effect(*old(context), *old(state), instruction, *final(context), *final(state), r),
{
    let va = effective_address(context, instruction);
    if in_kseg2(va) {
        return Err(ControllerError::AddressTranslation(va));
    }
    let addr = translate_address(va);
    let shift = addr & 3;
    let aligned = addr & !3u32;
    let value = if !isolated(context) {
        match read_u32(state, aligned) {
            Ok(v) => v,
            Err(h) => return Ok(Err(h)),
        }
    } else {
        0
    };
    let rt_value = context.r3000_state.gpr[instruction.rt()];
    write_gpr(context, instruction.rt(), lwr_merge(rt_value, value, shift));
    Ok(Ok(()))
}

/// Stores are dropped while the cache is isolated.
pub open spec fn isolated_store(
    c: ControllerContext,
    s: SystemView,
    o: (SystemView, Result<(), Hazard>),
) -> (SystemView, Result<(), Hazard>) {
    if spec_isc(c) {
        (s, Ok(()))
    } else {
        o
    }
}

/// Outcome of `sb`: its result, and the context and shared state after it.
pub open spec fn sb_effect(c0: ControllerContext, s0: State, instruction: Instruction, c1: ControllerContext, s1: State, r: ControllerResult) -> bool {
    &&& s1.wf()
    &&& ({
                let va = spec_va(c0, instruction);
                &&& is_kseg2(va) ==> kseg2_fault(c0, c1, s0@, s1@, r, va)
                &&& !is_kseg2(va) ==> store_effect(c0, c1, s1@, r,
                    isolated_store(c0, s0@, spec_memory_write_u8(s0@,
                        spec_translate_address(va), reg(c0, instruction.spec_rt()) as u8)))
            })
}

pub fn sb(context: &mut ControllerContext, state: &mut State, instruction: Instruction) -> (r: ControllerResult)
    requires
        old(state).wf(),

    ensures
        sb_effect(*old(context), *old(state), instruction, *final(context), *final(state), r),
{
    let value = context.r3000_state.gpr[instruction.rt()] as u8;
    let va = effective_address(context, instruction);
    if in_kseg2(va) {
        return Err(ControllerError::AddressTranslation(va));
    }
    let addr = translate_address(va);
    if !isolated(context) {
        match write_u8(state, addr, value) {
            Ok(()) => {},
            Err(h) => return Ok(Err(h)),
        }
    }
    Ok(Ok(()))
}

/// Outcome of `sh`: its result, and the context and shared state after it.
pub open spec fn sh_effect(c0: ControllerContext, s0: State, instruction: Instruction, c1: ControllerContext, s1: State, r: ControllerResult) -> bool {
    &&& s1.wf()
    &&& ({
                let va = spec_va(c0, instruction);
                &&& is_kseg2(va) ==> kseg2_fault(c0, c1, s0@, s1@, r, va)
                &&& !is_kseg2(va) ==> store_effect(c0, c1, s1@, r,
                    isolated_store(c0, s0@, spec_memory_write_u16(s0@,
                        spec_translate_address(va), reg(c0, instruction.spec_rt()) as u16)))
            })
}

pub fn sh(context: &mut ControllerContext, state: &mut State, instruction: Instruction) -> (r: ControllerResult)
    requires
        old(state).wf(),

    ensures
        sh_effect(*old(context), *old(state), instruction, *final(context), *final(state), r),
{
    let value = context.r3000_state.gpr[instruction.rt()] as u16;
    let va = effective_address(context, instruction);
    if in_kseg2(va) {
        return Err(ControllerError::AddressTranslation(va));
    }
    let addr = translate_address(va);
    if !isolated(context) {
        match write_u16(state, addr, value) {
            Ok(()) => {},
            Err(h) => return Ok(Err(h)),
        }
    }
    Ok(Ok(()))
}

/// Outcome of `sw`: its result, and the context and shared state after it.
pub open spec fn sw_effect(c0: ControllerContext, s0: State, instruction: Instruction, c1: ControllerContext, s1: State, r: ControllerResult) -> bool {
    &&& s1.wf()
    &&& ({
                let va = spec_va(c0, instruction);
                &&& is_kseg2(va) ==> kseg2_fault(c0, c1, s0@, s1@, r, va)
                &&& !is_kseg2(va) ==> store_effect(c0, c1, s1@, r,
                    isolated_store(c0, s0@, spec_memory_write_u32(s0@,
                        spec_translate_address(va), reg(c0, instruction.spec_rt()))))
            })
}

pub fn sw(context: &mut ControllerContext, state: &mut State, instruction: Instruction) -> (r: ControllerResult)
    requires
        old(state).wf(),

    ensures
        sw_effect(*old(context), *old(state), instruction, *final(context), *final(state), r),
{
    let value = context.r3000_state.gpr[instruction.rt()];
    let va = effective_address(context, instruction);
    if in_kseg2(va) {
        return Err(ControllerError::AddressTranslation(va));
    }
    let addr = translate_address(va);
    if !isolated(context) {
        match write_u32(state, addr, value) {
            Ok(()) => {},
            Err(h) => return Ok(Err(h)),
        }
    }
    Ok(Ok(()))
}

/// Outcome of an unaligned store: read the aligned word, merge the register
/// into it, write it back.
pub open spec fn unaligned_store_outcome(s: SystemView, pa: u32, rt_value: u32, left: bool) -> (SystemView, Result<(), Hazard>) {
    let shift = pa & 3;
    let aligned = pa & !3u32;
    let (s1, rr) = spec_memory_read_u32(s, aligned);
    match rr {
        Err(h) => (s1, Err(h)),
        Ok(m) => spec_memory_write_u32(s1, aligned, if left {
            spec_swl_merge(rt_value, m, shift)
        } else {
            spec_swr_merge(rt_value, m, shift)
        }),
    }
}

/// Outcome of `swl`: its result, and the context and shared state after it.
pub open spec fn swl_effect(c0: ControllerContext, s0: State, instruction: Instruction, c1: ControllerContext, s1: State, r: ControllerResult) -> bool {
    &&& s1.wf()
    &&& ({
                let va = spec_va(c0, instruction);
                &&& is_kseg2(va) ==> kseg2_fault(c0, c1, s0@, s1@, r, va)
                &&& !is_kseg2(va) ==> store_effect(c0, c1, s1@, r,
                    isolated_store(c0, s0@, unaligned_store_outcome(s0@,
                        spec_translate_address(va), reg(c0, instruction.spec_rt()), true)))
            })
}

/// Store word left (unaligned store, upper part).
pub fn swl(context: &mut ControllerContext, state: &mut State, instruction: Instruction) -> (r: ControllerResult)
    requires
        old(state).wf(),

    ensures
        swl_effect(*old(context), *old(state), instruction, *final(context), *final(state), r),
{
    let va = effective_address(context, instruction);
    if in_kseg2(va) {
        return Err(ControllerError::AddressTranslation(va));
    }
    let addr = translate_address(va);
    let shift = addr & 3;
    let aligned = addr & !3u32;
    if !isolated(context) {
        let mem_value = match read_u32(state, aligned) {
            Ok(v) => v,
            Err(h) => return Ok(Err(h)),
        };
        let rt_value = context.r3000_state.gpr[instruction.rt()];
        match write_u32(state, aligned, swl_merge(rt_value, mem_value, shift)) {
            Ok(()) => {},
            Err(h) => return Ok(Err(h)),
        }
    }
    Ok(Ok(()))
}

/// Outcome of `swr`: its result, and the context and shared state after it.
pub open spec fn swr_effect(c0: ControllerContext, s0: State, instruction: Instruction, c1: ControllerContext, s1: State, r: ControllerResult) -> bool {
    &&& s1.wf()
    &&& ({
                let va = spec_va(c0, instruction);
                &&& is_kseg2(va) ==> kseg2_fault(c0, c1, s0@, s1@, r, va)
                &&& !is_kseg2(va) ==> store_effect(c0, c1, s1@, r,
                    isolated_store(c0, s0@, unaligned_store_outcome(s0@,
                        spec_translate_address(va), reg(c0, instruction.spec_rt()), false)))
            })
}

/// Store word right (unaligned store, lower part).
pub fn swr(context: &mut ControllerContext, state: &mut State, instruction: Instruction) -> (r: ControllerResult)
    requires
        old(state).wf(),

    ensures
        swr_effect(*old(context), *old(state), instruction, *final(context), *final(state), r),
{
    let va = effective_address(context, instruction);
    if in_kseg2(va) {
        return Err(ControllerError::AddressTranslation(va));
    }
    let addr = translate_address(va);
    let shift = addr & 3;
    let aligned = addr & !3u32;
    if !isolated(context) {
        let mem_value = match read_u32(state, aligned) {
            Ok(v) => v,
            Err(h) => return Ok(Err(h)),
        };
        let rt_value = context.r3000_state.gpr[instruction.rt()];
        match write_u32(state, aligned, swr_merge(rt_value, mem_value, shift)) {
            Ok(()) => {},
            Err(h) => return Ok(Err(h)),
        }
    }
    Ok(Ok(()))
}

/// Outcome of `lwc2`: its result, and the context and shared state after it.
pub open spec fn lwc2_effect(c0: ControllerContext, s0: State, instruction: Instruction, c1: ControllerContext, s1: State, r: ControllerResult) -> bool {
    &&& s1.wf()
    &&& ({
                let va = spec_va(c0, instruction);
                let o = isolated_or(c0, s0@, spec_memory_read_u32(s0@, spec_translate_address(va)));
                &&& is_kseg2(va) ==> kseg2_fault(c0, c1, s0@, s1@, r, va)
                &&& !is_kseg2(va) ==> s1@ == o.0
                &&& (!is_kseg2(va) && o.1 is Err) ==> r == hazard(o.1->Err_0) && c1 == c0
                &&& (!is_kseg2(va) && o.1 is Ok) ==> r == completed()
                    && c1.r3000_state == c0.r3000_state
                    && c1.cp0_state == c0.cp0_state
                    && c1.cp2_state.gc == c0.cp2_state.gc
                    && c1.cp2_state.gd@ == crate::r3000::cp2::spec_gd_write(
                        c0.cp2_state.gd@, instruction.spec_rt() as int, o.1->Ok_0)
            })
}

/// Load word to coprocessor 2 data register `rt`; a write to SXYP pushes the screen XY FIFO.
pub fn lwc2(context: &mut ControllerContext, state: &mut State, instruction: Instruction) -> (r: ControllerResult)
    requires
        old(state).wf(),

    ensures
        lwc2_effect(*old(context), *old(state), instruction, *final(context), *final(state), r),
{
    let va = effective_address(context, instruction);
    if in_kseg2(va) {
        return Err(ControllerError::AddressTranslation(va));
    }
    let addr = translate_address(va);
    let value = if !isolated(context) {
        match read_u32(state, addr) {
            Ok(v) => v,
            Err(h) => return Ok(Err(h)),
        }
    } else {
        0
    };
    let rt = instruction.rt();
    context.cp2_state.gd[rt] = value;
    handle_cp2_sxyp_write(&mut context.cp2_state, rt);
    handle_cp2_sxyp_mirror(&mut context.cp2_state);
    Ok(Ok(()))
}

/// Outcome of `swc2`: its result, and the context and shared state after it.
pub open spec fn swc2_effect(c0: ControllerContext, s0: State, instruction: Instruction, c1: ControllerContext, s1: State, r: ControllerResult) -> bool {
    &&& s1.wf()
    &&& ({
                let va = spec_va(c0, instruction);
                &&& is_kseg2(va) ==> kseg2_fault(c0, c1, s0@, s1@, r, va)
                &&& !is_kseg2(va) ==> store_effect(c0, c1, s1@, r,
                    isolated_store(c0, s0@, spec_memory_write_u32(s0@,
                        spec_translate_address(va), c0.cp2_state.gd@[instruction.spec_rt() as int])))
            })
}

/// Store word from coprocessor 2 data register `rt`.
pub fn swc2(context: &mut ControllerContext, state: &mut State, instruction: Instruction) -> (r: ControllerResult)
    requires
        old(state).wf(),

    ensures
        swc2_effect(*old(context), *old(state), instruction, *final(context), *final(state), r),
{
    let value = context.cp2_state.gd[instruction.rt()];
    let va = effective_address(context, instruction);
    if in_kseg2(va) {
        return Err(ControllerError::AddressTranslation(va));
    }
    let addr = translate_address(va);
    if !isolated(context) {
        match write_u32(state, addr, value) {
            Ok(()) => {},
            Err(h) => return Ok(Err(h)),
        }
    }
    Ok(Ok(()))
}

} // verus!
