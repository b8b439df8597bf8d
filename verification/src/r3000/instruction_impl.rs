use vstd::prelude::*;
use crate::mips1::{
    Instruction, PendingBranch, wrap32, spec_jump_target, pc_calc_jump_target, spec_status_pop,
    status_pop_exception, trunc_div, trunc_rem, signed_div_rem, INSTRUCTION_SIZE,
};
use crate::r3000::cp0::{field, CAUSE_EXCCODE_SYSCALL};
use crate::r3000::cp0::ControllerState as Cp0ControllerState;
use crate::register::Register;
use crate::r3000::exception::{clear_ip_field, set_exception, spec_general_vector};
use crate::r3000::register::{
    get_cp0_register, is_valid_cp0_register, valid_cp0_register, spec_cp0_register,
    spec_cp0_with_register,
};
use crate::r3000::types::{ControllerContext, ControllerError, ControllerResult};
use crate::system::State;

verus! {

/// The result of an instruction that ran to completion.
pub open spec fn completed() -> ControllerResult {
    Ok(Ok(()))
}

/// The result of an instruction that stopped emulation.
pub open spec fn failed(e: ControllerError) -> ControllerResult {
    Err(e)
}

/// General purpose register `i`.
pub open spec fn reg(c: ControllerContext, i: u32) -> u32 {
    c.r3000_state.gpr@[i as int]
}

/// `new` is `old` with general purpose register `i` set to `v` ($zero stays 0)
/// and nothing else changed.
pub open spec fn gpr_written(old: ControllerContext, new: ControllerContext, i: u32, v: u32) -> bool {
    &&& new.r3000_state.gpr@ == old.r3000_state.gpr@.update(i as int, v).update(0, 0u32)
    &&& new.r3000_state.pc == old.r3000_state.pc
    &&& new.r3000_state.branch_delay == old.r3000_state.branch_delay
    &&& new.r3000_state.hi == old.r3000_state.hi
    &&& new.r3000_state.lo == old.r3000_state.lo
    &&& new.cp0_state == old.cp0_state
    &&& new.cp2_state == old.cp2_state
}

/// `new` is `old` with only HI and LO set.
pub open spec fn hilo_written(old: ControllerContext, new: ControllerContext, hi: u32, lo: u32) -> bool {
    &&& new.r3000_state.gpr@ == old.r3000_state.gpr@.update(0, 0u32)
    &&& new.r3000_state.pc == old.r3000_state.pc
    &&& new.r3000_state.branch_delay == old.r3000_state.branch_delay
    &&& new.r3000_state.hi.value == hi
    &&& new.r3000_state.lo.value == lo
    &&& new.cp0_state == old.cp0_state
    &&& new.cp2_state == old.cp2_state
}

/// `new` is `old` with a branch to `target` scheduled after one delay slot.
pub open spec fn branch_scheduled(old: ControllerContext, new: ControllerContext, target: u32) -> bool {
    &&& new.r3000_state.branch_delay.current == Some(PendingBranch { target, remaining: 1 })
    &&& new.r3000_state.branch_delay.previous == old.r3000_state.branch_delay.previous
    &&& new.r3000_state.gpr == old.r3000_state.gpr
    &&& new.r3000_state.pc == old.r3000_state.pc
    &&& new.r3000_state.hi == old.r3000_state.hi
    &&& new.r3000_state.lo == old.r3000_state.lo
    &&& new.cp0_state == old.cp0_state
    &&& new.cp2_state == old.cp2_state
}

/// Target of a PC-relative branch: the PC (already past the branch) plus the
/// sign-extended immediate times four, modulo 2^32.
pub open spec fn spec_branch_target(pc: u32, imm: i16) -> u32 {
    wrap32(pc as int + 4 * (imm as int))
}

/// Sign extension of a 16-bit immediate to 32 bits.
pub open spec fn spec_sext(imm: i16) -> u32 {
    imm as i32 as u32
}

fn write_gpr(context: &mut ControllerContext, i: usize, v: u32)
    requires
        i < 32,
    ensures
        gpr_written(*old(context), *final(context), i as u32, v),
{
    context.r3000_state.gpr[i] = v;
    context.r3000_state.gpr[0] = 0;
}

fn branch_target(pc: u32, imm: i16) -> (r: u32)
    ensures
        r == spec_branch_target(pc, imm),
{
    let offset: i32 = (imm as i32) << 2u32;
    assert(offset == 4 * (imm as int)) by (bit_vector)
        requires offset == (imm as i32) << 2u32;
    pc.wrapping_add_signed(offset)
}

/// Outcome of `sll`: its result, and the context and shared state after it.
pub open spec fn sll_effect(c0: ControllerContext, s0: State, instruction: Instruction, c1: ControllerContext, s1: State, r: ControllerResult) -> bool {
    &&& r == completed()
    &&& s1 == s0
    &&& gpr_written(c0, c1, instruction.spec_rd(),
                reg(c0, instruction.spec_rt()) << instruction.spec_shamt())
}

pub fn sll(context: &mut ControllerContext, state: &mut State, instruction: Instruction) -> (r: ControllerResult)
    ensures
        sll_effect(*old(context), *old(state), instruction, *final(context), *final(state), r),
{
    let value = context.r3000_state.gpr[instruction.rt()];
    let shamt = instruction.shamt();
    write_gpr(context, instruction.rd(), value << shamt);
    Ok(Ok(()))
}

/// Outcome of `srl`: its result, and the context and shared state after it.
pub open spec fn srl_effect(c0: ControllerContext, s0: State, instruction: Instruction, c1: ControllerContext, s1: State, r: ControllerResult) -> bool {
    &&& r == completed()
    &&& s1 == s0
    &&& gpr_written(c0, c1, instruction.spec_rd(),
                reg(c0, instruction.spec_rt()) >> instruction.spec_shamt())
}

pub fn srl(context: &mut ControllerContext, state: &mut State, instruction: Instruction) -> (r: ControllerResult)
    ensures
        srl_effect(*old(context), *old(state), instruction, *final(context), *final(state), r),
{
    let value = context.r3000_state.gpr[instruction.rt()];
    let shamt = instruction.shamt();
    write_gpr(context, instruction.rd(), value >> shamt);
    Ok(Ok(()))
}

/// Outcome of `sra`: its result, and the context and shared state after it.
pub open spec fn sra_effect(c0: ControllerContext, s0: State, instruction: Instruction, c1: ControllerContext, s1: State, r: ControllerResult) -> bool {
    &&& r == completed()
    &&& s1 == s0
    &&& gpr_written(c0, c1, instruction.spec_rd(),
                ((reg(c0, instruction.spec_rt()) as i32) >> instruction.spec_shamt()) as u32)
}

pub fn sra(context: &mut ControllerContext, state: &mut State, instruction: Instruction) -> (r: ControllerResult)
    ensures
        sra_effect(*old(context), *old(state), instruction, *final(context), *final(state), r),
{
    let value = context.r3000_state.gpr[instruction.rt()] as i32;
    let shamt = instruction.shamt();
    write_gpr(context, instruction.rd(), (value >> shamt) as u32);
    Ok(Ok(()))
}

/// Outcome of `sllv`: its result, and the context and shared state after it.
pub open spec fn sllv_effect(c0: ControllerContext, s0: State, instruction: Instruction, c1: ControllerContext, s1: State, r: ControllerResult) -> bool {
    &&& r == completed()
    &&& s1 == s0
    &&& gpr_written(c0, c1, instruction.spec_rd(),
                if reg(c0, instruction.spec_rs()) >= 32 {
                    0
                } else {
                    reg(c0, instruction.spec_rt()) << reg(c0, instruction.spec_rs())
                })
}

pub fn sllv(context: &mut ControllerContext, state: &mut State, instruction: Instruction) -> (r: ControllerResult)
    ensures
        sllv_effect(*old(context), *old(state), instruction, *final(context), *final(state), r),
{
    let value1 = context.r3000_state.gpr[instruction.rs()];
    let value2 = context.r3000_state.gpr[instruction.rt()];
    let result = if value1 >= 32 {
        0
    } else {
        value2 << value1
    };
    write_gpr(context, instruction.rd(), result);
    Ok(Ok(()))
}

/// Outcome of `srlv`: its result, and the context and shared state after it.
pub open spec fn srlv_effect(c0: ControllerContext, s0: State, instruction: Instruction, c1: ControllerContext, s1: State, r: ControllerResult) -> bool {
    &&& r == completed()
    &&& s1 == s0
    &&& gpr_written(c0, c1, instruction.spec_rd(),
                if reg(c0, instruction.spec_rs()) >= 32 {
                    0
                } else {
                    reg(c0, instruction.spec_rt()) >> reg(c0, instruction.spec_rs())
                })
}

pub fn srlv(context: &mut ControllerContext, state: &mut State, instruction: Instruction) -> (r: ControllerResult)
    ensures
        srlv_effect(*old(context), *old(state), instruction, *final(context), *final(state), r),
{
    let value1 = context.r3000_state.gpr[instruction.rs()];
    let value2 = context.r3000_state.gpr[instruction.rt()];
    let result = if value1 >= 32 {
        0
    } else {
        value2 >> value1
    };
    write_gpr(context, instruction.rd(), result);
    Ok(Ok(()))
}

/// Arithmetic right shift by a register amount; amounts of 32 or more fill with the sign bit.
pub open spec fn spec_srav(value: u32, amount: u32) -> u32 {
    if amount >= 32 {
        if (value as i32) < 0 {
            0xFFFF_FFFFu32
        } else {
            0u32
        }
    } else {
        ((value as i32) >> amount) as u32
    }
}

/// Outcome of `srav`: its result, and the context and shared state after it.
pub open spec fn srav_effect(c0: ControllerContext, s0: State, instruction: Instruction, c1: ControllerContext, s1: State, r: ControllerResult) -> bool {
    &&& r == completed()
    &&& s1 == s0
    &&& gpr_written(c0, c1, instruction.spec_rd(),
                spec_srav(reg(c0, instruction.spec_rt()), reg(c0, instruction.spec_rs())))
}

pub fn srav(context: &mut ControllerContext, state: &mut State, instruction: Instruction) -> (r: ControllerResult)
    ensures
        srav_effect(*old(context), *old(state), instruction, *final(context), *final(state), r),
{
    let value1 = context.r3000_state.gpr[instruction.rs()];
    let value2 = context.r3000_state.gpr[instruction.rt()] as i32;
    let result = if value1 >= 32 {
        if value2 < 0 {
            0xFFFF_FFFF
        } else {
            0
        }
    } else {
        (value2 >> value1) as u32
    };
    write_gpr(context, instruction.rd(), result);
    Ok(Ok(()))
}

/// Outcome of `jr`: its result, and the context and shared state after it.
pub open spec fn jr_effect(c0: ControllerContext, s0: State, instruction: Instruction, c1: ControllerContext, s1: State, r: ControllerResult) -> bool {
    &&& r == completed()
    &&& s1 == s0
    &&& branch_scheduled(c0, c1, reg(c0, instruction.spec_rs()))
}

pub fn jr(context: &mut ControllerContext, state: &mut State, instruction: Instruction) -> (r: ControllerResult)
    ensures
        jr_effect(*old(context), *old(state), instruction, *final(context), *final(state), r),
{
    let target = context.r3000_state.gpr[instruction.rs()];
    context.r3000_state.branch_delay.set(target, 1);
    Ok(Ok(()))
}

/// Outcome of `jalr`: its result, and the context and shared state after it.
pub open spec fn jalr_effect(c0: ControllerContext, s0: State, instruction: Instruction, c1: ControllerContext, s1: State, r: ControllerResult) -> bool {
    &&& r == completed()
    &&& s1 == s0
    &&& c1.r3000_state.branch_delay.current == Some(PendingBranch {
                target: reg(c0, instruction.spec_rs()),
                remaining: 1,
            })
    &&& c1.r3000_state.gpr@ == c0.r3000_state.gpr@.update(
                instruction.spec_rd() as int,
                wrap32(c0.r3000_state.pc.value + INSTRUCTION_SIZE),
            ).update(0, 0u32)
    &&& c1.r3000_state.branch_delay.previous == c0.r3000_state.branch_delay.previous
    &&& c1.r3000_state.pc == c0.r3000_state.pc
    &&& c1.r3000_state.hi == c0.r3000_state.hi
    &&& c1.r3000_state.lo == c0.r3000_state.lo
    &&& c1.cp0_state == c0.cp0_state
    &&& c1.cp2_state == c0.cp2_state
}

pub fn jalr(context: &mut ControllerContext, state: &mut State, instruction: Instruction) -> (r: ControllerResult)
    ensures
        jalr_effect(*old(context), *old(state), instruction, *final(context), *final(state), r),
{
    let target = context.r3000_state.gpr[instruction.rs()];
    context.r3000_state.branch_delay.set(target, 1);
    let pc = context.r3000_state.pc.read_u32();
    write_gpr(context, instruction.rd(), pc.wrapping_add(INSTRUCTION_SIZE));
    Ok(Ok(()))
}

/// Outcome of `syscall`: its result, and the context and shared state after it.
pub open spec fn syscall_effect(c0: ControllerContext, s0: State, instruction: Instruction, c1: ControllerContext, s1: State, r: ControllerResult) -> bool {
    let new_status = crate::mips1::spec_status_push(c0.cp0_state.status.value);
    &&& s1 == s0
    &&& c0.r3000_state.branch_delay.current is Some ==> r == failed(ControllerError::SyscallInBranchDelaySlot) && c1 == c0
    &&& c0.r3000_state.branch_delay.current is None ==> {
        &&& r == completed()
        &&& c1.r3000_state.pc.value == spec_general_vector(new_status)
        &&& c1.r3000_state.gpr == c0.r3000_state.gpr
        &&& c1.r3000_state.hi == c0.r3000_state.hi
        &&& c1.r3000_state.lo == c0.r3000_state.lo
        &&& c1.r3000_state.branch_delay == c0.r3000_state.branch_delay
        &&& c1.cp0_state == (Cp0ControllerState {
            status: Register { value: new_status },
            cause: Register { value: field(2, 5).spec_insert(c0.cp0_state.cause.value, CAUSE_EXCCODE_SYSCALL) },
            epc: Register { value: wrap32(c0.r3000_state.pc.value - INSTRUCTION_SIZE) },
            ..c0.cp0_state
        })
        &&& c1.cp2_state == c0.cp2_state
    }
}

/// System call: raises the syscall exception (not supported inside a branch delay slot).
pub fn syscall(context: &mut ControllerContext, state: &mut State, instruction: Instruction) -> (r: ControllerResult)
    ensures
        syscall_effect(*old(context), *old(state), instruction, *final(context), *final(state), r),
{
    if context.r3000_state.branch_delay.branching() {
        return Err(ControllerError::SyscallInBranchDelaySlot);
    }
    set_exception(&mut context.r3000_state, &mut context.cp0_state, CAUSE_EXCCODE_SYSCALL);
    Ok(Ok(()))
}

/// Outcome of `not_implemented`: its result, and the context and shared state after it.
pub open spec fn not_implemented_effect(c0: ControllerContext, s0: State, instruction: Instruction, c1: ControllerContext, s1: State, r: ControllerResult) -> bool {
    &&& r == failed(ControllerError::InstructionNotImplemented)
    &&& s1 == s0
    &&& c1 == c0
}

/// Instructions that this CPU model does not implement (BREAK, BLTZAL, BGEZAL,
/// BC0F, BC0T and the TLB operations) stop emulation.
pub fn not_implemented(context: &mut ControllerContext, state: &mut State, instruction: Instruction) -> (r: ControllerResult)
    ensures
        not_implemented_effect(*old(context), *old(state), instruction, *final(context), *final(state), r),
{
    Err(ControllerError::InstructionNotImplemented)
}

/// Outcome of `mfhi`: its result, and the context and shared state after it.
pub open spec fn mfhi_effect(c0: ControllerContext, s0: State, instruction: Instruction, c1: ControllerContext, s1: State, r: ControllerResult) -> bool {
    &&& r == completed()
    &&& s1 == s0
    &&& gpr_written(c0, c1, instruction.spec_rd(), c0.r3000_state.hi.value)
}

pub fn mfhi(context: &mut ControllerContext, state: &mut State, instruction: Instruction) -> (r: ControllerResult)
    ensures
        mfhi_effect(*old(context), *old(state), instruction, *final(context), *final(state), r),
{
    let value = context.r3000_state.hi.read_u32();
    write_gpr(context, instruction.rd(), value);
    Ok(Ok(()))
}

/// Outcome of `mflo`: its result, and the context and shared state after it.
pub open spec fn mflo_effect(c0: ControllerContext, s0: State, instruction: Instruction, c1: ControllerContext, s1: State, r: ControllerResult) -> bool {
    &&& r == completed()
    &&& s1 == s0
    &&& gpr_written(c0, c1, instruction.spec_rd(), c0.r3000_state.lo.value)
}

pub fn mflo(context: &mut ControllerContext, state: &mut State, instruction: Instruction) -> (r: ControllerResult)
    ensures
        mflo_effect(*old(context), *old(state), instruction, *final(context), *final(state), r),
{
    let value = context.r3000_state.lo.read_u32();
    write_gpr(context, instruction.rd(), value);
    Ok(Ok(()))
}

/// Outcome of `mthi`: its result, and the context and shared state after it.
pub open spec fn mthi_effect(c0: ControllerContext, s0: State, instruction: Instruction, c1: ControllerContext, s1: State, r: ControllerResult) -> bool {
    &&& r == completed()
    &&& s1 == s0
    &&& c1.r3000_state.hi.value == reg(c0, instruction.spec_rs())
    &&& c1.r3000_state.lo == c0.r3000_state.lo
    &&& c1.r3000_state.gpr == c0.r3000_state.gpr
    &&& c1.r3000_state.pc == c0.r3000_state.pc
    &&& c1.r3000_state.branch_delay == c0.r3000_state.branch_delay
    &&& c1.cp0_state == c0.cp0_state
    &&& c1.cp2_state == c0.cp2_state
}

pub fn mthi(context: &mut ControllerContext, state: &mut State, instruction: Instruction) -> (r: ControllerResult)
    ensures
        mthi_effect(*old(context), *old(state), instruction, *final(context), *final(state), r),
{
    let value = context.r3000_state.gpr[instruction.rs()];
    context.r3000_state.hi.write_u32(value);
    Ok(Ok(()))
}

/// Outcome of `mtlo`: its result, and the context and shared state after it.
pub open spec fn mtlo_effect(c0: ControllerContext, s0: State, instruction: Instruction, c1: ControllerContext, s1: State, r: ControllerResult) -> bool {
    &&& r == completed()
    &&& s1 == s0
    &&& c1.r3000_state.lo.value == reg(c0, instruction.spec_rs())
    &&& c1.r3000_state.hi == c0.r3000_state.hi
    &&& c1.r3000_state.gpr == c0.r3000_state.gpr
    &&& c1.r3000_state.pc == c0.r3000_state.pc
    &&& c1.r3000_state.branch_delay == c0.r3000_state.branch_delay
    &&& c1.cp0_state == c0.cp0_state
    &&& c1.cp2_state == c0.cp2_state
}

pub fn mtlo(context: &mut ControllerContext, state: &mut State, instruction: Instruction) -> (r: ControllerResult)
    ensures
        mtlo_effect(*old(context), *old(state), instruction, *final(context), *final(state), r),
{
    let value = context.r3000_state.gpr[instruction.rs()];
    context.r3000_state.lo.write_u32(value);
    Ok(Ok(()))
}

/// The 64-bit two's complement product of two signed 32-bit values: (HI, LO).
pub open spec fn spec_mult(a: u32, b: u32) -> (u32, u32) {
    let p = ((a as i32) as int) * ((b as i32) as int);
    (((p as u64) >> 32u64) as u32, (p as u64) as u32)
}

/// The 64-bit product of two unsigned 32-bit values: (HI, LO).
pub open spec fn spec_multu(a: u32, b: u32) -> (u32, u32) {
    let p = (a as int) * (b as int);
    (((p as u64) >> 32u64) as u32, (p as u64) as u32)
}

/// Outcome of `mult`: its result, and the context and shared state after it.
pub open spec fn mult_effect(c0: ControllerContext, s0: State, instruction: Instruction, c1: ControllerContext, s1: State, r: ControllerResult) -> bool {
    &&& r == completed()
    &&& s1 == s0
    &&& hilo_written(c0, c1,
                spec_mult(reg(c0, instruction.spec_rs()), reg(c0, instruction.spec_rt())).0,
                spec_mult(reg(c0, instruction.spec_rs()), reg(c0, instruction.spec_rt())).1)
}

pub fn mult(context: &mut ControllerContext, state: &mut State, instruction: Instruction) -> (r: ControllerResult)
    ensures
        mult_effect(*old(context), *old(state), instruction, *final(context), *final(state), r),
{
    let value1 = context.r3000_state.gpr[instruction.rs()] as i32 as i64;
    let value2 = context.r3000_state.gpr[instruction.rt()] as i32 as i64;
    assert(-0x8000_0000 * 0x8000_0000 <= value1 * value2 <= 0x8000_0000 * 0x8000_0000) by (nonlinear_arith)
        requires
            -0x8000_0000 <= value1 <= 0x7FFF_FFFF,
            -0x8000_0000 <= value2 <= 0x7FFF_FFFF,
    ;
    let result = (value1 * value2) as u64;
    context.r3000_state.hi.write_u32((result >> 32u64) as u32);
    context.r3000_state.lo.write_u32(result as u32);
    context.r3000_state.gpr[0] = 0;
    Ok(Ok(()))
}

/// Outcome of `multu`: its result, and the context and shared state after it.
pub open spec fn multu_effect(c0: ControllerContext, s0: State, instruction: Instruction, c1: ControllerContext, s1: State, r: ControllerResult) -> bool {
    &&& r == completed()
    &&& s1 == s0
    &&& hilo_written(c0, c1,
                spec_multu(reg(c0, instruction.spec_rs()), reg(c0, instruction.spec_rt())).0,
                spec_multu(reg(c0, instruction.spec_rs()), reg(c0, instruction.spec_rt())).1)
}

pub fn multu(context: &mut ControllerContext, state: &mut State, instruction: Instruction) -> (r: ControllerResult)
    ensures
        multu_effect(*old(context), *old(state), instruction, *final(context), *final(state), r),
{
    let value1 = context.r3000_state.gpr[instruction.rs()] as u64;
    let value2 = context.r3000_state.gpr[instruction.rt()] as u64;
    assert(value1 * value2 <= 0xFFFF_FFFF * 0xFFFF_FFFF) by (nonlinear_arith)
        requires
            value1 <= 0xFFFF_FFFF,
            value2 <= 0xFFFF_FFFF,
    ;
    let result = value1 * value2;
    context.r3000_state.hi.write_u32((result >> 32u64) as u32);
    context.r3000_state.lo.write_u32(result as u32);
    context.r3000_state.gpr[0] = 0;
    Ok(Ok(()))
}

/// Outcome of `div`: its result, and the context and shared state after it.
pub open spec fn div_effect(c0: ControllerContext, s0: State, instruction: Instruction, c1: ControllerContext, s1: State, r: ControllerResult) -> bool {
    &&& s1 == s0
    &&& ({
                let a = reg(c0, instruction.spec_rs()) as i32;
                let b = reg(c0, instruction.spec_rt()) as i32;
                &&& b == 0 ==> r == completed() && hilo_written(
                    c0,
                    c1,
                    c0.r3000_state.hi.value,
                    c0.r3000_state.lo.value,
                )
                &&& (a == i32::MIN && b == -1) ==> r == failed(ControllerError::DivisionOverflow) && c1 == c0
                &&& (b != 0 && !(a == i32::MIN && b == -1)) ==> r == completed() && hilo_written(
                    c0,
                    c1,
                    trunc_rem(a as int, b as int) as i32 as u32,
                    trunc_div(a as int, b as int) as i32 as u32,
                )
            })
}

/// Signed division: LO gets the quotient (rounded toward zero) and HI the
/// remainder; a zero divisor leaves HI and LO unchanged; dividing -2^31 by -1
/// overflows and stops emulation.
pub fn div(context: &mut ControllerContext, state: &mut State, instruction: Instruction) -> (r: ControllerResult)
    ensures
        div_effect(*old(context), *old(state), instruction, *final(context), *final(state), r),
{
    let value1 = context.r3000_state.gpr[instruction.rs()] as i32;
    let value2 = context.r3000_state.gpr[instruction.rt()] as i32;

    // Undefined results for MIPS if denominator is 0.
    if value2 != 0 {
        if value1 == i32::MIN && value2 == -1 {
            return Err(ControllerError::DivisionOverflow);
        }
        let (quotient, remainder) = signed_div_rem(value1, value2);
        context.r3000_state.hi.write_u32(remainder as u32);
        context.r3000_state.lo.write_u32(quotient as u32);
    }
    context.r3000_state.gpr[0] = 0;
    Ok(Ok(()))
}

/// Outcome of `divu`: its result, and the context and shared state after it.
pub open spec fn divu_effect(c0: ControllerContext, s0: State, instruction: Instruction, c1: ControllerContext, s1: State, r: ControllerResult) -> bool {
    &&& r == completed()
    &&& s1 == s0
    &&& ({
                let a = reg(c0, instruction.spec_rs());
                let b = reg(c0, instruction.spec_rt());
                &&& b == 0 ==> hilo_written(
                    c0,
                    c1,
                    c0.r3000_state.hi.value,
                    c0.r3000_state.lo.value,
                )
                &&& b != 0 ==> hilo_written(c0, c1, a % b, a / b)
            })
}

/// Unsigned division: LO gets the quotient and HI the remainder; a zero divisor
/// leaves HI and LO unchanged.
pub fn divu(context: &mut ControllerContext, state: &mut State, instruction: Instruction) -> (r: ControllerResult)
    ensures
        divu_effect(*old(context), *old(state), instruction, *final(context), *final(state), r),
{
    let value1 = context.r3000_state.gpr[instruction.rs()];
    let value2 = context.r3000_state.gpr[instruction.rt()];
    if value2 != 0 {
        let remainder = value1 % value2;
        let quotient = value1 / value2;
        context.r3000_state.hi.write_u32(remainder);
        context.r3000_state.lo.write_u32(quotient);
    }
    context.r3000_state.gpr[0] = 0;
    Ok(Ok(()))
}

/// Sum of two values taken as signed 32-bit integers, when it does not overflow.
pub open spec fn spec_signed_sum(a: u32, b: u32) -> int {
    (a as i32) as int + (b as i32) as int
}

pub open spec fn fits_i32(x: int) -> bool {
    i32::MIN <= x <= i32::MAX
}

/// Outcome of `add`: its result, and the context and shared state after it.
pub open spec fn add_effect(c0: ControllerContext, s0: State, instruction: Instruction, c1: ControllerContext, s1: State, r: ControllerResult) -> bool {
    &&& s1 == s0
    &&& ({
                let s = spec_signed_sum(reg(c0, instruction.spec_rs()), reg(c0, instruction.spec_rt()));
                &&& fits_i32(s) ==> r == completed() && gpr_written(
                    c0,
                    c1,
                    instruction.spec_rd(),
                    s as i32 as u32,
                )
                &&& !fits_i32(s) ==> r == failed(ControllerError::OverflowExceptionNotImplemented) && c1 == c0
            })
}

/// Signed addition; overflow would raise an exception, which is not implemented.
pub fn add(context: &mut ControllerContext, state: &mut State, instruction: Instruction) -> (r: ControllerResult)
    ensures
        add_effect(*old(context), *old(state), instruction, *final(context), *final(state), r),
{
    let value1 = context.r3000_state.gpr[instruction.rs()] as i32 as i64;
    let value2 = context.r3000_state.gpr[instruction.rt()] as i32 as i64;
    let sum = value1 + value2;
    if sum < i32::MIN as i64 || sum > i32::MAX as i64 {
        return Err(ControllerError::OverflowExceptionNotImplemented);
    }
    write_gpr(context, instruction.rd(), sum as i32 as u32);
    Ok(Ok(()))
}

/// Outcome of `addu`: its result, and the context and shared state after it.
pub open spec fn addu_effect(c0: ControllerContext, s0: State, instruction: Instruction, c1: ControllerContext, s1: State, r: ControllerResult) -> bool {
    &&& r == completed()
    &&& s1 == s0
    &&& gpr_written(c0, c1, instruction.spec_rd(),
                wrap32(reg(c0, instruction.spec_rs()) + reg(c0, instruction.spec_rt())))
}

pub fn addu(context: &mut ControllerContext, state: &mut State, instruction: Instruction) -> (r: ControllerResult)
    ensures
        addu_effect(*old(context), *old(state), instruction, *final(context), *final(state), r),
{
    let value1 = context.r3000_state.gpr[instruction.rs()];
    let value2 = context.r3000_state.gpr[instruction.rt()];
    write_gpr(context, instruction.rd(), value1.wrapping_add(value2));
    Ok(Ok(()))
}

/// Outcome of `sub`: its result, and the context and shared state after it.
pub open spec fn sub_effect(c0: ControllerContext, s0: State, instruction: Instruction, c1: ControllerContext, s1: State, r: ControllerResult) -> bool {
    &&& r == completed()
    &&& s1 == s0
    &&& gpr_written(c0, c1, instruction.spec_rd(),
                wrap32(reg(c0, instruction.spec_rs()) - reg(c0, instruction.spec_rt())))
}

/// Subtraction modulo 2^32 (overflow is not checked).
pub fn sub(context: &mut ControllerContext, state: &mut State, instruction: Instruction) -> (r: ControllerResult)
    ensures
        sub_effect(*old(context), *old(state), instruction, *final(context), *final(state), r),
{
    let value1 = context.r3000_state.gpr[instruction.rs()];
    let value2 = context.r3000_state.gpr[instruction.rt()];
    write_gpr(context, instruction.rd(), value1.wrapping_sub(value2));
    Ok(Ok(()))
}

/// Outcome of `subu`: its result, and the context and shared state after it.
pub open spec fn subu_effect(c0: ControllerContext, s0: State, instruction: Instruction, c1: ControllerContext, s1: State, r: ControllerResult) -> bool {
    &&& r == completed()
    &&& s1 == s0
    &&& gpr_written(c0, c1, instruction.spec_rd(),
                wrap32(reg(c0, instruction.spec_rs()) - reg(c0, instruction.spec_rt())))
}

pub fn subu(context: &mut ControllerContext, state: &mut State, instruction: Instruction) -> (r: ControllerResult)
    ensures
        subu_effect(*old(context), *old(state), instruction, *final(context), *final(state), r),
{
    let value1 = context.r3000_state.gpr[instruction.rs()];
    let value2 = context.r3000_state.gpr[instruction.rt()];
    write_gpr(context, instruction.rd(), value1.wrapping_sub(value2));
    Ok(Ok(()))
}

/// Outcome of `and`: its result, and the context and shared state after it.
pub open spec fn and_effect(c0: ControllerContext, s0: State, instruction: Instruction, c1: ControllerContext, s1: State, r: ControllerResult) -> bool {
    &&& r == completed()
    &&& s1 == s0
    &&& gpr_written(c0, c1, instruction.spec_rd(),
                reg(c0, instruction.spec_rs()) & reg(c0, instruction.spec_rt()))
}

pub fn and(context: &mut ControllerContext, state: &mut State, instruction: Instruction) -> (r: ControllerResult)
    ensures
        and_effect(*old(context), *old(state), instruction, *final(context), *final(state), r),
{
    let value1 = context.r3000_state.gpr[instruction.rs()];
    let value2 = context.r3000_state.gpr[instruction.rt()];
    write_gpr(context, instruction.rd(), value1 & value2);
    Ok(Ok(()))
}

/// Outcome of `or`: its result, and the context and shared state after it.
pub open spec fn or_effect(c0: ControllerContext, s0: State, instruction: Instruction, c1: ControllerContext, s1: State, r: ControllerResult) -> bool {
    &&& r == completed()
    &&& s1 == s0
    &&& gpr_written(c0, c1, instruction.spec_rd(),
                reg(c0, instruction.spec_rs()) | reg(c0, instruction.spec_rt()))
}

pub fn or(context: &mut ControllerContext, state: &mut State, instruction: Instruction) -> (r: ControllerResult)
    ensures
        or_effect(*old(context), *old(state), instruction, *final(context), *final(state), r),
{
    let value1 = context.r3000_state.gpr[instruction.rs()];
    let value2 = context.r3000_state.gpr[instruction.rt()];
    write_gpr(context, instruction.rd(), value1 | value2);
    Ok(Ok(()))
}

/// Outcome of `xor`: its result, and the context and shared state after it.
pub open spec fn xor_effect(c0: ControllerContext, s0: State, instruction: Instruction, c1: ControllerContext, s1: State, r: ControllerResult) -> bool {
    &&& r == completed()
    &&& s1 == s0
    &&& gpr_written(c0, c1, instruction.spec_rd(),
                reg(c0, instruction.spec_rs()) ^ reg(c0, instruction.spec_rt()))
}

pub fn xor(context: &mut ControllerContext, state: &mut State, instruction: Instruction) -> (r: ControllerResult)
    ensures
        xor_effect(*old(context), *old(state), instruction, *final(context), *final(state), r),
{
    let value1 = context.r3000_state.gpr[instruction.rs()];
    let value2 = context.r3000_state.gpr[instruction.rt()];
    write_gpr(context, instruction.rd(), value1 ^ value2);
    Ok(Ok(()))
}

/// Outcome of `nor`: its result, and the context and shared state after it.
pub open spec fn nor_effect(c0: ControllerContext, s0: State, instruction: Instruction, c1: ControllerContext, s1: State, r: ControllerResult) -> bool {
    &&& r == completed()
    &&& s1 == s0
    &&& gpr_written(c0, c1, instruction.spec_rd(),
                !(reg(c0, instruction.spec_rs()) | reg(c0, instruction.spec_rt())))
}

pub fn nor(context: &mut ControllerContext, state: &mut State, instruction: Instruction) -> (r: ControllerResult)
    ensures
        nor_effect(*old(context), *old(state), instruction, *final(context), *final(state), r),
{
    let value1 = context.r3000_state.gpr[instruction.rs()];
    let value2 = context.r3000_state.gpr[instruction.rt()];
    write_gpr(context, instruction.rd(), !(value1 | value2));
    Ok(Ok(()))
}

/// Outcome of `slt`: its result, and the context and shared state after it.
pub open spec fn slt_effect(c0: ControllerContext, s0: State, instruction: Instruction, c1: ControllerContext, s1: State, r: ControllerResult) -> bool {
    &&& r == completed()
    &&& s1 == s0
    &&& gpr_written(c0, c1, instruction.spec_rd(),
                if (reg(c0, instruction.spec_rs()) as i32) < (reg(c0, instruction.spec_rt()) as i32) {
                    1u32
                } else {
                    0u32
                })
}

pub fn slt(context: &mut ControllerContext, state: &mut State, instruction: Instruction) -> (r: ControllerResult)
    ensures
        slt_effect(*old(context), *old(state), instruction, *final(context), *final(state), r),
{
    let value1 = context.r3000_state.gpr[instruction.rs()] as i32;
    let value2 = context.r3000_state.gpr[instruction.rt()] as i32;
    write_gpr(context, instruction.rd(), if value1 < value2 { 1 } else { 0 });
    Ok(Ok(()))
}

/// Outcome of `sltu`: its result, and the context and shared state after it.
pub open spec fn sltu_effect(c0: ControllerContext, s0: State, instruction: Instruction, c1: ControllerContext, s1: State, r: ControllerResult) -> bool {
    &&& r == completed()
    &&& s1 == s0
    &&& gpr_written(c0, c1, instruction.spec_rd(),
                if reg(c0, instruction.spec_rs()) < reg(c0, instruction.spec_rt()) {
                    1u32
                } else {
                    0u32
                })
}

pub fn sltu(context: &mut ControllerContext, state: &mut State, instruction: Instruction) -> (r: ControllerResult)
    ensures
        sltu_effect(*old(context), *old(state), instruction, *final(context), *final(state), r),
{
    let value1 = context.r3000_state.gpr[instruction.rs()];
    let value2 = context.r3000_state.gpr[instruction.rt()];
    write_gpr(context, instruction.rd(), if value1 < value2 { 1 } else { 0 });
    Ok(Ok(()))
}

/// Outcome of `bltz`: its result, and the context and shared state after it.
pub open spec fn bltz_effect(c0: ControllerContext, s0: State, instruction: Instruction, c1: ControllerContext, s1: State, r: ControllerResult) -> bool {
    &&& r == completed()
    &&& s1 == s0
    &&& (reg(c0, instruction.spec_rs()) as i32) < 0 ==> branch_scheduled(c0, c1,
                spec_branch_target(c0.r3000_state.pc.value, instruction.spec_i_imm()))
    &&& !((reg(c0, instruction.spec_rs()) as i32) < 0) ==> c1 == c0
}

/// Branches taken when the register, as a signed value, is below zero.
pub fn bltz(context: &mut ControllerContext, state: &mut State, instruction: Instruction) -> (r: ControllerResult)
    ensures
        bltz_effect(*old(context), *old(state), instruction, *final(context), *final(state), r),
{
    let value = context.r3000_state.gpr[instruction.rs()] as i32;
    if value < 0 {
        let target = branch_target(context.r3000_state.pc.read_u32(), instruction.i_imm());
        context.r3000_state.branch_delay.set(target, 1);
    }
    Ok(Ok(()))
}

/// Outcome of `bgez`: its result, and the context and shared state after it.
pub open spec fn bgez_effect(c0: ControllerContext, s0: State, instruction: Instruction, c1: ControllerContext, s1: State, r: ControllerResult) -> bool {
    &&& r == completed()
    &&& s1 == s0
    &&& (reg(c0, instruction.spec_rs()) as i32) >= 0 ==> branch_scheduled(c0, c1,
                spec_branch_target(c0.r3000_state.pc.value, instruction.spec_i_imm()))
    &&& !((reg(c0, instruction.spec_rs()) as i32) >= 0) ==> c1 == c0
}

pub fn bgez(context: &mut ControllerContext, state: &mut State, instruction: Instruction) -> (r: ControllerResult)
    ensures
        bgez_effect(*old(context), *old(state), instruction, *final(context), *final(state), r),
{
    let value = context.r3000_state.gpr[instruction.rs()] as i32;
    if value >= 0 {
        let target = branch_target(context.r3000_state.pc.read_u32(), instruction.i_imm());
        context.r3000_state.branch_delay.set(target, 1);
    }
    Ok(Ok(()))
}

/// Outcome of `blez`: its result, and the context and shared state after it.
pub open spec fn blez_effect(c0: ControllerContext, s0: State, instruction: Instruction, c1: ControllerContext, s1: State, r: ControllerResult) -> bool {
    &&& r == completed()
    &&& s1 == s0
    &&& (reg(c0, instruction.spec_rs()) as i32) <= 0 ==> branch_scheduled(c0, c1,
                spec_branch_target(c0.r3000_state.pc.value, instruction.spec_i_imm()))
    &&& !((reg(c0, instruction.spec_rs()) as i32) <= 0) ==> c1 == c0
}

pub fn blez(context: &mut ControllerContext, state: &mut State, instruction: Instruction) -> (r: ControllerResult)
    ensures
        blez_effect(*old(context), *old(state), instruction, *final(context), *final(state), r),
{
    let value = context.r3000_state.gpr[instruction.rs()] as i32;
    if value <= 0 {
        let target = branch_target(context.r3000_state.pc.read_u32(), instruction.i_imm());
        context.r3000_state.branch_delay.set(target, 1);
    }
    Ok(Ok(()))
}

/// Outcome of `bgtz`: its result, and the context and shared state after it.
pub open spec fn bgtz_effect(c0: ControllerContext, s0: State, instruction: Instruction, c1: ControllerContext, s1: State, r: ControllerResult) -> bool {
    &&& r == completed()
    &&& s1 == s0
    &&& (reg(c0, instruction.spec_rs()) as i32) > 0 ==> branch_scheduled(c0, c1,
                spec_branch_target(c0.r3000_state.pc.value, instruction.spec_i_imm()))
    &&& !((reg(c0, instruction.spec_rs()) as i32) > 0) ==> c1 == c0
}

pub fn bgtz(context: &mut ControllerContext, state: &mut State, instruction: Instruction) -> (r: ControllerResult)
    ensures
        bgtz_effect(*old(context), *old(state), instruction, *final(context), *final(state), r),
{
    let value = context.r3000_state.gpr[instruction.rs()] as i32;
    if value > 0 {
        let target = branch_target(context.r3000_state.pc.read_u32(), instruction.i_imm());
        context.r3000_state.branch_delay.set(target, 1);
    }
    Ok(Ok(()))
}

/// Outcome of `beq`: its result, and the context and shared state after it.
pub open spec fn beq_effect(c0: ControllerContext, s0: State, instruction: Instruction, c1: ControllerContext, s1: State, r: ControllerResult) -> bool {
    &&& r == completed()
    &&& s1 == s0
    &&& reg(c0, instruction.spec_rs()) == reg(c0, instruction.spec_rt()) ==> branch_scheduled(
                c0, c1,
                spec_branch_target(c0.r3000_state.pc.value, instruction.spec_i_imm()))
    &&& reg(c0, instruction.spec_rs()) != reg(c0, instruction.spec_rt()) ==> c1
                == c0
}

pub fn beq(context: &mut ControllerContext, state: &mut State, instruction: Instruction) -> (r: ControllerResult)
    ensures
        beq_effect(*old(context), *old(state), instruction, *final(context), *final(state), r),
{
    let value1 = context.r3000_state.gpr[instruction.rs()];
    let value2 = context.r3000_state.gpr[instruction.rt()];
    if value1 == value2 {
        let target = branch_target(context.r3000_state.pc.read_u32(), instruction.i_imm());
        context.r3000_state.branch_delay.set(target, 1);
    }
    Ok(Ok(()))
}

/// Outcome of `bne`: its result, and the context and shared state after it.
pub open spec fn bne_effect(c0: ControllerContext, s0: State, instruction: Instruction, c1: ControllerContext, s1: State, r: ControllerResult) -> bool {
    &&& r == completed()
    &&& s1 == s0
    &&& reg(c0, instruction.spec_rs()) != reg(c0, instruction.spec_rt()) ==> branch_scheduled(
                c0, c1,
                spec_branch_target(c0.r3000_state.pc.value, instruction.spec_i_imm()))
    &&& reg(c0, instruction.spec_rs()) == reg(c0, instruction.spec_rt()) ==> c1
                == c0
}

pub fn bne(context: &mut ControllerContext, state: &mut State, instruction: Instruction) -> (r: ControllerResult)
    ensures
        bne_effect(*old(context), *old(state), instruction, *final(context), *final(state), r),
{
    let value1 = context.r3000_state.gpr[instruction.rs()];
    let value2 = context.r3000_state.gpr[instruction.rt()];
    if value1 != value2 {
        let target = branch_target(context.r3000_state.pc.read_u32(), instruction.i_imm());
        context.r3000_state.branch_delay.set(target, 1);
    }
    Ok(Ok(()))
}

/// Outcome of `j`: its result, and the context and shared state after it.
pub open spec fn j_effect(c0: ControllerContext, s0: State, instruction: Instruction, c1: ControllerContext, s1: State, r: ControllerResult) -> bool {
    &&& r == completed()
    &&& s1 == s0
    &&& branch_scheduled(c0, c1,
                spec_jump_target(c0.r3000_state.pc.value, instruction.spec_addr()))
}

pub fn j(context: &mut ControllerContext, state: &mut State, instruction: Instruction) -> (r: ControllerResult)
    ensures
        j_effect(*old(context), *old(state), instruction, *final(context), *final(state), r),
{
    let target = pc_calc_jump_target(context.r3000_state.pc.read_u32(), instruction.addr());
    context.r3000_state.branch_delay.set(target, 1);
    Ok(Ok(()))
}

/// Outcome of `jal`: its result, and the context and shared state after it.
pub open spec fn jal_effect(c0: ControllerContext, s0: State, instruction: Instruction, c1: ControllerContext, s1: State, r: ControllerResult) -> bool {
    &&& r == completed()
    &&& s1 == s0
    &&& c1.r3000_state.branch_delay.current == Some(PendingBranch {
                target: spec_jump_target(c0.r3000_state.pc.value, instruction.spec_addr()),
                remaining: 1,
            })
    &&& c1.r3000_state.gpr@ == c0.r3000_state.gpr@.update(
                31,
                wrap32(c0.r3000_state.pc.value + INSTRUCTION_SIZE),
            )
    &&& c1.r3000_state.branch_delay.previous == c0.r3000_state.branch_delay.previous
    &&& c1.r3000_state.pc == c0.r3000_state.pc
    &&& c1.r3000_state.hi == c0.r3000_state.hi
    &&& c1.r3000_state.lo == c0.r3000_state.lo
    &&& c1.cp0_state == c0.cp0_state
    &&& c1.cp2_state == c0.cp2_state
}

/// Jump and link: the return address (past the delay slot) goes to $ra.
pub fn jal(context: &mut ControllerContext, state: &mut State, instruction: Instruction) -> (r: ControllerResult)
    ensures
        jal_effect(*old(context), *old(state), instruction, *final(context), *final(state), r),
{
    let target = pc_calc_jump_target(context.r3000_state.pc.read_u32(), instruction.addr());
    context.r3000_state.branch_delay.set(target, 1);
    let pc = context.r3000_state.pc.read_u32();
    context.r3000_state.gpr[31] = pc.wrapping_add(INSTRUCTION_SIZE);
    Ok(Ok(()))
}

/// Outcome of `addi`: its result, and the context and shared state after it.
pub open spec fn addi_effect(c0: ControllerContext, s0: State, instruction: Instruction, c1: ControllerContext, s1: State, r: ControllerResult) -> bool {
    &&& s1 == s0
    &&& ({
                let s = (reg(c0, instruction.spec_rs()) as i32) as int + instruction.spec_i_imm() as int;
                &&& fits_i32(s) ==> r == completed() && gpr_written(
                    c0,
                    c1,
                    instruction.spec_rt(),
                    s as i32 as u32,
                )
                &&& !fits_i32(s) ==> r == failed(ControllerError::OverflowExceptionNotImplemented)
                    && c1 == c0
            })
}

/// Signed add of the sign-extended immediate; overflow is not implemented.
pub fn addi(context: &mut ControllerContext, state: &mut State, instruction: Instruction) -> (r: ControllerResult)
    ensures
        addi_effect(*old(context), *old(state), instruction, *final(context), *final(state), r),
{
    let imm = instruction.i_imm() as i64;
    let value = context.r3000_state.gpr[instruction.rs()] as i32 as i64;
    let sum = value + imm;
    if sum < i32::MIN as i64 || sum > i32::MAX as i64 {
        return Err(ControllerError::OverflowExceptionNotImplemented);
    }
    write_gpr(context, instruction.rt(), sum as i32 as u32);
    Ok(Ok(()))
}

/// Outcome of `addiu`: its result, and the context and shared state after it.
pub open spec fn addiu_effect(c0: ControllerContext, s0: State, instruction: Instruction, c1: ControllerContext, s1: State, r: ControllerResult) -> bool {
    &&& r == completed()
    &&& s1 == s0
    &&& gpr_written(c0, c1, instruction.spec_rt(),
                wrap32(reg(c0, instruction.spec_rs()) + instruction.spec_i_imm()))
}

pub fn addiu(context: &mut ControllerContext, state: &mut State, instruction: Instruction) -> (r: ControllerResult)
    ensures
        addiu_effect(*old(context), *old(state), instruction, *final(context), *final(state), r),
{
    let imm = instruction.i_imm() as i32;
    let value = context.r3000_state.gpr[instruction.rs()];
    write_gpr(context, instruction.rt(), value.wrapping_add_signed(imm));
    Ok(Ok(()))
}

/// Outcome of `slti`: its result, and the context and shared state after it.
pub open spec fn slti_effect(c0: ControllerContext, s0: State, instruction: Instruction, c1: ControllerContext, s1: State, r: ControllerResult) -> bool {
    &&& r == completed()
    &&& s1 == s0
    &&& gpr_written(c0, c1, instruction.spec_rt(),
                if (reg(c0, instruction.spec_rs()) as i32) < instruction.spec_i_imm() {
                    1u32
                } else {
                    0u32
                })
}

pub fn slti(context: &mut ControllerContext, state: &mut State, instruction: Instruction) -> (r: ControllerResult)
    ensures
        slti_effect(*old(context), *old(state), instruction, *final(context), *final(state), r),
{
    let value = context.r3000_state.gpr[instruction.rs()] as i32;
    let imm = instruction.i_imm() as i32;
    write_gpr(context, instruction.rt(), if value < imm { 1 } else { 0 });
    Ok(Ok(()))
}

/// Outcome of `sltiu`: its result, and the context and shared state after it.
pub open spec fn sltiu_effect(c0: ControllerContext, s0: State, instruction: Instruction, c1: ControllerContext, s1: State, r: ControllerResult) -> bool {
    &&& r == completed()
    &&& s1 == s0
    &&& gpr_written(c0, c1, instruction.spec_rt(),
                if reg(c0, instruction.spec_rs()) < spec_sext(instruction.spec_i_imm()) {
                    1u32
                } else {
                    0u32
                })
}

/// Unsigned comparison against the sign-extended immediate.
pub fn sltiu(context: &mut ControllerContext, state: &mut State, instruction: Instruction) -> (r: ControllerResult)
    ensures
        sltiu_effect(*old(context), *old(state), instruction, *final(context), *final(state), r),
{
    let value = context.r3000_state.gpr[instruction.rs()];
    let imm = instruction.i_imm() as i32 as u32;
    write_gpr(context, instruction.rt(), if value < imm { 1 } else { 0 });
    Ok(Ok(()))
}

/// Outcome of `andi`: its result, and the context and shared state after it.
pub open spec fn andi_effect(c0: ControllerContext, s0: State, instruction: Instruction, c1: ControllerContext, s1: State, r: ControllerResult) -> bool {
    &&& r == completed()
    &&& s1 == s0
    &&& gpr_written(c0, c1, instruction.spec_rt(),
                reg(c0, instruction.spec_rs()) & (instruction.spec_u_imm() as u32))
}

pub fn andi(context: &mut ControllerContext, state: &mut State, instruction: Instruction) -> (r: ControllerResult)
    ensures
        andi_effect(*old(context), *old(state), instruction, *final(context), *final(state), r),
{
    let value = context.r3000_state.gpr[instruction.rs()];
    write_gpr(context, instruction.rt(), value & (instruction.u_imm() as u32));
    Ok(Ok(()))
}

/// Outcome of `ori`: its result, and the context and shared state after it.
pub open spec fn ori_effect(c0: ControllerContext, s0: State, instruction: Instruction, c1: ControllerContext, s1: State, r: ControllerResult) -> bool {
    &&& r == completed()
    &&& s1 == s0
    &&& gpr_written(c0, c1, instruction.spec_rt(),
                reg(c0, instruction.spec_rs()) | (instruction.spec_u_imm() as u32))
}

pub fn ori(context: &mut ControllerContext, state: &mut State, instruction: Instruction) -> (r: ControllerResult)
    ensures
        ori_effect(*old(context), *old(state), instruction, *final(context), *final(state), r),
{
    let value = context.r3000_state.gpr[instruction.rs()];
    write_gpr(context, instruction.rt(), value | (instruction.u_imm() as u32));
    Ok(Ok(()))
}

/// Outcome of `xori`: its result, and the context and shared state after it.
pub open spec fn xori_effect(c0: ControllerContext, s0: State, instruction: Instruction, c1: ControllerContext, s1: State, r: ControllerResult) -> bool {
    &&& r == completed()
    &&& s1 == s0
    &&& gpr_written(c0, c1, instruction.spec_rt(),
                reg(c0, instruction.spec_rs()) ^ (instruction.spec_u_imm() as u32))
}

pub fn xori(context: &mut ControllerContext, state: &mut State, instruction: Instruction) -> (r: ControllerResult)
    ensures
        xori_effect(*old(context), *old(state), instruction, *final(context), *final(state), r),
{
    let value = context.r3000_state.gpr[instruction.rs()];
    write_gpr(context, instruction.rt(), value ^ (instruction.u_imm() as u32));
    Ok(Ok(()))
}

/// Outcome of `lui`: its result, and the context and shared state after it.
pub open spec fn lui_effect(c0: ControllerContext, s0: State, instruction: Instruction, c1: ControllerContext, s1: State, r: ControllerResult) -> bool {
    &&& r == completed()
    &&& s1 == s0
    &&& gpr_written(c0, c1, instruction.spec_rt(),
                (instruction.spec_u_imm() as u32) << 16u32)
}

pub fn lui(context: &mut ControllerContext, state: &mut State, instruction: Instruction) -> (r: ControllerResult)
    ensures
        lui_effect(*old(context), *old(state), instruction, *final(context), *final(state), r),
{
    let imm = (instruction.u_imm() as u32) << 16u32;
    write_gpr(context, instruction.rt(), imm);
    Ok(Ok(()))
}

/// Outcome of `mfc0`: its result, and the context and shared state after it.
pub open spec fn mfc0_effect(c0: ControllerContext, s0: State, instruction: Instruction, c1: ControllerContext, s1: State, r: ControllerResult) -> bool {
    &&& s1 == s0
    &&& valid_cp0_register(instruction.spec_rd() as usize) ==> r == completed() && gpr_written(
                c0,
                c1,
                instruction.spec_rt(),
                spec_cp0_register(c0.cp0_state, instruction.spec_rd() as usize).value,
            )
    &&& !valid_cp0_register(instruction.spec_rd() as usize) ==> r == failed(
                ControllerError::UnknownCp0Register(instruction.spec_rd()),
            ) && c1 == c0
}

/// Move from coprocessor 0: an unimplemented register number stops emulation.
pub fn mfc0(context: &mut ControllerContext, state: &mut State, instruction: Instruction) -> (r: ControllerResult)
    ensures
        mfc0_effect(*old(context), *old(state), instruction, *final(context), *final(state), r),
{
    let rd = instruction.rd();
    if !is_valid_cp0_register(rd) {
        return Err(ControllerError::UnknownCp0Register(rd as u32));
    }
    let value = get_cp0_register(&mut context.cp0_state, rd).read_u32();
    write_gpr(context, instruction.rt(), value);
    Ok(Ok(()))
}

/// Outcome of `mtc0`: its result, and the context and shared state after it.
pub open spec fn mtc0_effect(c0: ControllerContext, s0: State, instruction: Instruction, c1: ControllerContext, s1: State, r: ControllerResult) -> bool {
    &&& s1 == s0
    &&& valid_cp0_register(instruction.spec_rd() as usize) ==> r == completed()
                && c1.cp0_state == spec_cp0_with_register(
                c0.cp0_state,
                instruction.spec_rd() as usize,
                crate::register::Register { value: reg(c0, instruction.spec_rt()) },
            ) && c1.r3000_state == c0.r3000_state && c1.cp2_state
                == c0.cp2_state
    &&& !valid_cp0_register(instruction.spec_rd() as usize) ==> r == failed(
                ControllerError::UnknownCp0Register(instruction.spec_rd()),
            ) && c1 == c0
}

/// Move to coprocessor 0: an unimplemented register number stops emulation.
pub fn mtc0(context: &mut ControllerContext, state: &mut State, instruction: Instruction) -> (r: ControllerResult)
    ensures
        mtc0_effect(*old(context), *old(state), instruction, *final(context), *final(state), r),
{
    let rd = instruction.rd();
    if !is_valid_cp0_register(rd) {
        return Err(ControllerError::UnknownCp0Register(rd as u32));
    }
    let value = context.r3000_state.gpr[instruction.rt()];
    get_cp0_register(&mut context.cp0_state, rd).write_u32(value);
    Ok(Ok(()))
}

/// Outcome of `rfe`: its result, and the context and shared state after it.
pub open spec fn rfe_effect(c0: ControllerContext, s0: State, instruction: Instruction, c1: ControllerContext, s1: State, r: ControllerResult) -> bool {
    &&& r == completed()
    &&& c1.cp0_state == (Cp0ControllerState {
        status: Register { value: spec_status_pop(c0.cp0_state.status.value) },
        cause: Register { value: field(8, 8).spec_insert(c0.cp0_state.cause.value, 0) },
        ..c0.cp0_state
    })
    &&& c1.r3000_state.branch_delay.current is None
    &&& c1.r3000_state.branch_delay.previous == c0.r3000_state.branch_delay.current
    &&& c1.r3000_state.pc.value == (match c0.r3000_state.branch_delay.current {
        Some(p) => p.target,
        None => c0.r3000_state.pc.value,
    })
    &&& c1.r3000_state.gpr == c0.r3000_state.gpr
    &&& c1.r3000_state.hi == c0.r3000_state.hi
    &&& c1.r3000_state.lo == c0.r3000_state.lo
    &&& c1.cp2_state == c0.cp2_state
    &&& !s1.r3000.cp0.interrupt.intc_pending
    &&& s1 == (State { r3000: s1.r3000, ..s0 })
}

/// Return from exception: pops the mode/interrupt-enable stack, takes any
/// pending branch at once, and clears pending interrupts (they are level
/// triggered and will be raised again if still active).
pub fn rfe(context: &mut ControllerContext, state: &mut State, instruction: Instruction) -> (r: ControllerResult)
    ensures
        rfe_effect(*old(context), *old(state), instruction, *final(context), *final(state), r),
{
    let old_status_value = context.cp0_state.status.read_u32();
    let new_status_value = status_pop_exception(old_status_value);
    context.cp0_state.status.write_u32(new_status_value);

    // Flush the branch delay slot if any.
    let target = context.r3000_state.branch_delay.advance_all();
    if let Some(t) = target {
        context.r3000_state.pc.write_u32(t);
    }

    clear_ip_field(state, &mut context.cp0_state);
    Ok(Ok(()))
}

} // verus!
