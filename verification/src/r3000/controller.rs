use vstd::prelude::*;
use crate::mips1::{spec_advance, wrap32, BranchDelaySlot, Instruction, INSTRUCTION_SIZE};
use crate::r3000::exception::{handle_interrupts, spec_handle_interrupts};
use crate::r3000::instruction::{lookup, spec_lookup, InstructionKind};
use crate::r3000::memory_controller::{in_kseg2, is_kseg2, spec_translate_address, translate_address};
use crate::r3000::types::{ControllerContext, ControllerError, ControllerResult, ControllerState};
use crate::register::Register;
use crate::r3000::{gte, instruction_impl, instruction_impl_memory};
use crate::system::bus::{bus_read_u32, spec_bus_read_u32};
use crate::system::state::State;

verus! {

/// Loads and stores: the instructions that go to the bus.
pub open spec fn is_memory_kind(kind: InstructionKind) -> bool {
    ||| kind == InstructionKind::Lb
    ||| kind == InstructionKind::Lh
    ||| kind == InstructionKind::Lwl
    ||| kind == InstructionKind::Lw
    ||| kind == InstructionKind::Lbu
    ||| kind == InstructionKind::Lhu
    ||| kind == InstructionKind::Lwr
    ||| kind == InstructionKind::Sb
    ||| kind == InstructionKind::Sh
    ||| kind == InstructionKind::Swl
    ||| kind == InstructionKind::Sw
    ||| kind == InstructionKind::Swr
    ||| kind == InstructionKind::Lwc2
    ||| kind == InstructionKind::Swc2
}

/// What executing one decoded instruction of kind `kind` does: the outcome
/// of the handler for that kind.
#[verifier::opaque]
pub open spec fn spec_execute(kind: InstructionKind, c0: ControllerContext, s0: State, instruction: Instruction, c1: ControllerContext, s1: State, r: ControllerResult) -> bool {
    match kind {
        InstructionKind::Sll => instruction_impl::sll_effect(c0, s0, instruction, c1, s1, r),
        InstructionKind::Srl => instruction_impl::srl_effect(c0, s0, instruction, c1, s1, r),
        InstructionKind::Sra => instruction_impl::sra_effect(c0, s0, instruction, c1, s1, r),
        InstructionKind::Sllv => instruction_impl::sllv_effect(c0, s0, instruction, c1, s1, r),
        InstructionKind::Srlv => instruction_impl::srlv_effect(c0, s0, instruction, c1, s1, r),
        InstructionKind::Srav => instruction_impl::srav_effect(c0, s0, instruction, c1, s1, r),
        InstructionKind::Jr => instruction_impl::jr_effect(c0, s0, instruction, c1, s1, r),
        InstructionKind::Jalr => instruction_impl::jalr_effect(c0, s0, instruction, c1, s1, r),
        InstructionKind::Syscall => instruction_impl::syscall_effect(c0, s0, instruction, c1, s1, r),
        InstructionKind::Break => instruction_impl::not_implemented_effect(c0, s0, instruction, c1, s1, r),
        InstructionKind::Mfhi => instruction_impl::mfhi_effect(c0, s0, instruction, c1, s1, r),
        InstructionKind::Mthi => instruction_impl::mthi_effect(c0, s0, instruction, c1, s1, r),
        InstructionKind::Mflo => instruction_impl::mflo_effect(c0, s0, instruction, c1, s1, r),
        InstructionKind::Mtlo => instruction_impl::mtlo_effect(c0, s0, instruction, c1, s1, r),
        InstructionKind::Mult => instruction_impl::mult_effect(c0, s0, instruction, c1, s1, r),
        InstructionKind::Multu => instruction_impl::multu_effect(c0, s0, instruction, c1, s1, r),
        InstructionKind::Div => instruction_impl::div_effect(c0, s0, instruction, c1, s1, r),
        InstructionKind::Divu => instruction_impl::divu_effect(c0, s0, instruction, c1, s1, r),
        InstructionKind::Add => instruction_impl::add_effect(c0, s0, instruction, c1, s1, r),
        InstructionKind::Addu => instruction_impl::addu_effect(c0, s0, instruction, c1, s1, r),
        InstructionKind::Sub => instruction_impl::sub_effect(c0, s0, instruction, c1, s1, r),
        InstructionKind::Subu => instruction_impl::subu_effect(c0, s0, instruction, c1, s1, r),
        InstructionKind::And => instruction_impl::and_effect(c0, s0, instruction, c1, s1, r),
        InstructionKind::Or => instruction_impl::or_effect(c0, s0, instruction, c1, s1, r),
        InstructionKind::Xor => instruction_impl::xor_effect(c0, s0, instruction, c1, s1, r),
        InstructionKind::Nor => instruction_impl::nor_effect(c0, s0, instruction, c1, s1, r),
        InstructionKind::Slt => instruction_impl::slt_effect(c0, s0, instruction, c1, s1, r),
        InstructionKind::Sltu => instruction_impl::sltu_effect(c0, s0, instruction, c1, s1, r),
        InstructionKind::Bltz => instruction_impl::bltz_effect(c0, s0, instruction, c1, s1, r),
        InstructionKind::Bgez => instruction_impl::bgez_effect(c0, s0, instruction, c1, s1, r),
        InstructionKind::Bltzal => instruction_impl::not_implemented_effect(c0, s0, instruction, c1, s1, r),
        InstructionKind::Bgezal => instruction_impl::not_implemented_effect(c0, s0, instruction, c1, s1, r),
        InstructionKind::J => instruction_impl::j_effect(c0, s0, instruction, c1, s1, r),
        InstructionKind::Jal => instruction_impl::jal_effect(c0, s0, instruction, c1, s1, r),
        InstructionKind::Beq => instruction_impl::beq_effect(c0, s0, instruction, c1, s1, r),
        InstructionKind::Bne => instruction_impl::bne_effect(c0, s0, instruction, c1, s1, r),
        InstructionKind::Blez => instruction_impl::blez_effect(c0, s0, instruction, c1, s1, r),
        InstructionKind::Bgtz => instruction_impl::bgtz_effect(c0, s0, instruction, c1, s1, r),
        InstructionKind::Addi => instruction_impl::addi_effect(c0, s0, instruction, c1, s1, r),
        InstructionKind::Addiu => instruction_impl::addiu_effect(c0, s0, instruction, c1, s1, r),
        InstructionKind::Slti => instruction_impl::slti_effect(c0, s0, instruction, c1, s1, r),
        InstructionKind::Sltiu => instruction_impl::sltiu_effect(c0, s0, instruction, c1, s1, r),
        InstructionKind::Andi => instruction_impl::andi_effect(c0, s0, instruction, c1, s1, r),
        InstructionKind::Ori => instruction_impl::ori_effect(c0, s0, instruction, c1, s1, r),
        InstructionKind::Xori => instruction_impl::xori_effect(c0, s0, instruction, c1, s1, r),
        InstructionKind::Lui => instruction_impl::lui_effect(c0, s0, instruction, c1, s1, r),
        InstructionKind::Lb => instruction_impl_memory::lb_effect(c0, s0, instruction, c1, s1, r),
        InstructionKind::Lh => instruction_impl_memory::lh_effect(c0, s0, instruction, c1, s1, r),
        InstructionKind::Lwl => instruction_impl_memory::lwl_effect(c0, s0, instruction, c1, s1, r),
        InstructionKind::Lw => instruction_impl_memory::lw_effect(c0, s0, instruction, c1, s1, r),
        InstructionKind::Lbu => instruction_impl_memory::lbu_effect(c0, s0, instruction, c1, s1, r),
        InstructionKind::Lhu => instruction_impl_memory::lhu_effect(c0, s0, instruction, c1, s1, r),
        InstructionKind::Lwr => instruction_impl_memory::lwr_effect(c0, s0, instruction, c1, s1, r),
        InstructionKind::Sb => instruction_impl_memory::sb_effect(c0, s0, instruction, c1, s1, r),
        InstructionKind::Sh => instruction_impl_memory::sh_effect(c0, s0, instruction, c1, s1, r),
        InstructionKind::Swl => instruction_impl_memory::swl_effect(c0, s0, instruction, c1, s1, r),
        InstructionKind::Sw => instruction_impl_memory::sw_effect(c0, s0, instruction, c1, s1, r),
        InstructionKind::Swr => instruction_impl_memory::swr_effect(c0, s0, instruction, c1, s1, r),
        InstructionKind::Lwc2 => instruction_impl_memory::lwc2_effect(c0, s0, instruction, c1, s1, r),
        InstructionKind::Swc2 => instruction_impl_memory::swc2_effect(c0, s0, instruction, c1, s1, r),
        InstructionKind::Bc0f => instruction_impl::not_implemented_effect(c0, s0, instruction, c1, s1, r),
        InstructionKind::Bc0t => instruction_impl::not_implemented_effect(c0, s0, instruction, c1, s1, r),
        InstructionKind::Tlbr => instruction_impl::not_implemented_effect(c0, s0, instruction, c1, s1, r),
        InstructionKind::Tlbwi => instruction_impl::not_implemented_effect(c0, s0, instruction, c1, s1, r),
        InstructionKind::Tlbwr => instruction_impl::not_implemented_effect(c0, s0, instruction, c1, s1, r),
        InstructionKind::Tlbp => instruction_impl::not_implemented_effect(c0, s0, instruction, c1, s1, r),
        InstructionKind::Rfe => instruction_impl::rfe_effect(c0, s0, instruction, c1, s1, r),
        InstructionKind::Mfc2 => gte::mfc2_effect(c0, s0, instruction, c1, s1, r),
        InstructionKind::Cfc2 => gte::cfc2_effect(c0, s0, instruction, c1, s1, r),
        InstructionKind::Mtc2 => gte::mtc2_effect(c0, s0, instruction, c1, s1, r),
        InstructionKind::Ctc2 => gte::ctc2_effect(c0, s0, instruction, c1, s1, r),
        InstructionKind::Rtps => gte::rtps_effect(c0, s0, instruction, c1, s1, r),
        InstructionKind::Nclip => gte::nclip_effect(c0, s0, instruction, c1, s1, r),
        InstructionKind::Op => instruction_impl::not_implemented_effect(c0, s0, instruction, c1, s1, r),
        InstructionKind::Dpcs => gte::dpcs_effect(c0, s0, instruction, c1, s1, r),
        InstructionKind::Intpl => instruction_impl::not_implemented_effect(c0, s0, instruction, c1, s1, r),
        InstructionKind::Mvmva => gte::mvmva_effect(c0, s0, instruction, c1, s1, r),
        InstructionKind::Ncds => gte::ncds_effect(c0, s0, instruction, c1, s1, r),
        InstructionKind::Cdp => instruction_impl::not_implemented_effect(c0, s0, instruction, c1, s1, r),
        InstructionKind::Ncdt => gte::ncdt_effect(c0, s0, instruction, c1, s1, r),
        InstructionKind::Nccs => instruction_impl::not_implemented_effect(c0, s0, instruction, c1, s1, r),
        InstructionKind::Cc => instruction_impl::not_implemented_effect(c0, s0, instruction, c1, s1, r),
        InstructionKind::Ncs => instruction_impl::not_implemented_effect(c0, s0, instruction, c1, s1, r),
        InstructionKind::Nct => instruction_impl::not_implemented_effect(c0, s0, instruction, c1, s1, r),
        InstructionKind::Sqr => instruction_impl::not_implemented_effect(c0, s0, instruction, c1, s1, r),
        InstructionKind::Dcpl => instruction_impl::not_implemented_effect(c0, s0, instruction, c1, s1, r),
        InstructionKind::Dpct => instruction_impl::not_implemented_effect(c0, s0, instruction, c1, s1, r),
        InstructionKind::Avsz3 => gte::avsz3_effect(c0, s0, instruction, c1, s1, r),
        InstructionKind::Avsz4 => gte::avsz4_effect(c0, s0, instruction, c1, s1, r),
        InstructionKind::Rtpt => gte::rtpt_effect(c0, s0, instruction, c1, s1, r),
        InstructionKind::Gpf => instruction_impl::not_implemented_effect(c0, s0, instruction, c1, s1, r),
        InstructionKind::Gpl => instruction_impl::not_implemented_effect(c0, s0, instruction, c1, s1, r),
        InstructionKind::Ncct => gte::ncct_effect(c0, s0, instruction, c1, s1, r),
        InstructionKind::Mfc0 => instruction_impl::mfc0_effect(c0, s0, instruction, c1, s1, r),
        InstructionKind::Mtc0 => instruction_impl::mtc0_effect(c0, s0, instruction, c1, s1, r),
    }
}

/// Executes one decoded instruction with the handler for its kind
/// (`spec_execute`).
///
/// $zero stays 0 across every instruction except MFC2 and CFC2, which write
/// their target register without clearing $zero afterwards; only loads,
/// stores and RFE touch the shared hardware state.
#[verifier::rlimit(80)]
pub fn execute(kind: InstructionKind, context: &mut ControllerContext, state: &mut State, instruction: Instruction) -> (r: ControllerResult)
    requires
        old(state).wf(),
    ensures
        final(state).wf(),
        (kind != InstructionKind::Mfc2 && kind != InstructionKind::Cfc2 && old(context).r3000_state.gpr@[0] == 0)
            ==> final(context).r3000_state.gpr@[0] == 0,
        (!is_memory_kind(kind) && kind != InstructionKind::Rfe) ==> *final(state) == *old(state),
        spec_execute(kind, *old(context), *old(state), instruction, *final(context), *final(state), r),
{
    proof {
        reveal(spec_execute);
        assert(context.r3000_state.gpr@.len() == 32);
        instruction.lemma_register_fields();
    }
    match kind {
        InstructionKind::Sll => instruction_impl::sll(context, state, instruction),
        InstructionKind::Srl => instruction_impl::srl(context, state, instruction),
        InstructionKind::Sra => instruction_impl::sra(context, state, instruction),
        InstructionKind::Sllv => instruction_impl::sllv(context, state, instruction),
        InstructionKind::Srlv => instruction_impl::srlv(context, state, instruction),
        InstructionKind::Srav => instruction_impl::srav(context, state, instruction),
        InstructionKind::Jr => instruction_impl::jr(context, state, instruction),
        InstructionKind::Jalr => instruction_impl::jalr(context, state, instruction),
        InstructionKind::Syscall => instruction_impl::syscall(context, state, instruction),
        InstructionKind::Break => instruction_impl::not_implemented(context, state, instruction),
        InstructionKind::Mfhi => instruction_impl::mfhi(context, state, instruction),
        InstructionKind::Mthi => instruction_impl::mthi(context, state, instruction),
        InstructionKind::Mflo => instruction_impl::mflo(context, state, instruction),
        InstructionKind::Mtlo => instruction_impl::mtlo(context, state, instruction),
        InstructionKind::Mult => instruction_impl::mult(context, state, instruction),
        InstructionKind::Multu => instruction_impl::multu(context, state, instruction),
        InstructionKind::Div => instruction_impl::div(context, state, instruction),
        InstructionKind::Divu => instruction_impl::divu(context, state, instruction),
        InstructionKind::Add => instruction_impl::add(context, state, instruction),
        InstructionKind::Addu => instruction_impl::addu(context, state, instruction),
        InstructionKind::Sub => instruction_impl::sub(context, state, instruction),
        InstructionKind::Subu => instruction_impl::subu(context, state, instruction),
        InstructionKind::And => instruction_impl::and(context, state, instruction),
        InstructionKind::Or => instruction_impl::or(context, state, instruction),
        InstructionKind::Xor => instruction_impl::xor(context, state, instruction),
        InstructionKind::Nor => instruction_impl::nor(context, state, instruction),
        InstructionKind::Slt => instruction_impl::slt(context, state, instruction),
        InstructionKind::Sltu => instruction_impl::sltu(context, state, instruction),
        InstructionKind::Bltz => instruction_impl::bltz(context, state, instruction),
        InstructionKind::Bgez => instruction_impl::bgez(context, state, instruction),
        InstructionKind::Bltzal => instruction_impl::not_implemented(context, state, instruction),
        InstructionKind::Bgezal => instruction_impl::not_implemented(context, state, instruction),
        InstructionKind::J => instruction_impl::j(context, state, instruction),
        InstructionKind::Jal => instruction_impl::jal(context, state, instruction),
        InstructionKind::Beq => instruction_impl::beq(context, state, instruction),
        InstructionKind::Bne => instruction_impl::bne(context, state, instruction),
        InstructionKind::Blez => instruction_impl::blez(context, state, instruction),
        InstructionKind::Bgtz => instruction_impl::bgtz(context, state, instruction),
        InstructionKind::Addi => instruction_impl::addi(context, state, instruction),
        InstructionKind::Addiu => instruction_impl::addiu(context, state, instruction),
        InstructionKind::Slti => instruction_impl::slti(context, state, instruction),
        InstructionKind::Sltiu => instruction_impl::sltiu(context, state, instruction),
        InstructionKind::Andi => instruction_impl::andi(context, state, instruction),
        InstructionKind::Ori => instruction_impl::ori(context, state, instruction),
        InstructionKind::Xori => instruction_impl::xori(context, state, instruction),
        InstructionKind::Lui => instruction_impl::lui(context, state, instruction),
        InstructionKind::Lb => instruction_impl_memory::lb(context, state, instruction),
        InstructionKind::Lh => instruction_impl_memory::lh(context, state, instruction),
        InstructionKind::Lwl => instruction_impl_memory::lwl(context, state, instruction),
        InstructionKind::Lw => instruction_impl_memory::lw(context, state, instruction),
        InstructionKind::Lbu => instruction_impl_memory::lbu(context, state, instruction),
        InstructionKind::Lhu => instruction_impl_memory::lhu(context, state, instruction),
        InstructionKind::Lwr => instruction_impl_memory::lwr(context, state, instruction),
        InstructionKind::Sb => instruction_impl_memory::sb(context, state, instruction),
        InstructionKind::Sh => instruction_impl_memory::sh(context, state, instruction),
        InstructionKind::Swl => instruction_impl_memory::swl(context, state, instruction),
        InstructionKind::Sw => instruction_impl_memory::sw(context, state, instruction),
        InstructionKind::Swr => instruction_impl_memory::swr(context, state, instruction),
        InstructionKind::Lwc2 => instruction_impl_memory::lwc2(context, state, instruction),
        InstructionKind::Swc2 => instruction_impl_memory::swc2(context, state, instruction),
        InstructionKind::Bc0f => instruction_impl::not_implemented(context, state, instruction),
        InstructionKind::Bc0t => instruction_impl::not_implemented(context, state, instruction),
        InstructionKind::Tlbr => instruction_impl::not_implemented(context, state, instruction),
        InstructionKind::Tlbwi => instruction_impl::not_implemented(context, state, instruction),
        InstructionKind::Tlbwr => instruction_impl::not_implemented(context, state, instruction),
        InstructionKind::Tlbp => instruction_impl::not_implemented(context, state, instruction),
        InstructionKind::Rfe => instruction_impl::rfe(context, state, instruction),
        InstructionKind::Mfc2 => gte::mfc2(context, state, instruction),
        InstructionKind::Cfc2 => gte::cfc2(context, state, instruction),
        InstructionKind::Mtc2 => gte::mtc2(context, state, instruction),
        InstructionKind::Ctc2 => gte::ctc2(context, state, instruction),
        InstructionKind::Rtps => gte::rtps(context, state, instruction),
        InstructionKind::Nclip => gte::nclip(context, state, instruction),
        InstructionKind::Op => instruction_impl::not_implemented(context, state, instruction),
        InstructionKind::Dpcs => gte::dpcs(context, state, instruction),
        InstructionKind::Intpl => instruction_impl::not_implemented(context, state, instruction),
        InstructionKind::Mvmva => gte::mvmva(context, state, instruction),
        InstructionKind::Ncds => gte::ncds(context, state, instruction),
        InstructionKind::Cdp => instruction_impl::not_implemented(context, state, instruction),
        InstructionKind::Ncdt => gte::ncdt(context, state, instruction),
        InstructionKind::Nccs => instruction_impl::not_implemented(context, state, instruction),
        InstructionKind::Cc => instruction_impl::not_implemented(context, state, instruction),
        InstructionKind::Ncs => instruction_impl::not_implemented(context, state, instruction),
        InstructionKind::Nct => instruction_impl::not_implemented(context, state, instruction),
        InstructionKind::Sqr => instruction_impl::not_implemented(context, state, instruction),
        InstructionKind::Dcpl => instruction_impl::not_implemented(context, state, instruction),
        InstructionKind::Dpct => instruction_impl::not_implemented(context, state, instruction),
        InstructionKind::Avsz3 => gte::avsz3(context, state, instruction),
        InstructionKind::Avsz4 => gte::avsz4(context, state, instruction),
        InstructionKind::Rtpt => gte::rtpt(context, state, instruction),
        InstructionKind::Gpf => instruction_impl::not_implemented(context, state, instruction),
        InstructionKind::Gpl => instruction_impl::not_implemented(context, state, instruction),
        InstructionKind::Ncct => gte::ncct(context, state, instruction),
        InstructionKind::Mfc0 => instruction_impl::mfc0(context, state, instruction),
        InstructionKind::Mtc0 => instruction_impl::mtc0(context, state, instruction),
    }
}

/// The CPU context a step fetches with: pending interrupts checked (and one
/// taken), then the branch delay slot advanced, the PC moved to a branch
/// target that falls due.
pub open spec fn spec_pre_fetch(context: ControllerContext, state: State) -> ControllerContext {
    let (r, cp0) = spec_handle_interrupts(state, context.r3000_state, context.cp0_state);
    let advanced = spec_advance(r.branch_delay.current);
    let pc = match advanced.1 {
        Some(target) => target,
        None => r.pc.value,
    };
    ControllerContext {
        r3000_state: ControllerState {
            pc: Register { value: pc },
            branch_delay: BranchDelaySlot { current: advanced.0, previous: r.branch_delay.current },
            ..r
        },
        cp0_state: cp0,
        ..context
    }
}

/// The address a CPU step fetches from: the exception vector when an
/// interrupt is taken, else a branch target that falls due, else the PC.
pub open spec fn fetch_pc(context: ControllerContext, state: State) -> u32 {
    spec_pre_fetch(context, state).r3000_state.pc.value
}

/// `context` with the PC set to `pc`.
pub open spec fn with_pc(context: ControllerContext, pc: u32) -> ControllerContext {
    ControllerContext { r3000_state: ControllerState { pc: Register { value: pc }, ..context.r3000_state }, ..context }
}

/// `context` after a hazard: the PC back at `pc` and the branch delay slot as
/// it was before the step advanced it.
pub open spec fn spec_undo(context: ControllerContext, pc: u32) -> ControllerContext {
    ControllerContext {
        r3000_state: ControllerState {
            pc: Register { value: pc },
            branch_delay: BranchDelaySlot {
                current: context.r3000_state.branch_delay.previous,
                ..context.r3000_state.branch_delay
            },
            ..context.r3000_state
        },
        ..context
    }
}

/// What a CPU step leaves behind. A refused fetch leaves the context as the
/// interrupt check and the delay slot made it; an unknown instruction leaves
/// the PC past it; otherwise the instruction executes on the context with the
/// PC past it, and its outcome stands, except that an instruction stalled by a
/// hazard is undone to be retried.
pub open spec fn tick_effect(c0: ControllerContext, s0: State, c1: ControllerContext, s1: State, r: Result<i64, ControllerError>) -> bool {
    let pre = spec_pre_fetch(c0, s0);
    let pc = pre.r3000_state.pc.value;
    let pa = spec_translate_address(pc);
    if is_kseg2(pc) || pa < 0x80 {
        c1 == pre && s1 == s0
    } else {
        let read = spec_bus_read_u32(s0@, pa);
        match read.1 {
            Err(_) => c1 == pre && s1@ == read.0,
            Ok(word) => {
                let fetched = with_pc(pre, wrap32(pc + INSTRUCTION_SIZE));
                match spec_lookup(Instruction { value: word }) {
                    None => c1 == fetched && s1@ == read.0,
                    Some(entry) => exists|s_mid: State, c2: ControllerContext, res: ControllerResult|
                        #[trigger] spec_execute(entry.0, fetched, s_mid, Instruction { value: word }, c2, s1, res)
                        && s_mid@ == read.0 && s_mid.wf() && match res {
                            Err(e) => r == Err::<i64, ControllerError>(e) && c1 == c2,
                            Ok(Ok(())) => r == Ok::<i64, ControllerError>(entry.1 as i64) && c1 == c2,
                            Ok(Err(_)) => r == Ok::<i64, ControllerError>(entry.1 as i64) && c1 == spec_undo(c2, pc),
                        },
                }
            },
        }
    }
}

/// The outcome of a CPU step as far as fetching and decoding decide it:
/// a program counter in kseg2, one below 0x80 after translation, or a failed
/// bus read stops emulation, as does an unknown instruction; otherwise the
/// step takes the instruction's cycles unless executing it fails.
pub open spec fn fetch_outcome(context: ControllerContext, state: State, r: Result<i64, ControllerError>) -> bool {
    let pc = fetch_pc(context, state);
    let pa = spec_translate_address(pc);
    if is_kseg2(pc) {
        r == Err::<i64, ControllerError>(ControllerError::AddressTranslation(pc))
    } else if pa < 0x80 {
        r == Err::<i64, ControllerError>(ControllerError::InstructionFetch(pa))
    } else {
        match spec_bus_read_u32(state@, pa).1 {
            Err(_) => r == Err::<i64, ControllerError>(ControllerError::InstructionFetch(pa)),
            Ok(word) => match spec_lookup(Instruction { value: word }) {
                None => r == Err::<i64, ControllerError>(ControllerError::UnknownInstruction(word)),
                Some(entry) => r is Ok ==> r == Ok::<i64, ControllerError>(entry.1 as i64),
            },
        }
    }
}

/// One CPU step: take a pending interrupt, advance the branch delay slot,
/// fetch and decode the instruction at the PC, move the PC past it, and
/// execute it. An instruction that hits a hazard is undone (PC and branch
/// delay slot restored) to be retried. Returns the cycles the instruction takes.
pub fn tick(context: &mut ControllerContext, state: &mut State) -> (r: Result<i64, ControllerError>)
    requires
        old(state).wf(),
    ensures
        final(state).wf(),
        r is Ok ==> (r->Ok_0 == 1 || r->Ok_0 == 2),
        fetch_outcome(*old(context), *old(state), r),
        tick_effect(*old(context), *old(state), *final(context), *final(state), r),
{
    let ghost c0 = *context;
    let ghost s0 = *state;
    handle_interrupts(state, &mut context.r3000_state, &mut context.cp0_state);

    if let Some(target) = context.r3000_state.branch_delay.advance() {
        context.r3000_state.pc.write_u32(target);
    }
    assert(*context == spec_pre_fetch(c0, s0));

    let pc_va = context.r3000_state.pc.read_u32();
    if in_kseg2(pc_va) {
        return Err(ControllerError::AddressTranslation(pc_va));
    }
    let pc_pa = translate_address(pc_va);
    if pc_pa < 0x80 {
        // Probably not valid instructions.
        return Err(ControllerError::InstructionFetch(pc_pa));
    }

    let inst_value = match bus_read_u32(state, pc_pa) {
        Ok(v) => v,
        Err(_) => return Err(ControllerError::InstructionFetch(pc_pa)),
    };
    let inst = Instruction::new(inst_value);

    context.r3000_state.pc.write_u32(pc_va.wrapping_add(INSTRUCTION_SIZE));

    let (kind, cycles) = match lookup(inst) {
        Some(entry) => entry,
        None => return Err(ControllerError::UnknownInstruction(inst_value)),
    };

    let ghost fetched = *context;
    let ghost s_mid = *state;
    let result = execute(kind, context, state, inst);
    let ghost c2 = *context;
    assert(spec_execute(kind, fetched, s_mid, inst, c2, *state, result));
    let result = match result {
        Ok(res) => res,
        Err(e) => return Err(e),
    };

    if result.is_err() {
        // Pipeline hazard: go back to the previous state, the instruction was not performed.
        context.r3000_state.branch_delay.back();
        context.r3000_state.pc.write_u32(pc_va);
    }

    Ok(cycles as i64)
}

/// `c1` and `s1` are reachable from `c0` and `s0` by CPU steps that all
/// succeed and take `cycles` cycles in total.
pub open spec fn steps(c0: ControllerContext, s0: State, c1: ControllerContext, s1: State, cycles: int) -> bool
    decreases cycles,
{
    if cycles <= 0 {
        cycles == 0 && c1 == c0 && s1 == s0
    } else {
        exists|cm: ControllerContext, sm: State, k: i64|
            #![trigger tick_effect(cm, sm, c1, s1, Ok::<i64, ControllerError>(k))]
            1 <= k && k <= cycles && steps(c0, s0, cm, sm, cycles - k)
                && tick_effect(cm, sm, c1, s1, Ok::<i64, ControllerError>(k))
    }
}

/// The cycle budget `run_ticks` works to: `ticks`, and at least one.
pub open spec fn tick_budget(ticks: i64) -> int {
    if ticks < 1 {
        1
    } else {
        ticks as int
    }
}

/// Runs the CPU for at least one step and until `ticks` cycles have elapsed.
///
/// On success the steps taken add up to at least the budget, and all but the
/// last to less than it; when a step fails, the steps before it add up to less
/// than the budget and its error is returned.
pub fn run_ticks(context: &mut ControllerContext, state: &mut State, ticks: i64) -> (r: Result<(), ControllerError>)
    requires
        old(state).wf(),
    ensures
        final(state).wf(),
        r is Ok ==> exists|cm: ControllerContext, sm: State, total: int, k: i64|
            #![trigger steps(*old(context), *old(state), cm, sm, total), tick_effect(cm, sm, *final(context), *final(state), Ok::<i64, ControllerError>(k))]
            steps(*old(context), *old(state), cm, sm, total) && total < tick_budget(ticks)
                && tick_budget(ticks) <= total + k
                && tick_effect(cm, sm, *final(context), *final(state), Ok::<i64, ControllerError>(k)),
        forall|e: ControllerError| r == Err::<(), ControllerError>(e) ==> exists|cm: ControllerContext, sm: State, total: int|
            #![trigger steps(*old(context), *old(state), cm, sm, total)]
            steps(*old(context), *old(state), cm, sm, total) && total < tick_budget(ticks)
                && tick_effect(cm, sm, *final(context), *final(state), Err::<i64, ControllerError>(e)),
{
    let ghost c0 = *context;
    let ghost s0 = *state;
    let mut remaining: i64 = if ticks < 1 {
        1
    } else {
        ticks
    };
    let ghost mut last_c = *context;
    let ghost mut last_s = *state;
    let ghost mut last_k: i64 = 0;
    while remaining > 0
        invariant
            state.wf(),
            c0 == *old(context),
            s0 == *old(state),
            remaining <= tick_budget(ticks),
            steps(c0, s0, *context, *state, tick_budget(ticks) - remaining),
            remaining <= 0 ==> 1 <= last_k && tick_budget(ticks) - remaining - last_k < tick_budget(ticks)
                && steps(c0, s0, last_c, last_s, tick_budget(ticks) - remaining - last_k)
                && tick_effect(last_c, last_s, *context, *state, Ok::<i64, ControllerError>(last_k)),
        decreases remaining + 1,
    {
        let ghost before_c = *context;
        let ghost before_s = *state;
        let ghost total = tick_budget(ticks) - remaining;
        let outcome = tick(context, state);
        let cycles = match outcome {
            Ok(c) => c,
            Err(e) => {
                assert(steps(c0, s0, before_c, before_s, total));
                assert(tick_effect(before_c, before_s, *context, *state, Err::<i64, ControllerError>(e)));
                return Err(e);
            },
        };
        proof {
            last_c = before_c;
            last_s = before_s;
            last_k = cycles;
            assert(tick_effect(before_c, before_s, *context, *state, Ok::<i64, ControllerError>(cycles)));
            assert(steps(c0, s0, *context, *state, total + cycles));
        }
        remaining = remaining - cycles;
    }
    proof {
        let total = tick_budget(ticks) - remaining - last_k;
        assert(steps(c0, s0, last_c, last_s, total));
        assert(tick_effect(last_c, last_s, *context, *state, Ok::<i64, ControllerError>(last_k)));
    }
    Ok(())
}
} // verus!
