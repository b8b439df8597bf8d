use vstd::prelude::*;
use crate::mips1::{Instruction, PendingBranch};
use crate::r3000::controller::spec_execute;
use crate::r3000::instruction::spec_lookup;
use crate::r3000::gte::{rtp_mode_supported, rtps_effect, spec_rtp};
use crate::r3000::types::{ControllerContext, ControllerError, ControllerResult};
use crate::r3000::memory_controller::{is_kseg2, spec_translate_address};
use crate::r3000::instruction_impl_memory::spec_isc;
use crate::system::bus::{spec_bus_read_u16, spec_bus_read_u32, spec_bus_read_u8, spec_bus_write_u16, spec_bus_write_u32, spec_bus_write_u8};
use crate::register::{lemma_half_write_read, spec_half, spec_with_half};
use crate::r3000::gte_arith::{clamp, s16, s32};
use crate::r3000::gte::mat_row;
use crate::mips1::trunc_div;
use crate::system::State;

verus! {

/// Running the instruction word `w`: decoded by `lookup`, then executed by
/// `execute`, from `c0`/`s0` to `c1`/`s1` with result `r`.
pub open spec fn runs_word(
    w: u32,
    c0: ControllerContext,
    s0: State,
    c1: ControllerContext,
    s1: State,
    r: ControllerResult,
) -> bool {
    spec_lookup(Instruction { value: w }) matches Some(entry) && spec_execute(
        entry.0,
        c0,
        s0,
        Instruction { value: w },
        c1,
        s1,
        r,
    )
}

/// General purpose register `i` of a context.
pub open spec fn gpr(c: ControllerContext, i: u32) -> u32 {
    c.r3000_state.gpr@[i as int]
}

/// Only register `rd` of the CPU changed, to `v` (register 0 stays 0), and the
/// instruction completed.
pub open spec fn writes_register(
    c0: ControllerContext,
    c1: ControllerContext,
    r: ControllerResult,
    rd: u32,
    v: u32,
) -> bool {
    &&& r == Ok::<Result<(), crate::r3000::types::Hazard>, crate::r3000::types::ControllerError>(Ok(()))
    &&& c1.r3000_state.gpr@ == c0.r3000_state.gpr@.update(rd as int, v).update(0, 0u32)
    &&& c1.r3000_state.pc == c0.r3000_state.pc
    &&& c1.r3000_state.hi == c0.r3000_state.hi
    &&& c1.r3000_state.lo == c0.r3000_state.lo
    &&& c1.cp0_state == c0.cp0_state
    &&& c1.cp2_state == c0.cp2_state
}

/// MIPS I register-to-register instructions (opcode SPECIAL, selected by
/// the function field, bits 0-5). With `a` the register named by bits 21-25,
/// `b` the one named by bits 16-20 and `d` the register named by bits 11-15:
/// ADDU (33) and SUBU (35) add and subtract modulo 2^32, AND (36), OR (37),
/// XOR (38) and NOR (39) combine bitwise, SLT (42) compares signed and SLTU
/// (43) unsigned, SLL (0), SRL (2) and SRA (3) shift `b` by bits 6-10,
/// logically or arithmetically, MFHI (16) and MFLO (18) copy HI and LO.
pub proof fn lemma_special_register_instructions(
    w: u32,
    c0: ControllerContext,
    s0: State,
    c1: ControllerContext,
    s1: State,
    r: ControllerResult,
)
    requires
        runs_word(w, c0, s0, c1, s1, r),
        w >> 26u32 == 0,
    ensures
        ({
            let a = gpr(c0, (w >> 21u32) & 0x1F);
            let b = gpr(c0, (w >> 16u32) & 0x1F);
            let d = (w >> 11u32) & 0x1F;
            let shift = (w >> 6u32) & 0x1F;
            let f = w & 0x3F;
            &&& f == 33 ==> writes_register(c0, c1, r, d, ((a + b) % 0x1_0000_0000) as u32)
            &&& f == 35 ==> writes_register(c0, c1, r, d, ((a - b) % 0x1_0000_0000) as u32)
            &&& f == 36 ==> writes_register(c0, c1, r, d, a & b)
            &&& f == 37 ==> writes_register(c0, c1, r, d, a | b)
            &&& f == 38 ==> writes_register(c0, c1, r, d, a ^ b)
            &&& f == 39 ==> writes_register(c0, c1, r, d, !(a | b))
            &&& f == 42 ==> writes_register(c0, c1, r, d, if (a as i32) < (b as i32) { 1u32 } else { 0u32 })
            &&& f == 43 ==> writes_register(c0, c1, r, d, if a < b { 1u32 } else { 0u32 })
            &&& f == 0 ==> writes_register(c0, c1, r, d, b << shift)
            &&& f == 2 ==> writes_register(c0, c1, r, d, b >> shift)
            &&& f == 3 ==> writes_register(c0, c1, r, d, ((b as i32) >> shift) as u32)
            &&& f == 16 ==> writes_register(c0, c1, r, d, c0.r3000_state.hi.value)
            &&& f == 18 ==> writes_register(c0, c1, r, d, c0.r3000_state.lo.value)
        }),
{
    reveal(spec_execute);
}

/// MIPS I immediate instructions. With `a` the register named by bits 21-25,
/// `t` the register named by bits 16-20 and the 16-bit immediate in bits 0-15:
/// ADDIU (9) adds the sign-extended immediate modulo 2^32, SLTI (10) compares
/// with it signed and SLTIU (11) unsigned, ANDI (12), ORI (13) and XORI (14)
/// combine with the zero-extended immediate, and LUI (15) loads it into the
/// upper half.
pub proof fn lemma_immediate_instructions(
    w: u32,
    c0: ControllerContext,
    s0: State,
    c1: ControllerContext,
    s1: State,
    r: ControllerResult,
)
    requires
        runs_word(w, c0, s0, c1, s1, r),
    ensures
        ({
            let op = w >> 26u32;
            let a = gpr(c0, (w >> 21u32) & 0x1F);
            let t = (w >> 16u32) & 0x1F;
            let imm = w & 0xFFFF;
            let simm: int = if imm >= 0x8000 { imm - 0x1_0000 } else { imm as int };
            &&& op == 9 ==> writes_register(c0, c1, r, t, ((a + simm) % 0x1_0000_0000) as u32)
            &&& op == 10 ==> writes_register(c0, c1, r, t, if ((a as i32) as int) < simm { 1u32 } else { 0u32 })
            &&& op == 11 ==> writes_register(c0, c1, r, t, if a < (if imm >= 0x8000 { imm | 0xFFFF_0000 } else { imm }) { 1u32 } else { 0u32 })
            &&& op == 12 ==> writes_register(c0, c1, r, t, a & imm)
            &&& op == 13 ==> writes_register(c0, c1, r, t, a | imm)
            &&& op == 14 ==> writes_register(c0, c1, r, t, a ^ imm)
            &&& op == 15 ==> writes_register(c0, c1, r, t, imm << 16u32)
        }),
{
    reveal(spec_execute);
    let imm = w & 0xFFFF;
    crate::r3000::laws::lemma_immediate_bits(w);
}

/// The 16-bit immediate field as the decoder reads it: `w as u16` is bits
/// 0-15, and as `i16` it is their two's complement value.
proof fn lemma_immediate_bits(w: u32)
    ensures
        (w as u16) as u32 == w & 0xFFFF,
        (w & 0xFFFF) >= 0x8000 ==> ((w as u16) as i16) as int == (w & 0xFFFF) - 0x1_0000,
        (w & 0xFFFF) < 0x8000 ==> ((w as u16) as i16) as int == (w & 0xFFFF),
        (w & 0xFFFF) >= 0x8000 ==> (((w as u16) as i16) as i32) as u32 == (w & 0xFFFF) | 0xFFFF_0000,
        (w & 0xFFFF) < 0x8000 ==> (((w as u16) as i16) as i32) as u32 == w & 0xFFFF,
        ((w as u16) as u32) << 16u32 == (w & 0xFFFF) << 16u32,
        ((w & 0x03FF_FFFF) << 2u32) & 0x0FFF_FFFF == (w & 0x03FF_FFFF) << 2u32,
{
    lemma_encoding_bits(w, 0, 0);
}

/// Bit-level facts about instruction fields and sign conversions.
proof fn lemma_encoding_bits(w: u32, x: i32, y: i16)
    by (bit_vector)
    ensures
        (x as u32) as i32 == x,
        (y as u16) as i16 == y,
        ((w & 0x03FF_FFFF) << 2u32) & 0x0FFF_FFFF == (w & 0x03FF_FFFF) << 2u32,
        (w as u16) as u32 == w & 0xFFFF,
        (w & 0xFFFF) >= 0x8000 ==> ((w as u16) as i16) as int == (w & 0xFFFF) - 0x1_0000,
        (w & 0xFFFF) < 0x8000 ==> ((w as u16) as i16) as int == (w & 0xFFFF),
        (w & 0xFFFF) >= 0x8000 ==> (((w as u16) as i16) as i32) as u32 == (w & 0xFFFF) | 0xFFFF_0000,
        (w & 0xFFFF) < 0x8000 ==> (((w as u16) as i16) as i32) as u32 == w & 0xFFFF,
        ((w as u16) as u32) << 16u32 == (w & 0xFFFF) << 16u32,
        (w >> 17u32) & 3 < 4,
        (w >> 15u32) & 3 < 4,
        (w >> 13u32) & 3 < 4,
        (crate::bitfield::field(2, 5).spec_insert(w, 8) >> 2u32) & 0x1F == 8,
        (crate::bitfield::field(22, 1).spec_extract(w) != 0) == ((w >> 22u32) & 1 != 0),
{
}

/// Conditional branches: BEQ (4) branches when the registers named by bits
/// 21-25 and 16-20 are equal, BNE (5) when they differ. A taken branch jumps,
/// after one delay slot, to the PC (already past the branch) plus four times
/// the sign-extended immediate; a branch not taken changes nothing.
pub proof fn lemma_branch_instructions(
    w: u32,
    c0: ControllerContext,
    s0: State,
    c1: ControllerContext,
    s1: State,
    r: ControllerResult,
)
    requires
        runs_word(w, c0, s0, c1, s1, r),
        w >> 26u32 == 4 || w >> 26u32 == 5,
    ensures
        ({
            let equal = gpr(c0, (w >> 21u32) & 0x1F) == gpr(c0, (w >> 16u32) & 0x1F);
            let taken = if w >> 26u32 == 4 { equal } else { !equal };
            let imm = w & 0xFFFF;
            let simm: int = if imm >= 0x8000 { imm - 0x1_0000 } else { imm as int };
            let target = ((c0.r3000_state.pc.value + 4 * simm) % 0x1_0000_0000) as u32;
            &&& r == Ok::<Result<(), crate::r3000::types::Hazard>, crate::r3000::types::ControllerError>(Ok(()))
            &&& taken ==> c1.r3000_state.branch_delay.current == Some(PendingBranch { target, remaining: 1 })
                && c1.r3000_state.gpr == c0.r3000_state.gpr && c1.r3000_state.pc == c0.r3000_state.pc
            &&& !taken ==> c1 == c0
        }),
{
    reveal(spec_execute);
    lemma_immediate_bits(w);
}


/// More register-to-register instructions (opcode SPECIAL): SLLV (4), SRLV
/// (6) and SRAV (7) shift `b` (bits 16-20) by the register `a` (bits 21-25),
/// giving 0 (or the sign for SRAV) from a shift of 32 or more; MTHI (17) and
/// MTLO (19) load HI and LO from `a`; MULTU (25) puts the 64-bit unsigned
/// product in HI:LO, MULT (24) the signed one; DIVU (27) and DIV (26) put the
/// quotient in LO and the remainder in HI (rounding toward zero for DIV), and
/// leave them as they were on a division by zero.
pub proof fn lemma_special_more_instructions(
    w: u32,
    c0: ControllerContext,
    s0: State,
    c1: ControllerContext,
    s1: State,
    r: ControllerResult,
)
    requires
        runs_word(w, c0, s0, c1, s1, r),
        w >> 26u32 == 0,
    ensures
        ({
            let a = gpr(c0, (w >> 21u32) & 0x1F);
            let b = gpr(c0, (w >> 16u32) & 0x1F);
            let d = (w >> 11u32) & 0x1F;
            let f = w & 0x3F;
            let sa = (a as i32) as int;
            let sb = (b as i32) as int;
            &&& f == 4 ==> writes_register(c0, c1, r, d, if a >= 32 { 0u32 } else { b << a })
            &&& f == 6 ==> writes_register(c0, c1, r, d, if a >= 32 { 0u32 } else { b >> a })
            &&& f == 7 ==> writes_register(c0, c1, r, d, if a >= 32 {
                if sb < 0 { 0xFFFF_FFFFu32 } else { 0u32 }
            } else {
                ((b as i32) >> a) as u32
            })
            &&& f == 17 ==> c1.r3000_state.hi.value == a && c1.r3000_state.lo == c0.r3000_state.lo
                && c1.r3000_state.gpr == c0.r3000_state.gpr
            &&& f == 19 ==> c1.r3000_state.lo.value == a && c1.r3000_state.hi == c0.r3000_state.hi
                && c1.r3000_state.gpr == c0.r3000_state.gpr
            &&& f == 25 ==> c1.r3000_state.hi.value == ((((a as int) * (b as int)) as u64) >> 32u64) as u32
                && c1.r3000_state.lo.value == (((a as int) * (b as int)) as u64) as u32
            &&& f == 24 ==> c1.r3000_state.hi.value == (((sa * sb) as u64) >> 32u64) as u32
                && c1.r3000_state.lo.value == ((sa * sb) as u64) as u32
            &&& (f == 27 && b != 0) ==> c1.r3000_state.lo.value == a / b && c1.r3000_state.hi.value == a % b
            &&& (f == 27 && b == 0) ==> c1.r3000_state.lo == c0.r3000_state.lo && c1.r3000_state.hi == c0.r3000_state.hi
            &&& (f == 26 && sb != 0 && !(sa == i32::MIN && sb == -1)) ==> {
                &&& c1.r3000_state.lo.value == (crate::mips1::trunc_div(sa, sb) as i32) as u32
                &&& c1.r3000_state.hi.value == (crate::mips1::trunc_rem(sa, sb) as i32) as u32
            }
            &&& (f == 26 && sb == 0) ==> c1.r3000_state.lo == c0.r3000_state.lo && c1.r3000_state.hi == c0.r3000_state.hi
        }),
{
    reveal(spec_execute);
}

/// Jumps: JR (SPECIAL 8) jumps to the register named by bits 21-25 and JALR
/// (SPECIAL 9) also stores the return address (the PC, already past the jump,
/// plus 4) in the register named by bits 11-15; J (2) and JAL (3) jump inside
/// the current 256 MiB region to bits 0-25 times 4, JAL storing the return
/// address in register 31. All jumps take effect after one delay slot.
pub proof fn lemma_jump_instructions(
    w: u32,
    c0: ControllerContext,
    s0: State,
    c1: ControllerContext,
    s1: State,
    r: ControllerResult,
)
    requires
        runs_word(w, c0, s0, c1, s1, r),
    ensures
        ({
            let op = w >> 26u32;
            let f = w & 0x3F;
            let a = gpr(c0, (w >> 21u32) & 0x1F);
            let pc = c0.r3000_state.pc.value;
            let link = ((pc + 4) % 0x1_0000_0000) as u32;
            let region_target = (pc & 0xF000_0000) | ((w & 0x03FF_FFFF) << 2u32);
            &&& (op == 0 && f == 8) ==> c1.r3000_state.branch_delay.current == Some(PendingBranch { target: a, remaining: 1 })
                && c1.r3000_state.gpr == c0.r3000_state.gpr
            &&& (op == 0 && f == 9) ==> c1.r3000_state.branch_delay.current == Some(PendingBranch { target: a, remaining: 1 })
                && c1.r3000_state.gpr@ == c0.r3000_state.gpr@.update(((w >> 11u32) & 0x1F) as int, link).update(0, 0u32)
            &&& op == 2 ==> c1.r3000_state.branch_delay.current == Some(PendingBranch { target: region_target, remaining: 1 })
                && c1.r3000_state.gpr == c0.r3000_state.gpr
            &&& op == 3 ==> c1.r3000_state.branch_delay.current == Some(PendingBranch { target: region_target, remaining: 1 })
                && c1.r3000_state.gpr@ == c0.r3000_state.gpr@.update(31, link)
        }),
{
    reveal(spec_execute);
    lemma_immediate_bits(w);
}


/// Branches on one register (bits 21-25) compared with zero, signed: BLTZ
/// (REGIMM, bits 16-20 = 0) when negative, BGEZ (REGIMM, 1) when not
/// negative, BLEZ (6) when not positive, BGTZ (7) when positive. A taken
/// branch jumps, after one delay slot, to the PC (already past the branch)
/// plus four times the sign-extended immediate; otherwise nothing changes.
pub proof fn lemma_zero_branch_instructions(
    w: u32,
    c0: ControllerContext,
    s0: State,
    c1: ControllerContext,
    s1: State,
    r: ControllerResult,
)
    requires
        runs_word(w, c0, s0, c1, s1, r),
        (w >> 26u32 == 1 && ((w >> 16u32) & 0x1F == 0 || (w >> 16u32) & 0x1F == 1)) || w >> 26u32 == 6 || w
            >> 26u32 == 7,
    ensures
        ({
            let op = w >> 26u32;
            let v = (gpr(c0, (w >> 21u32) & 0x1F) as i32) as int;
            let taken = if op == 1 {
                if (w >> 16u32) & 0x1F == 0 { v < 0 } else { v >= 0 }
            } else if op == 6 {
                v <= 0
            } else {
                v > 0
            };
            let imm = w & 0xFFFF;
            let simm: int = if imm >= 0x8000 { imm - 0x1_0000 } else { imm as int };
            let target = ((c0.r3000_state.pc.value + 4 * simm) % 0x1_0000_0000) as u32;
            &&& r == Ok::<Result<(), crate::r3000::types::Hazard>, ControllerError>(Ok(()))
            &&& taken ==> c1.r3000_state.branch_delay.current == Some(PendingBranch { target, remaining: 1 })
                && c1.r3000_state.gpr == c0.r3000_state.gpr && c1.r3000_state.pc == c0.r3000_state.pc
            &&& !taken ==> c1 == c0
        }),
{
    reveal(spec_execute);
    lemma_immediate_bits(w);
}

/// Loads, with the cache not isolated and the bus free: the effective address
/// is the register named by bits 21-25 plus the sign-extended immediate, and
/// the register named by bits 16-20 gets what the bus reads at its physical
/// address: LB (32) a byte sign-extended, LBU (36) a byte zero-extended, LH
/// (33) a halfword sign-extended, LHU (37) a halfword zero-extended, LW (35) a
/// word.
pub proof fn lemma_load_instructions(
    w: u32,
    c0: ControllerContext,
    s0: State,
    c1: ControllerContext,
    s1: State,
    r: ControllerResult,
)
    requires
        runs_word(w, c0, s0, c1, s1, r),
        !spec_isc(c0),
        !s0@.bus_locked,
    ensures
        ({
            let op = w >> 26u32;
            let imm = w & 0xFFFF;
            let simm: int = if imm >= 0x8000 { imm - 0x1_0000 } else { imm as int };
            let va = ((gpr(c0, (w >> 21u32) & 0x1F) + simm) % 0x1_0000_0000) as u32;
            let pa = spec_translate_address(va);
            let t = (w >> 16u32) & 0x1F;
            &&& (op == 32 && !is_kseg2(va)) ==> (spec_bus_read_u8(s0@, pa).1 matches Ok(v) ==> writes_register(c0, c1, r, t, v as i8 as i32 as u32))
            &&& (op == 36 && !is_kseg2(va)) ==> (spec_bus_read_u8(s0@, pa).1 matches Ok(v) ==> writes_register(c0, c1, r, t, v as u32))
            &&& (op == 33 && !is_kseg2(va)) ==> (spec_bus_read_u16(s0@, pa).1 matches Ok(v) ==> writes_register(c0, c1, r, t, v as i16 as i32 as u32))
            &&& (op == 37 && !is_kseg2(va)) ==> (spec_bus_read_u16(s0@, pa).1 matches Ok(v) ==> writes_register(c0, c1, r, t, v as u32))
            &&& (op == 35 && !is_kseg2(va)) ==> (spec_bus_read_u32(s0@, pa).1 matches Ok(v) ==> writes_register(c0, c1, r, t, v))
        }),
{
    reveal(spec_execute);
    lemma_immediate_bits(w);
}

/// Stores, with the cache not isolated and the bus free: at the physical
/// address of the register named by bits 21-25 plus the sign-extended
/// immediate, SB (40) writes the low byte, SH (41) the low halfword and SW
/// (43) the whole of the register named by bits 16-20, and the CPU registers
/// stay as they were.
pub proof fn lemma_store_instructions(
    w: u32,
    c0: ControllerContext,
    s0: State,
    c1: ControllerContext,
    s1: State,
    r: ControllerResult,
)
    requires
        runs_word(w, c0, s0, c1, s1, r),
        !spec_isc(c0),
        !s0@.bus_locked,
    ensures
        ({
            let op = w >> 26u32;
            let imm = w & 0xFFFF;
            let simm: int = if imm >= 0x8000 { imm - 0x1_0000 } else { imm as int };
            let va = ((gpr(c0, (w >> 21u32) & 0x1F) + simm) % 0x1_0000_0000) as u32;
            let pa = spec_translate_address(va);
            let v = gpr(c0, (w >> 16u32) & 0x1F);
            &&& (op == 40 && !is_kseg2(va)) ==> s1@ == spec_bus_write_u8(s0@, pa, v as u8).0 && c1 == c0
            &&& (op == 41 && !is_kseg2(va)) ==> s1@ == spec_bus_write_u16(s0@, pa, v as u16).0 && c1 == c0
            &&& (op == 43 && !is_kseg2(va)) ==> s1@ == spec_bus_write_u32(s0@, pa, v).0 && c1 == c0
        }),
{
    reveal(spec_execute);
    lemma_immediate_bits(w);
}


/// Coprocessor 2 (GTE) instructions, opcode COP2 (18). With `t` the register
/// named by bits 16-20 and `d` the coprocessor register named by bits 11-15:
/// MFC2 (bits 21-25 = 0, function 0) copies data register `d` into `t`, CFC2
/// (2) control register `d`, MTC2 (4) writes `t` into data register `d`
/// (other data registers below 15 stay) and CTC2 (6) into control register
/// `d`. NCLIP (function 6) puts in MAC0 (data register 24) twice the signed
/// area of the screen triangle SXY0, SXY1, SXY2 (data registers 12-14, X in
/// the low and Y in the high half), `(x1 - x0)(y2 - y0) - (x2 - x0)(y1 - y0)`,
/// modulo 2^32. AVSZ3 (45) puts in OTZ (data register 7) ZSF3 (control
/// register 29) times SZ1 + SZ2 + SZ3 (data registers 17-19) divided by 4096
/// and clamped to [0, 0xFFFF]; AVSZ4 (46) does so with ZSF4 (control register
/// 30) and SZ0 to SZ3 (data registers 16-19).
pub proof fn lemma_cop2_instructions(
    w: u32,
    c0: ControllerContext,
    s0: State,
    c1: ControllerContext,
    s1: State,
    r: ControllerResult,
)
    requires
        runs_word(w, c0, s0, c1, s1, r),
        w >> 26u32 == 18,
    ensures
        ({
            let f = w & 0x3F;
            let rs = (w >> 21u32) & 0x1F;
            let t = (w >> 16u32) & 0x1F;
            let d = (w >> 11u32) & 0x1F;
            let gd = c0.cp2_state.gd@;
            let gc = c0.cp2_state.gc@;
            let x0 = (spec_half(gd[12], 0) as i16) as int;
            let y0 = (spec_half(gd[12], 1) as i16) as int;
            let x1 = (spec_half(gd[13], 0) as i16) as int;
            let y1 = (spec_half(gd[13], 1) as i16) as int;
            let x2 = (spec_half(gd[14], 0) as i16) as int;
            let y2 = (spec_half(gd[14], 1) as i16) as int;
            let z3 = (spec_half(gd[17], 0) as int) + (spec_half(gd[18], 0) as int) + (spec_half(gd[19], 0) as int);
            let otz3 = ((spec_half(gc[29], 0) as i16) as int) * z3 / 4096;
            let z4 = (spec_half(gd[16], 0) as int) + z3;
            let otz4 = ((spec_half(gc[30], 0) as i16) as int) * z4 / 4096;
            &&& (f == 0 && rs == 0) ==> c1.r3000_state.gpr@ == c0.r3000_state.gpr@.update(t as int, gd[d as int])
                && c1.cp2_state == c0.cp2_state
            &&& (f == 0 && rs == 2) ==> c1.r3000_state.gpr@ == c0.r3000_state.gpr@.update(t as int, gc[d as int])
                && c1.cp2_state == c0.cp2_state
            &&& (f == 0 && rs == 4) ==> c1.r3000_state == c0.r3000_state && c1.cp2_state.gc == c0.cp2_state.gc && c1.cp2_state.gd@[d as int]
                == gpr(c0, t)
                && forall|k: int| 0 <= k < 12 && k != d ==> #[trigger] c1.cp2_state.gd@[k] == gd[k]
            &&& (f == 0 && rs == 6) ==> c1.r3000_state == c0.r3000_state && c1.cp2_state.gd == c0.cp2_state.gd
                && c1.cp2_state.gc@ == gc.update(d as int, gpr(c0, t))
            &&& f == 6 ==> c1.cp2_state.gd@[24] == ((((x1 - x0) * (y2 - y0) - (x2 - x0) * (y1 - y0)) as i32) as u32)
                && c1.r3000_state == c0.r3000_state
            &&& f == 45 ==> c1.cp2_state.gd@[7] == (if otz3 < 0 { 0 } else if otz3 > 0xFFFF { 0xFFFF } else { otz3 }) as u32
            &&& f == 46 ==> c1.cp2_state.gd@[7] == (if otz4 < 0 { 0 } else if otz4 > 0xFFFF { 0xFFFF } else { otz4 }) as u32
        }),
{
    reveal(spec_execute);
    let gd = c0.cp2_state.gd@;
    assert(gd.len() == 32);
    let f = w & 0x3F;
    let x0 = (spec_half(gd[12], 0) as i16) as int;
    let y0 = (spec_half(gd[12], 1) as i16) as int;
    let x1 = (spec_half(gd[13], 0) as i16) as int;
    let y1 = (spec_half(gd[13], 1) as i16) as int;
    let x2 = (spec_half(gd[14], 0) as i16) as int;
    let y2 = (spec_half(gd[14], 1) as i16) as int;
    assert((x1 - x0) * (y2 - y0) - (x2 - x0) * (y1 - y0) == x0 * y1 + x1 * y2 + x2 * y0 - x0 * y2 - x1 * y0 - x2 * y1)
        by (nonlinear_arith);
    Instruction { value: w }.lemma_register_fields();
    if f == 0 && (w >> 21u32) & 0x1F == 4 {
        let d = (w >> 11u32) & 0x1F;
        let v = gpr(c0, (w >> 16u32) & 0x1F);
        assert(c1.cp2_state.gd@ == crate::r3000::cp2::spec_gd_write(gd, d as int, v));
        assert(c1.cp2_state.gd@[d as int] == v);
        assert forall|k: int| 0 <= k < 12 && k != d implies #[trigger] c1.cp2_state.gd@[k] == gd[k] by {}
    } else if f == 6 {
        assert(c1.cp2_state.gd@[24] == ((((x1 - x0) * (y2 - y0) - (x2 - x0) * (y1 - y0)) as i32) as u32));
    }
}


/// A signed halfword of a coprocessor register (`half` 0 is bits 0-15).
pub open spec fn half_of(value: u32, half: u32) -> int {
    (spec_half(value, half) as i16) as int
}

/// MVMVA (COP2 function 18), in the shift-fraction mode (bit 19) with a real
/// matrix and no far-color translation: the matrix stored from control
/// register 8 times bits 17-18 (rotation, light or color) times the vector
/// of bits 15-16 (V0, V1, V2 or IR1-IR3), plus the translation of bits 13-14
/// (TR from control registers 5-7, BK from 13-15, or none) times 4096, all
/// divided by 4096, gives MAC1-MAC3 (data registers 25-27); IR1-IR3 (data
/// registers 9-11) are those clamped to [-0x8000, 0x7FFF], or [0, 0x7FFF] with
/// bit 10 set.
///
/// The matrix is stored two signed halfwords per register, row by row.
pub proof fn lemma_mvmva(w: u32, c0: ControllerContext, s0: State, c1: ControllerContext, s1: State, r: ControllerResult)
    requires
        runs_word(w, c0, s0, c1, s1, r),
        w >> 26u32 == 18,
        w & 0x3F == 18,
        (w >> 19u32) & 1 == 1,
        (w >> 17u32) & 3 != 3,
        (w >> 13u32) & 3 != 2,
    ensures
        ({
            let gd = c0.cp2_state.gd@;
            let gc = c0.cp2_state.gc@;
            let b = 8 * ((w >> 17u32) & 3) as int;
            let mv = (w >> 15u32) & 3;
            let tv = (w >> 13u32) & 3;
            let vx = if mv == 0 { half_of(gd[0], 0) } else if mv == 1 { half_of(gd[2], 0) } else if mv == 2 { half_of(gd[4], 0) } else { half_of(gd[9], 0) };
            let vy = if mv == 0 { half_of(gd[0], 1) } else if mv == 1 { half_of(gd[2], 1) } else if mv == 2 { half_of(gd[4], 1) } else { half_of(gd[10], 0) };
            let vz = if mv == 0 { half_of(gd[1], 0) } else if mv == 1 { half_of(gd[3], 0) } else if mv == 2 { half_of(gd[5], 0) } else { half_of(gd[11], 0) };
            let tx = if tv == 0 { (gc[5] as i32) as int } else if tv == 1 { (gc[13] as i32) as int } else { 0 };
            let ty = if tv == 0 { (gc[6] as i32) as int } else if tv == 1 { (gc[14] as i32) as int } else { 0 };
            let tz = if tv == 0 { (gc[7] as i32) as int } else if tv == 1 { (gc[15] as i32) as int } else { 0 };
            let mac1 = (tx * 4096 + half_of(gc[b], 0) * vx + half_of(gc[b], 1) * vy + half_of(gc[b + 1], 0) * vz) / 4096;
            let mac2 = (ty * 4096 + half_of(gc[b + 1], 1) * vx + half_of(gc[b + 2], 0) * vy + half_of(gc[b + 2], 1) * vz) / 4096;
            let mac3 = (tz * 4096 + half_of(gc[b + 3], 0) * vx + half_of(gc[b + 3], 1) * vy + half_of(gc[b + 4], 0) * vz) / 4096;
            let low: int = if (w >> 10u32) & 1 != 0 { 0 } else { -0x8000 };
            &&& r == Ok::<Result<(), crate::r3000::types::Hazard>, ControllerError>(Ok(()))
            &&& c1.cp2_state.gd@[25] == (mac1 as i32) as u32
            &&& c1.cp2_state.gd@[26] == (mac2 as i32) as u32
            &&& c1.cp2_state.gd@[27] == (mac3 as i32) as u32
            &&& c1.cp2_state.gd@[9] == (clamp(mac1, low, 0x7FFF) as i32) as u32
            &&& c1.cp2_state.gd@[10] == (clamp(mac2, low, 0x7FFF) as i32) as u32
            &&& c1.cp2_state.gd@[11] == (clamp(mac3, low, 0x7FFF) as i32) as u32
        }),
{
    reveal(spec_execute);
    let inst = Instruction { value: w };
    assert(spec_lookup(inst) == Some((crate::r3000::instruction::InstructionKind::Mvmva, 2usize)));
    let g = crate::r3000::gte::gte_of(inst);
    lemma_encoding_bits(w, 0, 0);
    assert(crate::r3000::gte::mvmva_supported(g));
    assert(c1.cp2_state.gd@ == crate::r3000::gte::spec_mvmva(c0.cp2_state.gd@, c0.cp2_state.gc@, g));
    assert(c0.cp2_state.gd@.len() == 32);
}


/// Coprocessor 0 instructions (opcode COP0, 16). MFC0 (bit 25 clear, bits
/// 21-24 = 0) copies coprocessor register `d` (bits 11-15) into register `t`
/// (bits 16-20): 3 BPC, 5 BDA, 6 JUMPDEST, 7 DCIC, 9 BDAM, 11 BPCM, 12 SR,
/// 13 CAUSE, 14 EPC, 15 PRID; any other number stops emulation. MTC0 (bits
/// 21-24 = 4) writes `t` into SR, CAUSE or EPC (12, 13, 14). RFE (bit 25 set,
/// function 16) pops the status register's (KU, IE) stack: bits 0-3 get bits
/// 2-5, bits 4-5 stay.
pub proof fn lemma_cop0_instructions(
    w: u32,
    c0: ControllerContext,
    s0: State,
    c1: ControllerContext,
    s1: State,
    r: ControllerResult,
)
    requires
        runs_word(w, c0, s0, c1, s1, r),
        w >> 26u32 == 16,
    ensures
        ({
            let c = (w >> 25u32) & 1 != 0;
            let sel = (w >> 21u32) & 0xF;
            let t = (w >> 16u32) & 0x1F;
            let d = (w >> 11u32) & 0x1F;
            let v = gpr(c0, t);
            let cp0 = c0.cp0_state;
            let mfc0 = !c && sel == 0;
            let mtc0 = !c && sel == 4;
            &&& (mfc0 && d == 3) ==> writes_register(c0, c1, r, t, cp0.bpc.value)
            &&& (mfc0 && d == 5) ==> writes_register(c0, c1, r, t, cp0.bda.value)
            &&& (mfc0 && d == 6) ==> writes_register(c0, c1, r, t, cp0.jump_dest.value)
            &&& (mfc0 && d == 7) ==> writes_register(c0, c1, r, t, cp0.dcic.value)
            &&& (mfc0 && d == 9) ==> writes_register(c0, c1, r, t, cp0.bdam.value)
            &&& (mfc0 && d == 11) ==> writes_register(c0, c1, r, t, cp0.bpcm.value)
            &&& (mfc0 && d == 12) ==> writes_register(c0, c1, r, t, cp0.status.value)
            &&& (mfc0 && d == 13) ==> writes_register(c0, c1, r, t, cp0.cause.value)
            &&& (mfc0 && d == 14) ==> writes_register(c0, c1, r, t, cp0.epc.value)
            &&& (mfc0 && d == 15) ==> writes_register(c0, c1, r, t, cp0.prid.value)
            &&& (mfc0 && (d < 3 || d == 4 || d == 8 || d == 10 || d > 15)) ==> r == Err::<Result<(), crate::r3000::types::Hazard>, ControllerError>(
                ControllerError::UnknownCp0Register(d),
            ) && c1 == c0
            &&& (mtc0 && d == 12) ==> c1.cp0_state.status.value == v && c1.cp0_state.cause == cp0.cause
                && c1.cp0_state.epc == cp0.epc && c1.r3000_state == c0.r3000_state
            &&& (mtc0 && d == 13) ==> c1.cp0_state.cause.value == v && c1.cp0_state.status == cp0.status
                && c1.cp0_state.epc == cp0.epc && c1.r3000_state == c0.r3000_state
            &&& (mtc0 && d == 14) ==> c1.cp0_state.epc.value == v && c1.cp0_state.status == cp0.status
                && c1.cp0_state.cause == cp0.cause && c1.r3000_state == c0.r3000_state
            &&& (c && sel == 0 && w & 0x3F == 16) ==> c1.cp0_state.status.value == (cp0.status.value & !0x0Fu32) | ((
            cp0.status.value >> 2u32) & 0x0F) && c1.r3000_state.gpr == c0.r3000_state.gpr
        }),
{
    reveal(spec_execute);
    Instruction { value: w }.lemma_register_fields();
}

/// SYSCALL (SPECIAL function 12), outside a branch delay slot, takes the
/// system call exception: the (KU, IE) stack of the status register is pushed
/// (bits 2-5 get bits 0-3, bits 0-1 cleared), the cause's exception code (bits
/// 2-6) becomes 8, EPC gets the address of the SYSCALL (the PC, already past
/// it, less 4), and the PC jumps to 0xBF80_0180 with BEV (status bit 22) set,
/// else to 0x8000_0080.
pub proof fn lemma_syscall(w: u32, c0: ControllerContext, s0: State, c1: ControllerContext, s1: State, r: ControllerResult)
    requires
        runs_word(w, c0, s0, c1, s1, r),
        w >> 26u32 == 0,
        w & 0x3F == 12,
        c0.r3000_state.branch_delay.current is None,
    ensures
        ({
            let st = c0.cp0_state.status.value;
            let pushed = (st & !0x3Fu32) | ((st << 2u32) & 0x3C);
            &&& r == Ok::<Result<(), crate::r3000::types::Hazard>, ControllerError>(Ok(()))
            &&& c1.cp0_state.status.value == pushed
            &&& (c1.cp0_state.cause.value >> 2u32) & 0x1F == 8
            &&& c1.cp0_state.epc.value == ((c0.r3000_state.pc.value - 4) % 0x1_0000_0000) as u32
            &&& c1.r3000_state.pc.value == (if (pushed >> 22u32) & 1 != 0 { 0xBF80_0180u32 } else { 0x8000_0080u32 })
            &&& c1.r3000_state.gpr == c0.r3000_state.gpr
        }),
{
    reveal(spec_execute);
    let st = c0.cp0_state.status.value;
    let pushed = (st & !0x3Fu32) | ((st << 2u32) & 0x3C);
    lemma_encoding_bits(c0.cp0_state.cause.value, 0, 0);
    lemma_encoding_bits(pushed, 0, 0);
}


/// A screen coordinate of the perspective projection: the screen offset plus
/// the IR value times the projection factor, shifted right by 16 (rounding
/// down) and clamped to [-0x400, 0x3FF].
pub open spec fn screen_coordinate(offset: int, ir: int, factor: int) -> int {
    let v = (offset + ir * factor) / 65536;
    if v < -0x400 {
        -0x400
    } else if v > 0x3FF {
        0x3FF
    } else {
        v
    }
}


/// RTPS projects V0 with one projection factor for both axes: the new screen
/// X (low half of SXY2, data register 14) comes from the X offset OFX (control
/// register 24) and the new IR1 (data register 9), the new screen Y (high
/// half) from the Y offset OFY (control register 25) and the new IR2 (data
/// register 10). The screen XY FIFO moves up by one entry (SXY0 gets SXY1,
/// SXY1 gets SXY2) and SXYP mirrors the new SXY2.
pub proof fn lemma_rtps_screen_offsets(
    c0: ControllerContext,
    s0: State,
    instruction: Instruction,
    c1: ControllerContext,
    s1: State,
    r: ControllerResult,
)
    requires
        rtps_effect(c0, s0, instruction, c1, s1, r),
        rtp_mode_supported(instruction),
    ensures
        exists|f: int|
            #![trigger screen_coordinate(c0.cp2_state.gc@[24] as i32 as int, c1.cp2_state.gd@[9] as i32 as int, f)]
            0 <= f <= 0x1_FFFF && (spec_half(c1.cp2_state.gd@[14], 0) as i16) as int == screen_coordinate(
                c0.cp2_state.gc@[24] as i32 as int,
                c1.cp2_state.gd@[9] as i32 as int,
                f,
            ) && (spec_half(c1.cp2_state.gd@[14], 1) as i16) as int == screen_coordinate(
                c0.cp2_state.gc@[25] as i32 as int,
                c1.cp2_state.gd@[10] as i32 as int,
                f,
            ),
        c1.cp2_state.gd@[12] == c0.cp2_state.gd@[13],
        c1.cp2_state.gd@[13] == c0.cp2_state.gd@[14],
        c1.cp2_state.gd@[15] == c1.cp2_state.gd@[14],
{
    let gd = c0.cp2_state.gd@;
    let gc = c0.cp2_state.gc@;
    assert(gd.len() == 32);
    let vx = s16(gd[0], 0);
    let vy = s16(gd[0], 1);
    let vz = s16(gd[1], 0);
    let mac1 = (s32(gc[5]) * 4096 + mat_row(gc, 0, 0, vx, vy, vz)) / 4096;
    let mac2 = (s32(gc[6]) * 4096 + mat_row(gc, 0, 1, vx, vy, vz)) / 4096;
    let mac3 = (s32(gc[7]) * 4096 + mat_row(gc, 0, 2, vx, vy, vz)) / 4096;
    let ir1 = clamp(mac1, -0x8000, 0x7FFF);
    let ir2 = clamp(mac2, -0x8000, 0x7FFF);
    let sz3 = if clamp(mac3, 0, 0xFFFF) == 0 { -1 } else { clamp(mac3, 0, 0xFFFF) };
    let h = s16(gc[26], 0);
    let hos = clamp(trunc_div(trunc_div(h * 0x2_0000, sz3) + 1, 2), 0, 0x1_FFFF);
    let sx2 = clamp((s32(gc[24]) + ir1 * hos) / 65536, -0x400, 0x3FF);
    let sy2 = clamp((s32(gc[25]) + ir2 * hos) / 65536, -0x400, 0x3FF);
    let pushed = gd.update(16, gd[17]).update(17, gd[18]).update(18, gd[19]).update(12, gd[13]).update(13, gd[14]);
    let xy = spec_with_half(spec_with_half(pushed[14], 0, sx2 as i16 as u16), 1, sy2 as i16 as u16);
    assert(c1.cp2_state.gd@ == spec_rtp(gd, gc, 0, 1));
    assert(c1.cp2_state.gd@[14] == xy);
    assert(c1.cp2_state.gd@[9] == ir1 as i32 as u32);
    assert(c1.cp2_state.gd@[10] == ir2 as i32 as u32);
    lemma_half_write_read(spec_with_half(pushed[14], 0, sx2 as i16 as u16), 1, sy2 as i16 as u16);
    lemma_half_write_read(pushed[14], 0, sx2 as i16 as u16);
    lemma_encoding_bits(0, ir1 as i32, sx2 as i16);
    lemma_encoding_bits(0, ir2 as i32, sy2 as i16);
    assert(screen_coordinate(s32(gc[24]), ir1, hos) == sx2);
    assert(screen_coordinate(s32(gc[25]), ir2, hos) == sy2);
}

/// The word RTPS (COP2 function 1, shift-fraction bit 19 set, bit 10 clear)
/// runs as RTPS: see `lemma_rtps_screen_offsets`.
pub proof fn lemma_rtps_word(w: u32, c0: ControllerContext, s0: State, c1: ControllerContext, s1: State, r: ControllerResult)
    requires
        runs_word(w, c0, s0, c1, s1, r),
        w >> 26u32 == 18,
        w & 0x3F == 1,
        (w >> 19u32) & 1 == 1,
        (w >> 10u32) & 1 == 0,
    ensures
        rtps_effect(c0, s0, Instruction { value: w }, c1, s1, r),
        rtp_mode_supported(Instruction { value: w }),
{
    reveal(spec_execute);
}

/// The unaligned loads at the ends of a word, with the cache not isolated and
/// the bus free: LWR (38) at a word-aligned address loads the whole word, and
/// LWL (34) at the last byte of a word loads the whole word, into the
/// register named by bits 16-20.
pub proof fn lemma_unaligned_load_ends(
    w: u32,
    c0: ControllerContext,
    s0: State,
    c1: ControllerContext,
    s1: State,
    r: ControllerResult,
)
    requires
        runs_word(w, c0, s0, c1, s1, r),
        !spec_isc(c0),
        !s0@.bus_locked,
    ensures
        ({
            let op = w >> 26u32;
            let imm = w & 0xFFFF;
            let simm: int = if imm >= 0x8000 { imm - 0x1_0000 } else { imm as int };
            let va = ((gpr(c0, (w >> 21u32) & 0x1F) + simm) % 0x1_0000_0000) as u32;
            let pa = spec_translate_address(va);
            let t = (w >> 16u32) & 0x1F;
            &&& (op == 38 && !is_kseg2(va) && pa & 3 == 0) ==> (spec_bus_read_u32(s0@, pa & !3u32).1 matches Ok(v) ==> writes_register(c0, c1, r, t, v))
            &&& (op == 34 && !is_kseg2(va) && pa & 3 == 3) ==> (spec_bus_read_u32(s0@, pa & !3u32).1 matches Ok(v) ==> writes_register(c0, c1, r, t, v))
        }),
{
    reveal(spec_execute);
    lemma_immediate_bits(w);
}

} // verus!
