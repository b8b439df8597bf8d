use vstd::prelude::*;
use crate::bitfield::Bitfield;
use crate::register::Register;
use crate::r3000::cp0::ControllerState as Cp0ControllerState;
use crate::r3000::cp2::ControllerState as Cp2ControllerState;
use crate::r3000::types::ControllerState;

verus! {

/// Register $zero reads as 0 whatever was written to it.
pub fn handle_zero(state: &mut ControllerState)
    ensures
        final(state).gpr@ == old(state).gpr@.update(0, 0u32),
        final(state).pc == old(state).pc,
        final(state).branch_delay == old(state).branch_delay,
        final(state).hi == old(state).hi,
        final(state).lo == old(state).lo,
{
    state.gpr[0] = 0;
}

/// Z FIFO push: SZ0 <- SZ1, SZ1 <- SZ2, SZ2 <- SZ3 (SZ3 itself is then overwritten by the caller).
pub fn handle_cp2_push_sz(state: &mut Cp2ControllerState)
    ensures
        final(state).gd@ == old(state).gd@.update(16, old(state).gd@[17]).update(
            17,
            old(state).gd@[18],
        ).update(18, old(state).gd@[19]),
        final(state).gc == old(state).gc,
{
    let sz1_value = state.gd[17];
    let sz2_value = state.gd[18];
    let sz3_value = state.gd[19];
    state.gd[16] = sz1_value;
    state.gd[17] = sz2_value;
    state.gd[18] = sz3_value;
}

/// Screen XY FIFO push: SXY0 <- SXY1, SXY1 <- SXY2.
pub fn handle_cp2_push_sxy(state: &mut Cp2ControllerState)
    ensures
        final(state).gd@ == old(state).gd@.update(12, old(state).gd@[13]).update(
            13,
            old(state).gd@[14],
        ),
        final(state).gc == old(state).gc,
{
    let sxy1_value = state.gd[13];
    let sxy2_value = state.gd[14];
    state.gd[12] = sxy1_value;
    state.gd[13] = sxy2_value;
}

/// SXYP (register 15) mirrors SXY2 (register 14) on reads.
pub fn handle_cp2_sxyp_mirror(state: &mut Cp2ControllerState)
    ensures
        final(state).gd@ == old(state).gd@.update(15, old(state).gd@[14]),
        final(state).gc == old(state).gc,
{
    let value = state.gd[14];
    state.gd[15] = value;
}

/// A write to SXYP pushes the screen XY FIFO and the written value becomes SXY2.
pub fn handle_cp2_sxyp_write(state: &mut Cp2ControllerState, register_index: usize)
    ensures
        register_index == 15 ==> final(state).gd@ == old(state).gd@.update(12, old(state).gd@[13]).update(
            13,
            old(state).gd@[14],
        ).update(14, old(state).gd@[15]),
        register_index != 15 ==> final(state).gd == old(state).gd,
        final(state).gc == old(state).gc,
{
    if register_index == 15 {
        handle_cp2_push_sxy(state);
        let value = state.gd[15];
        state.gd[14] = value;
    }
}

pub fn handle_cp2_flag_reset(state: &mut Cp2ControllerState)
    ensures
        final(state).gc@ == old(state).gc@.update(31, 0u32),
        final(state).gd == old(state).gd,
{
    state.gc[31] = 0;
}

/// FLAG bit 31 summarizes the error bits 13..18 and 23..30.
pub fn handle_cp2_flag_error_bit(state: &mut Cp2ControllerState)
    ensures
        ({
            let flag = old(state).gc@[31];
            let set = Bitfield { start: 13, length: 6 }.spec_extract(flag) > 0 || Bitfield {
                start: 23,
                length: 8,
            }.spec_extract(flag) > 0;
            &&& set ==> final(state).gc@ == old(state).gc@.update(
                31,
                Bitfield { start: 31, length: 1 }.spec_insert(flag, 1),
            )
            &&& !set ==> final(state).gc == old(state).gc
        }),
        final(state).gd == old(state).gd,
{
    let flag = state.gc[31];
    let set1 = Bitfield::new(13, 6).extract_from(flag) > 0;
    let set2 = Bitfield::new(23, 8).extract_from(flag) > 0;
    if set1 || set2 {
        state.gc[31] = Bitfield::new(31, 1).insert_into(flag, 1);
    }
}

/// Color FIFO push: RGB0 <- RGB1, RGB1 <- RGB2.
pub fn handle_cp2_push_rgb(state: &mut Cp2ControllerState)
    ensures
        final(state).gd@ == old(state).gd@.update(20, old(state).gd@[21]).update(
            21,
            old(state).gd@[22],
        ),
        final(state).gc == old(state).gc,
{
    let rgb1_value = state.gd[21];
    let rgb2_value = state.gd[22];
    state.gd[20] = rgb1_value;
    state.gd[21] = rgb2_value;
}

/// Coprocessor 0 register numbers that this CPU implements.
pub open spec fn valid_cp0_register(register_id: usize) -> bool {
    register_id == 3 || register_id == 5 || register_id == 6 || register_id == 7 || register_id
        == 9 || register_id == 11 || register_id == 12 || register_id == 13 || register_id == 14
        || register_id == 15
}

/// The coprocessor 0 register with the given number.
pub open spec fn spec_cp0_register(state: Cp0ControllerState, register_id: usize) -> Register {
    if register_id == 3 {
        state.bpc
    } else if register_id == 5 {
        state.bda
    } else if register_id == 6 {
        state.jump_dest
    } else if register_id == 7 {
        state.dcic
    } else if register_id == 9 {
        state.bdam
    } else if register_id == 11 {
        state.bpcm
    } else if register_id == 12 {
        state.status
    } else if register_id == 13 {
        state.cause
    } else if register_id == 14 {
        state.epc
    } else {
        state.prid
    }
}

/// Coprocessor 0 with the given register replaced.
pub open spec fn spec_cp0_with_register(
    state: Cp0ControllerState,
    register_id: usize,
    r: Register,
) -> Cp0ControllerState {
    if register_id == 3 {
        Cp0ControllerState { bpc: r, ..state }
    } else if register_id == 5 {
        Cp0ControllerState { bda: r, ..state }
    } else if register_id == 6 {
        Cp0ControllerState { jump_dest: r, ..state }
    } else if register_id == 7 {
        Cp0ControllerState { dcic: r, ..state }
    } else if register_id == 9 {
        Cp0ControllerState { bdam: r, ..state }
    } else if register_id == 11 {
        Cp0ControllerState { bpcm: r, ..state }
    } else if register_id == 12 {
        Cp0ControllerState { status: r, ..state }
    } else if register_id == 13 {
        Cp0ControllerState { cause: r, ..state }
    } else if register_id == 14 {
        Cp0ControllerState { epc: r, ..state }
    } else {
        Cp0ControllerState { prid: r, ..state }
    }
}

pub fn is_valid_cp0_register(register_id: usize) -> (b: bool)
    ensures
        b == valid_cp0_register(register_id),
{
    register_id == 3 || register_id == 5 || register_id == 6 || register_id == 7 || register_id
        == 9 || register_id == 11 || register_id == 12 || register_id == 13 || register_id == 14
        || register_id == 15
}

/// The coprocessor 0 register with the given number, for reading or writing.
pub fn get_cp0_register(state: &mut Cp0ControllerState, register_id: usize) -> (r: &mut Register)
    requires
        valid_cp0_register(register_id),
    ensures
        *r == spec_cp0_register(*old(state), register_id),
        *final(state) == spec_cp0_with_register(*old(state), register_id, *final(r)),
{
    match register_id {
        3 => &mut state.bpc,
        5 => &mut state.bda,
        6 => &mut state.jump_dest,
        7 => &mut state.dcic,
        9 => &mut state.bdam,
        11 => &mut state.bpcm,
        12 => &mut state.status,
        13 => &mut state.cause,
        14 => &mut state.epc,
        _ => &mut state.prid,
    }
}

} // verus!
