use vstd::prelude::*;
use crate::bitfield::{field, Bitfield};
use crate::register::{LatchKind, Register};
use crate::system::gpu::backend_dispatch::VideoBackend;
use crate::system::gpu::command_gp0_impl::{
    command_e1_handler, command_e2_handler, command_e3_handler, command_e4_handler, command_e5_handler,
    command_e6_handler, draw_mode_stat, draw_mode_state, texture_window_state,
};
use crate::system::gpu::types::{ControllerState, ControllerView, GpuError, GpuView, State as GpuState};

verus! {

/// Takes a word written to GP1 into the controller. A new word while the
/// previous command is still pending is an error, and stays latched.
pub fn handle_gp1(state: &mut GpuState, cs: &mut ControllerState) -> (r: Result<(), GpuError>)
    requires
        old(state).wf(),
    ensures
        final(state).wf(),
        old(state).gp1.latch is None ==> r is Ok && *final(state) == *old(state) && final(cs)@ == old(cs)@,
        old(state).gp1.latch is Some && old(cs).gp1_command is Some ==> r == Err::<(), GpuError>(
            GpuError::Gp1CommandPending,
        ) && *final(state) == *old(state) && final(cs)@ == old(cs)@,
        old(state).gp1.latch is Some && old(cs).gp1_command is None ==> {
            &&& r is Ok
            &&& final(cs)@ == (ControllerView { gp1_command: Some(old(state).gp1.value), ..old(cs)@ })
            &&& final(state)@ == (GpuView {
                gp1: crate::register::B32EdgeRegister { value: old(state).gp1.value, latch: None },
                ..old(state)@
            })
        },
{
    match state.gp1.latch {
        None => Ok(()),
        Some(_) => {
            if cs.gp1_command.is_some() {
                return Err(GpuError::Gp1CommandPending);
            }
            let value = state.gp1.value;
            cs.gp1_command = Some(value);
            state.gp1.acknowledge(value);
            Ok(())
        },
    }
}

/// GPUSTAT after Display Mode word `w`: horizontal resolution 1 (bits 17-18),
/// vertical resolution (19), video mode (20), color depth (21), interlace
/// (22), horizontal resolution 2 (16) and reverse flag (14).
pub open spec fn display_mode_stat(stat: u32, w: u32) -> u32 {
    let s = field(17, 2).spec_insert(stat, field(0, 2).spec_extract(w));
    let s = field(19, 1).spec_insert(s, field(2, 1).spec_extract(w));
    let s = field(20, 1).spec_insert(s, field(3, 1).spec_extract(w));
    let s = field(21, 1).spec_insert(s, field(4, 1).spec_extract(w));
    let s = field(22, 1).spec_insert(s, field(5, 1).spec_extract(w));
    let s = field(16, 1).spec_insert(s, field(6, 1).spec_extract(w));
    field(14, 1).spec_insert(s, field(7, 1).spec_extract(w))
}

/// GPUSTAT after a reset: interrupt request off, display disabled, DMA off,
/// display mode 0, draw mode 0, mask bits off.
pub open spec fn reset_stat(stat: u32) -> u32 {
    let s = field(24, 1).spec_insert(stat, 0);
    let s = field(23, 1).spec_insert(s, 1);
    let s = field(29, 2).spec_insert(s, 0);
    let s = display_mode_stat(s, 0);
    let s = draw_mode_stat(s, 0);
    field(12, 1).spec_insert(field(11, 1).spec_insert(s, 0), 0)
}

/// Drawing and display state after a reset.
pub open spec fn reset_state(cs: ControllerView) -> ControllerView {
    let cs = ControllerView {
        display_area_start_x: 0,
        display_area_start_y: 0,
        horizontal_display_range_x1: 0,
        horizontal_display_range_x2: 0,
        vertical_display_range_y1: 0,
        vertical_display_range_y2: 0,
        ..cs
    };
    let cs = draw_mode_state(cs, 0);
    let cs = texture_window_state(cs, 0);
    ControllerView {
        drawing_area_x1: 0,
        drawing_area_y1: 0,
        drawing_area_x2: 0,
        drawing_area_y2: 0,
        drawing_offset_x: 0,
        drawing_offset_y: 0,
        mask_bit_force_set: false,
        mask_bit_check: false,
        ..cs
    }
}

/// Reset GPU: every other GP1 command and the GP0 mode settings with argument 0
/// (display disable with 1).
pub fn command_00(state: &mut GpuState, cs: &mut ControllerState, video_backend: &mut VideoBackend, _command: u32) -> (r: Result<(), GpuError>)
    requires
        old(state).wf(),
        old(cs).wf(),
    ensures
        r is Ok,
        final(state).wf(),
        final(cs).wf(),
        final(state)@ == (GpuView { gp0: Seq::empty(), stat: Register { value: reset_stat(old(state).stat.value) }, ..old(state)@ }),
        final(state).stat.value == (old(state).stat.value & 0x9E00_2000) | 0x0080_0000,
        final(cs)@ == reset_state(old(cs)@),
        *final(video_backend) == *old(video_backend),
{
    proof {
        assert(field(0, 1).spec_extract(1) == 1 && field(0, 2).spec_extract(0) == 0 && 0u32 & 1 == 0 && (0u32 >> 1u32) & 1
            == 0 && 0u32 & 2 == 0 && field(0, 10).spec_extract(0) == 0 && field(10, 9).spec_extract(0) == 0 && field(
            0,
            11,
        ).spec_extract(0) == 0 && field(11, 11).spec_extract(0) == 0 && field(0, 12).spec_extract(0) == 0 && field(
            12,
            12,
        ).spec_extract(0) == 0 && field(10, 10).spec_extract(0) == 0) by (bit_vector);
        crate::system::gpu::data::lemma_isize_bits(0, 0);
        assert(crate::system::gpu::data::sign_extend_11(0) == 0);
    }
    let _ = command_01(state, cs, video_backend, 0);
    let _ = command_02(state, cs, video_backend, 0);
    let _ = command_03(state, cs, video_backend, 1);
    let _ = command_04(state, cs, video_backend, 0);
    let _ = command_05(state, cs, video_backend, 0);
    let _ = command_06(state, cs, video_backend, 0);
    let _ = command_07(state, cs, video_backend, 0);
    let _ = command_08(state, cs, video_backend, 0);
    let zero: [u32; 1] = [0];
    assert(zero@[0] == 0);
    let _ = command_e1_handler(state, cs, &zero);
    let _ = command_e2_handler(cs, &zero);
    let _ = command_e3_handler(cs, &zero);
    let _ = command_e4_handler(cs, &zero);
    let _ = command_e5_handler(cs, &zero);
    let _ = command_e6_handler(state, cs, &zero);
    proof {
        let v = old(state).stat.value;
        assert(reset_stat(v) == (v & 0x9E00_2000) | 0x0080_0000) by (bit_vector);
    }
    Ok(())
}

/// Reset Command Buffer: empties the GP0 FIFO.
pub fn command_01(state: &mut GpuState, _cs: &mut ControllerState, _video_backend: &mut VideoBackend, _command: u32) -> (r: Result<(), GpuError>)
    requires
        old(state).wf(),
    ensures
        r is Ok,
        *final(_cs) == *old(_cs),
        *final(_video_backend) == *old(_video_backend),
        final(state).wf(),
        final(state)@ == (GpuView { gp0: Seq::empty(), ..old(state)@ }),
{
    state.gp0.clear();
    Ok(())
}

/// Acknowledge GPU Interrupt: clears the interrupt request flag (GPUSTAT bit 24).
pub fn command_02(state: &mut GpuState, _cs: &mut ControllerState, _video_backend: &mut VideoBackend, _command: u32) -> (r: Result<(), GpuError>)
    requires
        old(state).wf(),
    ensures
        r is Ok,
        *final(_cs) == *old(_cs),
        *final(_video_backend) == *old(_video_backend),
        final(state).wf(),
        final(state)@ == (GpuView { stat: Register { value: field(24, 1).spec_insert(old(state).stat.value, 0) }, ..old(state)@ }),
{
    state.stat.write_bitfield(Bitfield::new(24, 1), 0);
    Ok(())
}

/// Display Enable: bit 0 of the command is GPUSTAT bit 23 (1 means disabled).
pub fn command_03(state: &mut GpuState, _cs: &mut ControllerState, _video_backend: &mut VideoBackend, command: u32) -> (r: Result<(), GpuError>)
    requires
        old(state).wf(),
    ensures
        r is Ok,
        *final(_cs) == *old(_cs),
        *final(_video_backend) == *old(_video_backend),
        final(state).wf(),
        final(state)@ == (GpuView {
            stat: Register { value: field(23, 1).spec_insert(old(state).stat.value, field(0, 1).spec_extract(command)) },
            ..old(state)@
        }),
{
    state.stat.write_bitfield(Bitfield::new(23, 1), Bitfield::new(0, 1).extract_from(command));
    Ok(())
}

/// DMA Direction: bits 0-1 of the command are GPUSTAT bits 29-30.
pub fn command_04(state: &mut GpuState, _cs: &mut ControllerState, _video_backend: &mut VideoBackend, command: u32) -> (r: Result<(), GpuError>)
    requires
        old(state).wf(),
    ensures
        r is Ok,
        *final(_cs) == *old(_cs),
        *final(_video_backend) == *old(_video_backend),
        final(state).wf(),
        final(state)@ == (GpuView {
            stat: Register { value: field(29, 2).spec_insert(old(state).stat.value, field(0, 2).spec_extract(command)) },
            ..old(state)@
        }),
{
    let dma_direction = Bitfield::new(0, 2).extract_from(command);
    state.stat.write_bitfield(Bitfield::new(29, 2), dma_direction);
    Ok(())
}

/// Start of Display Area: X in bits 0-9, Y in bits 10-18.
pub fn command_05(_state: &mut GpuState, cs: &mut ControllerState, _video_backend: &mut VideoBackend, command: u32) -> (r: Result<(), GpuError>)
    requires
        old(cs).wf(),
    ensures
        r is Ok,
        *final(_state) == *old(_state),
        *final(_video_backend) == *old(_video_backend),
        final(cs).wf(),
        final(cs)@ == (ControllerView {
            display_area_start_x: field(0, 10).spec_extract(command) as usize,
            display_area_start_y: field(10, 9).spec_extract(command) as usize,
            ..old(cs)@
        }),
{
    cs.display_area_start_x = Bitfield::new(0, 10).extract_from(command) as usize;
    cs.display_area_start_y = Bitfield::new(10, 9).extract_from(command) as usize;
    Ok(())
}

/// Horizontal Display Range: X1 in bits 0-11, X2 in bits 12-23.
pub fn command_06(_state: &mut GpuState, cs: &mut ControllerState, _video_backend: &mut VideoBackend, command: u32) -> (r: Result<(), GpuError>)
    requires
        old(cs).wf(),
    ensures
        r is Ok,
        *final(_state) == *old(_state),
        *final(_video_backend) == *old(_video_backend),
        final(cs).wf(),
        final(cs)@ == (ControllerView {
            horizontal_display_range_x1: field(0, 12).spec_extract(command) as usize,
            horizontal_display_range_x2: field(12, 12).spec_extract(command) as usize,
            ..old(cs)@
        }),
{
    cs.horizontal_display_range_x1 = Bitfield::new(0, 12).extract_from(command) as usize;
    cs.horizontal_display_range_x2 = Bitfield::new(12, 12).extract_from(command) as usize;
    Ok(())
}

/// Vertical Display Range: Y1 in bits 0-9, Y2 in bits 10-19.
pub fn command_07(_state: &mut GpuState, cs: &mut ControllerState, _video_backend: &mut VideoBackend, command: u32) -> (r: Result<(), GpuError>)
    requires
        old(cs).wf(),
    ensures
        r is Ok,
        *final(_state) == *old(_state),
        *final(_video_backend) == *old(_video_backend),
        final(cs).wf(),
        final(cs)@ == (ControllerView {
            vertical_display_range_y1: field(0, 10).spec_extract(command) as usize,
            vertical_display_range_y2: field(10, 10).spec_extract(command) as usize,
            ..old(cs)@
        }),
{
    cs.vertical_display_range_y1 = Bitfield::new(0, 10).extract_from(command) as usize;
    cs.vertical_display_range_y2 = Bitfield::new(10, 10).extract_from(command) as usize;
    Ok(())
}

/// Display Mode: resolution, video mode, color depth and interlace, shown in GPUSTAT.
pub fn command_08(state: &mut GpuState, _cs: &mut ControllerState, _video_backend: &mut VideoBackend, command: u32) -> (r: Result<(), GpuError>)
    requires
        old(state).wf(),
    ensures
        r is Ok,
        *final(_cs) == *old(_cs),
        *final(_video_backend) == *old(_video_backend),
        final(state).wf(),
        final(state)@ == (GpuView { stat: Register { value: display_mode_stat(old(state).stat.value, command) }, ..old(state)@ }),
{
    let stat = &mut state.stat;
    stat.write_bitfield(Bitfield::new(17, 2), Bitfield::new(0, 2).extract_from(command));
    stat.write_bitfield(Bitfield::new(19, 1), Bitfield::new(2, 1).extract_from(command));
    stat.write_bitfield(Bitfield::new(20, 1), Bitfield::new(3, 1).extract_from(command));
    stat.write_bitfield(Bitfield::new(21, 1), Bitfield::new(4, 1).extract_from(command));
    stat.write_bitfield(Bitfield::new(22, 1), Bitfield::new(5, 1).extract_from(command));
    stat.write_bitfield(Bitfield::new(16, 1), Bitfield::new(6, 1).extract_from(command));
    stat.write_bitfield(Bitfield::new(14, 1), Bitfield::new(7, 1).extract_from(command));
    Ok(())
}


/// The GP1 opcodes this GPU carries out.
pub open spec fn is_known_gp1_command(i: u8) -> bool {
    i <= 8
}

/// What GP1 command `i` with command word `w` does to the GPU.
pub open spec fn gp1_effect(i: u8, w: u32, s0: GpuView, cs0: ControllerView, s1: GpuView, cs1: ControllerView) -> bool {
    if i == 0 {
        s1 == GpuView { gp0: Seq::empty(), stat: Register { value: reset_stat(s0.stat.value) }, ..s0 } && cs1 == reset_state(cs0)
    } else if i == 1 {
        s1 == GpuView { gp0: Seq::empty(), ..s0 } && cs1 == cs0
    } else if i == 2 {
        s1 == GpuView { stat: Register { value: field(24, 1).spec_insert(s0.stat.value, 0) }, ..s0 } && cs1 == cs0
    } else if i == 3 {
        &&& s1 == GpuView { stat: Register { value: field(23, 1).spec_insert(s0.stat.value, field(0, 1).spec_extract(w)) }, ..s0 }
        &&& cs1 == cs0
    } else if i == 4 {
        &&& s1 == GpuView { stat: Register { value: field(29, 2).spec_insert(s0.stat.value, field(0, 2).spec_extract(w)) }, ..s0 }
        &&& cs1 == cs0
    } else if i == 5 {
        &&& s1 == s0
        &&& cs1 == ControllerView {
            display_area_start_x: field(0, 10).spec_extract(w) as usize,
            display_area_start_y: field(10, 9).spec_extract(w) as usize,
            ..cs0
        }
    } else if i == 6 {
        &&& s1 == s0
        &&& cs1 == ControllerView {
            horizontal_display_range_x1: field(0, 12).spec_extract(w) as usize,
            horizontal_display_range_x2: field(12, 12).spec_extract(w) as usize,
            ..cs0
        }
    } else if i == 7 {
        &&& s1 == s0
        &&& cs1 == ControllerView {
            vertical_display_range_y1: field(0, 10).spec_extract(w) as usize,
            vertical_display_range_y2: field(10, 10).spec_extract(w) as usize,
            ..cs0
        }
    } else {
        s1 == GpuView { stat: Register { value: display_mode_stat(s0.stat.value, w) }, ..s0 } && cs1 == cs0
    }
}

/// Carrying out the GP1 command word `w` held by the controller: an unknown
/// opcode is an error and leaves everything as it was; otherwise the command
/// takes effect and is no longer pending.
pub open spec fn gp1_execute_step(w: u32, s0: GpuView, cs0: ControllerView, s1: GpuView, cs1: ControllerView, r: Result<(), GpuError>) -> bool {
    let i = (w >> 24u32) as u8;
    if !is_known_gp1_command(i) {
        s1 == s0 && cs1 == cs0 && r == Err::<(), GpuError>(GpuError::UnknownGp1Command(i))
    } else {
        &&& r is Ok
        &&& !s1.gp1_command_pending
        &&& cs1.gp1_command is None
        &&& gp1_effect(
            i,
            w,
            s0,
            cs0,
            GpuView { gp1_command_pending: s0.gp1_command_pending, ..s1 },
            ControllerView { gp1_command: cs0.gp1_command, ..cs1 },
        )
    }
}

/// One step of the GP1 command processor: a word latched in GP1 is taken
/// (refused while another command is held), then a held command is carried out.
pub open spec fn gp1_step(s0: GpuView, cs0: ControllerView, s1: GpuView, cs1: ControllerView, r: Result<(), GpuError>) -> bool {
    if s0.gp1.latch is Some && cs0.gp1_command is Some {
        s1 == s0 && cs1 == cs0 && r == Err::<(), GpuError>(GpuError::Gp1CommandPending)
    } else {
        let s_taken = if s0.gp1.latch is Some {
            GpuView { gp1: crate::register::B32EdgeRegister { value: s0.gp1.value, latch: None }, ..s0 }
        } else {
            s0
        };
        let cs_taken = if s0.gp1.latch is Some {
            ControllerView { gp1_command: Some(s0.gp1.value), ..cs0 }
        } else {
            cs0
        };
        match cs_taken.gp1_command {
            None => s1 == s_taken && cs1 == cs_taken && r is Ok,
            Some(w) => gp1_execute_step(w, s_taken, cs_taken, s1, cs1, r),
        }
    }
}

/// Carries out the GP1 command `command`, whose opcode `i` is known.
#[verifier::rlimit(30)]
fn execute_gp1(i: u8, state: &mut GpuState, cs: &mut ControllerState, video_backend: &mut VideoBackend, command: u32) -> (r: Result<(), GpuError>)
    requires
        old(state).wf(),
        old(cs).wf(),
        is_known_gp1_command(i),
    ensures
        r is Ok,
        final(state).wf(),
        final(cs).wf(),
        *final(video_backend) == *old(video_backend),
        gp1_effect(i, command, old(state)@, old(cs)@, final(state)@, final(cs)@),
{
    if i == 0 {
        command_00(state, cs, video_backend, command)
    } else if i == 1 {
        command_01(state, cs, video_backend, command)
    } else if i == 2 {
        command_02(state, cs, video_backend, command)
    } else if i == 3 {
        command_03(state, cs, video_backend, command)
    } else if i == 4 {
        command_04(state, cs, video_backend, command)
    } else if i == 5 {
        command_05(state, cs, video_backend, command)
    } else if i == 6 {
        command_06(state, cs, video_backend, command)
    } else if i == 7 {
        command_07(state, cs, video_backend, command)
    } else {
        command_08(state, cs, video_backend, command)
    }
}

/// Runs the GP1 command processor once.
pub fn handle_command(state: &mut GpuState, cs: &mut ControllerState, video_backend: &mut VideoBackend) -> (r: Result<(), GpuError>)
    requires
        old(state).wf(),
        old(cs).wf(),
    ensures
        final(state).wf(),
        final(cs).wf(),
        *final(video_backend) == *old(video_backend),
        gp1_step(old(state)@, old(cs)@, final(state)@, final(cs)@, r),
{
    handle_gp1(state, cs)?;
    let command = match cs.gp1_command {
        None => return Ok(()),
        Some(w) => w,
    };
    let index = (command >> 24u32) as u8;
    if index > 8 {
        return Err(GpuError::UnknownGp1Command(index));
    }
    let ghost s_t = state@;
    let ghost cs_t = cs@;
    let _ = execute_gp1(index, state, cs, video_backend, command);
    let ghost s_e = state@;
    let ghost cs_e = cs@;
    cs.gp1_command = None;
    state.gp1_command_pending = false;
    assert(s_e == GpuView { gp1_command_pending: s_t.gp1_command_pending, ..state@ });
    assert(cs_e == ControllerView { gp1_command: cs_t.gp1_command, ..cs@ });
    Ok(())
}


/// Resetting the GPU twice is the same as resetting it once.
pub proof fn lemma_reset_idempotent(stat: u32, cs: ControllerView)
    ensures
        reset_stat(reset_stat(stat)) == reset_stat(stat),
        reset_state(reset_state(cs)) == reset_state(cs),
{
    assert(reset_stat(reset_stat(stat)) == reset_stat(stat)) by (bit_vector);
}

} // verus!
