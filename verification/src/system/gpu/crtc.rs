use vstd::prelude::*;
use crate::bitfield::{field, Bitfield};
use crate::register::Register;
use crate::system::gpu::backend_dispatch::{queued, render, VideoBackend};
use crate::system::gpu::rendering::RequestView;
use crate::system::gpu::types::{GpuError, GpuView, State as GpuState};
use crate::system::intc::{line_bit, Line};
use crate::system::state::State;

verus! {

/// Each scanline flips the "drawing odd lines" flag (GPUSTAT bit 31).
pub fn handle_scanline_tick(state: &mut GpuState)
    requires
        old(state).wf(),
    ensures
        final(state).wf(),
        final(state)@ == (GpuView { stat: Register { value: old(state).stat.value ^ 0x8000_0000 }, ..old(state)@ }),
{
    let drawing_odd_bit = state.stat.read_bitfield(Bitfield::new(31, 1)) ^ 1;
    state.stat.write_bitfield(Bitfield::new(31, 1), drawing_odd_bit);
    proof {
        let v = old(state).stat.value;
        assert(field(31, 1).spec_insert(v, field(31, 1).spec_extract(v) ^ 1) == v ^ 0x8000_0000) by (bit_vector);
    }
}

/// Vertical blank raises the VBLANK interrupt line.
pub fn handle_vblank_interrupt(state: &mut State)
    ensures
        final(state).intc.stat.register.value == old(state).intc.stat.register.value | (1u32 << line_bit(Line::Vblank)),
        final(state).intc.mask == old(state).intc.mask,
        *final(state) == (State { intc: final(state).intc, ..*old(state) }),
{
    state.intc.stat.assert_line(Line::Vblank);
}

/// Presents the frame, unless the display is in 24-bit color mode (GPUSTAT bit 21).
pub fn handle_render(state: &GpuState, video_backend: &mut VideoBackend) -> (r: Result<(), GpuError>)
    ensures
        field(21, 1).spec_extract(state.stat.value) != 0 ==> r == Err::<(), GpuError>(GpuError::ColorDepth24Unsupported)
            && final(video_backend)@ == old(video_backend)@,
        field(21, 1).spec_extract(state.stat.value) == 0 ==> r is Ok && queued(old(video_backend)@, final(video_backend)@, RequestView::Render),
{
    let b24_color_depth = state.stat.read_bitfield(Bitfield::new(21, 1)) != 0;
    if b24_color_depth {
        return Err(GpuError::ColorDepth24Unsupported);
    }
    let _ = render(video_backend);
    Ok(())
}

/// Once a frame: the VBLANK interrupt, then the frame is presented.
pub fn handle_frame_tick(state: &mut State, video_backend: &mut VideoBackend) -> (r: Result<(), GpuError>)
    ensures
        final(state).intc.stat.register.value == old(state).intc.stat.register.value | (1u32 << line_bit(Line::Vblank)),
        *final(state) == (State { intc: final(state).intc, ..*old(state) }),
        final(state).intc.mask == old(state).intc.mask,
        field(21, 1).spec_extract(old(state).gpu.stat.value) != 0 ==> r == Err::<(), GpuError>(GpuError::ColorDepth24Unsupported)
            && final(video_backend)@ == old(video_backend)@,
        field(21, 1).spec_extract(old(state).gpu.stat.value) == 0 ==> r is Ok && queued(old(video_backend)@, final(video_backend)@, RequestView::Render),
{
    handle_vblank_interrupt(state);
    handle_render(&state.gpu, video_backend)
}

} // verus!
