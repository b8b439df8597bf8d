use vstd::prelude::*;
use crate::system::gpu::backend_dispatch::VideoBackend;
use crate::system::gpu::command_gp0::{gp0_step, handle_command as handle_command_gp0, length_fits};
use crate::system::gpu::command_gp1::{gp1_step, handle_command as handle_command_gp1};
use crate::system::gpu::rendering::RequestView;
use crate::system::gpu::types::{ControllerState, ControllerView, GpuError, GpuView, State as GpuState, GPU_FIFO_DEPTH};

verus! {

/// Runs the GP1 command processor, then the GP0 one.
pub open spec fn command_step(
    s0: GpuView,
    cs0: ControllerView,
    vb0: Option<Seq<RequestView>>,
    s1: GpuView,
    cs1: ControllerView,
    vb1: Option<Seq<RequestView>>,
    r: Result<(), GpuError>,
) -> bool {
    exists|s_mid: GpuView, cs_mid: ControllerView, r1: Result<(), GpuError>|
        #[trigger] gp1_step(s0, cs0, s_mid, cs_mid, r1) && if r1 is Err {
            s1 == s_mid && cs1 == cs_mid && vb1 == vb0 && r == r1
        } else {
            gp0_step(s_mid, cs_mid, vb0, s1, cs1, vb1, r)
        }
}

/// GP1 commands first, then GP0; GP1 writes are not held back behind queued GP0 work.
pub fn handle_command(state: &mut GpuState, cs: &mut ControllerState, video_backend: &mut VideoBackend) -> (r: Result<(), GpuError>)
    requires
        old(state).wf(),
        old(cs).wf(),
        length_fits(old(cs)@),
    ensures
        final(state).wf(),
        final(cs).wf(),
        length_fits(final(cs)@),
        command_step(old(state)@, old(cs)@, old(video_backend)@, final(state)@, final(cs)@, final(video_backend)@, r),
{
    let ghost s0 = state@;
    let ghost cs0 = cs@;
    let r1 = handle_command_gp1(state, cs, video_backend);
    let ghost s_mid = state@;
    let ghost cs_mid = cs@;
    assert(gp1_step(s0, cs0, s_mid, cs_mid, r1));
    if r1.is_err() {
        assert(length_fits(cs@)) by {
            assert(cs@.gp0_command_buffer == cs0.gp0_command_buffer);
        }
        return r1;
    }
    assert(length_fits(cs@)) by {
        assert(cs@.gp0_command_buffer == cs0.gp0_command_buffer);
        assert(cs@.gp0_command_required_length == cs0.gp0_command_required_length);
    }
    handle_command_gp0(state, cs, video_backend)
}

/// Words move from the read buffer into GPUREAD, oldest first, until
/// GPUREAD is full or the buffer empty.
pub open spec fn read_step(s0: GpuView, cs0: ControllerView, s1: GpuView, cs1: ControllerView) -> bool {
    let room = GPU_FIFO_DEPTH - s0.read.len();
    let k = if cs0.gp0_read_buffer.len() < room { cs0.gp0_read_buffer.len() as int } else { room };
    &&& s1 == GpuView { read: s0.read + cs0.gp0_read_buffer.take(k), ..s0 }
    &&& cs1 == ControllerView { gp0_read_buffer: cs0.gp0_read_buffer.skip(k), ..cs0 }
}

/// Moves words of a VRAM to CPU copy into GPUREAD while there is room.
pub fn handle_read(state: &mut GpuState, cs: &mut ControllerState) -> (r: Result<(), GpuError>)
    requires
        old(state).wf(),
    ensures
        r is Ok,
        final(state).wf(),
        read_step(old(state)@, old(cs)@, final(state)@, final(cs)@),
{
    let ghost s0 = state@;
    let ghost cs0 = cs@;
    let ghost room = GPU_FIFO_DEPTH - s0.read.len();
    let ghost k_total = if cs0.gp0_read_buffer.len() < room { cs0.gp0_read_buffer.len() as int } else { room };
    let ghost mut k: int = 0;
    assert(cs0.gp0_read_buffer.skip(0) =~= cs0.gp0_read_buffer);
    assert(s0.read + cs0.gp0_read_buffer.take(0) =~= s0.read);
    loop
        invariant
            state.wf(),
            0 <= k <= k_total,
            state@ == (GpuView { read: s0.read + cs0.gp0_read_buffer.take(k), ..s0 }),
            cs@ == (ControllerView { gp0_read_buffer: cs0.gp0_read_buffer.skip(k), ..cs0 }),
            room == GPU_FIFO_DEPTH - s0.read.len(),
            k_total == (if cs0.gp0_read_buffer.len() < room { cs0.gp0_read_buffer.len() as int } else { room }),
            s0.read.len() <= GPU_FIFO_DEPTH,
        ensures
            k == k_total,
            state.wf(),
            state@ == (GpuView { read: s0.read + cs0.gp0_read_buffer.take(k), ..s0 }),
            cs@ == (ControllerView { gp0_read_buffer: cs0.gp0_read_buffer.skip(k), ..cs0 }),
        decreases cs@.gp0_read_buffer.len(),
    {
        if state.read.is_full() {
            break;
        }
        match cs.gp0_read_buffer.pop_front() {
            Some(v) => {
                let _ = state.read.write_one(v);
                proof {
                    assert(cs0.gp0_read_buffer.skip(k)[0] == v);
                    assert(s0.read + cs0.gp0_read_buffer.take(k + 1) =~= (s0.read + cs0.gp0_read_buffer.take(k)).push(v));
                    assert(cs0.gp0_read_buffer.skip(k + 1) =~= cs0.gp0_read_buffer.skip(k).drop_first());
                    k = k + 1;
                }
            },
            None => {
                break;
            },
        }
    }
    Ok(())
}

/// One GPU clock: commands, then GPUREAD refill.
pub fn tick(state: &mut GpuState, cs: &mut ControllerState, video_backend: &mut VideoBackend) -> (r: Result<(), GpuError>)
    requires
        old(state).wf(),
        old(cs).wf(),
        length_fits(old(cs)@),
    ensures
        final(state).wf(),
        final(cs).wf(),
        length_fits(final(cs)@),
        r is Err ==> command_step(old(state)@, old(cs)@, old(video_backend)@, final(state)@, final(cs)@, final(video_backend)@, r),
        r is Ok ==> exists|s_mid: GpuView, cs_mid: ControllerView|
            #[trigger] command_step(old(state)@, old(cs)@, old(video_backend)@, s_mid, cs_mid, final(video_backend)@, r)
                && read_step(s_mid, cs_mid, final(state)@, final(cs)@),
{
    let r = handle_command(state, cs, video_backend);
    if r.is_err() {
        return r;
    }
    let ghost s_mid = state@;
    let ghost cs_mid = cs@;
    let _ = handle_read(state, cs);
    assert(cs@.gp0_command_buffer == cs_mid.gp0_command_buffer);
    assert(command_step(old(state)@, old(cs)@, old(video_backend)@, s_mid, cs_mid, video_backend@, r)
        && read_step(s_mid, cs_mid, state@, cs@));
    r
}


/// Refilling GPUREAD loses and duplicates no word: GPUREAD followed by the
/// read buffer holds the same words, in the same order, before and after.
pub proof fn lemma_read_step_keeps_words(s0: GpuView, cs0: ControllerView, s1: GpuView, cs1: ControllerView)
    requires
        s0.read.len() <= GPU_FIFO_DEPTH,
        read_step(s0, cs0, s1, cs1),
    ensures
        s1.read + cs1.gp0_read_buffer == s0.read + cs0.gp0_read_buffer,
        s1.read.len() <= GPU_FIFO_DEPTH,
{
    let room = GPU_FIFO_DEPTH - s0.read.len();
    let k = if cs0.gp0_read_buffer.len() < room { cs0.gp0_read_buffer.len() as int } else { room };
    assert(cs0.gp0_read_buffer.take(k) + cs0.gp0_read_buffer.skip(k) =~= cs0.gp0_read_buffer);
    assert(s1.read + cs1.gp0_read_buffer =~= s0.read + cs0.gp0_read_buffer);
}

} // verus!
