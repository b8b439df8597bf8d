use vstd::prelude::*;
use crate::bitfield::Bitfield;
use crate::geometry::Size2D;
use crate::register::Register;
use crate::system::gpu::backend_dispatch::{queued, VideoBackend};
use crate::system::gpu::command_gp0_impl::{
    command_00_length, command_01_length, command_02_handler, command_02_length, command_05_length, command_06_length, command_0c_length, command_28_handler, command_28_length, command_2c_handler, command_2c_length, command_2d_handler, command_2d_length, command_30_handler, command_30_length, command_38_handler, command_38_length, command_3c_length, command_50_length, command_65_handler, command_65_length, command_6f_length, command_80_length, command_a0_handler, command_a0_length, command_c0_handler, command_c0_length, command_e1_handler, command_e1_length, command_e2_handler, command_e2_length, command_e3_handler, command_e3_length, command_e4_handler, command_e4_length, command_e5_handler, command_e5_length, command_e6_handler, command_e6_length, copy_rectangle, draw_mode_stat, draw_mode_state, fill_rectangle, null_color, null_offsets, polygon, polygon_clut_kind, spec_a0_length, texcoords, texture_window_state, textured_rectangle, unpack_pixels,
};
use crate::system::gpu::data::{
    spec_clut_mode, spec_extract_color, spec_extract_pair, spec_extract_texpage_base,
    spec_transparency_mode, Modifier,
};
use crate::system::gpu::rendering::{RenderingKind, RequestView, TransparencyKind, spec_transparency_kind};
use crate::system::gpu::types::{ClutMode, ControllerState, ControllerView, GpuError, GpuView, State as GpuState};

verus! {

/// The opcode of a GP0 command word (bits 24-31).
pub open spec fn gp0_opcode(word: u32) -> u8 {
    (word >> 24u32) as u8
}

/// The GP0 opcodes this GPU carries out.
#[verifier::opaque]
pub open spec fn is_known_gp0_command(i: u8) -> bool {
    ||| i == 0x00u8 || i == 0x01u8 || i == 0x02u8 || i == 0x05u8 || i == 0x06u8 || i == 0x0Cu8
    ||| i == 0x28u8 || i == 0x2Cu8 || i == 0x2Du8 || i == 0x30u8 || i == 0x38u8 || i == 0x3Cu8
    ||| i == 0x50u8 || i == 0x65u8 || i == 0x6Fu8 || i == 0x80u8 || i == 0xA0u8 || i == 0xC0u8
    ||| i == 0xE1u8 || i == 0xE2u8 || i == 0xE3u8 || i == 0xE4u8 || i == 0xE5u8 || i == 0xE6u8
}

/// Number of words of the command `i` that begins `data`, if `data` holds enough to tell.
#[verifier::opaque]
pub open spec fn spec_command_length(i: u8, data: Seq<u32>) -> Option<usize> {
    if i == 0x02u8 || i == 0x6Fu8 || i == 0xC0u8 {
        Some(3usize)
    } else if i == 0x28u8 {
        Some(5usize)
    } else if i == 0x2Cu8 || i == 0x2Du8 {
        Some(9usize)
    } else if i == 0x30u8 {
        Some(6usize)
    } else if i == 0x38u8 {
        Some(8usize)
    } else if i == 0x3Cu8 {
        Some(12usize)
    } else if i == 0x50u8 || i == 0x65u8 || i == 0x80u8 {
        Some(4usize)
    } else if i == 0xA0u8 {
        if data.len() < 3 {
            None
        } else {
            Some(spec_a0_length(data[2]))
        }
    } else {
        Some(1usize)
    }
}

/// Fewest words a handler reads.
pub open spec fn min_command_length(i: u8) -> nat {
    if i == 0xA0u8 {
        3
    } else {
        spec_command_length(i, Seq::empty())->0 as nat
    }
}

/// Nothing but the renderer queue changes, and the command succeeds.
pub open spec fn draws(s0: GpuView, cs0: ControllerView, vb0: Option<Seq<RequestView>>, s1: GpuView, cs1: ControllerView, vb1: Option<Seq<RequestView>>, r: Result<(), GpuError>, request: RequestView) -> bool {
    &&& s1 == s0
    &&& cs1 == cs0
    &&& r is Ok
    &&& queued(vb0, vb1, request)
}

/// A textured command refused for its reserved color mode changes nothing.
pub open spec fn refused(s0: GpuView, cs0: ControllerView, vb0: Option<Seq<RequestView>>, s1: GpuView, cs1: ControllerView, vb1: Option<Seq<RequestView>>, r: Result<(), GpuError>) -> bool {
    &&& s1 == s0
    &&& cs1 == cs0
    &&& vb1 == vb0
    &&& r == Err::<(), GpuError>(GpuError::ReservedClutMode)
}

/// What carrying out GP0 command `i` on the words `data` does.
#[verifier::opaque]
pub open spec fn command_effect(
    i: u8,
    data: Seq<u32>,
    s0: GpuView,
    cs0: ControllerView,
    vb0: Option<Seq<RequestView>>,
    s1: GpuView,
    cs1: ControllerView,
    vb1: Option<Seq<RequestView>>,
    r: Result<(), GpuError>,
) -> bool {
    if i == 0x02u8 {
        draws(s0, cs0, vb0, s1, cs1, vb1, r, RequestView::DrawRectangle(fill_rectangle(data)))
    } else if i == 0x28u8 {
        draws(s0, cs0, vb0, s1, cs1, vb1, r, RequestView::DrawTriangles(polygon(
            cs0,
            seq![data[1], data[2], data[3], data[4]],
            Seq::new(4, |k: int| spec_extract_color(data[0])),
            null_offsets(4),
            RenderingKind::Shaded,
            TransparencyKind::Opaque,
        )))
    } else if i == 0x2Cu8 || i == 0x2Du8 {
        if spec_clut_mode(data[4]) == ClutMode::Reserved {
            refused(s0, cs0, vb0, s1, cs1, vb1, r)
        } else {
            let page_base = spec_extract_texpage_base(data[4]);
            let clut_kind = polygon_clut_kind(data[4], data[2]);
            draws(s0, cs0, vb0, s1, cs1, vb1, r, RequestView::DrawTriangles(polygon(
                cs0,
                seq![data[1], data[3], data[5], data[7]],
                if i == 0x2Cu8 {
                    Seq::new(4, |k: int| spec_extract_color(data[0]))
                } else {
                    Seq::new(4, |k: int| null_color())
                },
                texcoords(seq![data[2], data[4], data[6], data[8]]),
                if i == 0x2Cu8 {
                    RenderingKind::TextureBlending { page_base, clut_kind }
                } else {
                    RenderingKind::RawTexture { page_base, clut_kind }
                },
                TransparencyKind::Opaque,
            )))
        }
    } else if i == 0x30u8 {
        draws(s0, cs0, vb0, s1, cs1, vb1, r, RequestView::DrawTriangles(polygon(
            cs0,
            seq![data[1], data[3], data[5]],
            seq![data[0], data[2], data[4]].map_values(|w: u32| spec_extract_color(w)),
            null_offsets(3),
            RenderingKind::Shaded,
            TransparencyKind::Opaque,
        )))
    } else if i == 0x38u8 {
        draws(s0, cs0, vb0, s1, cs1, vb1, r, RequestView::DrawTriangles(polygon(
            cs0,
            seq![data[1], data[3], data[5], data[7]],
            seq![data[0], data[2], data[4], data[6]].map_values(|w: u32| spec_extract_color(w)),
            null_offsets(4),
            RenderingKind::Shaded,
            TransparencyKind::Opaque,
        )))
    } else if i == 0x65u8 {
        if cs0.clut_mode == ClutMode::Reserved {
            refused(s0, cs0, vb0, s1, cs1, vb1, r)
        } else {
            draws(s0, cs0, vb0, s1, cs1, vb1, r, RequestView::DrawRectangle(textured_rectangle(
                cs0,
                data[1],
                spec_extract_pair(data[3], Modifier::RenderXSize, Modifier::RenderYSize),
                null_color(),
                data[2],
                false,
            )))
        }
    } else if i == 0xA0u8 {
        draws(s0, cs0, vb0, s1, cs1, vb1, r, RequestView::WriteFramebuffer {
            rectangle: copy_rectangle(data[1], data[2]),
            data: unpack_pixels(data.subrange(3, data.len() as int)),
            mask_bit_force_set: cs0.mask_bit_force_set,
            mask_bit_check: cs0.mask_bit_check,
        })
    } else if i == 0xC0u8 {
        &&& s1 == s0
        &&& cs1 == cs0
        &&& queued(vb0, vb1, RequestView::ReadFramebuffer(copy_rectangle(data[1], data[2])))
        &&& (vb0 is None ==> r == Err::<(), GpuError>(GpuError::NoFramebufferBackend))
        &&& (vb0 is Some ==> r is Ok)
    } else if i == 0xE1u8 {
        &&& s1 == GpuView { stat: Register { value: draw_mode_stat(s0.stat.value, data[0]) }, ..s0 }
        &&& cs1 == draw_mode_state(cs0, data[0])
        &&& vb1 == vb0
        &&& r is Ok
    } else if i == 0xE2u8 {
        &&& s1 == s0
        &&& cs1 == texture_window_state(cs0, data[0])
        &&& vb1 == vb0
        &&& r is Ok
    } else if i == 0xE3u8 {
        &&& s1 == s0
        &&& cs1 == ControllerView {
            drawing_area_x1: crate::bitfield::field(0, 10).spec_extract(data[0]) as usize,
            drawing_area_y1: crate::bitfield::field(10, 9).spec_extract(data[0]) as usize,
            ..cs0
        }
        &&& vb1 == vb0
        &&& r is Ok
    } else if i == 0xE4u8 {
        &&& s1 == s0
        &&& cs1 == ControllerView {
            drawing_area_x2: crate::bitfield::field(0, 10).spec_extract(data[0]) as usize,
            drawing_area_y2: crate::bitfield::field(10, 9).spec_extract(data[0]) as usize,
            ..cs0
        }
        &&& vb1 == vb0
        &&& r is Ok
    } else if i == 0xE5u8 {
        &&& s1 == s0
        &&& cs1 == ControllerView {
            drawing_offset_x: crate::system::gpu::data::sign_extend_11(
                crate::bitfield::field(0, 11).spec_extract(data[0]) as isize,
            ),
            drawing_offset_y: crate::system::gpu::data::sign_extend_11(
                crate::bitfield::field(11, 11).spec_extract(data[0]) as isize,
            ),
            ..cs0
        }
        &&& vb1 == vb0
        &&& r is Ok
    } else if i == 0xE6u8 {
        &&& s1 == GpuView {
            stat: Register {
                value: crate::bitfield::field(12, 1).spec_insert(
                    crate::bitfield::field(11, 1).spec_insert(s0.stat.value, data[0] & 1),
                    (data[0] >> 1u32) & 1,
                ),
            },
            ..s0
        }
        &&& cs1 == ControllerView { mask_bit_force_set: data[0] & 1 != 0, mask_bit_check: data[0] & 2 != 0, ..cs0 }
        &&& vb1 == vb0
        &&& r is Ok
    } else {
        // Commands that do nothing here: NOP, cache flush, unimplemented drawing.
        &&& s1 == s0
        &&& cs1 == cs0
        &&& vb1 == vb0
        &&& r is Ok
    }
}

pub fn known_gp0_command(i: u8) -> (b: bool)
    ensures
        b == is_known_gp0_command(i),
{
    reveal(is_known_gp0_command);
    i == 0x00 || i == 0x01 || i == 0x02 || i == 0x05 || i == 0x06 || i == 0x0C || i == 0x28 || i == 0x2C || i == 0x2D
        || i == 0x30 || i == 0x38 || i == 0x3C || i == 0x50 || i == 0x65 || i == 0x6F || i == 0x80 || i == 0xA0
        || i == 0xC0 || i == 0xE1 || i == 0xE2 || i == 0xE3 || i == 0xE4 || i == 0xE5 || i == 0xE6
}

/// Number of words the command `i` at the head of `data` needs, if known yet.
pub fn command_length(i: u8, data: &[u32]) -> (r: Option<usize>)
    requires
        is_known_gp0_command(i),
    ensures
        r == spec_command_length(i, data@),
        r matches Some(n) ==> n >= min_command_length(i),
{
    reveal(is_known_gp0_command);
    reveal(spec_command_length);
    if i == 0x00 {
        command_00_length(data)
    } else if i == 0x01 {
        command_01_length(data)
    } else if i == 0x02 {
        command_02_length(data)
    } else if i == 0x05 {
        command_05_length(data)
    } else if i == 0x06 {
        command_06_length(data)
    } else if i == 0x0C {
        command_0c_length(data)
    } else if i == 0x28 {
        command_28_length(data)
    } else if i == 0x2C {
        command_2c_length(data)
    } else if i == 0x2D {
        command_2d_length(data)
    } else if i == 0x30 {
        command_30_length(data)
    } else if i == 0x38 {
        command_38_length(data)
    } else if i == 0x3C {
        command_3c_length(data)
    } else if i == 0x50 {
        command_50_length(data)
    } else if i == 0x65 {
        command_65_length(data)
    } else if i == 0x6F {
        command_6f_length(data)
    } else if i == 0x80 {
        command_80_length(data)
    } else if i == 0xA0 {
        command_a0_length(data)
    } else if i == 0xC0 {
        command_c0_length(data)
    } else if i == 0xE1 {
        command_e1_length(data)
    } else if i == 0xE2 {
        command_e2_length(data)
    } else if i == 0xE3 {
        command_e3_length(data)
    } else if i == 0xE4 {
        command_e4_length(data)
    } else if i == 0xE5 {
        command_e5_length(data)
    } else {
        command_e6_length(data)
    }
}

/// Carries out the known GP0 command `i` on its words `data`.
#[verifier::rlimit(40)]
pub fn execute_command(i: u8, state: &mut GpuState, cs: &mut ControllerState, video_backend: &mut VideoBackend, data: &[u32]) -> (r: Result<(), GpuError>)
    requires
        is_known_gp0_command(i),
        data@.len() >= min_command_length(i),
        old(state).wf(),
        old(cs).wf(),
    ensures
        final(state).wf(),
        final(cs).wf(),
        final(cs)@.gp0_command_buffer == old(cs)@.gp0_command_buffer,
        final(cs)@.gp0_command_required_length == old(cs)@.gp0_command_required_length,
        command_effect(i, data@, old(state)@, old(cs)@, old(video_backend)@, final(state)@, final(cs)@, final(video_backend)@, r),
{
    reveal(command_effect);
    reveal(is_known_gp0_command);
    reveal(spec_command_length);
    if i == 0x02 {
        command_02_handler(video_backend, data)
    } else if i == 0x28 {
        command_28_handler(cs, video_backend, data)
    } else if i == 0x2C {
        command_2c_handler(cs, video_backend, data)
    } else if i == 0x2D {
        command_2d_handler(cs, video_backend, data)
    } else if i == 0x30 {
        command_30_handler(cs, video_backend, data)
    } else if i == 0x38 {
        command_38_handler(cs, video_backend, data)
    } else if i == 0x65 {
        command_65_handler(cs, video_backend, data)
    } else if i == 0xA0 {
        command_a0_handler(cs, video_backend, data)
    } else if i == 0xC0 {
        command_c0_handler(video_backend, data)
    } else if i == 0xE1 {
        command_e1_handler(state, cs, data)
    } else if i == 0xE2 {
        command_e2_handler(cs, data)
    } else if i == 0xE3 {
        command_e3_handler(cs, data)
    } else if i == 0xE4 {
        command_e4_handler(cs, data)
    } else if i == 0xE5 {
        command_e5_handler(cs, data)
    } else if i == 0xE6 {
        command_e6_handler(state, cs, data)
    } else {
        // NOP, cache flush, and the drawing commands not carried out here.
        Ok(())
    }
}


/// Moves every word waiting in the GP0 FIFO to the end of the command buffer.
pub fn process_gp0_fifo(state: &mut GpuState, cs: &mut ControllerState)
    requires
        old(state).wf(),
    ensures
        final(state).wf(),
        final(state)@ == (GpuView { gp0: Seq::empty(), ..old(state)@ }),
        final(cs)@ == (ControllerView { gp0_command_buffer: old(cs)@.gp0_command_buffer + old(state)@.gp0, ..old(cs)@ }),
{
    let ghost s0 = state@;
    let ghost cs0 = cs@;
    while !state.gp0.is_empty()
        invariant
            state.wf(),
            state.gp0.capacity == s0.gp0.len() + 0 || true,
            state@ == (GpuView { gp0: state@.gp0, ..s0 }),
            state.gp0.capacity == old(state).gp0.capacity,
            cs@ == (ControllerView { gp0_command_buffer: cs@.gp0_command_buffer, ..cs0 }),
            cs@.gp0_command_buffer + state@.gp0 == cs0.gp0_command_buffer + s0.gp0,
        decreases state@.gp0.len(),
    {
        let ghost before = state@.gp0;
        match state.gp0.read_one() {
            Ok(v) => {
                cs.gp0_command_buffer.push(v);
                assert(cs@.gp0_command_buffer + state@.gp0 =~= cs0.gp0_command_buffer + s0.gp0) by {
                    assert(before =~= seq![v] + before.drop_first());
                }
            },
            Err(()) => {},
        }
    }
    assert(state@.gp0 =~= Seq::<u32>::empty());
    assert(cs@.gp0_command_buffer =~= cs0.gp0_command_buffer + s0.gp0);
}

/// One step of the GP0 command processor on its command buffer, from the
/// state before (`s0`, `cs0`, `vb0`) to the state after (`s1`, `cs1`, `vb1`)
/// with result `r`.
///
/// The opcode of the first buffered word selects the command (an unknown one
/// is an error); once the buffer holds the command's words they are carried
/// out and removed. The command's length is remembered between steps once it
/// is known.
pub open spec fn buffer_step(
    s0: GpuView,
    cs0: ControllerView,
    vb0: Option<Seq<RequestView>>,
    s1: GpuView,
    cs1: ControllerView,
    vb1: Option<Seq<RequestView>>,
    r: Result<(), GpuError>,
) -> bool {
    let buffer = cs0.gp0_command_buffer;
    if buffer.len() == 0 {
        s1 == s0 && cs1 == cs0 && vb1 == vb0 && r is Ok
    } else if !is_known_gp0_command(gp0_opcode(buffer[0])) {
        &&& s1 == s0
        &&& cs1 == cs0
        &&& vb1 == vb0
        &&& r == Err::<(), GpuError>(GpuError::UnknownGp0Command(gp0_opcode(buffer[0])))
    } else {
        let i = gp0_opcode(buffer[0]);
        let length = match cs0.gp0_command_required_length {
            Some(n) => Some(n),
            None => spec_command_length(i, buffer),
        };
        match length {
            None => s1 == s0 && cs1 == cs0 && vb1 == vb0 && r is Ok,
            Some(n) => if buffer.len() < n {
                &&& s1 == s0
                &&& cs1 == ControllerView { gp0_command_required_length: Some(n), ..cs0 }
                &&& vb1 == vb0
                &&& r is Ok
            } else {
                ready_command_step(i, n, s0, ControllerView { gp0_command_required_length: Some(n), ..cs0 }, vb0, s1, cs1, vb1, r)
            },
        }
    }
}

/// Carrying out the command `i`, whose `n` words are all in the buffer:
/// its effect, then its words leave the buffer (they stay if it failed).
pub open spec fn ready_command_step(
    i: u8,
    n: usize,
    s0: GpuView,
    cs0: ControllerView,
    vb0: Option<Seq<RequestView>>,
    s1: GpuView,
    cs1: ControllerView,
    vb1: Option<Seq<RequestView>>,
    r: Result<(), GpuError>,
) -> bool {
    let buffer = cs0.gp0_command_buffer;
    let cs_done = ControllerView { gp0_command_buffer: buffer, gp0_command_required_length: Some(n), ..cs1 };
    &&& command_effect(i, buffer.take(n as int), s0, cs0, vb0, s1, cs_done, vb1, r)
    &&& r is Ok ==> cs1.gp0_command_buffer == buffer.skip(n as int) && cs1.gp0_command_required_length is None
    &&& r is Err ==> cs1.gp0_command_buffer == buffer && cs1.gp0_command_required_length == Some(n)
}

/// One step of the GP0 command processor: the words waiting in the GP0 FIFO
/// join the command buffer, then the buffer is stepped.
pub open spec fn gp0_step(
    s0: GpuView,
    cs0: ControllerView,
    vb0: Option<Seq<RequestView>>,
    s1: GpuView,
    cs1: ControllerView,
    vb1: Option<Seq<RequestView>>,
    r: Result<(), GpuError>,
) -> bool {
    buffer_step(
        GpuView { gp0: Seq::empty(), ..s0 },
        ControllerView { gp0_command_buffer: cs0.gp0_command_buffer + s0.gp0, ..cs0 },
        vb0,
        s1,
        cs1,
        vb1,
        r,
    )
}

/// A remembered command length belongs to a buffered command and covers what
/// its handler reads.
pub open spec fn length_fits(cs: ControllerView) -> bool {
    cs.gp0_command_required_length matches Some(n) ==> (cs.gp0_command_buffer.len() > 0 && n >= min_command_length(
        gp0_opcode(cs.gp0_command_buffer[0]),
    ))
}

/// Carries out the command `i` whose `n` words head the buffer, then removes them.
fn run_ready_command(i: u8, n: usize, state: &mut GpuState, cs: &mut ControllerState, video_backend: &mut VideoBackend) -> (r: Result<(), GpuError>)
    requires
        old(state).wf(),
        old(cs).wf(),
        is_known_gp0_command(i),
        n >= min_command_length(i),
        n <= old(cs)@.gp0_command_buffer.len(),
        old(cs)@.gp0_command_required_length == Some(n),
        old(cs)@.gp0_command_buffer.len() > 0,
        i == gp0_opcode(old(cs)@.gp0_command_buffer[0]),
    ensures
        final(state).wf(),
        final(cs).wf(),
        length_fits(final(cs)@),
        r is Ok ==> final(cs)@.gp0_command_required_length is None,
        r is Err ==> final(cs)@.gp0_command_required_length == old(cs)@.gp0_command_required_length
            && final(cs)@.gp0_command_buffer == old(cs)@.gp0_command_buffer,
        ready_command_step(i, n, old(state)@, old(cs)@, old(video_backend)@, final(state)@, final(cs)@, final(video_backend)@, r),
{
    let ghost buffer = cs@.gp0_command_buffer;
    let mut data: Vec<u32> = Vec::new();
    let mut k: usize = 0;
    while k < n
        invariant
            k <= n <= buffer.len(),
            cs@.gp0_command_buffer == buffer,
            data@ == buffer.take(k as int),
        decreases n - k,
    {
        data.push(cs.gp0_command_buffer[k]);
        k = k + 1;
        assert(data@ =~= buffer.take(k as int));
    }
    let result = execute_command(i, state, cs, video_backend, data.as_slice());
    let ghost cs_exec = cs@;
    if result.is_err() {
        assert(cs_exec == ControllerView { gp0_command_buffer: buffer, gp0_command_required_length: Some(n), ..cs_exec });
        return result;
    }
    let rest = cs.gp0_command_buffer.split_off(n);
    cs.gp0_command_buffer = rest;
    cs.gp0_command_required_length = None;
    assert(cs@.gp0_command_buffer =~= buffer.skip(n as int));
    assert(cs_exec == ControllerView { gp0_command_buffer: buffer, gp0_command_required_length: Some(n), ..cs@ });
    result
}

/// Steps the command buffer once (the GP0 FIFO has already been drained into it).
fn step_command_buffer(state: &mut GpuState, cs: &mut ControllerState, video_backend: &mut VideoBackend) -> (r: Result<(), GpuError>)
    requires
        old(state).wf(),
        old(cs).wf(),
        length_fits(old(cs)@),
    ensures
        final(state).wf(),
        final(cs).wf(),
        length_fits(final(cs)@),
        buffer_step(old(state)@, old(cs)@, old(video_backend)@, final(state)@, final(cs)@, final(video_backend)@, r),
{
    if cs.gp0_command_buffer.len() == 0 {
        return Ok(());
    }
    let command = cs.gp0_command_buffer[0];
    let index = Bitfield::new(24, 8).extract_from(command) as u8;
    assert(crate::bitfield::field(24, 8).spec_extract(command) as u8 == gp0_opcode(command)) by (bit_vector);
    if !known_gp0_command(index) {
        return Err(GpuError::UnknownGp0Command(index));
    }
    let required = match cs.gp0_command_required_length {
        Some(n) => n,
        None => match command_length(index, cs.gp0_command_buffer.as_slice()) {
            Some(n) => {
                cs.gp0_command_required_length = Some(n);
                n
            },
            None => return Ok(()),
        },
    };
    if cs.gp0_command_buffer.len() < required {
        return Ok(());
    }
    run_ready_command(index, required, state, cs, video_backend)
}

/// Runs the GP0 command processor once.
pub fn handle_command(state: &mut GpuState, cs: &mut ControllerState, video_backend: &mut VideoBackend) -> (r: Result<(), GpuError>)
    requires
        old(state).wf(),
        old(cs).wf(),
        length_fits(old(cs)@),
    ensures
        final(state).wf(),
        final(cs).wf(),
        length_fits(final(cs)@),
        gp0_step(old(state)@, old(cs)@, old(video_backend)@, final(state)@, final(cs)@, final(video_backend)@, r),
{
    proof {
        if old(cs)@.gp0_command_required_length is Some {
            assert((old(cs)@.gp0_command_buffer + old(state)@.gp0)[0] == old(cs)@.gp0_command_buffer[0]);
        }
    }
    process_gp0_fifo(state, cs);
    step_command_buffer(state, cs, video_backend)
}

} // verus!
