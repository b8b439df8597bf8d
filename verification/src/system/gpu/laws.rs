use vstd::prelude::*;
use crate::bitfield::field;
use crate::system::gpu::command_gp0_impl::{draw_mode_stat, draw_mode_state, texture_window_state};
use crate::system::gpu::command_gp1::{display_mode_stat, gp1_effect};
use crate::system::gpu::command_gp0::{command_effect, spec_command_length};
use crate::system::gpu::data::{sign_extend_11, spec_copy_size};
use crate::system::gpu::rendering::{ClutKind, RenderingKind, RequestView, TransparencyKind};
use crate::color::Color;
use crate::geometry::{Point2D, Rect, Size2D};
use crate::system::gpu::types::GpuError;
use crate::system::gpu::types::{ControllerView, GpuView, GPU_FIFO_DEPTH};
use crate::system::gpu::memory::spec_gpustat;

verus! {

/// The bit positions of the GPU's setting commands, written with plain masks.
proof fn lemma_setting_bits(stat: u32, w: u32, a: bool, b: bool)
    by (bit_vector)
    ensures
        display_mode_stat(stat, w) == (stat & !0x007F_4000u32) | ((w & 3) << 17u32) | (((w >> 2u32) & 1) << 19u32)
            | (((w >> 3u32) & 1) << 20u32) | (((w >> 4u32) & 1) << 21u32) | (((w >> 5u32) & 1) << 22u32) | (((w
            >> 6u32) & 1) << 16u32) | (((w >> 7u32) & 1) << 14u32),
        draw_mode_stat(stat, w) == (stat & !0x87FFu32) | (w & 0x7FF) | (((w >> 11u32) & 1) << 15u32),
        field(0, 5).spec_extract(w) == w & 0x1F,
        field(5, 5).spec_extract(w) == (w >> 5u32) & 0x1F,
        field(10, 5).spec_extract(w) == (w >> 10u32) & 0x1F,
        field(15, 5).spec_extract(w) == (w >> 15u32) & 0x1F,
        field(0, 4).spec_extract(w) == w & 0xF,
        field(4, 1).spec_extract(w) == (w >> 4u32) & 1,
        field(9, 1).spec_extract(w) == (w >> 9u32) & 1,
        field(10, 1).spec_extract(w) == (w >> 10u32) & 1,
        field(11, 1).spec_extract(w) == (w >> 11u32) & 1,
        field(12, 1).spec_extract(w) == (w >> 12u32) & 1,
        field(13, 1).spec_extract(w) == (w >> 13u32) & 1,
        w & 0x1F < 32,
        (w >> 5u32) & 0x1F < 32,
        (w >> 10u32) & 0x1F < 32,
        (w >> 15u32) & 0x1F < 32,
        w & 0xF < 16,
        (w >> 4u32) & 1 < 2,
        (w >> 23u32) & 3 < 4,
        crate::system::gpu::command_gp1::reset_stat(stat) == (stat & 0x9E00_2000u32) | 0x0080_0000u32,
        field(0, 10).spec_extract(w) == w & 0x3FF,
        field(10, 9).spec_extract(w) == (w >> 10u32) & 0x1FF,
        field(10, 10).spec_extract(w) == (w >> 10u32) & 0x3FF,
        field(0, 11).spec_extract(w) == w & 0x7FF,
        field(11, 11).spec_extract(w) == (w >> 11u32) & 0x7FF,
        field(0, 12).spec_extract(w) == w & 0xFFF,
        field(12, 12).spec_extract(w) == (w >> 12u32) & 0xFFF,
        field(23, 1).spec_insert(stat, field(0, 1).spec_extract(w)) == (stat & !0x0080_0000u32) | ((w & 1) << 23u32),
        field(29, 2).spec_insert(stat, field(0, 2).spec_extract(w)) == (stat & !0x6000_0000u32) | ((w & 3) << 29u32),
        field(24, 1).spec_insert(stat, 0) == stat & !0x0100_0000u32,
        field(12, 1).spec_insert(field(11, 1).spec_insert(stat, w & 1), (w >> 1u32) & 1) == (stat & !0x1800u32) | ((w
            & 3) << 11u32),
        field(28, 1).spec_insert(
            field(27, 1).spec_insert(field(26, 1).spec_insert(stat, if a { 1u32 } else { 0u32 }), if b { 1u32 } else { 0u32 }),
            if a { 1u32 } else { 0u32 },
        ) == (stat & !0x1C00_0000u32) | (if a { 0x1400_0000u32 } else { 0u32 }) | (if b { 0x0800_0000u32 } else { 0u32 }),
{
}

/// Display Mode (GP1 08h) copies command bits 0-1 to GPUSTAT bits 17-18
/// (horizontal resolution), bit 2 to bit 19 (vertical resolution), bit 3 to
/// bit 20 (video mode, PAL), bit 4 to bit 21 (24-bit color), bit 5 to bit 22
/// (interlace), bit 6 to bit 16 (horizontal resolution 2) and bit 7 to bit 14
/// (reverse flag, false, false); every other GPUSTAT bit and all other state stay.
pub proof fn lemma_display_mode(w: u32, s0: GpuView, cs0: ControllerView, s1: GpuView, cs1: ControllerView)
    requires
        gp1_effect(8, w, s0, cs0, s1, cs1),
    ensures
        s1.stat.value == (s0.stat.value & !0x007F_4000u32) | ((w & 3) << 17u32) | (((w >> 2u32) & 1) << 19u32)
            | (((w >> 3u32) & 1) << 20u32) | (((w >> 4u32) & 1) << 21u32) | (((w >> 5u32) & 1) << 22u32) | (((w
            >> 6u32) & 1) << 16u32) | (((w >> 7u32) & 1) << 14u32),
        s1 == (GpuView { stat: s1.stat, ..s0 }),
        cs1 == cs0,
{
    lemma_setting_bits(s0.stat.value, w, false, false);
}

/// Texture Window setting (GP0 E2h): bits 0-4 times 8 are the X mask, bits
/// 5-9 times 8 the Y mask, bits 10-14 times 8 the X offset and bits 15-19
/// times 8 the Y offset; nothing else of the drawing state changes.
pub proof fn lemma_texture_window(cs: ControllerView, w: u32)
    ensures
        texture_window_state(cs, w).texture_window_mask_x == (w & 0x1F) * 8,
        texture_window_state(cs, w).texture_window_mask_y == ((w >> 5u32) & 0x1F) * 8,
        texture_window_state(cs, w).texture_window_offset_x == ((w >> 10u32) & 0x1F) * 8,
        texture_window_state(cs, w).texture_window_offset_y == ((w >> 15u32) & 0x1F) * 8,
        texture_window_state(cs, w) == (ControllerView {
            texture_window_mask_x: texture_window_state(cs, w).texture_window_mask_x,
            texture_window_mask_y: texture_window_state(cs, w).texture_window_mask_y,
            texture_window_offset_x: texture_window_state(cs, w).texture_window_offset_x,
            texture_window_offset_y: texture_window_state(cs, w).texture_window_offset_y,
            ..cs
        }),
{
    lemma_setting_bits(0, w, false, false);
}

/// Draw Mode setting (GP0 E1h): bits 0-3 times 64 are the texture page X
/// base, bit 4 times 256 its Y base, bits 9, 10, 11, 12 and 13 the dither,
/// draw-to-display, texture-disable and rectangle X/Y flip flags; GPUSTAT
/// gets bits 0-10 in place and bit 11 at bit 15, the other bits stay.
pub proof fn lemma_draw_mode(stat: u32, cs: ControllerView, w: u32)
    ensures
        draw_mode_stat(stat, w) == (stat & !0x87FFu32) | (w & 0x7FF) | (((w >> 11u32) & 1) << 15u32),
        draw_mode_state(cs, w).texpage_base_x == (w & 0xF) * 64,
        draw_mode_state(cs, w).texpage_base_y == ((w >> 4u32) & 1) * 256,
        draw_mode_state(cs, w).dither == ((w >> 9u32) & 1 != 0),
        draw_mode_state(cs, w).draw_to_display_area == ((w >> 10u32) & 1 != 0),
        draw_mode_state(cs, w).texture_disable == ((w >> 11u32) & 1 != 0),
        draw_mode_state(cs, w).textured_rect_x_flip == ((w >> 12u32) & 1 != 0),
        draw_mode_state(cs, w).textured_rect_y_flip == ((w >> 13u32) & 1 != 0),
{
    lemma_setting_bits(stat, w, false, false);
}


/// The GP1 display control commands, at their bit positions: 00h keeps
/// GPUSTAT bits 13, 25-28 and 31, sets bit 23 (display disabled), clears all
/// others and empties the GP0 FIFO, 01h empties the GP0 FIFO, 02h clears the
/// interrupt request (GPUSTAT bit 24), 03h puts command bit 0 in bit 23
/// (display disable), 04h command bits 0-1 in bits 29-30 (DMA direction),
/// 05h sets the display area start to bits 0-9 (X) and 10-18 (Y), 06h the
/// horizontal range to bits 0-11 and 12-23, 07h the vertical range to bits
/// 0-9 and 10-19.
pub proof fn lemma_display_control(i: u8, w: u32, s0: GpuView, cs0: ControllerView, s1: GpuView, cs1: ControllerView)
    requires
        gp1_effect(i, w, s0, cs0, s1, cs1),
    ensures
        i == 0 ==> s1.stat.value == (s0.stat.value & 0x9E00_2000u32) | 0x0080_0000u32 && s1.gp0.len() == 0,
        i == 1 ==> s1 == (GpuView { gp0: Seq::empty(), ..s0 }) && cs1 == cs0,
        i == 2 ==> s1.stat.value == s0.stat.value & !0x0100_0000u32 && cs1 == cs0,
        i == 3 ==> s1.stat.value == (s0.stat.value & !0x0080_0000u32) | ((w & 1) << 23u32) && cs1 == cs0,
        i == 4 ==> s1.stat.value == (s0.stat.value & !0x6000_0000u32) | ((w & 3) << 29u32) && cs1 == cs0,
        i == 5 ==> s1 == s0 && cs1 == (ControllerView {
            display_area_start_x: (w & 0x3FF) as usize,
            display_area_start_y: ((w >> 10u32) & 0x1FF) as usize,
            ..cs0
        }),
        i == 6 ==> s1 == s0 && cs1 == (ControllerView {
            horizontal_display_range_x1: (w & 0xFFF) as usize,
            horizontal_display_range_x2: ((w >> 12u32) & 0xFFF) as usize,
            ..cs0
        }),
        i == 7 ==> s1 == s0 && cs1 == (ControllerView {
            vertical_display_range_y1: (w & 0x3FF) as usize,
            vertical_display_range_y2: ((w >> 10u32) & 0x3FF) as usize,
            ..cs0
        }),
{
    lemma_setting_bits(s0.stat.value, w, false, false);
}

/// The GP0 setting commands, at their bit positions: E1h is Draw Mode (see
/// `lemma_draw_mode`), E2h Texture Window (see `lemma_texture_window`), E3h
/// and E4h set the drawing area's top left and bottom right corners to bits
/// 0-9 (X) and 10-18 (Y), E5h the drawing offset to bits 0-10 (X) and 11-21
/// (Y) as signed 11-bit numbers, E6h puts bits 0-1 (force and check the mask
/// bit) in GPUSTAT bits 11-12. None of them draws.
pub proof fn lemma_setting_commands(
    i: u8,
    data: Seq<u32>,
    s0: GpuView,
    cs0: ControllerView,
    vb0: Option<Seq<RequestView>>,
    s1: GpuView,
    cs1: ControllerView,
    vb1: Option<Seq<RequestView>>,
    r: Result<(), GpuError>,
)
    requires
        command_effect(i, data, s0, cs0, vb0, s1, cs1, vb1, r),
        0xE1 <= i <= 0xE6,
    ensures
        vb1 == vb0,
        r is Ok,
        i == 0xE1 ==> s1.stat.value == (s0.stat.value & !0x87FFu32) | (data[0] & 0x7FF) | (((data[0] >> 11u32) & 1)
            << 15u32) && cs1 == draw_mode_state(cs0, data[0]),
        i == 0xE2 ==> s1 == s0 && cs1 == texture_window_state(cs0, data[0]),
        i == 0xE3 ==> s1 == s0 && cs1 == (ControllerView {
            drawing_area_x1: (data[0] & 0x3FF) as usize,
            drawing_area_y1: ((data[0] >> 10u32) & 0x1FF) as usize,
            ..cs0
        }),
        i == 0xE4 ==> s1 == s0 && cs1 == (ControllerView {
            drawing_area_x2: (data[0] & 0x3FF) as usize,
            drawing_area_y2: ((data[0] >> 10u32) & 0x1FF) as usize,
            ..cs0
        }),
        i == 0xE5 ==> s1 == s0 && cs1 == (ControllerView {
            drawing_offset_x: sign_extend_11((data[0] & 0x7FF) as isize),
            drawing_offset_y: sign_extend_11(((data[0] >> 11u32) & 0x7FF) as isize),
            ..cs0
        }),
        i == 0xE6 ==> s1.stat.value == (s0.stat.value & !0x1800u32) | ((data[0] & 3) << 11u32) && cs1 == (
        ControllerView { mask_bit_force_set: data[0] & 1 != 0, mask_bit_check: data[0] & 2 != 0, ..cs0 }),
{
    reveal(command_effect);
    lemma_setting_bits(s0.stat.value, data[0], false, false);
}


/// The color of a command word: red in bits 0-7, green in 8-15, blue in 16-23.
pub open spec fn word_color(w: u32) -> Color {
    Color { r: w as u8, g: (w >> 8u32) as u8, b: (w >> 16u32) as u8 }
}

/// Where a vertex word puts a vertex: X from bits 0-10 and Y from bits 16-26,
/// each a signed 11-bit number, plus the drawing offset.
pub open spec fn word_vertex(cs: ControllerView, w: u32) -> Point2D<isize> {
    Point2D {
        x: (cs.drawing_offset_x + sign_extend_11((w & 0xFFFF) as isize)) as isize,
        y: (cs.drawing_offset_y + sign_extend_11((w >> 16u32) as isize)) as isize,
    }
}

/// The shaded drawing commands, with a renderer: each queues one request and
/// changes nothing else. Fill Rectangle (02h) fills with the color of word 0
/// the rectangle at X = word 1 bits 0-9 rounded down to a multiple of 16, Y
/// = word 1 bits 16-24, height word 2 bits 16-24. The monochrome quad (28h) has its four
/// vertices in words 1-4, all in the color of word 0; the shaded triangle
/// (30h) and quad (38h) alternate color and vertex words, starting with a
/// color in word 0.
pub proof fn lemma_shaded_draw_commands(
    i: u8,
    data: Seq<u32>,
    s0: GpuView,
    cs0: ControllerView,
    q: Seq<RequestView>,
    s1: GpuView,
    cs1: ControllerView,
    vb1: Option<Seq<RequestView>>,
    r: Result<(), GpuError>,
)
    requires
        command_effect(i, data, s0, cs0, Some(q), s1, cs1, vb1, r),
        i == 0x02 || i == 0x28 || i == 0x30 || i == 0x38,
    ensures
        s1 == s0 && cs1 == cs0 && r is Ok,
        i == 0x02 ==> {
            &&& vb1 matches Some(q1)
            &&& q1.len() == q.len() + 1
            &&& q1.drop_last() == q
            &&& q1.last() matches RequestView::DrawRectangle(p)
            &&& p.color == word_color(data[0])
            &&& p.rectangle.origin.x == ((data[1] & 0xFFFF) as isize) & 0x3F0
            &&& p.rectangle.origin.y == ((data[1] >> 16u32) as isize) & 0x1FF
            &&& p.rectangle.size.height == ((data[2] >> 16u32) as isize) & 0x1FF
        },
        i == 0x28 ==> {
            &&& vb1 matches Some(q1)
            &&& q1.len() == q.len() + 1
            &&& q1.drop_last() == q
            &&& q1.last() matches RequestView::DrawTriangles(t)
            &&& t.positions == seq![word_vertex(cs0, data[1]), word_vertex(cs0, data[2]), word_vertex(cs0, data[3]), word_vertex(cs0, data[4])]
            &&& t.colors == seq![word_color(data[0]), word_color(data[0]), word_color(data[0]), word_color(data[0])]
            &&& t.rendering_kind == RenderingKind::Shaded
            &&& t.transparency_kind == TransparencyKind::Opaque
        },
        i == 0x30 ==> {
            &&& vb1 matches Some(q1)
            &&& q1.len() == q.len() + 1
            &&& q1.drop_last() == q
            &&& q1.last() matches RequestView::DrawTriangles(t)
            &&& t.positions == seq![word_vertex(cs0, data[1]), word_vertex(cs0, data[3]), word_vertex(cs0, data[5])]
            &&& t.colors == seq![word_color(data[0]), word_color(data[2]), word_color(data[4])]
        },
        i == 0x38 ==> {
            &&& vb1 matches Some(q1)
            &&& q1.len() == q.len() + 1
            &&& q1.drop_last() == q
            &&& q1.last() matches RequestView::DrawTriangles(t)
            &&& t.positions == seq![word_vertex(cs0, data[1]), word_vertex(cs0, data[3]), word_vertex(cs0, data[5]), word_vertex(cs0, data[7])]
            &&& t.colors == seq![word_color(data[0]), word_color(data[2]), word_color(data[4]), word_color(data[6])]
        },
{
    reveal(command_effect);
    crate::system::gpu::data::lemma_isize_bits((data[1] & 0xFFFF) as isize, (data[1] & 0xFFFF) as isize);
    crate::system::gpu::data::lemma_isize_bits((data[1] >> 16u32) as isize, (data[1] >> 16u32) as isize);
}

/// GPUSTAT as the CPU reads it: the status register with bits 26 (ready for
/// a command) and 28 (ready for a DMA block) set exactly when the GP0 FIFO
/// has room, and bit 27 (ready to send VRAM) exactly when GPUREAD holds data.
pub proof fn lemma_gpustat(g: GpuView)
    ensures
        spec_gpustat(g) == (g.stat.value & !0x1C00_0000u32) | (if g.gp0.len() < GPU_FIFO_DEPTH { 0x1400_0000u32 } else {
            0u32
        }) | (if g.read.len() > 0 { 0x0800_0000u32 } else { 0u32 }),
{
    lemma_setting_bits(g.stat.value, 0, g.gp0.len() < GPU_FIFO_DEPTH, g.read.len() > 0);
}

/// A GP0 command's length covers every word it reads: with its words cut to
/// the length that `command_length` gives, a command has the same effect.
/// (The CPU to VRAM copy, A0h, takes as many words as its size asks for.)
pub proof fn lemma_command_length_covers_words(
    i: u8,
    data: Seq<u32>,
    n: usize,
    s0: GpuView,
    cs0: ControllerView,
    vb0: Option<Seq<RequestView>>,
    s1: GpuView,
    cs1: ControllerView,
    vb1: Option<Seq<RequestView>>,
    r: Result<(), GpuError>,
)
    requires
        spec_command_length(i, data) == Some(n),
        i != 0xA0,
        n <= data.len(),
    ensures
        command_effect(i, data, s0, cs0, vb0, s1, cs1, vb1, r) == command_effect(i, data.take(n as int), s0, cs0, vb0, s1, cs1, vb1, r),
{
    reveal(command_effect);
    reveal(spec_command_length);
    let t = data.take(n as int);
    assert forall|k: int| 0 <= k < n implies #[trigger] t[k] == data[k] by {}
    assert(t.len() == n);
    if n >= 9 {
        assert(t[0] == data[0] && t[1] == data[1] && t[2] == data[2] && t[3] == data[3] && t[4] == data[4]);
        assert(t[5] == data[5] && t[6] == data[6] && t[7] == data[7] && t[8] == data[8]);
    }
    if n >= 8 {
        assert(t[0] == data[0] && t[1] == data[1] && t[2] == data[2] && t[3] == data[3] && t[4] == data[4]);
        assert(t[5] == data[5] && t[6] == data[6] && t[7] == data[7]);
    }
    if n >= 6 {
        assert(t[0] == data[0] && t[1] == data[1] && t[2] == data[2] && t[3] == data[3] && t[4] == data[4] && t[5] == data[5]);
    }
    if n >= 5 {
        assert(t[0] == data[0] && t[1] == data[1] && t[2] == data[2] && t[3] == data[3] && t[4] == data[4]);
    }
    if n >= 4 {
        assert(t[0] == data[0] && t[1] == data[1] && t[2] == data[2] && t[3] == data[3]);
    }
    if n >= 3 {
        assert(t[0] == data[0] && t[1] == data[1] && t[2] == data[2]);
    }
    if n >= 1 {
        assert(t[0] == data[0]);
    }
}

/// Texture coordinates of a texcoord word: U in bits 0-7, V in bits 8-15.
pub open spec fn word_texcoord(w: u32) -> Size2D<isize> {
    Size2D { width: (w & 0xFF) as isize, height: ((w >> 8u32) & 0xFF) as isize }
}

/// The color table lookup that a texpage word (bits 23-24 of its high half:
/// 4-bit, 8-bit or 15-bit texels) and a CLUT word (X in 16-halfword units in
/// bits 16-21, Y in bits 22-30) select.
pub open spec fn word_clut(texpage: u32, clut: u32) -> ClutKind {
    let base = Point2D { x: (((clut >> 16u32) & 0x3F) * 16) as usize, y: ((clut >> 22u32) & 0x1FF) as usize };
    if (texpage >> 23u32) & 3 == 0 {
        ClutKind::Bits4 { clut_base: base }
    } else if (texpage >> 23u32) & 3 == 1 {
        ClutKind::Bits8 { clut_base: base }
    } else {
        ClutKind::Direct
    }
}

/// Textured four-point polygons, with a renderer: 2Ch (blended with the color
/// of word 0) and 2Dh (raw texture) take their vertices from words 1, 3, 5
/// and 7 and their texture coordinates from words 2, 4, 6 and 8; word 2's
/// high half is the CLUT, word 4's high half the texture page (X base bits
/// 16-19 times 64, Y base bit 20 times 256, color mode bits 23-24). The
/// reserved color mode 3 is refused and changes nothing.
pub proof fn lemma_textured_quad(
    i: u8,
    data: Seq<u32>,
    s0: GpuView,
    cs0: ControllerView,
    q: Seq<RequestView>,
    s1: GpuView,
    cs1: ControllerView,
    vb1: Option<Seq<RequestView>>,
    r: Result<(), GpuError>,
)
    requires
        command_effect(i, data, s0, cs0, Some(q), s1, cs1, vb1, r),
        i == 0x2C || i == 0x2D,
    ensures
        s1 == s0 && cs1 == cs0,
        (data[4] >> 23u32) & 3 == 3 ==> r == Err::<(), GpuError>(GpuError::ReservedClutMode) && vb1 == Some(q),
        (data[4] >> 23u32) & 3 != 3 ==> {
            let page_base = Point2D { x: (((data[4] >> 16u32) & 0xF) * 64) as usize, y: (((data[4] >> 20u32) & 1) * 256) as usize };
            &&& r is Ok
            &&& vb1 matches Some(q1)
            &&& q1.len() == q.len() + 1
            &&& q1.drop_last() == q
            &&& q1.last() matches RequestView::DrawTriangles(t)
            &&& t.positions == seq![word_vertex(cs0, data[1]), word_vertex(cs0, data[3]), word_vertex(cs0, data[5]), word_vertex(cs0, data[7])]
            &&& t.texture_position_offsets == seq![word_texcoord(data[2]), word_texcoord(data[4]), word_texcoord(data[6]), word_texcoord(data[8])]
            &&& i == 0x2C ==> t.colors == seq![word_color(data[0]), word_color(data[0]), word_color(data[0]), word_color(data[0])]
                && t.rendering_kind == RenderingKind::TextureBlending { page_base, clut_kind: word_clut(data[4], data[2]) }
            &&& i == 0x2D ==> t.rendering_kind == RenderingKind::RawTexture { page_base, clut_kind: word_clut(data[4], data[2]) }
        },
{
    reveal(command_effect);
    lemma_setting_bits(0, data[4], false, false);
    let t = seq![data[2], data[4], data[6], data[8]];
    assert(crate::system::gpu::command_gp0_impl::texcoords(t) =~= seq![word_texcoord(data[2]), word_texcoord(data[4]), word_texcoord(data[6]), word_texcoord(data[8])]);
    assert(seq![data[1], data[3], data[5], data[7]].map_values(|w: u32| crate::system::gpu::command_gp0_impl::vertex_position(cs0, w))
        =~= seq![word_vertex(cs0, data[1]), word_vertex(cs0, data[3]), word_vertex(cs0, data[5]), word_vertex(cs0, data[7])]);
    assert(Seq::new(4, |k: int| crate::system::gpu::data::spec_extract_color(data[0])) =~= seq![word_color(data[0]), word_color(data[0]), word_color(data[0]), word_color(data[0])]);
}

/// The VRAM rectangle of a copy command: X from bits 0-9 and Y from bits
/// 16-24 of the position word; width from bits 0-15 of the size word and
/// height from bits 16-31, each taken modulo 1024 (width) or 512 (height)
/// with 0 standing for the full 1024 or 512.
pub open spec fn word_copy_rectangle(position: u32, size: u32) -> Rect<usize> {
    Rect {
        origin: Point2D {
            x: (((position & 0xFFFF) as isize) & 0x3FF) as usize,
            y: (((position >> 16u32) as isize) & 0x1FF) as usize,
        },
        size: Size2D {
            width: spec_copy_size((size & 0xFFFF) as isize, 1024) as usize,
            height: spec_copy_size((size >> 16u32) as isize, 512) as usize,
        },
    }
}

/// The VRAM copies, with a renderer: A0h writes the pixels of the words from
/// word 3 on (two per word, low halfword first) into the rectangle of words 1
/// and 2; C0h asks the renderer for the rectangle of words 1 and 2. The
/// textured rectangle 65h sits at the vertex of word 1, has the size of word 3
/// (width bits 0-15, height bits 16-31), the texture coordinates (bits 0-15)
/// and CLUT (bits 16-31) of word 2, and the texture page and color mode of the
/// current draw mode; the reserved color mode is refused.
pub proof fn lemma_copy_and_sprite_commands(
    i: u8,
    data: Seq<u32>,
    s0: GpuView,
    cs0: ControllerView,
    q: Seq<RequestView>,
    s1: GpuView,
    cs1: ControllerView,
    vb1: Option<Seq<RequestView>>,
    r: Result<(), GpuError>,
)
    requires
        command_effect(i, data, s0, cs0, Some(q), s1, cs1, vb1, r),
        i == 0xA0 || i == 0xC0 || i == 0x65,
        data.len() >= 3,
    ensures
        s1 == s0 && cs1 == cs0,
        i == 0xA0 ==> {
            &&& r is Ok
            &&& vb1 matches Some(q1)
            &&& q1 == q.push(RequestView::WriteFramebuffer {
                rectangle: word_copy_rectangle(data[1], data[2]),
                data: Seq::new(2 * (data.len() - 3) as nat, |k: int| crate::color::PackedColor {
                    color: if k % 2 == 0 { data[3 + k / 2] as u16 } else { (data[3 + k / 2] >> 16u32) as u16 },
                }),
                mask_bit_force_set: cs0.mask_bit_force_set,
                mask_bit_check: cs0.mask_bit_check,
            })
        },
        i == 0xC0 ==> r is Ok && vb1 == Some(q.push(RequestView::ReadFramebuffer(word_copy_rectangle(data[1], data[2])))),
        (i == 0x65 && cs0.clut_mode == crate::system::gpu::types::ClutMode::Reserved) ==> r == Err::<(), GpuError>(
            GpuError::ReservedClutMode,
        ) && vb1 == Some(q),
        (i == 0x65 && cs0.clut_mode != crate::system::gpu::types::ClutMode::Reserved) ==> {
            &&& r is Ok
            &&& vb1 matches Some(q1)
            &&& q1.len() == q.len() + 1
            &&& q1.drop_last() == q
            &&& q1.last() matches RequestView::DrawRectangle(p)
            &&& p.rectangle.origin == word_vertex(cs0, data[1])
            &&& p.rectangle.size == Size2D { width: (data[3] & 0xFFFF) as isize, height: (data[3] >> 16u32) as isize }
            &&& p.texture_position_base_offset == word_texcoord(data[2])
            &&& p.rendering_kind matches RenderingKind::RawTexture { page_base, clut_kind }
            &&& page_base == Point2D { x: cs0.texpage_base_x, y: cs0.texpage_base_y }
        },
{
    reveal(command_effect);
    let pixels = crate::system::gpu::command_gp0_impl::unpack_pixels(data.subrange(3, data.len() as int));
    assert(pixels =~= Seq::new(2 * (data.len() - 3) as nat, |k: int| crate::color::PackedColor {
        color: if k % 2 == 0 { data[3 + k / 2] as u16 } else { (data[3 + k / 2] >> 16u32) as u16 },
    }));
}

} // verus!
