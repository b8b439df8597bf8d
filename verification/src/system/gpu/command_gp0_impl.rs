use vstd::prelude::*;
use crate::bitfield::{field, Bitfield};
use crate::color::{Color, PackedColor};
use crate::geometry::{Point2D, Rect, Size2D};
use crate::system::gpu::backend_dispatch::{
    draw_rectangle, draw_triangles, queued, read_framebuffer, write_framebuffer, VideoBackend,
};
use crate::system::gpu::data::{
    extract_clut_base, extract_position_offset, extract_size, extract_texpage_base,
    extract_texpage_clut_mode, extract_texpage_transparency_mode, extract_texture_position_offset,
    extract_texture_position_offsets_4, make_position, spec_clut_mode, spec_extract_clut_base,
    spec_extract_texpage_base, spec_extract_texture_position_offset, spec_transparency_mode,
    lemma_sign_extend_11_bounds, lemma_copy_bounds, lemma_isize_bits, lemma_word_fields, sign_extended_11, sign_extend_11, transparency_mode_of, clut_mode_of,
    transparency_mode_from_bits, clut_mode_from_bits,
    extract_color, extract_colors_3, extract_colors_4, extract_position_offsets_3,
    extract_position_offsets_4, lemma_render_offset_bounds, make_positions_3, make_positions_4,
    make_rectangle_by_corners, spec_extract_color, spec_extract_pair, spec_make_position,
    spec_rectangle_by_corners, Modifier,
};
use crate::system::gpu::rendering::{
    ClutKind, RectangleParams, spec_clut_kind, ReadFramebufferParams, WriteFramebufferParams,
    RenderingKind, RequestView, TransparencyKind, TrianglesParams, TrianglesView,
    spec_transparency_kind,
};
use crate::system::gpu::types::{ClutMode, ControllerState, ControllerView, GpuError, State as GpuState};
use std::collections::VecDeque;

verus! {

/// The drawing offset added to every vertex.
pub open spec fn drawing_offset(cs: ControllerView) -> Point2D<isize> {
    Point2D { x: cs.drawing_offset_x, y: cs.drawing_offset_y }
}

/// The clipping rectangle for drawing commands.
pub open spec fn drawing_area(cs: ControllerView) -> Rect<isize> {
    spec_rectangle_by_corners(cs.drawing_area_x1, cs.drawing_area_y1, cs.drawing_area_x2, cs.drawing_area_y2)
}

/// Screen position of a vertex word: the sign-extended 11-bit coordinates plus the drawing offset.
pub open spec fn vertex_position(cs: ControllerView, w: u32) -> Point2D<isize> {
    spec_make_position(drawing_offset(cs), spec_extract_pair(w, Modifier::RenderXPosition, Modifier::RenderYPosition))
}

pub open spec fn null_offsets(n: nat) -> Seq<Size2D<isize>> {
    Seq::new(n, |i: int| Size2D { width: 0isize, height: 0isize })
}

pub open spec fn null_color() -> Color {
    Color { r: 0, g: 0, b: 0 }
}

/// The triangles request of a polygon command whose vertices are the words `words`.
pub open spec fn polygon(
    cs: ControllerView,
    words: Seq<u32>,
    colors: Seq<Color>,
    texture_position_offsets: Seq<Size2D<isize>>,
    rendering_kind: RenderingKind,
    transparency_kind: TransparencyKind,
) -> TrianglesView {
    TrianglesView {
        vertices: words.len() as usize,
        positions: words.map_values(|w: u32| vertex_position(cs, w)),
        colors,
        texture_position_offsets,
        rendering_kind,
        transparency_kind,
        drawing_area: drawing_area(cs),
        mask_bit_force_set: cs.mask_bit_force_set,
        mask_bit_check: cs.mask_bit_check,
    }
}

fn vec3<T: Copy>(a: [T; 3]) -> (v: Vec<T>)
    ensures
        v@ == a@,
{
    let mut v = Vec::new();
    v.push(a[0]);
    v.push(a[1]);
    v.push(a[2]);
    assert(v@ =~= a@);
    v
}

fn vec4<T: Copy>(a: [T; 4]) -> (v: Vec<T>)
    ensures
        v@ == a@,
{
    let mut v = Vec::new();
    v.push(a[0]);
    v.push(a[1]);
    v.push(a[2]);
    v.push(a[3]);
    assert(v@ =~= a@);
    v
}

fn drawing_area_of(cs: &ControllerState) -> (r: Rect<isize>)
    requires
        cs.wf(),
    ensures
        r == drawing_area(cs@),
{
    make_rectangle_by_corners(cs.drawing_area_x1, cs.drawing_area_y1, cs.drawing_area_x2, cs.drawing_area_y2)
}

fn vertex_positions_3(cs: &ControllerState, words: [u32; 3]) -> (p: Vec<Point2D<isize>>)
    requires
        cs.wf(),
    ensures
        p@ == words@.map_values(|w: u32| vertex_position(cs@, w)),
{
    let base = Point2D::new(cs.drawing_offset_x, cs.drawing_offset_y);
    let offsets = extract_position_offsets_3(words, Modifier::RenderXPosition, Modifier::RenderYPosition);
    proof {
        lemma_render_offset_bounds(words@[0]);
        lemma_render_offset_bounds(words@[1]);
        lemma_render_offset_bounds(words@[2]);
    }
    let positions = make_positions_3(base, offsets);
    let p = vec3(positions);
    assert(p@ =~= words@.map_values(|w: u32| vertex_position(cs@, w)));
    p
}

fn vertex_positions_4(cs: &ControllerState, words: [u32; 4]) -> (p: Vec<Point2D<isize>>)
    requires
        cs.wf(),
    ensures
        p@ == words@.map_values(|w: u32| vertex_position(cs@, w)),
{
    let base = Point2D::new(cs.drawing_offset_x, cs.drawing_offset_y);
    let offsets = extract_position_offsets_4(words, Modifier::RenderXPosition, Modifier::RenderYPosition);
    proof {
        lemma_render_offset_bounds(words@[0]);
        lemma_render_offset_bounds(words@[1]);
        lemma_render_offset_bounds(words@[2]);
        lemma_render_offset_bounds(words@[3]);
    }
    let positions = make_positions_4(base, offsets);
    let p = vec4(positions);
    assert(p@ =~= words@.map_values(|w: u32| vertex_position(cs@, w)));
    p
}

fn null_offsets_vec(n: usize) -> (v: Vec<Size2D<isize>>)
    ensures
        v@ == null_offsets(n as nat),
{
    let mut v = Vec::new();
    let mut i: usize = 0;
    while i < n
        invariant
            i <= n,
            v@ == null_offsets(i as nat),
        decreases n - i,
    {
        v.push(Size2D::new(0, 0));
        i = i + 1;
        assert(v@ =~= null_offsets(i as nat));
    }
    v
}

/// Hands a polygon to the renderer; the renderer's own answer is not looked at.
fn submit_polygon(
    cs: &ControllerState,
    video_backend: &mut VideoBackend,
    positions: Vec<Point2D<isize>>,
    colors: Vec<Color>,
    texture_position_offsets: Vec<Size2D<isize>>,
    rendering_kind: RenderingKind,
    transparency_kind: TransparencyKind,
) -> (r: Result<(), GpuError>)
    requires
        cs.wf(),
        positions@.len() == 3 || positions@.len() == 4,
        colors@.len() == positions@.len(),
        texture_position_offsets@.len() == positions@.len(),
    ensures
        r is Ok,
        queued(
            old(video_backend)@,
            final(video_backend)@,
            RequestView::DrawTriangles(TrianglesView {
                vertices: positions.len(),
                positions: positions@,
                colors: colors@,
                texture_position_offsets: texture_position_offsets@,
                rendering_kind,
                transparency_kind,
                drawing_area: drawing_area(cs@),
                mask_bit_force_set: cs.mask_bit_force_set,
                mask_bit_check: cs.mask_bit_check,
            }),
        ),
{
    let drawing_area = drawing_area_of(cs);
    let vertices = positions.len();
    let _ = draw_triangles(video_backend, TrianglesParams {
        vertices,
        positions,
        colors,
        texture_position_offsets,
        rendering_kind,
        transparency_kind,
        drawing_area,
        mask_bit_force_set: cs.mask_bit_force_set,
        mask_bit_check: cs.mask_bit_check,
    });
    Ok(())
}

pub fn command_00_length(_data: &[u32]) -> (r: Option<usize>)
    ensures
        r == Some(1usize),
{
    Some(1)
}

pub fn command_01_length(_data: &[u32]) -> (r: Option<usize>)
    ensures
        r == Some(1usize),
{
    Some(1)
}

pub fn command_02_length(_data: &[u32]) -> (r: Option<usize>)
    ensures
        r == Some(3usize),
{
    Some(3)
}

pub fn command_05_length(_data: &[u32]) -> (r: Option<usize>)
    ensures
        r == Some(1usize),
{
    Some(1)
}

pub fn command_06_length(_data: &[u32]) -> (r: Option<usize>)
    ensures
        r == Some(1usize),
{
    Some(1)
}

pub fn command_0c_length(_data: &[u32]) -> (r: Option<usize>)
    ensures
        r == Some(1usize),
{
    Some(1)
}

pub fn command_20_length(_data: &[u32]) -> (r: Option<usize>)
    ensures
        r == Some(4usize),
{
    Some(4)
}

/// Monochrome three-point polygon, opaque.
pub fn command_20_handler(cs: &ControllerState, video_backend: &mut VideoBackend, data: &[u32]) -> (r: Result<(), GpuError>)
    requires
        cs.wf(),
        data@.len() >= 4,
    ensures
        r is Ok,
        queued(old(video_backend)@, final(video_backend)@, RequestView::DrawTriangles(polygon(
            cs@,
            seq![data@[1], data@[2], data@[3]],
            Seq::new(3, |i: int| spec_extract_color(data@[0])),
            null_offsets(3),
            RenderingKind::Shaded,
            TransparencyKind::Opaque,
        ))),
{
    let positions = vertex_positions_3(cs, [data[1], data[2], data[3]]);
    let color = extract_color(data[0]);
    let colors = vec3([color, color, color]);
    proof {
        assert(colors@ =~= Seq::new(3, |i: int| spec_extract_color(data@[0])));
        assert([data@[1], data@[2], data@[3]]@ =~= seq![data@[1], data@[2], data@[3]]);
    }
    submit_polygon(cs, video_backend, positions, colors, null_offsets_vec(3), RenderingKind::Shaded, TransparencyKind::Opaque)
}


pub fn command_22_length(_data: &[u32]) -> (r: Option<usize>)
    ensures
        r == Some(4usize),
{
    Some(4)
}

/// Monochrome three-point polygon, semi-transparent.
pub fn command_22_handler(cs: &ControllerState, video_backend: &mut VideoBackend, data: &[u32]) -> (r: Result<(), GpuError>)
    requires
        cs.wf(),
        data@.len() >= 4,
    ensures
        r is Ok,
        queued(old(video_backend)@, final(video_backend)@, RequestView::DrawTriangles(polygon(
            cs@,
            seq![data@[1], data@[2], data@[3]],
            Seq::new(3, |i: int| spec_extract_color(data@[0])),
            null_offsets(3),
            RenderingKind::Shaded,
            spec_transparency_kind(cs.transparency_mode),
        ))),
{
    let positions = vertex_positions_3(cs, [data[1], data[2], data[3]]);
    let color = extract_color(data[0]);
    let colors = vec3([color, color, color]);
    let transparency_kind = TransparencyKind::from_data(cs.transparency_mode);
    proof {
        assert(colors@ =~= Seq::new(3, |i: int| spec_extract_color(data@[0])));
        assert([data@[1], data@[2], data@[3]]@ =~= seq![data@[1], data@[2], data@[3]]);
    }
    submit_polygon(cs, video_backend, positions, colors, null_offsets_vec(3), RenderingKind::Shaded, transparency_kind)
}

pub fn command_28_length(_data: &[u32]) -> (r: Option<usize>)
    ensures
        r == Some(5usize),
{
    Some(5)
}

/// Monochrome four-point polygon, opaque.
pub fn command_28_handler(cs: &ControllerState, video_backend: &mut VideoBackend, data: &[u32]) -> (r: Result<(), GpuError>)
    requires
        cs.wf(),
        data@.len() >= 5,
    ensures
        r is Ok,
        queued(old(video_backend)@, final(video_backend)@, RequestView::DrawTriangles(polygon(
            cs@,
            seq![data@[1], data@[2], data@[3], data@[4]],
            Seq::new(4, |i: int| spec_extract_color(data@[0])),
            null_offsets(4),
            RenderingKind::Shaded,
            TransparencyKind::Opaque,
        ))),
{
    let positions = vertex_positions_4(cs, [data[1], data[2], data[3], data[4]]);
    let color = extract_color(data[0]);
    let colors = vec4([color, color, color, color]);
    proof {
        assert(colors@ =~= Seq::new(4, |i: int| spec_extract_color(data@[0])));
        assert([data@[1], data@[2], data@[3], data@[4]]@ =~= seq![data@[1], data@[2], data@[3], data@[4]]);
    }
    submit_polygon(cs, video_backend, positions, colors, null_offsets_vec(4), RenderingKind::Shaded, TransparencyKind::Opaque)
}

pub fn command_2a_length(_data: &[u32]) -> (r: Option<usize>)
    ensures
        r == Some(5usize),
{
    Some(5)
}

/// Monochrome four-point polygon, semi-transparent.
pub fn command_2a_handler(cs: &ControllerState, video_backend: &mut VideoBackend, data: &[u32]) -> (r: Result<(), GpuError>)
    requires
        cs.wf(),
        data@.len() >= 5,
    ensures
        r is Ok,
        queued(old(video_backend)@, final(video_backend)@, RequestView::DrawTriangles(polygon(
            cs@,
            seq![data@[1], data@[2], data@[3], data@[4]],
            Seq::new(4, |i: int| spec_extract_color(data@[0])),
            null_offsets(4),
            RenderingKind::Shaded,
            spec_transparency_kind(cs.transparency_mode),
        ))),
{
    let positions = vertex_positions_4(cs, [data[1], data[2], data[3], data[4]]);
    let color = extract_color(data[0]);
    let colors = vec4([color, color, color, color]);
    let transparency_kind = TransparencyKind::from_data(cs.transparency_mode);
    proof {
        assert(colors@ =~= Seq::new(4, |i: int| spec_extract_color(data@[0])));
        assert([data@[1], data@[2], data@[3], data@[4]]@ =~= seq![data@[1], data@[2], data@[3], data@[4]]);
    }
    submit_polygon(cs, video_backend, positions, colors, null_offsets_vec(4), RenderingKind::Shaded, transparency_kind)
}

/// Texture coordinates of the words `words`.
pub open spec fn texcoords(words: Seq<u32>) -> Seq<Size2D<isize>> {
    words.map_values(|w: u32| spec_extract_texture_position_offset(w))
}

/// The color table of a textured polygon: the mode from its texpage word, the base from its CLUT word.
pub open spec fn polygon_clut_kind(texpage: u32, clut: u32) -> ClutKind {
    spec_clut_kind(spec_clut_mode(texpage), spec_extract_clut_base(clut))
}

fn texture_offsets_4(words: [u32; 4]) -> (v: Vec<Size2D<isize>>)
    ensures
        v@ == texcoords(words@),
{
    let v = vec4(extract_texture_position_offsets_4(words));
    assert(v@ =~= texcoords(words@));
    v
}

/// Texture page and color table of a textured polygon; the reserved color mode is refused.
fn polygon_texture(texpage: u32, clut: u32) -> (r: Result<(Point2D<usize>, ClutKind), GpuError>)
    ensures
        spec_clut_mode(texpage) == ClutMode::Reserved ==> r == Err::<(Point2D<usize>, ClutKind), GpuError>(GpuError::ReservedClutMode),
        spec_clut_mode(texpage) != ClutMode::Reserved ==> r == Ok::<(Point2D<usize>, ClutKind), GpuError>(
            (spec_extract_texpage_base(texpage), polygon_clut_kind(texpage, clut)),
        ),
{
    let page_base = extract_texpage_base(texpage);
    let clut_mode = extract_texpage_clut_mode(texpage);
    if clut_mode == ClutMode::Reserved {
        return Err(GpuError::ReservedClutMode);
    }
    let clut_base = extract_clut_base(clut);
    Ok((page_base, ClutKind::from_data(clut_mode, clut_base)))
}

pub fn command_2c_length(_data: &[u32]) -> (r: Option<usize>)
    ensures
        r == Some(9usize),
{
    Some(9)
}

/// Textured four-point polygon, opaque, texture-blending.
pub fn command_2c_handler(cs: &ControllerState, video_backend: &mut VideoBackend, data: &[u32]) -> (r: Result<(), GpuError>)
    requires
        cs.wf(),
        data@.len() >= 9,
    ensures
        spec_clut_mode(data@[4]) == ClutMode::Reserved ==> r == Err::<(), GpuError>(GpuError::ReservedClutMode)
            && final(video_backend)@ == old(video_backend)@,
        spec_clut_mode(data@[4]) != ClutMode::Reserved ==> r is Ok && queued(old(video_backend)@, final(video_backend)@,
            RequestView::DrawTriangles(polygon(
                cs@,
                seq![data@[1], data@[3], data@[5], data@[7]],
                Seq::new(4, |i: int| spec_extract_color(data@[0])),
                texcoords(seq![data@[2], data@[4], data@[6], data@[8]]),
                RenderingKind::TextureBlending {
                    page_base: spec_extract_texpage_base(data@[4]),
                    clut_kind: polygon_clut_kind(data@[4], data@[2]),
                },
                TransparencyKind::Opaque,
            ))),
{
    let (page_base, clut_kind) = polygon_texture(data[4], data[2])?;
    let positions = vertex_positions_4(cs, [data[1], data[3], data[5], data[7]]);
    let color = extract_color(data[0]);
    let colors = vec4([color, color, color, color]);
    let texture_position_offsets = texture_offsets_4([data[2], data[4], data[6], data[8]]);
    proof {
        assert(colors@ =~= Seq::new(4, |i: int| spec_extract_color(data@[0])));
        assert([data@[1], data@[3], data@[5], data@[7]]@ =~= seq![data@[1], data@[3], data@[5], data@[7]]);
        assert([data@[2], data@[4], data@[6], data@[8]]@ =~= seq![data@[2], data@[4], data@[6], data@[8]]);
    }
    let rendering_kind = RenderingKind::TextureBlending { page_base, clut_kind };
    submit_polygon(cs, video_backend, positions, colors, texture_position_offsets, rendering_kind, TransparencyKind::Opaque)
}

pub fn command_2d_length(_data: &[u32]) -> (r: Option<usize>)
    ensures
        r == Some(9usize),
{
    Some(9)
}

/// Textured four-point polygon, opaque, raw-texture.
pub fn command_2d_handler(cs: &ControllerState, video_backend: &mut VideoBackend, data: &[u32]) -> (r: Result<(), GpuError>)
    requires
        cs.wf(),
        data@.len() >= 9,
    ensures
        spec_clut_mode(data@[4]) == ClutMode::Reserved ==> r == Err::<(), GpuError>(GpuError::ReservedClutMode)
            && final(video_backend)@ == old(video_backend)@,
        spec_clut_mode(data@[4]) != ClutMode::Reserved ==> r is Ok && queued(old(video_backend)@, final(video_backend)@,
            RequestView::DrawTriangles(polygon(
                cs@,
                seq![data@[1], data@[3], data@[5], data@[7]],
                Seq::new(4, |i: int| null_color()),
                texcoords(seq![data@[2], data@[4], data@[6], data@[8]]),
                RenderingKind::RawTexture {
                    page_base: spec_extract_texpage_base(data@[4]),
                    clut_kind: polygon_clut_kind(data@[4], data@[2]),
                },
                TransparencyKind::Opaque,
            ))),
{
    let (page_base, clut_kind) = polygon_texture(data[4], data[2])?;
    let positions = vertex_positions_4(cs, [data[1], data[3], data[5], data[7]]);
    let null = Color::new(0, 0, 0);
    let colors = vec4([null, null, null, null]);
    let texture_position_offsets = texture_offsets_4([data[2], data[4], data[6], data[8]]);
    proof {
        assert(colors@ =~= Seq::new(4, |i: int| null_color()));
        assert([data@[1], data@[3], data@[5], data@[7]]@ =~= seq![data@[1], data@[3], data@[5], data@[7]]);
        assert([data@[2], data@[4], data@[6], data@[8]]@ =~= seq![data@[2], data@[4], data@[6], data@[8]]);
    }
    let rendering_kind = RenderingKind::RawTexture { page_base, clut_kind };
    submit_polygon(cs, video_backend, positions, colors, texture_position_offsets, rendering_kind, TransparencyKind::Opaque)
}

pub fn command_2e_length(_data: &[u32]) -> (r: Option<usize>)
    ensures
        r == Some(9usize),
{
    Some(9)
}

/// Textured four-point polygon, semi-transparent, texture-blending; the
/// blending comes from the texpage word.
pub fn command_2e_handler(cs: &ControllerState, video_backend: &mut VideoBackend, data: &[u32]) -> (r: Result<(), GpuError>)
    requires
        cs.wf(),
        data@.len() >= 9,
    ensures
        spec_clut_mode(data@[4]) == ClutMode::Reserved ==> r == Err::<(), GpuError>(GpuError::ReservedClutMode)
            && final(video_backend)@ == old(video_backend)@,
        spec_clut_mode(data@[4]) != ClutMode::Reserved ==> r is Ok && queued(old(video_backend)@, final(video_backend)@,
            RequestView::DrawTriangles(polygon(
                cs@,
                seq![data@[1], data@[3], data@[5], data@[7]],
                Seq::new(4, |i: int| spec_extract_color(data@[0])),
                texcoords(seq![data@[2], data@[4], data@[6], data@[8]]),
                RenderingKind::TextureBlending {
                    page_base: spec_extract_texpage_base(data@[4]),
                    clut_kind: polygon_clut_kind(data@[4], data@[2]),
                },
                spec_transparency_kind(spec_transparency_mode(data@[4])),
            ))),
{
    let (page_base, clut_kind) = polygon_texture(data[4], data[2])?;
    let positions = vertex_positions_4(cs, [data[1], data[3], data[5], data[7]]);
    let color = extract_color(data[0]);
    let colors = vec4([color, color, color, color]);
    let texture_position_offsets = texture_offsets_4([data[2], data[4], data[6], data[8]]);
    let transparency_kind = TransparencyKind::from_data(extract_texpage_transparency_mode(data[4]));
    proof {
        assert(colors@ =~= Seq::new(4, |i: int| spec_extract_color(data@[0])));
        assert([data@[1], data@[3], data@[5], data@[7]]@ =~= seq![data@[1], data@[3], data@[5], data@[7]]);
        assert([data@[2], data@[4], data@[6], data@[8]]@ =~= seq![data@[2], data@[4], data@[6], data@[8]]);
    }
    let rendering_kind = RenderingKind::TextureBlending { page_base, clut_kind };
    submit_polygon(cs, video_backend, positions, colors, texture_position_offsets, rendering_kind, transparency_kind)
}

pub fn command_30_length(_data: &[u32]) -> (r: Option<usize>)
    ensures
        r == Some(6usize),
{
    Some(6)
}

/// Shaded three-point polygon, opaque: a color word before each vertex word.
pub fn command_30_handler(cs: &ControllerState, video_backend: &mut VideoBackend, data: &[u32]) -> (r: Result<(), GpuError>)
    requires
        cs.wf(),
        data@.len() >= 6,
    ensures
        r is Ok,
        queued(old(video_backend)@, final(video_backend)@, RequestView::DrawTriangles(polygon(
            cs@,
            seq![data@[1], data@[3], data@[5]],
            seq![data@[0], data@[2], data@[4]].map_values(|w: u32| spec_extract_color(w)),
            null_offsets(3),
            RenderingKind::Shaded,
            TransparencyKind::Opaque,
        ))),
{
    let positions = vertex_positions_3(cs, [data[1], data[3], data[5]]);
    let colors = vec3(extract_colors_3([data[0], data[2], data[4]]));
    proof {
        assert([data@[1], data@[3], data@[5]]@ =~= seq![data@[1], data@[3], data@[5]]);
        assert([data@[0], data@[2], data@[4]]@ =~= seq![data@[0], data@[2], data@[4]]);
    }
    submit_polygon(cs, video_backend, positions, colors, null_offsets_vec(3), RenderingKind::Shaded, TransparencyKind::Opaque)
}

pub fn command_38_length(_data: &[u32]) -> (r: Option<usize>)
    ensures
        r == Some(8usize),
{
    Some(8)
}

/// Shaded four-point polygon, opaque.
pub fn command_38_handler(cs: &ControllerState, video_backend: &mut VideoBackend, data: &[u32]) -> (r: Result<(), GpuError>)
    requires
        cs.wf(),
        data@.len() >= 8,
    ensures
        r is Ok,
        queued(old(video_backend)@, final(video_backend)@, RequestView::DrawTriangles(polygon(
            cs@,
            seq![data@[1], data@[3], data@[5], data@[7]],
            seq![data@[0], data@[2], data@[4], data@[6]].map_values(|w: u32| spec_extract_color(w)),
            null_offsets(4),
            RenderingKind::Shaded,
            TransparencyKind::Opaque,
        ))),
{
    let positions = vertex_positions_4(cs, [data[1], data[3], data[5], data[7]]);
    let colors = vec4(extract_colors_4([data[0], data[2], data[4], data[6]]));
    proof {
        assert([data@[1], data@[3], data@[5], data@[7]]@ =~= seq![data@[1], data@[3], data@[5], data@[7]]);
        assert([data@[0], data@[2], data@[4], data@[6]]@ =~= seq![data@[0], data@[2], data@[4], data@[6]]);
    }
    submit_polygon(cs, video_backend, positions, colors, null_offsets_vec(4), RenderingKind::Shaded, TransparencyKind::Opaque)
}

pub fn command_3c_length(_data: &[u32]) -> (r: Option<usize>)
    ensures
        r == Some(12usize),
{
    Some(12)
}

pub fn command_3e_length(_data: &[u32]) -> (r: Option<usize>)
    ensures
        r == Some(12usize),
{
    Some(12)
}

/// Shaded textured four-point polygon, semi-transparent, texture-blending:
/// each vertex has a color, a position and a texture coordinate word.
pub fn command_3e_handler(cs: &ControllerState, video_backend: &mut VideoBackend, data: &[u32]) -> (r: Result<(), GpuError>)
    requires
        cs.wf(),
        data@.len() >= 12,
    ensures
        spec_clut_mode(data@[5]) == ClutMode::Reserved ==> r == Err::<(), GpuError>(GpuError::ReservedClutMode)
            && final(video_backend)@ == old(video_backend)@,
        spec_clut_mode(data@[5]) != ClutMode::Reserved ==> r is Ok && queued(old(video_backend)@, final(video_backend)@,
            RequestView::DrawTriangles(polygon(
                cs@,
                seq![data@[1], data@[4], data@[7], data@[10]],
                seq![data@[0], data@[3], data@[6], data@[9]].map_values(|w: u32| spec_extract_color(w)),
                texcoords(seq![data@[2], data@[5], data@[8], data@[11]]),
                RenderingKind::TextureBlending {
                    page_base: spec_extract_texpage_base(data@[5]),
                    clut_kind: polygon_clut_kind(data@[5], data@[2]),
                },
                spec_transparency_kind(spec_transparency_mode(data@[5])),
            ))),
{
    let (page_base, clut_kind) = polygon_texture(data[5], data[2])?;
    let positions = vertex_positions_4(cs, [data[1], data[4], data[7], data[10]]);
    let colors = vec4(extract_colors_4([data[0], data[3], data[6], data[9]]));
    let texture_position_offsets = texture_offsets_4([data[2], data[5], data[8], data[11]]);
    let transparency_kind = TransparencyKind::from_data(extract_texpage_transparency_mode(data[5]));
    proof {
        assert([data@[1], data@[4], data@[7], data@[10]]@ =~= seq![data@[1], data@[4], data@[7], data@[10]]);
        assert([data@[0], data@[3], data@[6], data@[9]]@ =~= seq![data@[0], data@[3], data@[6], data@[9]]);
        assert([data@[2], data@[5], data@[8], data@[11]]@ =~= seq![data@[2], data@[5], data@[8], data@[11]]);
    }
    let rendering_kind = RenderingKind::TextureBlending { page_base, clut_kind };
    submit_polygon(cs, video_backend, positions, colors, texture_position_offsets, rendering_kind, transparency_kind)
}

pub fn command_50_length(_data: &[u32]) -> (r: Option<usize>)
    ensures
        r == Some(4usize),
{
    Some(4)
}

pub fn command_6f_length(_data: &[u32]) -> (r: Option<usize>)
    ensures
        r == Some(3usize),
{
    Some(3)
}

pub fn command_80_length(_data: &[u32]) -> (r: Option<usize>)
    ensures
        r == Some(4usize),
{
    Some(4)
}


/// Fill Rectangle in VRAM: a solid rectangle, not clipped to the drawing area
/// nor moved by the drawing offset.
pub open spec fn fill_rectangle(data: Seq<u32>) -> RectangleParams {
    RectangleParams {
        rectangle: Rect {
            origin: spec_make_position(
                Point2D { x: 0isize, y: 0isize },
                spec_extract_pair(data[1], Modifier::FillXPosition, Modifier::FillYPosition),
            ),
            size: spec_extract_pair(data[2], Modifier::FillXSize, Modifier::FillYSize),
        },
        color: spec_extract_color(data[0]),
        texture_position_base_offset: Size2D { width: 0isize, height: 0isize },
        rendering_kind: RenderingKind::Shaded,
        transparency_kind: TransparencyKind::Opaque,
        drawing_area: Rect { origin: Point2D { x: 0isize, y: 0isize }, size: Size2D { width: 1024isize, height: 512isize } },
        mask_bit_force_set: false,
        mask_bit_check: false,
    }
}

/// Fill Rectangle in VRAM.
pub fn command_02_handler(video_backend: &mut VideoBackend, data: &[u32]) -> (r: Result<(), GpuError>)
    requires
        data@.len() >= 3,
    ensures
        r is Ok,
        queued(old(video_backend)@, final(video_backend)@, RequestView::DrawRectangle(fill_rectangle(data@))),
{
    let base = Point2D::new(0, 0);
    let offset = extract_position_offset(data[1], Modifier::FillXPosition, Modifier::FillYPosition);
    proof {
        let w = data@[1];
        let x = (w & 0xFFFF) as isize;
        let y = (w >> 16u32) as isize;
        lemma_isize_bits(x, x);
        lemma_isize_bits(y, y);
    }
    let origin = make_position(base, offset);
    let size = extract_size(data[2], Modifier::FillXSize, Modifier::FillYSize);
    let rectangle = Rect::new(origin, size);
    let color = extract_color(data[0]);
    let drawing_area = Rect::new(Point2D::new(0, 0), Size2D::new(1024, 512));
    let _ = draw_rectangle(video_backend, RectangleParams {
        rectangle,
        color,
        texture_position_base_offset: Size2D::new(0, 0),
        rendering_kind: RenderingKind::Shaded,
        transparency_kind: TransparencyKind::Opaque,
        drawing_area,
        mask_bit_force_set: false,
        mask_bit_check: false,
    });
    Ok(())
}

/// A textured rectangle at the vertex word `position` (moved by the drawing
/// offset), textured from the current texture page with the color table of
/// the CLUT word `clut`, using the current texture color mode.
pub open spec fn textured_rectangle(
    cs: ControllerView,
    position: u32,
    size: Size2D<isize>,
    color: Color,
    clut: u32,
    blending: bool,
) -> RectangleParams {
    let page_base = Point2D { x: cs.texpage_base_x, y: cs.texpage_base_y };
    let clut_kind = spec_clut_kind(cs.clut_mode, spec_extract_clut_base(clut));
    RectangleParams {
        rectangle: Rect { origin: vertex_position(cs, position), size },
        color,
        texture_position_base_offset: spec_extract_texture_position_offset(clut),
        rendering_kind: if blending {
            RenderingKind::TextureBlending { page_base, clut_kind }
        } else {
            RenderingKind::RawTexture { page_base, clut_kind }
        },
        transparency_kind: TransparencyKind::Opaque,
        drawing_area: drawing_area(cs),
        mask_bit_force_set: cs.mask_bit_force_set,
        mask_bit_check: cs.mask_bit_check,
    }
}

fn submit_textured_rectangle(
    cs: &ControllerState,
    video_backend: &mut VideoBackend,
    position: u32,
    size: Size2D<isize>,
    color: Color,
    clut: u32,
    blending: bool,
) -> (r: Result<(), GpuError>)
    requires
        cs.wf(),
    ensures
        cs.clut_mode == ClutMode::Reserved ==> r == Err::<(), GpuError>(GpuError::ReservedClutMode)
            && final(video_backend)@ == old(video_backend)@,
        cs.clut_mode != ClutMode::Reserved ==> r is Ok && queued(old(video_backend)@, final(video_backend)@,
            RequestView::DrawRectangle(textured_rectangle(cs@, position, size, color, clut, blending))),
{
    if cs.clut_mode == ClutMode::Reserved {
        return Err(GpuError::ReservedClutMode);
    }
    let base = Point2D::new(cs.drawing_offset_x, cs.drawing_offset_y);
    let offset = extract_position_offset(position, Modifier::RenderXPosition, Modifier::RenderYPosition);
    proof {
        lemma_render_offset_bounds(position);
    }
    let origin = make_position(base, offset);
    let rectangle = Rect::new(origin, size);
    let texture_position_base_offset = extract_texture_position_offset(clut);
    let page_base = Point2D::new(cs.texpage_base_x, cs.texpage_base_y);
    let clut_base = extract_clut_base(clut);
    let clut_kind = ClutKind::from_data(cs.clut_mode, clut_base);
    let rendering_kind = if blending {
        RenderingKind::TextureBlending { page_base, clut_kind }
    } else {
        RenderingKind::RawTexture { page_base, clut_kind }
    };
    let drawing_area = drawing_area_of(cs);
    let _ = draw_rectangle(video_backend, RectangleParams {
        rectangle,
        color,
        texture_position_base_offset,
        rendering_kind,
        transparency_kind: TransparencyKind::Opaque,
        drawing_area,
        mask_bit_force_set: cs.mask_bit_force_set,
        mask_bit_check: cs.mask_bit_check,
    });
    Ok(())
}

pub fn command_65_length(_data: &[u32]) -> (r: Option<usize>)
    ensures
        r == Some(4usize),
{
    Some(4)
}

/// Textured Rectangle, variable size, opaque, raw-texture.
pub fn command_65_handler(cs: &ControllerState, video_backend: &mut VideoBackend, data: &[u32]) -> (r: Result<(), GpuError>)
    requires
        cs.wf(),
        data@.len() >= 4,
    ensures
        cs.clut_mode == ClutMode::Reserved ==> r == Err::<(), GpuError>(GpuError::ReservedClutMode)
            && final(video_backend)@ == old(video_backend)@,
        cs.clut_mode != ClutMode::Reserved ==> r is Ok && queued(old(video_backend)@, final(video_backend)@,
            RequestView::DrawRectangle(textured_rectangle(
                cs@,
                data@[1],
                spec_extract_pair(data@[3], Modifier::RenderXSize, Modifier::RenderYSize),
                null_color(),
                data@[2],
                false,
            ))),
{
    let size = extract_size(data[3], Modifier::RenderXSize, Modifier::RenderYSize);
    submit_textured_rectangle(cs, video_backend, data[1], size, Color::new(0, 0, 0), data[2], false)
}

pub fn command_7c_length(_data: &[u32]) -> (r: Option<usize>)
    ensures
        r == Some(3usize),
{
    Some(3)
}

/// Textured Rectangle, 16x16, opaque, texture-blending.
pub fn command_7c_handler(cs: &ControllerState, video_backend: &mut VideoBackend, data: &[u32]) -> (r: Result<(), GpuError>)
    requires
        cs.wf(),
        data@.len() >= 3,
    ensures
        cs.clut_mode == ClutMode::Reserved ==> r == Err::<(), GpuError>(GpuError::ReservedClutMode)
            && final(video_backend)@ == old(video_backend)@,
        cs.clut_mode != ClutMode::Reserved ==> r is Ok && queued(old(video_backend)@, final(video_backend)@,
            RequestView::DrawRectangle(textured_rectangle(
                cs@,
                data@[1],
                Size2D { width: 16isize, height: 16isize },
                spec_extract_color(data@[0]),
                data@[2],
                true,
            ))),
{
    let color = extract_color(data[0]);
    submit_textured_rectangle(cs, video_backend, data[1], Size2D::new(16, 16), color, data[2], true)
}

/// Number of words of a CPU to VRAM copy: three header words, then two
/// pixels per word for the copy's size as the third word gives it (through
/// the copy size modifiers: a width of 0 means 1024, a height of 0 means 512).
pub open spec fn spec_a0_length(size_word: u32) -> usize {
    let s = spec_extract_pair(size_word, Modifier::CopyXSize, Modifier::CopyYSize);
    (3 + (s.width * s.height + 1) / 2) as usize
}

pub fn command_a0_length(data: &[u32]) -> (r: Option<usize>)
    ensures
        data@.len() < 3 ==> r is None,
        data@.len() >= 3 ==> r == Some(spec_a0_length(data@[2])),
        r matches Some(n) ==> n >= 3,
{
    if data.len() < 3 {
        return None;
    }
    let size = extract_size(data[2], Modifier::CopyXSize, Modifier::CopyYSize);
    proof {
        lemma_copy_bounds(data@[2]);
    }
    let width = size.width as usize;
    let height = size.height as usize;
    assert(width * height <= 1024 * 512) by (nonlinear_arith)
        requires width <= 1024, height <= 512;
    assert(width * height == size.width * size.height);
    let count = width * height;
    let data_words = 3 + ((count + 1) / 2);
    Some(data_words)
}

/// The rectangle of a VRAM copy command: position word, then size word.
pub open spec fn copy_rectangle(position: u32, size: u32) -> Rect<usize> {
    let o = spec_extract_pair(position, Modifier::CopyXPosition, Modifier::CopyYPosition);
    let s = spec_extract_pair(size, Modifier::CopyXSize, Modifier::CopyYSize);
    Rect {
        origin: Point2D { x: o.width as usize, y: o.height as usize },
        size: Size2D { width: s.width as usize, height: s.height as usize },
    }
}

fn copy_rectangle_of(position: u32, size: u32) -> (r: Rect<usize>)
    ensures
        r == copy_rectangle(position, size),
        r.origin.x < 1024,
        r.origin.y < 512,
        1 <= r.size.width <= 1024,
        1 <= r.size.height <= 512,
{
    proof {
        lemma_copy_bounds(position);
        lemma_copy_bounds(size);
    }
    let base = Point2D::new(0, 0);
    let offset = extract_position_offset(position, Modifier::CopyXPosition, Modifier::CopyYPosition);
    let origin = make_position(base, offset).to_usize_checked();
    let size = extract_size(size, Modifier::CopyXSize, Modifier::CopyYSize).to_usize_checked();
    Rect::new(origin, size)
}

/// The pixels of a run of words, two per word, low halfword first.
pub open spec fn unpack_pixels(words: Seq<u32>) -> Seq<PackedColor> {
    Seq::new(
        2 * words.len(),
        |i: int|
            if i % 2 == 0 {
                PackedColor { color: words[i / 2] as u16 }
            } else {
                PackedColor { color: (words[i / 2] >> 16u32) as u16 }
            },
    )
}

/// Copy Rectangle (CPU to VRAM): the words after the three header words are
/// written, as pixels, into the rectangle.
pub fn command_a0_handler(cs: &ControllerState, video_backend: &mut VideoBackend, data: &[u32]) -> (r: Result<(), GpuError>)
    requires
        data@.len() >= 3,
    ensures
        r is Ok,
        queued(old(video_backend)@, final(video_backend)@, RequestView::WriteFramebuffer {
            rectangle: copy_rectangle(data@[1], data@[2]),
            data: unpack_pixels(data@.subrange(3, data@.len() as int)),
            mask_bit_force_set: cs.mask_bit_force_set,
            mask_bit_check: cs.mask_bit_check,
        }),
{
    let rectangle = copy_rectangle_of(data[1], data[2]);
    let mut texture_colors: Vec<PackedColor> = Vec::new();
    let mut i: usize = 3;
    while i < data.len()
        invariant
            3 <= i <= data@.len(),
            texture_colors@ == unpack_pixels(data@.subrange(3, i as int)),
        decreases data@.len() - i,
    {
        let colors = PackedColor::from_x2(data[i]);
        texture_colors.push(colors[0]);
        texture_colors.push(colors[1]);
        i = i + 1;
        assert(texture_colors@ =~= unpack_pixels(data@.subrange(3, i as int)));
    }
    assert(data@.subrange(3, i as int) =~= data@.subrange(3, data@.len() as int));
    let _ = write_framebuffer(video_backend, WriteFramebufferParams {
        rectangle,
        data: texture_colors,
        mask_bit_force_set: cs.mask_bit_force_set,
        mask_bit_check: cs.mask_bit_check,
    });
    Ok(())
}

pub fn command_c0_length(_data: &[u32]) -> (r: Option<usize>)
    ensures
        r == Some(3usize),
{
    Some(3)
}

/// Copy Rectangle (VRAM to CPU): asks the renderer for the rectangle's pixels,
/// which `complete_vram_to_cpu` then queues for GPUREAD. With no renderer the
/// copy fails.
pub fn command_c0_handler(video_backend: &mut VideoBackend, data: &[u32]) -> (r: Result<(), GpuError>)
    requires
        data@.len() >= 3,
    ensures
        old(video_backend)@ is None ==> r == Err::<(), GpuError>(GpuError::NoFramebufferBackend),
        old(video_backend)@ is Some ==> r is Ok,
        queued(old(video_backend)@, final(video_backend)@, RequestView::ReadFramebuffer(copy_rectangle(data@[1], data@[2]))),
{
    let rectangle = copy_rectangle_of(data[1], data[2]);
    match read_framebuffer(video_backend, ReadFramebufferParams { rectangle }) {
        Ok(()) => Ok(()),
        Err(()) => Err(GpuError::NoFramebufferBackend),
    }
}

/// Two pixels packed into a word, the first in the low halfword; a missing
/// second pixel counts as 0.
pub open spec fn pack_pixels(pixels: Seq<PackedColor>) -> Seq<u32> {
    Seq::new(
        ((pixels.len() + 1) / 2) as nat,
        |i: int|
            (pixels[2 * i].color as u32) | (((if 2 * i + 1 < pixels.len() {
                pixels[2 * i + 1].color
            } else {
                0u16
            }) as u32) << 16u32),
    )
}

/// Inserting two halfwords into a zero word is or-ing them in place.
pub proof fn lemma_pack_halves(l: u32, h: u32)
    by (bit_vector)
    requires
        l <= 0xFFFF,
        h <= 0xFFFF,
    ensures
        field(0, 16).spec_insert(0, l) == l,
        field(16, 16).spec_insert(l, h) == l | (h << 16u32),
{
}

/// Splitting a word into halfwords and joining them again gives it back, and
/// joining two halfwords then splitting gives them back.
pub proof fn lemma_halves(w: u32, lo: u16, hi: u16)
    by (bit_vector)
    ensures
        (w as u16 as u32) | (((w >> 16u32) as u16 as u32) << 16u32) == w,
        ((lo as u32) | ((hi as u32) << 16u32)) as u16 == lo,
        (((lo as u32) | ((hi as u32) << 16u32)) >> 16u32) as u16 == hi,
{
}

/// The pixels that a CPU to VRAM copy takes from its words, packed again as a
/// VRAM to CPU copy packs them, are the same words.
pub proof fn lemma_pack_unpack(words: Seq<u32>)
    ensures
        pack_pixels(unpack_pixels(words)) == words,
{
    let p = unpack_pixels(words);
    assert(pack_pixels(p).len() == words.len());
    assert forall|i: int| 0 <= i < words.len() implies #[trigger] pack_pixels(p)[i] == words[i] by {
        assert(p[2 * i] == PackedColor { color: words[i] as u16 });
        assert(p[2 * i + 1] == PackedColor { color: (words[i] >> 16u32) as u16 });
        lemma_halves(words[i], 0, 0);
    }
    assert(pack_pixels(p) =~= words);
}

/// An even number of pixels packed into words, then taken apart again, are the same pixels.
pub proof fn lemma_unpack_pack(pixels: Seq<PackedColor>)
    requires
        pixels.len() % 2 == 0,
    ensures
        unpack_pixels(pack_pixels(pixels)) == pixels,
{
    let w = pack_pixels(pixels);
    assert(unpack_pixels(w).len() == pixels.len());
    assert forall|j: int| 0 <= j < pixels.len() implies #[trigger] unpack_pixels(w)[j] == pixels[j] by {
        let i = j / 2;
        assert(2 * i + 1 < pixels.len());
        lemma_halves(0, pixels[2 * i].color, pixels[2 * i + 1].color);
    }
    assert(unpack_pixels(w) =~= pixels);
}

fn pack_word(low: u16, high: u16) -> (w: u32)
    ensures
        w == (low as u32) | ((high as u32) << 16u32),
{
    let mut word: u32 = 0;
    word = Bitfield::new(0, 16).insert_into(word, low as u32);
    word = Bitfield::new(16, 16).insert_into(word, high as u32);
    proof {
        lemma_pack_halves(low as u32, high as u32);
    }
    word
}

/// Finishes a VRAM to CPU copy with the pixels the renderer read: GPUREAD
/// and the read buffer are emptied, then the pixels are queued two to a word.
pub fn complete_vram_to_cpu(state: &mut GpuState, cs: &mut ControllerState, rectangle: Rect<usize>, data: Vec<PackedColor>)
    requires
        old(state).wf(),
        data@.len() == rectangle.size.width * rectangle.size.height,
    ensures
        final(state).wf(),
        final(state)@.read.len() == 0,
        final(state)@.gp0 == old(state)@.gp0,
        final(state).stat == old(state).stat,
        final(state).gp1 == old(state).gp1,
        final(state).gp1_command_pending == old(state).gp1_command_pending,
        final(cs)@ == (ControllerView { gp0_read_buffer: pack_pixels(data@), ..old(cs)@ }),
{
    let ghost pixels = data@;
    let pixel_count = data.len();
    let mut data = data;
    if data.len() % 2 != 0 {
        data.push(PackedColor::new(0));
    }
    state.read.clear();
    cs.gp0_read_buffer = VecDeque::new();

    let fifo_words = pixel_count / 2 + pixel_count % 2;
    assert(data@.len() >= 2 * fifo_words);
    let ghost cs_before = cs@;
    let total = data.len();
    let mut i: usize = 0;
    while i < fifo_words
        invariant
            i <= fifo_words,
            data@.len() == total,
            cs@ == (ControllerView { gp0_read_buffer: cs.gp0_read_buffer@, ..cs_before }),
            fifo_words == (pixels.len() + 1) / 2,
            data@.len() >= 2 * fifo_words,
            forall|j: int| 0 <= j < pixels.len() ==> data@[j] == pixels[j],
            forall|j: int| pixels.len() <= j < data@.len() ==> data@[j].color == 0,
            cs.gp0_read_buffer@ == pack_pixels(pixels).take(i as int),
        decreases fifo_words - i,
    {
        assert(i * 2 + 1 < data@.len());
        let word = pack_word(data[i * 2].color, data[i * 2 + 1].color);
        cs.gp0_read_buffer.push_back(word);
        i = i + 1;
        assert(cs.gp0_read_buffer@ =~= pack_pixels(pixels).take(i as int));
    }
    assert(pack_pixels(pixels).take(i as int) =~= pack_pixels(pixels));
}


pub fn command_e1_length(_data: &[u32]) -> (r: Option<usize>)
    ensures
        r == Some(1usize),
{
    Some(1)
}

/// GPUSTAT after a Draw Mode setting word `w`: its bits 0-10 are copied to
/// GPUSTAT bits 0-10 and its bit 11 (texture disable) to GPUSTAT bit 15.
pub open spec fn draw_mode_stat(stat: u32, w: u32) -> u32 {
    let s = field(0, 4).spec_insert(stat, field(0, 4).spec_extract(w));
    let s = field(4, 1).spec_insert(s, field(4, 1).spec_extract(w));
    let s = field(5, 2).spec_insert(s, field(5, 2).spec_extract(w));
    let s = field(7, 2).spec_insert(s, field(7, 2).spec_extract(w));
    let s = field(9, 1).spec_insert(s, field(9, 1).spec_extract(w));
    let s = field(10, 1).spec_insert(s, field(10, 1).spec_extract(w));
    field(15, 1).spec_insert(s, field(11, 1).spec_extract(w))
}

/// The drawing state after a Draw Mode setting word `w`.
pub open spec fn draw_mode_state(cs: ControllerView, w: u32) -> ControllerView {
    ControllerView {
        texpage_base_x: (field(0, 4).spec_extract(w) * 64) as usize,
        texpage_base_y: (field(4, 1).spec_extract(w) * 256) as usize,
        transparency_mode: transparency_mode_of(field(5, 2).spec_extract(w)),
        clut_mode: clut_mode_of(field(7, 2).spec_extract(w)),
        dither: field(9, 1).spec_extract(w) > 0,
        draw_to_display_area: field(10, 1).spec_extract(w) > 0,
        texture_disable: field(11, 1).spec_extract(w) > 0,
        textured_rect_x_flip: field(12, 1).spec_extract(w) > 0,
        textured_rect_y_flip: field(13, 1).spec_extract(w) > 0,
        ..cs
    }
}

/// Draw Mode setting: texture page, blending, color mode and flags, also shown in GPUSTAT.
pub fn command_e1_handler(state: &mut GpuState, cs: &mut ControllerState, data: &[u32]) -> (r: Result<(), GpuError>)
    requires
        old(cs).wf(),
        data@.len() >= 1,
    ensures
        r is Ok,
        final(cs).wf(),
        final(cs)@ == draw_mode_state(old(cs)@, data@[0]),
        final(state).stat.value == draw_mode_stat(old(state).stat.value, data@[0]),
        *final(state) == (GpuState { stat: final(state).stat, ..*old(state) }),
{
    let w = data[0];
    let texpage_base_x_raw = Bitfield::new(0, 4).extract_from(w);
    let texpage_base_y_raw = Bitfield::new(4, 1).extract_from(w);
    let transparency_mode_raw = Bitfield::new(5, 2).extract_from(w);
    let clut_mode_raw = Bitfield::new(7, 2).extract_from(w);
    let dither_raw = Bitfield::new(9, 1).extract_from(w);
    let draw_to_display_area_raw = Bitfield::new(10, 1).extract_from(w);
    let texture_disable_raw = Bitfield::new(11, 1).extract_from(w);
    let textured_rect_x_flip_raw = Bitfield::new(12, 1).extract_from(w);
    let textured_rect_y_flip_raw = Bitfield::new(13, 1).extract_from(w);
    proof {
        lemma_word_fields(w);
    }

    cs.texpage_base_x = texpage_base_x_raw as usize * 64;
    cs.texpage_base_y = texpage_base_y_raw as usize * 256;
    cs.transparency_mode = transparency_mode_from_bits(transparency_mode_raw);
    cs.clut_mode = clut_mode_from_bits(clut_mode_raw);
    cs.dither = dither_raw > 0;
    cs.draw_to_display_area = draw_to_display_area_raw > 0;
    cs.texture_disable = texture_disable_raw > 0;
    cs.textured_rect_x_flip = textured_rect_x_flip_raw > 0;
    cs.textured_rect_y_flip = textured_rect_y_flip_raw > 0;

    state.stat.write_bitfield(Bitfield::new(0, 4), texpage_base_x_raw);
    state.stat.write_bitfield(Bitfield::new(4, 1), texpage_base_y_raw);
    state.stat.write_bitfield(Bitfield::new(5, 2), transparency_mode_raw);
    state.stat.write_bitfield(Bitfield::new(7, 2), clut_mode_raw);
    state.stat.write_bitfield(Bitfield::new(9, 1), dither_raw);
    state.stat.write_bitfield(Bitfield::new(10, 1), draw_to_display_area_raw);
    state.stat.write_bitfield(Bitfield::new(15, 1), texture_disable_raw);
    Ok(())
}

pub fn command_e2_length(_data: &[u32]) -> (r: Option<usize>)
    ensures
        r == Some(1usize),
{
    Some(1)
}

/// The drawing state after a Texture Window setting word `w`: four 5-bit
/// fields, in units of 8 pixels.
pub open spec fn texture_window_state(cs: ControllerView, w: u32) -> ControllerView {
    ControllerView {
        texture_window_mask_x: (field(0, 5).spec_extract(w) * 8) as usize,
        texture_window_mask_y: (field(5, 5).spec_extract(w) * 8) as usize,
        texture_window_offset_x: (field(10, 5).spec_extract(w) * 8) as usize,
        texture_window_offset_y: (field(15, 5).spec_extract(w) * 8) as usize,
        ..cs
    }
}

/// Texture Window setting.
pub fn command_e2_handler(cs: &mut ControllerState, data: &[u32]) -> (r: Result<(), GpuError>)
    requires
        old(cs).wf(),
        data@.len() >= 1,
    ensures
        r is Ok,
        final(cs).wf(),
        final(cs)@ == texture_window_state(old(cs)@, data@[0]),
{
    let w = data[0];
    let mask_x = Bitfield::new(0, 5).extract_from(w);
    let mask_y = Bitfield::new(5, 5).extract_from(w);
    let offset_x = Bitfield::new(10, 5).extract_from(w);
    let offset_y = Bitfield::new(15, 5).extract_from(w);
    proof {
        lemma_word_fields(w);
    }
    cs.texture_window_mask_x = mask_x as usize * 8;
    cs.texture_window_mask_y = mask_y as usize * 8;
    cs.texture_window_offset_x = offset_x as usize * 8;
    cs.texture_window_offset_y = offset_y as usize * 8;
    Ok(())
}

pub fn command_e3_length(_data: &[u32]) -> (r: Option<usize>)
    ensures
        r == Some(1usize),
{
    Some(1)
}

/// Set Drawing Area top left: X in bits 0-9, Y in bits 10-18.
pub fn command_e3_handler(cs: &mut ControllerState, data: &[u32]) -> (r: Result<(), GpuError>)
    requires
        old(cs).wf(),
        data@.len() >= 1,
    ensures
        r is Ok,
        final(cs).wf(),
        final(cs)@ == (ControllerView {
            drawing_area_x1: field(0, 10).spec_extract(data@[0]) as usize,
            drawing_area_y1: field(10, 9).spec_extract(data@[0]) as usize,
            ..old(cs)@
        }),
{
    let w = data[0];
    let x = Bitfield::new(0, 10).extract_from(w);
    let y = Bitfield::new(10, 9).extract_from(w);
    proof {
        lemma_word_fields(w);
    }
    cs.drawing_area_x1 = x as usize;
    cs.drawing_area_y1 = y as usize;
    Ok(())
}

pub fn command_e4_length(_data: &[u32]) -> (r: Option<usize>)
    ensures
        r == Some(1usize),
{
    Some(1)
}

/// Set Drawing Area bottom right: X in bits 0-9, Y in bits 10-18.
pub fn command_e4_handler(cs: &mut ControllerState, data: &[u32]) -> (r: Result<(), GpuError>)
    requires
        old(cs).wf(),
        data@.len() >= 1,
    ensures
        r is Ok,
        final(cs).wf(),
        final(cs)@ == (ControllerView {
            drawing_area_x2: field(0, 10).spec_extract(data@[0]) as usize,
            drawing_area_y2: field(10, 9).spec_extract(data@[0]) as usize,
            ..old(cs)@
        }),
{
    let w = data[0];
    let x = Bitfield::new(0, 10).extract_from(w);
    let y = Bitfield::new(10, 9).extract_from(w);
    proof {
        lemma_word_fields(w);
    }
    cs.drawing_area_x2 = x as usize;
    cs.drawing_area_y2 = y as usize;
    Ok(())
}

pub fn command_e5_length(_data: &[u32]) -> (r: Option<usize>)
    ensures
        r == Some(1usize),
{
    Some(1)
}

/// Set Drawing Offset: two signed 11-bit values, X in bits 0-10, Y in bits 11-21.
pub fn command_e5_handler(cs: &mut ControllerState, data: &[u32]) -> (r: Result<(), GpuError>)
    requires
        old(cs).wf(),
        data@.len() >= 1,
    ensures
        r is Ok,
        final(cs).wf(),
        final(cs)@ == (ControllerView {
            drawing_offset_x: sign_extend_11(field(0, 11).spec_extract(data@[0]) as isize),
            drawing_offset_y: sign_extend_11(field(11, 11).spec_extract(data@[0]) as isize),
            ..old(cs)@
        }),
{
    let w = data[0];
    let x = Bitfield::new(0, 11).extract_from(w);
    let y = Bitfield::new(11, 11).extract_from(w);
    proof {
        lemma_word_fields(w);
    }
    cs.drawing_offset_x = sign_extended_11(x as isize);
    cs.drawing_offset_y = sign_extended_11(y as isize);
    Ok(())
}

pub fn command_e6_length(_data: &[u32]) -> (r: Option<usize>)
    ensures
        r == Some(1usize),
{
    Some(1)
}

/// Mask Bit Setting: bit 0 forces the mask bit on drawn pixels, bit 1 keeps
/// masked pixels; both are shown in GPUSTAT bits 11 and 12.
pub fn command_e6_handler(state: &mut GpuState, cs: &mut ControllerState, data: &[u32]) -> (r: Result<(), GpuError>)
    requires
        old(cs).wf(),
        data@.len() >= 1,
    ensures
        r is Ok,
        final(cs).wf(),
        final(cs)@ == (ControllerView {
            mask_bit_force_set: data@[0] & 1 != 0,
            mask_bit_check: data@[0] & 2 != 0,
            ..old(cs)@
        }),
        final(state).stat.value == field(12, 1).spec_insert(
            field(11, 1).spec_insert(old(state).stat.value, data@[0] & 1),
            (data@[0] >> 1u32) & 1,
        ),
        *final(state) == (GpuState { stat: final(state).stat, ..*old(state) }),
{
    let w = data[0];
    let mask_bit_force_set = Bitfield::new(0, 1).extract_from(w) > 0;
    let mask_bit_check = Bitfield::new(1, 1).extract_from(w) > 0;
    proof {
        lemma_word_fields(w);
    }
    cs.mask_bit_force_set = mask_bit_force_set;
    cs.mask_bit_check = mask_bit_check;
    state.stat.write_bitfield(Bitfield::new(11, 1), if mask_bit_force_set { 1 } else { 0 });
    state.stat.write_bitfield(Bitfield::new(12, 1), if mask_bit_check { 1 } else { 0 });
    Ok(())
}

} // verus!
