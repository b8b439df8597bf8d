use vstd::prelude::*;
use crate::color::{Color, PackedColor};
use crate::geometry::{Point2D, Rect, Size2D};
use crate::system::gpu::types::{ClutMode, TransparencyMode};

verus! {

/// Where a textured primitive finds its color table, if it uses one.
#[derive(Clone, Copy, Debug, PartialEq, Eq)]
pub enum ClutKind {
    Direct,
    Bits4 { clut_base: Point2D<usize> },
    Bits8 { clut_base: Point2D<usize> },
}

pub open spec fn spec_clut_kind(mode: ClutMode, base: Point2D<usize>) -> ClutKind {
    match mode {
        ClutMode::Bits4 => ClutKind::Bits4 { clut_base: base },
        ClutMode::Bits8 => ClutKind::Bits8 { clut_base: base },
        _ => ClutKind::Direct,
    }
}

impl ClutKind {
    /// The color table lookup for a texture color mode; 15-bit textures use none.
    pub fn from_data(mode: ClutMode, base: Point2D<usize>) -> (k: ClutKind)
        requires
            mode != ClutMode::Reserved,
        ensures
            k == spec_clut_kind(mode, base),
    {
        match mode {
            ClutMode::Bits15 => ClutKind::Direct,
            ClutMode::Bits4 => ClutKind::Bits4 { clut_base: base },
            ClutMode::Bits8 => ClutKind::Bits8 { clut_base: base },
            ClutMode::Reserved => ClutKind::Direct,
        }
    }
}

/// How a primitive is blended with what is behind it.
#[derive(Clone, Copy, Debug, PartialEq, Eq, Structural)]
pub enum TransparencyKind {
    Opaque,
    Average,
    Additive,
    Difference,
    Quarter,
}

pub open spec fn spec_transparency_kind(mode: TransparencyMode) -> TransparencyKind {
    match mode {
        TransparencyMode::Average => TransparencyKind::Average,
        TransparencyMode::Additive => TransparencyKind::Additive,
        TransparencyMode::Difference => TransparencyKind::Difference,
        TransparencyMode::Quarter => TransparencyKind::Quarter,
    }
}

impl TransparencyKind {
    /// The blending of a semi-transparent primitive under a transparency mode.
    pub fn from_data(mode: TransparencyMode) -> (k: TransparencyKind)
        ensures
            k == spec_transparency_kind(mode),
            k != TransparencyKind::Opaque,
    {
        match mode {
            TransparencyMode::Additive => TransparencyKind::Additive,
            TransparencyMode::Average => TransparencyKind::Average,
            TransparencyMode::Difference => TransparencyKind::Difference,
            TransparencyMode::Quarter => TransparencyKind::Quarter,
        }
    }
}

/// How a primitive's pixels are colored.
#[derive(Clone, Copy, Debug, PartialEq, Eq)]
pub enum RenderingKind {
    Shaded,
    TextureBlending { page_base: Point2D<usize>, clut_kind: ClutKind },
    RawTexture { page_base: Point2D<usize>, clut_kind: ClutKind },
}

/// Shader selector for a rendering kind: 0 shaded, 1 texture blending, 2 raw texture.
pub fn rendering_mode_value(rendering_kind: RenderingKind) -> (v: u32)
    ensures
        v == (match rendering_kind {
            RenderingKind::Shaded => 0u32,
            RenderingKind::TextureBlending { .. } => 1u32,
            RenderingKind::RawTexture { .. } => 2u32,
        }),
{
    match rendering_kind {
        RenderingKind::Shaded => 0,
        RenderingKind::TextureBlending { .. } => 1,
        RenderingKind::RawTexture { .. } => 2,
    }
}

pub open spec fn spec_clut_mode_value(rendering_kind: RenderingKind) -> u32 {
    let clut_kind = match rendering_kind {
        RenderingKind::Shaded => ClutKind::Direct,
        RenderingKind::TextureBlending { clut_kind, .. } => clut_kind,
        RenderingKind::RawTexture { clut_kind, .. } => clut_kind,
    };
    match clut_kind {
        ClutKind::Direct => 0u32,
        ClutKind::Bits4 { .. } => 1u32,
        ClutKind::Bits8 { .. } => 2u32,
    }
}

/// Shader selector for the color table: 0 none (shaded or direct), 1 4-bit, 2 8-bit.
pub fn clut_mode_value(rendering_kind: RenderingKind) -> (v: u32)
    ensures
        v == spec_clut_mode_value(rendering_kind),
{
    let clut_kind = match rendering_kind {
        RenderingKind::Shaded => {
            return 0;
        },
        RenderingKind::TextureBlending { clut_kind, .. } => clut_kind,
        RenderingKind::RawTexture { clut_kind, .. } => clut_kind,
    };
    match clut_kind {
        ClutKind::Direct => 0,
        ClutKind::Bits4 { .. } => 1,
        ClutKind::Bits8 { .. } => 2,
    }
}

/// Shader selector for blending: 0 opaque, then average, additive, difference, quarter.
pub fn transparency_mode_value(transparency_kind: TransparencyKind) -> (v: u32)
    ensures
        v == (match transparency_kind {
            TransparencyKind::Opaque => 0u32,
            TransparencyKind::Average => 1u32,
            TransparencyKind::Additive => 2u32,
            TransparencyKind::Difference => 3u32,
            TransparencyKind::Quarter => 4u32,
        }),
{
    match transparency_kind {
        TransparencyKind::Opaque => 0,
        TransparencyKind::Average => 1,
        TransparencyKind::Additive => 2,
        TransparencyKind::Difference => 3,
        TransparencyKind::Quarter => 4,
    }
}

/// Read a rectangle of VRAM.
#[derive(Clone, Copy, Debug, PartialEq, Eq)]
pub struct ReadFramebufferParams {
    pub rectangle: Rect<usize>,
}

/// Write pixels, row by row, into a rectangle of VRAM.
#[derive(Clone, Debug)]
pub struct WriteFramebufferParams {
    pub rectangle: Rect<usize>,
    pub data: Vec<PackedColor>,
    pub mask_bit_force_set: bool,
    pub mask_bit_check: bool,
}

/// Draw an axis-aligned rectangle.
#[derive(Clone, Copy, Debug, PartialEq, Eq)]
pub struct RectangleParams {
    pub rectangle: Rect<isize>,
    pub color: Color,
    pub texture_position_base_offset: Size2D<isize>,
    pub rendering_kind: RenderingKind,
    pub transparency_kind: TransparencyKind,
    pub drawing_area: Rect<isize>,
    pub mask_bit_force_set: bool,
    pub mask_bit_check: bool,
}

/// Draw a triangle (3 vertices) or a quad as two triangles (4 vertices).
#[derive(Clone, Debug)]
pub struct TrianglesParams {
    pub vertices: usize,
    pub positions: Vec<Point2D<isize>>,
    pub colors: Vec<Color>,
    pub texture_position_offsets: Vec<Size2D<isize>>,
    pub rendering_kind: RenderingKind,
    pub transparency_kind: TransparencyKind,
    pub drawing_area: Rect<isize>,
    pub mask_bit_force_set: bool,
    pub mask_bit_check: bool,
}

/// Contents of a triangles request.
pub struct TrianglesView {
    pub vertices: usize,
    pub positions: Seq<Point2D<isize>>,
    pub colors: Seq<Color>,
    pub texture_position_offsets: Seq<Size2D<isize>>,
    pub rendering_kind: RenderingKind,
    pub transparency_kind: TransparencyKind,
    pub drawing_area: Rect<isize>,
    pub mask_bit_force_set: bool,
    pub mask_bit_check: bool,
}

impl View for TrianglesParams {
    type V = TrianglesView;

    open spec fn view(&self) -> TrianglesView {
        TrianglesView {
            vertices: self.vertices,
            positions: self.positions@,
            colors: self.colors@,
            texture_position_offsets: self.texture_position_offsets@,
            rendering_kind: self.rendering_kind,
            transparency_kind: self.transparency_kind,
            drawing_area: self.drawing_area,
            mask_bit_force_set: self.mask_bit_force_set,
            mask_bit_check: self.mask_bit_check,
        }
    }
}

/// A piece of work for the renderer.
#[derive(Clone, Debug)]
pub enum BackendRequest {
    ReadFramebuffer(ReadFramebufferParams),
    WriteFramebuffer(WriteFramebufferParams),
    DrawRectangle(RectangleParams),
    DrawTriangles(TrianglesParams),
    Render,
}

/// Contents of a renderer request.
pub enum RequestView {
    ReadFramebuffer(Rect<usize>),
    WriteFramebuffer { rectangle: Rect<usize>, data: Seq<PackedColor>, mask_bit_force_set: bool, mask_bit_check: bool },
    DrawRectangle(RectangleParams),
    DrawTriangles(TrianglesView),
    Render,
}

impl View for BackendRequest {
    type V = RequestView;

    open spec fn view(&self) -> RequestView {
        match self {
            BackendRequest::ReadFramebuffer(p) => RequestView::ReadFramebuffer(p.rectangle),
            BackendRequest::WriteFramebuffer(p) => RequestView::WriteFramebuffer {
                rectangle: p.rectangle,
                data: p.data@,
                mask_bit_force_set: p.mask_bit_force_set,
                mask_bit_check: p.mask_bit_check,
            },
            BackendRequest::DrawRectangle(p) => RequestView::DrawRectangle(*p),
            BackendRequest::DrawTriangles(p) => RequestView::DrawTriangles(p@),
            BackendRequest::Render => RequestView::Render,
        }
    }
}

} // verus!
