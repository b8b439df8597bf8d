use vstd::prelude::*;
use crate::bitfield::field;
use crate::color::Color;
use crate::geometry::{Point2D, Rect, Size2D};
use crate::system::gpu::types::{ClutMode, TransparencyMode};

verus! {

/// Rounding the low 10 bits of `d` up to a multiple of 16 by masking
/// (`f` is those bits plus 15).
pub proof fn lemma_round_up_16(d: isize, f: isize)
    by (bit_vector)
    ensures
        f == (d & 0x3FF) + 0xF ==> f & !0xFisize == ((d & 0x3FF) + 15) / 16 * 16,
{
}

/// Bit facts about the masks applied to signed coordinates (`e` stands for `d - 1`).
pub proof fn lemma_isize_bits(d: isize, e: isize)
    by (bit_vector)
    ensures
        0 <= d & 0x7FF <= 0x7FF,
        d == 0 ==> d & 0x7FF == 0,
        (d & 0x7FF) & 0x400 != 0 ==> d & 0x7FF >= 0x400,
        (d & 0x7FF) & 0x400 == 0 ==> d & 0x7FF < 0x400,
        0 <= d & 0x3F0 <= 0x3F0,
        (d & 0x3F0) % 16 == 0,
        0 <= d & 0x1FF < 512,
        0 <= d & 0x3FF < 1024,
        e == d - 1 ==> 0 <= e & 0x3FF < 1024,
        e == d - 1 && d & 0x3FF == 0 ==> (e & 0x3FF) + 1 == 1024,
        e == d - 1 && d & 0x3FF != 0 ==> (e & 0x3FF) + 1 == (d & 0x3FF) + 0,
        e == d - 1 ==> 0 <= e & 0x1FF < 512,
        e == d - 1 && d & 0x1FF == 0 ==> (e & 0x1FF) + 1 == 512,
        e == d - 1 && d & 0x1FF != 0 ==> (e & 0x1FF) + 1 == (d & 0x1FF) + 0,
{
}

/// Bounds and identities of the fields that GPU commands read from a word.
pub proof fn lemma_word_fields(w: u32)
    by (bit_vector)
    ensures
        w & 0xFFFF <= 0xFFFF,
        w >> 16u32 <= 0xFFFF,
        w & 0xFF < 256,
        (w >> 8u32) & 0xFF < 256,
        (w >> 16u32) & 0x3F < 64,
        ((w >> 16u32) >> 6u32) & 0x1FF == (w >> 22u32) & 0x1FF,
        (w >> 22u32) & 0x1FF < 512,
        (w >> 16u32) & 0xF < 16,
        ((w >> 16u32) >> 4u32) & 1 == (w >> 20u32) & 1,
        (w >> 20u32) & 1 < 2,
        field(0, 4).spec_extract(w) < 16,
        field(4, 1).spec_extract(w) < 2,
        field(0, 5).spec_extract(w) < 32,
        field(5, 5).spec_extract(w) < 32,
        field(10, 5).spec_extract(w) < 32,
        field(15, 5).spec_extract(w) < 32,
        field(0, 10).spec_extract(w) < 1024,
        field(10, 9).spec_extract(w) < 512,
        field(0, 11).spec_extract(w) < 2048,
        field(11, 11).spec_extract(w) < 2048,
        (field(0, 1).spec_extract(w) > 0) == (w & 1 != 0),
        (field(1, 1).spec_extract(w) > 0) == (w & 2 != 0),
        w & 1 == (if w & 1 != 0 { 1u32 } else { 0u32 }),
        (w >> 1u32) & 1 == (if w & 2 != 0 { 1u32 } else { 0u32 }),
{
}

/// The low 11 bits of `d`, read as a two's complement number.
pub open spec fn sign_extend_11(d: isize) -> isize {
    let v = d & 0x7FF;
    if v & 0x400 != 0 {
        (v - 0x800) as isize
    } else {
        v
    }
}

/// `d` modulo 1024, rounded up to a multiple of 16.
pub open spec fn spec_fill_x_size(d: isize) -> isize {
    (((d & 0x3FF) + 15) / 16 * 16) as isize
}

/// `d` modulo `m` (a power of two), with 0 standing for `m`.
pub open spec fn spec_copy_size(d: isize, m: isize) -> isize {
    if d & (m - 1) as isize == 0 {
        m
    } else {
        d & (m - 1) as isize
    }
}

/// How a raw 16-bit coordinate or extent from a command word is turned into pixels.
#[derive(Clone, Copy, Debug, PartialEq, Eq, Structural)]
pub enum Modifier {
    RenderXPosition,
    RenderYPosition,
    FillXPosition,
    FillYPosition,
    RenderXSize,
    RenderYSize,
    FillXSize,
    FillYSize,
    CopyXPosition,
    CopyYPosition,
    CopyXSize,
    CopyYSize,
}

pub open spec fn spec_modifier(m: Modifier, d: isize) -> isize {
    match m {
        Modifier::RenderXPosition => sign_extend_11(d),
        Modifier::RenderYPosition => sign_extend_11(d),
        Modifier::FillXPosition => d & 0x3F0,
        Modifier::FillYPosition => d & 0x1FF,
        Modifier::RenderXSize => d,
        Modifier::RenderYSize => d,
        Modifier::FillXSize => spec_fill_x_size(d),
        Modifier::FillYSize => d & 0x1FF,
        Modifier::CopyXPosition => d & 0x3FF,
        Modifier::CopyYPosition => d & 0x1FF,
        Modifier::CopyXSize => spec_copy_size(d, 1024),
        Modifier::CopyYSize => spec_copy_size(d, 512),
    }
}

/// A sign-extended 11-bit value lies in [-1024, 1024).
pub proof fn lemma_sign_extend_11_bounds(d: isize)
    ensures
        -1024 <= sign_extend_11(d) < 1024,
{
    lemma_isize_bits(d, d);
}

/// The low 11 bits of `d` as a two's complement number.
pub fn sign_extended_11(d: isize) -> (r: isize)
    ensures
        r == sign_extend_11(d),
        -1024 <= r < 1024,
{
    proof {
        lemma_isize_bits(d, d);
    }
    let v = d & 0x7FF;
    if v & 0x400 != 0 {
        v - 0x800
    } else {
        v
    }
}

/// Vertex X coordinate: sign extended from 11 bits.
pub fn default_render_x_position_modifier(d: isize) -> (r: isize)
    ensures
        r == sign_extend_11(d),
        -1024 <= r < 1024,
{
    sign_extended_11(d)
}

/// Vertex Y coordinate: sign extended from 11 bits.
pub fn default_render_y_position_modifier(d: isize) -> (r: isize)
    ensures
        r == sign_extend_11(d),
        -1024 <= r < 1024,
{
    sign_extended_11(d)
}

/// Fill X position: a multiple of 16 below 1024.
pub fn default_fill_x_position_modifier(d: isize) -> (r: isize)
    ensures
        r == d & 0x3F0,
        0 <= r <= 0x3F0,
        r % 16 == 0,
{
    proof {
        lemma_isize_bits(d, d);
    }
    d & 0x3F0
}

/// Fill Y position: modulo 512.
pub fn default_fill_y_position_modifier(d: isize) -> (r: isize)
    ensures
        r == d & 0x1FF,
        0 <= r < 512,
{
    proof {
        lemma_isize_bits(d, d);
    }
    d & 0x1FF
}

/// Rectangle width as given.
pub fn default_render_x_size_modifier(d: isize) -> (r: isize)
    ensures
        r == d,
{
    d
}

/// Rectangle height as given.
pub fn default_render_y_size_modifier(d: isize) -> (r: isize)
    ensures
        r == d,
{
    d
}

/// Fill width: modulo 1024, rounded up to a multiple of 16.
pub fn default_fill_x_size_modifier(d: isize) -> (r: isize)
    ensures
        r == spec_fill_x_size(d),
        0 <= r <= 1024,
        r % 16 == 0,
{
    proof {
        lemma_isize_bits(d, d);
    }
    let w = (d & 0x3FF) + 0xF;
    proof {
        lemma_round_up_16(d, w);
    }
    w & !0xFisize
}

/// Fill height: modulo 512.
pub fn default_fill_y_size_modifier(d: isize) -> (r: isize)
    ensures
        r == d & 0x1FF,
        0 <= r < 512,
{
    default_fill_y_position_modifier(d)
}

/// Copy X position: modulo 1024.
pub fn default_copy_x_position_modifier(d: isize) -> (r: isize)
    ensures
        r == d & 0x3FF,
        0 <= r < 1024,
{
    proof {
        lemma_isize_bits(d, d);
    }
    d & 0x3FF
}

/// Copy Y position: modulo 512.
pub fn default_copy_y_position_modifier(d: isize) -> (r: isize)
    ensures
        r == d & 0x1FF,
        0 <= r < 512,
{
    default_fill_y_position_modifier(d)
}

/// Copy width: modulo 1024, where 0 means 1024.
pub fn default_copy_x_size_modifier(d: isize) -> (r: isize)
    requires
        d > isize::MIN,
    ensures
        r == spec_copy_size(d, 1024),
        1 <= r <= 1024,
{
    let e = d - 1;
    proof {
        lemma_isize_bits(d, e);
    }
    (e & 0x3FF) + 1
}

/// Copy height: modulo 512, where 0 means 512.
pub fn default_copy_y_size_modifier(d: isize) -> (r: isize)
    requires
        d > isize::MIN,
    ensures
        r == spec_copy_size(d, 512),
        1 <= r <= 512,
{
    let e = d - 1;
    proof {
        lemma_isize_bits(d, e);
    }
    (e & 0x1FF) + 1
}

/// Applies a modifier to a raw 16-bit value.
pub fn apply_modifier(m: Modifier, d: isize) -> (r: isize)
    requires
        0 <= d <= 0xFFFF,
    ensures
        r == spec_modifier(m, d),
{
    match m {
        Modifier::RenderXPosition => default_render_x_position_modifier(d),
        Modifier::RenderYPosition => default_render_y_position_modifier(d),
        Modifier::FillXPosition => default_fill_x_position_modifier(d),
        Modifier::FillYPosition => default_fill_y_position_modifier(d),
        Modifier::RenderXSize => default_render_x_size_modifier(d),
        Modifier::RenderYSize => default_render_y_size_modifier(d),
        Modifier::FillXSize => default_fill_x_size_modifier(d),
        Modifier::FillYSize => default_fill_y_size_modifier(d),
        Modifier::CopyXPosition => default_copy_x_position_modifier(d),
        Modifier::CopyYPosition => default_copy_y_position_modifier(d),
        Modifier::CopyXSize => default_copy_x_size_modifier(d),
        Modifier::CopyYSize => default_copy_y_size_modifier(d),
    }
}

pub open spec fn spec_extract_color(raw: u32) -> Color {
    Color { r: raw as u8, g: (raw >> 8u32) as u8, b: (raw >> 16u32) as u8 }
}

/// Color of a command word: red in bits 0-7, green in 8-15, blue in 16-23.
pub fn extract_color(color_raw: u32) -> (c: Color)
    ensures
        c == spec_extract_color(color_raw),
{
    Color::new(color_raw as u8, (color_raw >> 8u32) as u8, (color_raw >> 16u32) as u8)
}

pub fn extract_colors_3(colors_raw: [u32; 3]) -> (c: [Color; 3])
    ensures
        c@ == colors_raw@.map_values(|w: u32| spec_extract_color(w)),
{
    let c = [extract_color(colors_raw[0]), extract_color(colors_raw[1]), extract_color(colors_raw[2])];
    assert(c@ =~= colors_raw@.map_values(|w: u32| spec_extract_color(w)));
    c
}

pub fn extract_colors_4(colors_raw: [u32; 4]) -> (c: [Color; 4])
    ensures
        c@ == colors_raw@.map_values(|w: u32| spec_extract_color(w)),
{
    let c = [
        extract_color(colors_raw[0]),
        extract_color(colors_raw[1]),
        extract_color(colors_raw[2]),
        extract_color(colors_raw[3]),
    ];
    assert(c@ =~= colors_raw@.map_values(|w: u32| spec_extract_color(w)));
    c
}

/// A coordinate pair of a command word (X in the low halfword, Y in the
/// high one), each passed through its modifier.
pub open spec fn spec_extract_pair(raw: u32, x_modifier: Modifier, y_modifier: Modifier) -> Size2D<isize> {
    Size2D {
        width: spec_modifier(x_modifier, (raw & 0xFFFF) as isize),
        height: spec_modifier(y_modifier, (raw >> 16u32) as isize),
    }
}

fn extract_pair(raw: u32, x_modifier: Modifier, y_modifier: Modifier) -> (s: Size2D<isize>)
    ensures
        s == spec_extract_pair(raw, x_modifier, y_modifier),
{
    proof {
        lemma_word_fields(raw);
    }
    let x = (raw & 0xFFFF) as isize;
    let y = (raw >> 16u32) as isize;
    Size2D::new(apply_modifier(x_modifier, x), apply_modifier(y_modifier, y))
}

pub fn extract_position_offset(point_raw: u32, x_modifier: Modifier, y_modifier: Modifier) -> (s: Size2D<isize>)
    ensures
        s == spec_extract_pair(point_raw, x_modifier, y_modifier),
{
    extract_pair(point_raw, x_modifier, y_modifier)
}

pub fn extract_size(size_raw: u32, x_modifier: Modifier, y_modifier: Modifier) -> (s: Size2D<isize>)
    ensures
        s == spec_extract_pair(size_raw, x_modifier, y_modifier),
{
    extract_pair(size_raw, x_modifier, y_modifier)
}

pub fn extract_position_offsets_3(positions_raw: [u32; 3], x_modifier: Modifier, y_modifier: Modifier) -> (s: [Size2D<isize>; 3])
    ensures
        s@ == positions_raw@.map_values(|w: u32| spec_extract_pair(w, x_modifier, y_modifier)),
{
    let s = [
        extract_position_offset(positions_raw[0], x_modifier, y_modifier),
        extract_position_offset(positions_raw[1], x_modifier, y_modifier),
        extract_position_offset(positions_raw[2], x_modifier, y_modifier),
    ];
    assert(s@ =~= positions_raw@.map_values(|w: u32| spec_extract_pair(w, x_modifier, y_modifier)));
    s
}

pub fn extract_position_offsets_4(positions_raw: [u32; 4], x_modifier: Modifier, y_modifier: Modifier) -> (s: [Size2D<isize>; 4])
    ensures
        s@ == positions_raw@.map_values(|w: u32| spec_extract_pair(w, x_modifier, y_modifier)),
{
    let s = [
        extract_position_offset(positions_raw[0], x_modifier, y_modifier),
        extract_position_offset(positions_raw[1], x_modifier, y_modifier),
        extract_position_offset(positions_raw[2], x_modifier, y_modifier),
        extract_position_offset(positions_raw[3], x_modifier, y_modifier),
    ];
    assert(s@ =~= positions_raw@.map_values(|w: u32| spec_extract_pair(w, x_modifier, y_modifier)));
    s
}

/// Texture coordinate of a command word: U in bits 0-7, V in bits 8-15.
pub open spec fn spec_extract_texture_position_offset(raw: u32) -> Size2D<isize> {
    Size2D { width: (raw & 0xFF) as isize, height: ((raw >> 8u32) & 0xFF) as isize }
}

pub fn extract_texture_position_offset(texcoord_raw: u32) -> (s: Size2D<isize>)
    ensures
        s == spec_extract_texture_position_offset(texcoord_raw),
        0 <= s.width < 256,
        0 <= s.height < 256,
{
    proof {
        lemma_word_fields(texcoord_raw);
    }
    Size2D::new((texcoord_raw & 0xFF) as isize, ((texcoord_raw >> 8u32) & 0xFF) as isize)
}

pub fn extract_texture_position_offsets_3(texcoords_raw: [u32; 3]) -> (s: [Size2D<isize>; 3])
    ensures
        s@ == texcoords_raw@.map_values(|w: u32| spec_extract_texture_position_offset(w)),
{
    let s = [
        extract_texture_position_offset(texcoords_raw[0]),
        extract_texture_position_offset(texcoords_raw[1]),
        extract_texture_position_offset(texcoords_raw[2]),
    ];
    assert(s@ =~= texcoords_raw@.map_values(|w: u32| spec_extract_texture_position_offset(w)));
    s
}

pub fn extract_texture_position_offsets_4(texcoords_raw: [u32; 4]) -> (s: [Size2D<isize>; 4])
    ensures
        s@ == texcoords_raw@.map_values(|w: u32| spec_extract_texture_position_offset(w)),
{
    let s = [
        extract_texture_position_offset(texcoords_raw[0]),
        extract_texture_position_offset(texcoords_raw[1]),
        extract_texture_position_offset(texcoords_raw[2]),
        extract_texture_position_offset(texcoords_raw[3]),
    ];
    assert(s@ =~= texcoords_raw@.map_values(|w: u32| spec_extract_texture_position_offset(w)));
    s
}

/// CLUT position, from the high halfword of a command word: X in units of
/// 16 pixels (6 bits), Y in lines (9 bits).
pub open spec fn spec_extract_clut_base(raw: u32) -> Point2D<usize> {
    Point2D { x: (((raw >> 16u32) & 0x3F) * 16) as usize, y: ((raw >> 22u32) & 0x1FF) as usize }
}

pub fn extract_clut_base(clut_raw: u32) -> (p: Point2D<usize>)
    ensures
        p == spec_extract_clut_base(clut_raw),
        p.x < 1024,
        p.y < 512,
{
    let clut = clut_raw >> 16u32;
    let clut_x = clut & 0x3F;
    let clut_y = (clut >> 6u32) & 0x1FF;
    proof {
        lemma_word_fields(clut_raw);
    }
    Point2D::new(clut_x as usize * 16, clut_y as usize)
}

/// Texture page position, from the high halfword of a command word: X in
/// units of 64 pixels (4 bits), Y in units of 256 lines (1 bit).
pub open spec fn spec_extract_texpage_base(raw: u32) -> Point2D<usize> {
    Point2D { x: (((raw >> 16u32) & 0xF) * 64) as usize, y: (((raw >> 20u32) & 1) * 256) as usize }
}

pub fn extract_texpage_base(texpage_raw: u32) -> (p: Point2D<usize>)
    ensures
        p == spec_extract_texpage_base(texpage_raw),
        p.x < 1024,
        p.y <= 256,
{
    let texpage = texpage_raw >> 16u32;
    let x = texpage & 0xF;
    let y = (texpage >> 4u32) & 1;
    proof {
        lemma_word_fields(texpage_raw);
    }
    Point2D::new(x as usize * 64, y as usize * 256)
}

/// Semi-transparency mode numbered 0 to 3.
pub open spec fn transparency_mode_of(v: u32) -> TransparencyMode {
    if v == 0 {
        TransparencyMode::Average
    } else if v == 1 {
        TransparencyMode::Additive
    } else if v == 2 {
        TransparencyMode::Difference
    } else {
        TransparencyMode::Quarter
    }
}

pub fn transparency_mode_from_bits(v: u32) -> (m: TransparencyMode)
    ensures
        m == transparency_mode_of(v),
{
    if v == 0 {
        TransparencyMode::Average
    } else if v == 1 {
        TransparencyMode::Additive
    } else if v == 2 {
        TransparencyMode::Difference
    } else {
        TransparencyMode::Quarter
    }
}

/// Texture color mode numbered 0 to 3.
pub open spec fn clut_mode_of(v: u32) -> ClutMode {
    if v == 0 {
        ClutMode::Bits4
    } else if v == 1 {
        ClutMode::Bits8
    } else if v == 2 {
        ClutMode::Bits15
    } else {
        ClutMode::Reserved
    }
}

pub fn clut_mode_from_bits(v: u32) -> (m: ClutMode)
    ensures
        m == clut_mode_of(v),
{
    if v == 0 {
        ClutMode::Bits4
    } else if v == 1 {
        ClutMode::Bits8
    } else if v == 2 {
        ClutMode::Bits15
    } else {
        ClutMode::Reserved
    }
}

pub open spec fn spec_transparency_mode(raw: u32) -> TransparencyMode {
    transparency_mode_of((raw >> 21u32) & 3)
}

/// Semi-transparency mode of a texpage word (bits 21-22).
pub fn extract_texpage_transparency_mode(texpage_raw: u32) -> (m: TransparencyMode)
    ensures
        m == spec_transparency_mode(texpage_raw),
{
    transparency_mode_from_bits((texpage_raw >> 21u32) & 3)
}

pub open spec fn spec_clut_mode(raw: u32) -> ClutMode {
    clut_mode_of((raw >> 23u32) & 3)
}

/// Texture color mode of a texpage word (bits 23-24).
pub fn extract_texpage_clut_mode(texpage_raw: u32) -> (m: ClutMode)
    ensures
        m == spec_clut_mode(texpage_raw),
{
    clut_mode_from_bits((texpage_raw >> 23u32) & 3)
}

/// Vertex coordinates of a command word lie in [-1024, 1024).
pub proof fn lemma_render_offset_bounds(w: u32)
    ensures
        -1024 <= spec_extract_pair(w, Modifier::RenderXPosition, Modifier::RenderYPosition).width < 1024,
        -1024 <= spec_extract_pair(w, Modifier::RenderXPosition, Modifier::RenderYPosition).height < 1024,
{
    lemma_sign_extend_11_bounds((w & 0xFFFF) as isize);
    lemma_sign_extend_11_bounds((w >> 16u32) as isize);
}

/// Coordinates and extents of VRAM copy commands are non-negative and within VRAM.
pub proof fn lemma_copy_bounds(w: u32)
    ensures
        0 <= spec_extract_pair(w, Modifier::CopyXPosition, Modifier::CopyYPosition).width < 1024,
        0 <= spec_extract_pair(w, Modifier::CopyXPosition, Modifier::CopyYPosition).height < 512,
        1 <= spec_extract_pair(w, Modifier::CopyXSize, Modifier::CopyYSize).width <= 1024,
        1 <= spec_extract_pair(w, Modifier::CopyXSize, Modifier::CopyYSize).height <= 512,
{
    let x = (w & 0xFFFF) as isize;
    let y = (w >> 16u32) as isize;
    lemma_isize_bits(x, x);
    lemma_isize_bits(y, y);
    assert(0x3FFisize == 1024isize - 1 && 0x1FFisize == 512isize - 1);
}

pub open spec fn spec_make_position(base: Point2D<isize>, offset: Size2D<isize>) -> Point2D<isize> {
    Point2D { x: (base.x + offset.width) as isize, y: (base.y + offset.height) as isize }
}

pub open spec fn position_fits(base: Point2D<isize>, offset: Size2D<isize>) -> bool {
    &&& isize::MIN <= base.x + offset.width <= isize::MAX
    &&& isize::MIN <= base.y + offset.height <= isize::MAX
}

/// A point displaced by an offset.
pub fn make_position(base: Point2D<isize>, offset: Size2D<isize>) -> (p: Point2D<isize>)
    requires
        position_fits(base, offset),
    ensures
        p.x == base.x + offset.width,
        p.y == base.y + offset.height,
{
    Point2D::new(base.x + offset.width, base.y + offset.height)
}

pub fn make_positions_3(base: Point2D<isize>, offsets: [Size2D<isize>; 3]) -> (p: [Point2D<isize>; 3])
    requires
        forall|i: int| 0 <= i < 3 ==> position_fits(base, #[trigger] offsets@[i]),
    ensures
        p@ == offsets@.map_values(|o: Size2D<isize>| spec_make_position(base, o)),
{
    assert(position_fits(base, offsets@[0]) && position_fits(base, offsets@[1]) && position_fits(base, offsets@[2]));
    let p = [make_position(base, offsets[0]), make_position(base, offsets[1]), make_position(base, offsets[2])];
    assert(p@ =~= offsets@.map_values(|o: Size2D<isize>| spec_make_position(base, o)));
    p
}

pub fn make_positions_4(base: Point2D<isize>, offsets: [Size2D<isize>; 4]) -> (p: [Point2D<isize>; 4])
    requires
        forall|i: int| 0 <= i < 4 ==> position_fits(base, #[trigger] offsets@[i]),
    ensures
        p@ == offsets@.map_values(|o: Size2D<isize>| spec_make_position(base, o)),
{
    assert(position_fits(base, offsets@[0]) && position_fits(base, offsets@[1]) && position_fits(base, offsets@[2])
        && position_fits(base, offsets@[3]));
    let p = [
        make_position(base, offsets[0]),
        make_position(base, offsets[1]),
        make_position(base, offsets[2]),
        make_position(base, offsets[3]),
    ];
    assert(p@ =~= offsets@.map_values(|o: Size2D<isize>| spec_make_position(base, o)));
    p
}

pub open spec fn spec_rectangle_by_corners(x1: usize, y1: usize, x2: usize, y2: usize) -> Rect<isize> {
    Rect {
        origin: Point2D { x: x1 as isize, y: y1 as isize },
        size: Size2D { width: (x2 - x1) as isize, height: (y2 - y1) as isize },
    }
}

/// The rectangle from a top left to a bottom right corner (the size may be negative).
pub fn make_rectangle_by_corners(top_left_x: usize, top_left_y: usize, bottom_right_x: usize, bottom_right_y: usize) -> (r: Rect<isize>)
    requires
        top_left_x <= isize::MAX,
        top_left_y <= isize::MAX,
        bottom_right_x <= isize::MAX,
        bottom_right_y <= isize::MAX,
    ensures
        r == spec_rectangle_by_corners(top_left_x, top_left_y, bottom_right_x, bottom_right_y),
        r.origin.x == top_left_x,
        r.size.width == bottom_right_x - top_left_x,
        r.size.height == bottom_right_y - top_left_y,
{
    let origin = Point2D::new(top_left_x as isize, top_left_y as isize);
    let size = Size2D::new(
        bottom_right_x as isize - top_left_x as isize,
        bottom_right_y as isize - top_left_y as isize,
    );
    Rect::new(origin, size)
}

} // verus!
