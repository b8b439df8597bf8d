use vstd::prelude::*;
use crate::mips1::{trunc_div, Instruction};
use crate::register::{spec_byte, spec_half, spec_with_byte, spec_with_half};
use crate::r3000::cp2::{GteInstruction, MultiplyMatrix, MultiplyVector, TranslationVector};
use crate::r3000::gte_arith::{
    clamp, clamp_i64, lemma_mul_bounds, read_s16, read_s32, s16, s32, shl12, shr12, shr16,
    trunc_div_i64,
};
use crate::r3000::instruction_impl::{completed, failed};
use crate::r3000::register::{handle_cp2_push_rgb, handle_cp2_push_sxy, handle_cp2_push_sz, handle_cp2_sxyp_mirror};
use crate::r3000::types::{ControllerContext, ControllerError, ControllerResult};
use crate::system::state::State;

verus! {

pub const I16_MIN: i64 = -0x8000;

pub const I16_MAX: i64 = 0x7FFF;

/// Row `row` of the 3x3 matrix stored from control register `base` (two
/// signed halfwords per register, row-major), times the vector (x, y, z).
pub open spec fn mat_row(gc: Seq<u32>, base: int, row: int, x: int, y: int, z: int) -> int {
    if row == 0 {
        s16(gc[base], 0) * x + s16(gc[base], 1) * y + s16(gc[base + 1], 0) * z
    } else if row == 1 {
        s16(gc[base + 1], 1) * x + s16(gc[base + 2], 0) * y + s16(gc[base + 2], 1) * z
    } else {
        s16(gc[base + 3], 0) * x + s16(gc[base + 3], 1) * y + s16(gc[base + 4], 0) * z
    }
}

fn mat_row_exec(gc: &[u32; 32], base: usize, row: usize, x: i64, y: i64, z: i64) -> (r: i64)
    requires
        base + 4 < 32,
        row < 3,
        -0x8000 <= x <= 0x8000,
        -0x8000 <= y <= 0x8000,
        -0x8000 <= z <= 0x8000,
    ensures
        r == mat_row(gc@, base as int, row as int, x as int, y as int, z as int),
        -0x1_8000_0000 <= r <= 0x1_8000_0000,
{
    let (a, b, c) = if row == 0 {
        (read_s16(gc[base], 0), read_s16(gc[base], 1), read_s16(gc[base + 1], 0))
    } else if row == 1 {
        (read_s16(gc[base + 1], 1), read_s16(gc[base + 2], 0), read_s16(gc[base + 2], 1))
    } else {
        (read_s16(gc[base + 3], 0), read_s16(gc[base + 3], 1), read_s16(gc[base + 4], 0))
    };
    proof {
        lemma_mul_bounds(a as int, x as int, 0x8000, 0x8000);
        lemma_mul_bounds(b as int, y as int, 0x8000, 0x8000);
        lemma_mul_bounds(c as int, z as int, 0x8000, 0x8000);
    }
    a * x + b * y + c * z
}

/// RTPS/RTPT on one vector: rotate and translate it, project it onto the
/// screen, and update the Z, screen XY, MAC, IR and depth-cue registers.
pub open spec fn spec_rtp(gd: Seq<u32>, gc: Seq<u32>, xy: int, z: int) -> Seq<u32> {
    let vx = s16(gd[xy], 0);
    let vy = s16(gd[xy], 1);
    let vz = s16(gd[z], 0);
    let mac1 = (s32(gc[5]) * 4096 + mat_row(gc, 0, 0, vx, vy, vz)) / 4096;
    let mac2 = (s32(gc[6]) * 4096 + mat_row(gc, 0, 1, vx, vy, vz)) / 4096;
    let mac3 = (s32(gc[7]) * 4096 + mat_row(gc, 0, 2, vx, vy, vz)) / 4096;
    let ir1 = clamp(mac1, -0x8000, 0x7FFF);
    let ir2 = clamp(mac2, -0x8000, 0x7FFF);
    let ir3 = clamp(mac3, -0x8000, 0x7FFF);
    let sz3 = if clamp(mac3, 0, 0xFFFF) == 0 {
        -1
    } else {
        clamp(mac3, 0, 0xFFFF)
    };
    let h = s16(gc[26], 0);
    let hos = clamp(trunc_div(trunc_div(h * 0x2_0000, sz3) + 1, 2), 0, 0x1_FFFF);
    let sx2 = clamp((s32(gc[24]) + ir1 * hos) / 65536, -0x400, 0x3FF);
    let sy2 = clamp((s32(gc[25]) + ir2 * hos) / 65536, -0x400, 0x3FF);
    let mac0 = hos * s16(gc[27], 0) + s32(gc[28]);
    let ir0 = clamp(mac0 / 4096, 0, 0x1000);
    let pushed = gd.update(16, gd[17]).update(17, gd[18]).update(18, gd[19]).update(12, gd[13]).update(
        13,
        gd[14],
    );
    let written = pushed.update(25, mac1 as i32 as u32).update(9, ir1 as i32 as u32).update(
        26,
        mac2 as i32 as u32,
    ).update(10, ir2 as i32 as u32).update(27, mac3 as i32 as u32).update(11, ir3 as i32 as u32).update(
        19,
        sz3 as u16 as u32,
    ).update(
        14,
        spec_with_half(spec_with_half(pushed[14], 0, sx2 as i16 as u16), 1, sy2 as i16 as u16),
    ).update(8, ir0 as i32 as u32).update(24, mac0 as i32 as u32);
    written.update(15, written[14])
}

/// Perspective transformation of the vector in data registers `r_vector_xy`
/// (X, Y) and `r_vector_z` (Z). Only the shift-fraction, IR-unlimited mode is supported.
fn perspective_transform(
    context: &mut ControllerContext,
    sf_bit: bool,
    lm_bit: bool,
    r_vector_xy: usize,
    r_vector_z: usize,
) -> (r: Result<(), ControllerError>)
    requires
        r_vector_xy < 32,
        r_vector_z < 32,
    ensures
        (!sf_bit || lm_bit) ==> r == Err::<(), _>(ControllerError::GteModeNotHandled) && *final(context)
            == *old(context),
        (sf_bit && !lm_bit) ==> r == Ok::<(), ControllerError>(()) && final(context).cp2_state.gd@ == spec_rtp(
            old(context).cp2_state.gd@,
            old(context).cp2_state.gc@,
            r_vector_xy as int,
            r_vector_z as int,
        ) && final(context).cp2_state.gc == old(context).cp2_state.gc && final(context).r3000_state
            == old(context).r3000_state && final(context).cp0_state == old(context).cp0_state,
{
    if !sf_bit || lm_bit {
        return Err(ControllerError::GteModeNotHandled);
    }
    let ghost gd0 = context.cp2_state.gd@;
    let ghost gc0 = context.cp2_state.gc@;
    let gc = context.cp2_state.gc;
    let vx = read_s16(context.cp2_state.gd[r_vector_xy], 0);
    let vy = read_s16(context.cp2_state.gd[r_vector_xy], 1);
    let vz = read_s16(context.cp2_state.gd[r_vector_z], 0);

    let trx = shl12(read_s32(gc[5]));
    let try_ = shl12(read_s32(gc[6]));
    let trz = shl12(read_s32(gc[7]));

    let mac1 = shr12(trx + mat_row_exec(&gc, 0, 0, vx, vy, vz));
    let mac2 = shr12(try_ + mat_row_exec(&gc, 0, 1, vx, vy, vz));
    let mac3 = shr12(trz + mat_row_exec(&gc, 0, 2, vx, vy, vz));

    let ir1 = clamp_i64(mac1, I16_MIN, I16_MAX);
    let ir2 = clamp_i64(mac2, I16_MIN, I16_MAX);
    let ir3 = clamp_i64(mac3, I16_MIN, I16_MAX);

    let mut sz3 = clamp_i64(mac3, 0, 0xFFFF);
    if sz3 == 0 {
        sz3 = -1;
    }

    let h = read_s16(gc[26], 0);
    let hos_raw = trunc_div_i64(trunc_div_i64(h * 0x2_0000, sz3) + 1, 2);
    let hos = clamp_i64(hos_raw, 0, 0x1_FFFF);

    let ofx = read_s32(gc[24]);
    let ofy = read_s32(gc[25]);
    proof {
        lemma_mul_bounds(ir1 as int, hos as int, 0x8000, 0x2_0000);
        lemma_mul_bounds(ir2 as int, hos as int, 0x8000, 0x2_0000);
    }
    let sx2 = clamp_i64(shr16(ofx + ir1 * hos), -0x400, 0x3FF);
    let sy2 = clamp_i64(shr16(ofy + ir2 * hos), -0x400, 0x3FF);

    let dqa = read_s16(gc[27], 0);
    let dqb = read_s32(gc[28]);
    proof {
        lemma_mul_bounds(hos as int, dqa as int, 0x2_0000, 0x8000);
    }
    let mac0 = hos * dqa + dqb;
    let ir0 = clamp_i64(shr12(mac0), 0, 0x1000);

    handle_cp2_push_sz(&mut context.cp2_state);
    handle_cp2_push_sxy(&mut context.cp2_state);
    let ghost pushed = context.cp2_state.gd@;
    context.cp2_state.gd[25] = mac1 as i32 as u32;
    context.cp2_state.gd[9] = ir1 as i32 as u32;
    context.cp2_state.gd[26] = mac2 as i32 as u32;
    context.cp2_state.gd[10] = ir2 as i32 as u32;
    context.cp2_state.gd[27] = mac3 as i32 as u32;
    context.cp2_state.gd[11] = ir3 as i32 as u32;
    context.cp2_state.gd[19] = sz3 as u16 as u32;
    let sxy = crate::register::with_half(context.cp2_state.gd[14], 0, sx2 as i16 as u16);
    context.cp2_state.gd[14] = crate::register::with_half(sxy, 1, sy2 as i16 as u16);
    context.cp2_state.gd[8] = ir0 as i32 as u32;
    context.cp2_state.gd[24] = mac0 as i32 as u32;

    handle_cp2_sxyp_mirror(&mut context.cp2_state);
    assert(context.cp2_state.gd@ =~= spec_rtp(gd0, gc0, r_vector_xy as int, r_vector_z as int));
    Ok(())
}

/// Lower clamp of IR results: 0 in limit mode, -0x8000 otherwise.
pub open spec fn ir_min(lm: bool) -> int {
    if lm {
        0
    } else {
        -0x8000
    }
}

/// Data registers after a color result: the color FIFO is pushed, RGB2 gets
/// the color (each channel truncated to a byte) with the code byte, and the
/// MAC and IR registers get their values.
pub open spec fn spec_color_result(
    gd: Seq<u32>,
    mac: (int, int, int),
    ir: (int, int, int),
    rgb: (int, int, int),
    code: u8,
) -> Seq<u32> {
    let pushed = gd.update(20, gd[21]).update(21, gd[22]);
    let color = spec_with_byte(
        spec_with_byte(
            spec_with_byte(spec_with_byte(pushed[22], 0, rgb.0 as u8), 1, rgb.1 as u8),
            2,
            rgb.2 as u8,
        ),
        3,
        code,
    );
    pushed.update(22, color).update(25, mac.0 as i32 as u32).update(9, ir.0 as i32 as u32).update(
        26,
        mac.1 as i32 as u32,
    ).update(10, ir.1 as i32 as u32).update(27, mac.2 as i32 as u32).update(11, ir.2 as i32 as u32)
}

/// First two stages of normal color: light matrix times the normal, then
/// background color plus color matrix times that; returns the IR values.
pub open spec fn spec_normal_color_ir(gd: Seq<u32>, gc: Seq<u32>, xy: int, z: int, lm: bool) -> (int, int, int) {
    let vx = s16(gd[xy], 0);
    let vy = s16(gd[xy], 1);
    let vz = s16(gd[z], 0);
    let l1 = clamp(mat_row(gc, 8, 0, vx, vy, vz) / 4096, ir_min(lm), 0x7FFF);
    let l2 = clamp(mat_row(gc, 8, 1, vx, vy, vz) / 4096, ir_min(lm), 0x7FFF);
    let l3 = clamp(mat_row(gc, 8, 2, vx, vy, vz) / 4096, ir_min(lm), 0x7FFF);
    (
        clamp((s32(gc[13]) * 4096 + mat_row(gc, 16, 0, l1, l2, l3)) / 4096, ir_min(lm), 0x7FFF),
        clamp((s32(gc[14]) * 4096 + mat_row(gc, 16, 1, l1, l2, l3)) / 4096, ir_min(lm), 0x7FFF),
        clamp((s32(gc[15]) * 4096 + mat_row(gc, 16, 2, l1, l2, l3)) / 4096, ir_min(lm), 0x7FFF),
    )
}

/// NCC/NCCT on one vector: the normal color modulated by the RGB color register.
pub open spec fn spec_ncc(gd: Seq<u32>, gc: Seq<u32>, xy: int, z: int, lm: bool) -> Seq<u32> {
    let ir = spec_normal_color_ir(gd, gc, xy, z, lm);
    let r = spec_byte(gd[6], 0) * 16;
    let g = spec_byte(gd[6], 1) * 16;
    let b = spec_byte(gd[6], 2) * 16;
    let mac = ((r * ir.0) / 4096, (g * ir.1) / 4096, (b * ir.2) / 4096);
    let ir2 = (
        clamp(mac.0, ir_min(lm), 0x7FFF),
        clamp(mac.1, ir_min(lm), 0x7FFF),
        clamp(mac.2, ir_min(lm), 0x7FFF),
    );
    let rgb = (trunc_div(mac.0, 16), trunc_div(mac.1, 16), trunc_div(mac.2, 16));
    spec_color_result(gd, mac, ir2, rgb, spec_byte(gd[6], 3))
}

/// Depth cueing of the color products `p`: interpolate toward the far color by IR0.
pub open spec fn spec_depth_cue(gd: Seq<u32>, gc: Seq<u32>, p: (int, int, int), lm: bool) -> Seq<u32> {
    let f1 = clamp((s32(gc[21]) * 4096 - p.0) / 4096, -0x8000, 0x7FFF);
    let f2 = clamp((s32(gc[22]) * 4096 - p.1) / 4096, -0x8000, 0x7FFF);
    let f3 = clamp((s32(gc[23]) * 4096 - p.2) / 4096, -0x8000, 0x7FFF);
    let ir0 = s16(gd[8], 0);
    let mac = ((p.0 + f1 * ir0) / 4096, (p.1 + f2 * ir0) / 4096, (p.2 + f3 * ir0) / 4096);
    let ir = (
        clamp(mac.0, ir_min(lm), 0x7FFF),
        clamp(mac.1, ir_min(lm), 0x7FFF),
        clamp(mac.2, ir_min(lm), 0x7FFF),
    );
    let rgb = (trunc_div(mac.0, 16), trunc_div(mac.1, 16), trunc_div(mac.2, 16));
    spec_color_result(gd, mac, ir, rgb, spec_byte(gd[6], 3))
}

/// NCDS/NCDT on one vector: the normal color modulated by the RGB color, then depth cued.
pub open spec fn spec_ncd(gd: Seq<u32>, gc: Seq<u32>, xy: int, z: int, lm: bool) -> Seq<u32> {
    let ir = spec_normal_color_ir(gd, gc, xy, z, lm);
    let p = (spec_byte(gd[6], 0) * 16 * ir.0, spec_byte(gd[6], 1) * 16 * ir.1, spec_byte(gd[6], 2) * 16 * ir.2);
    spec_depth_cue(gd, gc, p, lm)
}

/// DPCS: depth cueing of the RGB color register itself.
pub open spec fn spec_dpcs(gd: Seq<u32>, gc: Seq<u32>, lm: bool) -> Seq<u32> {
    let p = (spec_byte(gd[6], 0) * 65536, spec_byte(gd[6], 1) * 65536, spec_byte(gd[6], 2) * 65536);
    spec_depth_cue(gd, gc, p, lm)
}

fn write_color_result(
    context: &mut ControllerContext,
    mac: (i64, i64, i64),
    ir: (i64, i64, i64),
    rgb: (i64, i64, i64),
    code: u8,
)
    ensures
        final(context).cp2_state.gd@ == spec_color_result(
            old(context).cp2_state.gd@,
            (mac.0 as int, mac.1 as int, mac.2 as int),
            (ir.0 as int, ir.1 as int, ir.2 as int),
            (rgb.0 as int, rgb.1 as int, rgb.2 as int),
            code,
        ),
        final(context).cp2_state.gc == old(context).cp2_state.gc,
        final(context).r3000_state == old(context).r3000_state,
        final(context).cp0_state == old(context).cp0_state,
{
    let ghost gd0 = context.cp2_state.gd@;
    handle_cp2_push_rgb(&mut context.cp2_state);
    let mut color = context.cp2_state.gd[22];
    color = crate::register::with_byte(color, 0, rgb.0 as u8);
    color = crate::register::with_byte(color, 1, rgb.1 as u8);
    color = crate::register::with_byte(color, 2, rgb.2 as u8);
    color = crate::register::with_byte(color, 3, code);
    context.cp2_state.gd[22] = color;
    context.cp2_state.gd[25] = mac.0 as i32 as u32;
    context.cp2_state.gd[9] = ir.0 as i32 as u32;
    context.cp2_state.gd[26] = mac.1 as i32 as u32;
    context.cp2_state.gd[10] = ir.1 as i32 as u32;
    context.cp2_state.gd[27] = mac.2 as i32 as u32;
    context.cp2_state.gd[11] = ir.2 as i32 as u32;
    assert(context.cp2_state.gd@ =~= spec_color_result(
        gd0,
        (mac.0 as int, mac.1 as int, mac.2 as int),
        (ir.0 as int, ir.1 as int, ir.2 as int),
        (rgb.0 as int, rgb.1 as int, rgb.2 as int),
        code,
    ));
}

fn ir_min_exec(lm: bool) -> (r: i64)
    ensures
        r == ir_min(lm),
{
    if lm {
        0
    } else {
        I16_MIN
    }
}

fn normal_color_ir(gd: &[u32; 32], gc: &[u32; 32], lm: bool, r_vector_xy: usize, r_vector_z: usize) -> (r: (i64, i64, i64))
    requires
        r_vector_xy < 32,
        r_vector_z < 32,
    ensures
        (r.0 as int, r.1 as int, r.2 as int) == spec_normal_color_ir(gd@, gc@, r_vector_xy as int, r_vector_z as int, lm),
        -0x8000 <= r.0 <= 0x7FFF,
        -0x8000 <= r.1 <= 0x7FFF,
        -0x8000 <= r.2 <= 0x7FFF,
{
    let min = ir_min_exec(lm);
    let vx = read_s16(gd[r_vector_xy], 0);
    let vy = read_s16(gd[r_vector_xy], 1);
    let vz = read_s16(gd[r_vector_z], 0);
    let l1 = clamp_i64(shr12(mat_row_exec(gc, 8, 0, vx, vy, vz)), min, I16_MAX);
    let l2 = clamp_i64(shr12(mat_row_exec(gc, 8, 1, vx, vy, vz)), min, I16_MAX);
    let l3 = clamp_i64(shr12(mat_row_exec(gc, 8, 2, vx, vy, vz)), min, I16_MAX);
    let rbk = shl12(read_s32(gc[13]));
    let gbk = shl12(read_s32(gc[14]));
    let bbk = shl12(read_s32(gc[15]));
    let c1 = clamp_i64(shr12(rbk + mat_row_exec(gc, 16, 0, l1, l2, l3)), min, I16_MAX);
    let c2 = clamp_i64(shr12(gbk + mat_row_exec(gc, 16, 1, l1, l2, l3)), min, I16_MAX);
    let c3 = clamp_i64(shr12(bbk + mat_row_exec(gc, 16, 2, l1, l2, l3)), min, I16_MAX);
    (c1, c2, c3)
}

fn normal_color_color(context: &mut ControllerContext, shift: bool, lm: bool, r_vector_xy: usize, r_vector_z: usize) -> (r: Result<(), ControllerError>)
    requires
        r_vector_xy < 32,
        r_vector_z < 32,
    ensures
        !shift ==> r == Err::<(), _>(ControllerError::GteModeNotHandled) && *final(context) == *old(context),
        shift ==> r == Ok::<(), ControllerError>(()) && final(context).cp2_state.gd@ == spec_ncc(
            old(context).cp2_state.gd@,
            old(context).cp2_state.gc@,
            r_vector_xy as int,
            r_vector_z as int,
            lm,
        ) && final(context).cp2_state.gc == old(context).cp2_state.gc && final(context).r3000_state
            == old(context).r3000_state && final(context).cp0_state == old(context).cp0_state,
{
    if !shift {
        return Err(ControllerError::GteModeNotHandled);
    }
    let min = ir_min_exec(lm);
    let ir = normal_color_ir(&context.cp2_state.gd, &context.cp2_state.gc, lm, r_vector_xy, r_vector_z);
    let color = context.cp2_state.gd[6];
    let r = (crate::register::byte_of(color, 0) as i64) * 16;
    let g = (crate::register::byte_of(color, 1) as i64) * 16;
    let b = (crate::register::byte_of(color, 2) as i64) * 16;
    let code = crate::register::byte_of(color, 3);
    proof {
        lemma_mul_bounds(r as int, ir.0 as int, 0x1000, 0x8000);
        lemma_mul_bounds(g as int, ir.1 as int, 0x1000, 0x8000);
        lemma_mul_bounds(b as int, ir.2 as int, 0x1000, 0x8000);
    }
    let mac1 = shr12(r * ir.0);
    let mac2 = shr12(g * ir.1);
    let mac3 = shr12(b * ir.2);
    let ir1 = clamp_i64(mac1, min, I16_MAX);
    let ir2 = clamp_i64(mac2, min, I16_MAX);
    let ir3 = clamp_i64(mac3, min, I16_MAX);
    let rgb = (trunc_div_i64(mac1, 16), trunc_div_i64(mac2, 16), trunc_div_i64(mac3, 16));
    write_color_result(context, (mac1, mac2, mac3), (ir1, ir2, ir3), rgb, code);
    Ok(())
}

fn depth_cue(context: &mut ControllerContext, p: (i64, i64, i64), lm: bool)
    requires
        -0x10_0000_0000 <= p.0 <= 0x10_0000_0000,
        -0x10_0000_0000 <= p.1 <= 0x10_0000_0000,
        -0x10_0000_0000 <= p.2 <= 0x10_0000_0000,
    ensures
        final(context).cp2_state.gd@ == spec_depth_cue(
            old(context).cp2_state.gd@,
            old(context).cp2_state.gc@,
            (p.0 as int, p.1 as int, p.2 as int),
            lm,
        ),
        final(context).cp2_state.gc == old(context).cp2_state.gc,
        final(context).r3000_state == old(context).r3000_state,
        final(context).cp0_state == old(context).cp0_state,
{
    let min = ir_min_exec(lm);
    let gc = context.cp2_state.gc;
    let rfc = shl12(read_s32(gc[21]));
    let gfc = shl12(read_s32(gc[22]));
    let bfc = shl12(read_s32(gc[23]));
    let f1 = clamp_i64(shr12(rfc - p.0), I16_MIN, I16_MAX);
    let f2 = clamp_i64(shr12(gfc - p.1), I16_MIN, I16_MAX);
    let f3 = clamp_i64(shr12(bfc - p.2), I16_MIN, I16_MAX);
    let ir0 = read_s16(context.cp2_state.gd[8], 0);
    proof {
        lemma_mul_bounds(f1 as int, ir0 as int, 0x8000, 0x8000);
        lemma_mul_bounds(f2 as int, ir0 as int, 0x8000, 0x8000);
        lemma_mul_bounds(f3 as int, ir0 as int, 0x8000, 0x8000);
    }
    let mac1 = shr12(p.0 + f1 * ir0);
    let mac2 = shr12(p.1 + f2 * ir0);
    let mac3 = shr12(p.2 + f3 * ir0);
    let ir1 = clamp_i64(mac1, min, I16_MAX);
    let ir2 = clamp_i64(mac2, min, I16_MAX);
    let ir3 = clamp_i64(mac3, min, I16_MAX);
    let rgb = (trunc_div_i64(mac1, 16), trunc_div_i64(mac2, 16), trunc_div_i64(mac3, 16));
    let code = crate::register::byte_of(context.cp2_state.gd[6], 3);
    write_color_result(context, (mac1, mac2, mac3), (ir1, ir2, ir3), rgb, code);
}

fn normal_color_depth_cue(context: &mut ControllerContext, shift: bool, lm: bool, r_vector_xy: usize, r_vector_z: usize) -> (r: Result<(), ControllerError>)
    requires
        r_vector_xy < 32,
        r_vector_z < 32,
    ensures
        !shift ==> r == Err::<(), _>(ControllerError::GteModeNotHandled) && *final(context) == *old(context),
        shift ==> r == Ok::<(), ControllerError>(()) && final(context).cp2_state.gd@ == spec_ncd(
            old(context).cp2_state.gd@,
            old(context).cp2_state.gc@,
            r_vector_xy as int,
            r_vector_z as int,
            lm,
        ) && final(context).cp2_state.gc == old(context).cp2_state.gc && final(context).r3000_state
            == old(context).r3000_state && final(context).cp0_state == old(context).cp0_state,
{
    if !shift {
        return Err(ControllerError::GteModeNotHandled);
    }
    let ir = normal_color_ir(&context.cp2_state.gd, &context.cp2_state.gc, lm, r_vector_xy, r_vector_z);
    let color = context.cp2_state.gd[6];
    let r = (crate::register::byte_of(color, 0) as i64) * 16;
    let g = (crate::register::byte_of(color, 1) as i64) * 16;
    let b = (crate::register::byte_of(color, 2) as i64) * 16;
    proof {
        lemma_mul_bounds(r as int, ir.0 as int, 0x1000, 0x8000);
        lemma_mul_bounds(g as int, ir.1 as int, 0x1000, 0x8000);
        lemma_mul_bounds(b as int, ir.2 as int, 0x1000, 0x8000);
    }
    depth_cue(context, (r * ir.0, g * ir.1, b * ir.2), lm);
    Ok(())
}

/// The coprocessor 2 command view of an instruction word.
pub open spec fn gte_of(instruction: Instruction) -> GteInstruction {
    GteInstruction { instruction }
}

/// Only the coprocessor 2 registers changed.
pub open spec fn cp2_only(old: ControllerContext, new: ControllerContext) -> bool {
    &&& new.r3000_state == old.r3000_state
    &&& new.cp0_state == old.cp0_state
}

/// Outcome of `mfc2`: its result, and the context and shared state after it.
pub open spec fn mfc2_effect(c0: ControllerContext, s0: State, instruction: Instruction, c1: ControllerContext, s1: State, r: ControllerResult) -> bool {
    &&& r == completed()
    &&& s1 == s0
    &&& c1.r3000_state.gpr@ == c0.r3000_state.gpr@.update(
                instruction.spec_rt() as int,
                c0.cp2_state.gd@[instruction.spec_rd() as int],
            )
    &&& c1.r3000_state.pc == c0.r3000_state.pc
    &&& c1.r3000_state.branch_delay == c0.r3000_state.branch_delay
    &&& c1.r3000_state.hi == c0.r3000_state.hi
    &&& c1.r3000_state.lo == c0.r3000_state.lo
    &&& c1.cp0_state == c0.cp0_state
    &&& c1.cp2_state == c0.cp2_state
}

/// Move from coprocessor 2 data register `rd` to general register `rt`.
pub fn mfc2(context: &mut ControllerContext, state: &mut State, instruction: Instruction) -> (r: ControllerResult)
    ensures
        mfc2_effect(*old(context), *old(state), instruction, *final(context), *final(state), r),
{
    let value = context.cp2_state.gd[instruction.rd()];
    context.r3000_state.gpr[instruction.rt()] = value;
    Ok(Ok(()))
}

/// Outcome of `cfc2`: its result, and the context and shared state after it.
pub open spec fn cfc2_effect(c0: ControllerContext, s0: State, instruction: Instruction, c1: ControllerContext, s1: State, r: ControllerResult) -> bool {
    &&& r == completed()
    &&& s1 == s0
    &&& c1.r3000_state.gpr@ == c0.r3000_state.gpr@.update(
                instruction.spec_rt() as int,
                c0.cp2_state.gc@[instruction.spec_rd() as int],
            )
    &&& c1.r3000_state.pc == c0.r3000_state.pc
    &&& c1.r3000_state.branch_delay == c0.r3000_state.branch_delay
    &&& c1.r3000_state.hi == c0.r3000_state.hi
    &&& c1.r3000_state.lo == c0.r3000_state.lo
    &&& c1.cp0_state == c0.cp0_state
    &&& c1.cp2_state == c0.cp2_state
}

/// Move from coprocessor 2 control register `rd` to general register `rt`.
pub fn cfc2(context: &mut ControllerContext, state: &mut State, instruction: Instruction) -> (r: ControllerResult)
    ensures
        cfc2_effect(*old(context), *old(state), instruction, *final(context), *final(state), r),
{
    let value = context.cp2_state.gc[instruction.rd()];
    context.r3000_state.gpr[instruction.rt()] = value;
    Ok(Ok(()))
}

/// Outcome of `mtc2`: its result, and the context and shared state after it.
pub open spec fn mtc2_effect(c0: ControllerContext, s0: State, instruction: Instruction, c1: ControllerContext, s1: State, r: ControllerResult) -> bool {
    &&& r == completed()
    &&& s1 == s0
    &&& cp2_only(c0, c1)
    &&& c1.cp2_state.gc == c0.cp2_state.gc
    &&& c1.cp2_state.gd@ == crate::r3000::cp2::spec_gd_write(
                c0.cp2_state.gd@,
                instruction.spec_rd() as int,
                c0.r3000_state.gpr@[instruction.spec_rt() as int],
            )
}

/// Move general register `rt` to coprocessor 2 data register `rd`.
pub fn mtc2(context: &mut ControllerContext, state: &mut State, instruction: Instruction) -> (r: ControllerResult)
    ensures
        mtc2_effect(*old(context), *old(state), instruction, *final(context), *final(state), r),
{
    let value = context.r3000_state.gpr[instruction.rt()];
    let rd = instruction.rd();
    context.cp2_state.gd[rd] = value;
    crate::r3000::register::handle_cp2_sxyp_write(&mut context.cp2_state, rd);
    handle_cp2_sxyp_mirror(&mut context.cp2_state);
    Ok(Ok(()))
}

/// Outcome of `ctc2`: its result, and the context and shared state after it.
pub open spec fn ctc2_effect(c0: ControllerContext, s0: State, instruction: Instruction, c1: ControllerContext, s1: State, r: ControllerResult) -> bool {
    &&& r == completed()
    &&& s1 == s0
    &&& cp2_only(c0, c1)
    &&& c1.cp2_state.gd == c0.cp2_state.gd
    &&& c1.cp2_state.gc@ == c0.cp2_state.gc@.update(
                instruction.spec_rd() as int,
                c0.r3000_state.gpr@[instruction.spec_rt() as int],
            )
}

/// Move general register `rt` to coprocessor 2 control register `rd`.
pub fn ctc2(context: &mut ControllerContext, state: &mut State, instruction: Instruction) -> (r: ControllerResult)
    ensures
        ctc2_effect(*old(context), *old(state), instruction, *final(context), *final(state), r),
{
    let value = context.r3000_state.gpr[instruction.rt()];
    context.cp2_state.gc[instruction.rd()] = value;
    Ok(Ok(()))
}

/// The GTE command's mode bits: shift fraction on, limit mode off.
pub open spec fn rtp_mode_supported(instruction: Instruction) -> bool {
    gte_of(instruction).spec_sf() && !gte_of(instruction).spec_lm()
}

/// Outcome of `rtps`: its result, and the context and shared state after it.
pub open spec fn rtps_effect(c0: ControllerContext, s0: State, instruction: Instruction, c1: ControllerContext, s1: State, r: ControllerResult) -> bool {
    &&& s1 == s0
    &&& !rtp_mode_supported(instruction) ==> r == failed(ControllerError::GteModeNotHandled) && c1
                == c0
    &&& rtp_mode_supported(instruction) ==> r == completed() && cp2_only(c0, c1)
                && c1.cp2_state.gc == c0.cp2_state.gc && c1.cp2_state.gd@
                == spec_rtp(c0.cp2_state.gd@, c0.cp2_state.gc@, 0, 1)
}

/// RTPS: perspective transformation of V0.
pub fn rtps(context: &mut ControllerContext, state: &mut State, instruction: Instruction) -> (r: ControllerResult)
    ensures
        rtps_effect(*old(context), *old(state), instruction, *final(context), *final(state), r),
{
    let instruction = GteInstruction::new(instruction);
    match perspective_transform(context, instruction.sf(), instruction.lm(), 0, 1) {
        Ok(()) => Ok(Ok(())),
        Err(e) => Err(e),
    }
}

/// Outcome of `rtpt`: its result, and the context and shared state after it.
pub open spec fn rtpt_effect(c0: ControllerContext, s0: State, instruction: Instruction, c1: ControllerContext, s1: State, r: ControllerResult) -> bool {
    &&& s1 == s0
    &&& !rtp_mode_supported(instruction) ==> r == failed(ControllerError::GteModeNotHandled) && c1
                == c0
    &&& rtp_mode_supported(instruction) ==> r == completed() && cp2_only(c0, c1)
                && c1.cp2_state.gc == c0.cp2_state.gc && c1.cp2_state.gd@
                == spec_rtp(
                spec_rtp(spec_rtp(c0.cp2_state.gd@, c0.cp2_state.gc@, 0, 1), c0.cp2_state.gc@, 2, 3),
                c0.cp2_state.gc@,
                4,
                5,
            )
}

/// RTPT: perspective transformation of V0, V1 and V2 in turn.
pub fn rtpt(context: &mut ControllerContext, state: &mut State, instruction: Instruction) -> (r: ControllerResult)
    ensures
        rtpt_effect(*old(context), *old(state), instruction, *final(context), *final(state), r),
{
    let instruction = GteInstruction::new(instruction);
    let sf = instruction.sf();
    let lm = instruction.lm();
    if !sf || lm {
        return Err(ControllerError::GteModeNotHandled);
    }
    let _ = perspective_transform(context, sf, lm, 0, 1);
    let _ = perspective_transform(context, sf, lm, 2, 3);
    let _ = perspective_transform(context, sf, lm, 4, 5);
    Ok(Ok(()))
}

/// NCLIP: twice the signed area of the screen triangle SXY0, SXY1, SXY2.
pub open spec fn spec_nclip(gd: Seq<u32>) -> int {
    let sx0 = s16(gd[12], 0);
    let sy0 = s16(gd[12], 1);
    let sx1 = s16(gd[13], 0);
    let sy1 = s16(gd[13], 1);
    let sx2 = s16(gd[14], 0);
    let sy2 = s16(gd[14], 1);
    sx0 * sy1 + sx1 * sy2 + sx2 * sy0 - sx0 * sy2 - sx1 * sy0 - sx2 * sy1
}

/// Outcome of `nclip`: its result, and the context and shared state after it.
pub open spec fn nclip_effect(c0: ControllerContext, s0: State, instruction: Instruction, c1: ControllerContext, s1: State, r: ControllerResult) -> bool {
    &&& r == completed()
    &&& s1 == s0
    &&& cp2_only(c0, c1)
    &&& c1.cp2_state.gc == c0.cp2_state.gc
    &&& c1.cp2_state.gd@ == c0.cp2_state.gd@.update(24, spec_nclip(c0.cp2_state.gd@) as i32 as u32)
}

pub fn nclip(context: &mut ControllerContext, state: &mut State, instruction: Instruction) -> (r: ControllerResult)
    ensures
        nclip_effect(*old(context), *old(state), instruction, *final(context), *final(state), r),
{
    let gd = context.cp2_state.gd;
    let sx0 = read_s16(gd[12], 0);
    let sy0 = read_s16(gd[12], 1);
    let sx1 = read_s16(gd[13], 0);
    let sy1 = read_s16(gd[13], 1);
    let sx2 = read_s16(gd[14], 0);
    let sy2 = read_s16(gd[14], 1);
    proof {
        lemma_mul_bounds(sx0 as int, sy1 as int, 0x8000, 0x8000);
        lemma_mul_bounds(sx1 as int, sy2 as int, 0x8000, 0x8000);
        lemma_mul_bounds(sx2 as int, sy0 as int, 0x8000, 0x8000);
        lemma_mul_bounds(sx0 as int, sy2 as int, 0x8000, 0x8000);
        lemma_mul_bounds(sx1 as int, sy0 as int, 0x8000, 0x8000);
        lemma_mul_bounds(sx2 as int, sy1 as int, 0x8000, 0x8000);
    }
    let mac0 = (sx0 * sy1) + (sx1 * sy2) + (sx2 * sy0) - (sx0 * sy2) - (sx1 * sy0) - (sx2 * sy1);
    context.cp2_state.gd[24] = mac0 as i32 as u32;
    Ok(Ok(()))
}

/// Outcome of `dpcs`: its result, and the context and shared state after it.
pub open spec fn dpcs_effect(c0: ControllerContext, s0: State, instruction: Instruction, c1: ControllerContext, s1: State, r: ControllerResult) -> bool {
    &&& s1 == s0
    &&& !gte_of(instruction).spec_sf() ==> r == failed(ControllerError::GteModeNotHandled)
                && c1 == c0
    &&& gte_of(instruction).spec_sf() ==> r == completed() && cp2_only(c0, c1)
                && c1.cp2_state.gc == c0.cp2_state.gc && c1.cp2_state.gd@
                == spec_dpcs(c0.cp2_state.gd@, c0.cp2_state.gc@, gte_of(instruction).spec_lm())
}

/// DPCS: depth cueing of the color register (shift fraction mode only).
pub fn dpcs(context: &mut ControllerContext, state: &mut State, instruction: Instruction) -> (r: ControllerResult)
    ensures
        dpcs_effect(*old(context), *old(state), instruction, *final(context), *final(state), r),
{
    let instruction = GteInstruction::new(instruction);
    if !instruction.sf() {
        return Err(ControllerError::GteModeNotHandled);
    }
    let color = context.cp2_state.gd[6];
    let r = (crate::register::byte_of(color, 0) as i64) * 65536;
    let g = (crate::register::byte_of(color, 1) as i64) * 65536;
    let b = (crate::register::byte_of(color, 2) as i64) * 65536;
    depth_cue(context, (r, g, b), instruction.lm());
    Ok(Ok(()))
}

/// Outcome of `ncds`: its result, and the context and shared state after it.
pub open spec fn ncds_effect(c0: ControllerContext, s0: State, instruction: Instruction, c1: ControllerContext, s1: State, r: ControllerResult) -> bool {
    &&& s1 == s0
    &&& !gte_of(instruction).spec_sf() ==> r == failed(ControllerError::GteModeNotHandled)
                && c1 == c0
    &&& gte_of(instruction).spec_sf() ==> r == completed() && cp2_only(c0, c1)
                && c1.cp2_state.gc == c0.cp2_state.gc && c1.cp2_state.gd@
                == spec_ncd(c0.cp2_state.gd@, c0.cp2_state.gc@, 0, 1, gte_of(instruction).spec_lm())
}

/// NCDS: normal color depth cue of V0 (shift fraction mode only).
pub fn ncds(context: &mut ControllerContext, state: &mut State, instruction: Instruction) -> (r: ControllerResult)
    ensures
        ncds_effect(*old(context), *old(state), instruction, *final(context), *final(state), r),
{
    let instruction = GteInstruction::new(instruction);
    match normal_color_depth_cue(context, instruction.sf(), instruction.lm(), 0, 1) {
        Ok(()) => Ok(Ok(())),
        Err(e) => Err(e),
    }
}

/// Outcome of `ncdt`: its result, and the context and shared state after it.
pub open spec fn ncdt_effect(c0: ControllerContext, s0: State, instruction: Instruction, c1: ControllerContext, s1: State, r: ControllerResult) -> bool {
    &&& s1 == s0
    &&& !gte_of(instruction).spec_sf() ==> r == failed(ControllerError::GteModeNotHandled)
                && c1 == c0
    &&& gte_of(instruction).spec_sf() ==> r == completed() && cp2_only(c0, c1)
                && c1.cp2_state.gc == c0.cp2_state.gc && c1.cp2_state.gd@
                == spec_ncd(
                    spec_ncd(
                        spec_ncd(c0.cp2_state.gd@, c0.cp2_state.gc@, 0, 1, gte_of(instruction).spec_lm()),
                        c0.cp2_state.gc@, 2, 3, gte_of(instruction).spec_lm()),
                    c0.cp2_state.gc@, 4, 5, gte_of(instruction).spec_lm())
}

/// NCDT: normal color depth cue of V0, V1 and V2 in turn (shift fraction mode only).
pub fn ncdt(context: &mut ControllerContext, state: &mut State, instruction: Instruction) -> (r: ControllerResult)
    ensures
        ncdt_effect(*old(context), *old(state), instruction, *final(context), *final(state), r),
{
    let instruction = GteInstruction::new(instruction);
    let sf = instruction.sf();
    let lm = instruction.lm();
    if !sf {
        return Err(ControllerError::GteModeNotHandled);
    }
    let _ = normal_color_depth_cue(context, sf, lm, 0, 1);
    let _ = normal_color_depth_cue(context, sf, lm, 2, 3);
    let _ = normal_color_depth_cue(context, sf, lm, 4, 5);
    Ok(Ok(()))
}

/// Outcome of `ncct`: its result, and the context and shared state after it.
pub open spec fn ncct_effect(c0: ControllerContext, s0: State, instruction: Instruction, c1: ControllerContext, s1: State, r: ControllerResult) -> bool {
    &&& s1 == s0
    &&& !gte_of(instruction).spec_sf() ==> r == failed(ControllerError::GteModeNotHandled)
                && c1 == c0
    &&& gte_of(instruction).spec_sf() ==> r == completed() && cp2_only(c0, c1)
                && c1.cp2_state.gc == c0.cp2_state.gc && c1.cp2_state.gd@
                == spec_ncc(
                    spec_ncc(
                        spec_ncc(c0.cp2_state.gd@, c0.cp2_state.gc@, 0, 1, gte_of(instruction).spec_lm()),
                        c0.cp2_state.gc@, 2, 3, gte_of(instruction).spec_lm()),
                    c0.cp2_state.gc@, 4, 5, gte_of(instruction).spec_lm())
}

/// NCCT: normal color color of V0, V1 and V2 in turn (shift fraction mode only).
pub fn ncct(context: &mut ControllerContext, state: &mut State, instruction: Instruction) -> (r: ControllerResult)
    ensures
        ncct_effect(*old(context), *old(state), instruction, *final(context), *final(state), r),
{
    let instruction = GteInstruction::new(instruction);
    let sf = instruction.sf();
    let lm = instruction.lm();
    if !sf {
        return Err(ControllerError::GteModeNotHandled);
    }
    let _ = normal_color_color(context, sf, lm, 0, 1);
    let _ = normal_color_color(context, sf, lm, 2, 3);
    let _ = normal_color_color(context, sf, lm, 4, 5);
    Ok(Ok(()))
}

/// AVSZ3/AVSZ4: scaled average of the Z FIFO into OTZ (register 7), with the
/// unclamped product in MAC0 (register 24).
pub open spec fn spec_average_z(gd: Seq<u32>, scale: int, sum: int) -> Seq<u32> {
    let mac0 = scale * sum;
    let otz = clamp(mac0 / 4096, 0, 0xFFFF);
    gd.update(24, mac0 as i32 as u32).update(7, otz as u16 as u32)
}

/// Outcome of `avsz3`: its result, and the context and shared state after it.
pub open spec fn avsz3_effect(c0: ControllerContext, s0: State, instruction: Instruction, c1: ControllerContext, s1: State, r: ControllerResult) -> bool {
    &&& r == completed()
    &&& s1 == s0
    &&& cp2_only(c0, c1)
    &&& c1.cp2_state.gc == c0.cp2_state.gc
    &&& c1.cp2_state.gd@ == spec_average_z(
                c0.cp2_state.gd@,
                s16(c0.cp2_state.gc@[29], 0),
                spec_half(c0.cp2_state.gd@[17], 0) + spec_half(c0.cp2_state.gd@[18], 0)
                    + spec_half(c0.cp2_state.gd@[19], 0),
            )
}

pub fn avsz3(context: &mut ControllerContext, state: &mut State, instruction: Instruction) -> (r: ControllerResult)
    ensures
        avsz3_effect(*old(context), *old(state), instruction, *final(context), *final(state), r),
{
    let gd = context.cp2_state.gd;
    let sz1 = crate::register::half_of(gd[17], 0) as i64;
    let sz2 = crate::register::half_of(gd[18], 0) as i64;
    let sz3 = crate::register::half_of(gd[19], 0) as i64;
    let zsf3 = read_s16(context.cp2_state.gc[29], 0);
    proof {
        lemma_mul_bounds(zsf3 as int, (sz1 + sz2 + sz3) as int, 0x8000, 0x3_0000);
    }
    let mac0 = zsf3 * (sz1 + sz2 + sz3);
    let otz = clamp_i64(shr12(mac0), 0, 0xFFFF);
    context.cp2_state.gd[24] = mac0 as i32 as u32;
    context.cp2_state.gd[7] = otz as u16 as u32;
    Ok(Ok(()))
}

/// Outcome of `avsz4`: its result, and the context and shared state after it.
pub open spec fn avsz4_effect(c0: ControllerContext, s0: State, instruction: Instruction, c1: ControllerContext, s1: State, r: ControllerResult) -> bool {
    &&& r == completed()
    &&& s1 == s0
    &&& cp2_only(c0, c1)
    &&& c1.cp2_state.gc == c0.cp2_state.gc
    &&& c1.cp2_state.gd@ == spec_average_z(
                c0.cp2_state.gd@,
                s16(c0.cp2_state.gc@[30], 0),
                spec_half(c0.cp2_state.gd@[16], 0) + spec_half(c0.cp2_state.gd@[17], 0)
                    + spec_half(c0.cp2_state.gd@[18], 0) + spec_half(c0.cp2_state.gd@[19], 0),
            )
}

pub fn avsz4(context: &mut ControllerContext, state: &mut State, instruction: Instruction) -> (r: ControllerResult)
    ensures
        avsz4_effect(*old(context), *old(state), instruction, *final(context), *final(state), r),
{
    let gd = context.cp2_state.gd;
    let sz0 = crate::register::half_of(gd[16], 0) as i64;
    let sz1 = crate::register::half_of(gd[17], 0) as i64;
    let sz2 = crate::register::half_of(gd[18], 0) as i64;
    let sz3 = crate::register::half_of(gd[19], 0) as i64;
    let zsf4 = read_s16(context.cp2_state.gc[30], 0);
    proof {
        lemma_mul_bounds(zsf4 as int, (sz0 + sz1 + sz2 + sz3) as int, 0x8000, 0x4_0000);
    }
    let mac0 = zsf4 * (sz0 + sz1 + sz2 + sz3);
    let otz = clamp_i64(shr12(mac0), 0, 0xFFFF);
    context.cp2_state.gd[24] = mac0 as i32 as u32;
    context.cp2_state.gd[7] = otz as u16 as u32;
    Ok(Ok(()))
}

/// First control register of the matrix MVMVA multiplies by (Reserved has none).
pub open spec fn matrix_base(mm: MultiplyMatrix) -> int {
    match mm {
        MultiplyMatrix::Rotation => 0,
        MultiplyMatrix::Light => 8,
        MultiplyMatrix::Color => 16,
        MultiplyMatrix::Reserved => -1,
    }
}

/// The vector MVMVA multiplies: V0, V1, V2 or (IR1, IR2, IR3).
pub open spec fn mvmva_vector(gd: Seq<u32>, mv: MultiplyVector) -> (int, int, int) {
    match mv {
        MultiplyVector::V0 => (s16(gd[0], 0), s16(gd[0], 1), s16(gd[1], 0)),
        MultiplyVector::V1 => (s16(gd[2], 0), s16(gd[2], 1), s16(gd[3], 0)),
        MultiplyVector::V2 => (s16(gd[4], 0), s16(gd[4], 1), s16(gd[5], 0)),
        MultiplyVector::IR => (s16(gd[9], 0), s16(gd[10], 0), s16(gd[11], 0)),
    }
}

/// The translation MVMVA adds (already scaled by 4096): TR, BK or none.
pub open spec fn mvmva_translation(gc: Seq<u32>, tv: TranslationVector) -> (int, int, int) {
    match tv {
        TranslationVector::TR => (s32(gc[5]) * 4096, s32(gc[6]) * 4096, s32(gc[7]) * 4096),
        TranslationVector::BK => (s32(gc[13]) * 4096, s32(gc[14]) * 4096, s32(gc[15]) * 4096),
        _ => (0, 0, 0),
    }
}

/// MVMVA: translation plus matrix times vector, into MAC1..3 and IR1..3.
pub open spec fn spec_mvmva(gd: Seq<u32>, gc: Seq<u32>, g: GteInstruction) -> Seq<u32> {
    let base = matrix_base(g.mm_kind());
    let v = mvmva_vector(gd, g.mv_kind());
    let t = mvmva_translation(gc, g.tv_kind());
    let mac1 = (t.0 + mat_row(gc, base, 0, v.0, v.1, v.2)) / 4096;
    let mac2 = (t.1 + mat_row(gc, base, 1, v.0, v.1, v.2)) / 4096;
    let mac3 = (t.2 + mat_row(gc, base, 2, v.0, v.1, v.2)) / 4096;
    gd.update(25, mac1 as i32 as u32).update(9, clamp(mac1, ir_min(g.spec_lm()), 0x7FFF) as i32 as u32).update(
        26,
        mac2 as i32 as u32,
    ).update(10, clamp(mac2, ir_min(g.spec_lm()), 0x7FFF) as i32 as u32).update(27, mac3 as i32 as u32).update(
        11,
        clamp(mac3, ir_min(g.spec_lm()), 0x7FFF) as i32 as u32,
    )
}

/// MVMVA modes this model handles: shift fraction on, a real matrix, and no far-color translation.
pub open spec fn mvmva_supported(g: GteInstruction) -> bool {
    g.spec_sf() && g.mm_kind() != MultiplyMatrix::Reserved && g.tv_kind() != TranslationVector::FC
}

/// Outcome of `mvmva`: its result, and the context and shared state after it.
pub open spec fn mvmva_effect(c0: ControllerContext, s0: State, instruction: Instruction, c1: ControllerContext, s1: State, r: ControllerResult) -> bool {
    &&& s1 == s0
    &&& !mvmva_supported(gte_of(instruction)) ==> r == failed(ControllerError::GteModeNotHandled) && c1
                == c0
    &&& mvmva_supported(gte_of(instruction)) ==> r == completed() && cp2_only(c0, c1)
                && c1.cp2_state.gc == c0.cp2_state.gc && c1.cp2_state.gd@
                == spec_mvmva(c0.cp2_state.gd@, c0.cp2_state.gc@, gte_of(instruction))
}

pub fn mvmva(context: &mut ControllerContext, state: &mut State, instruction: Instruction) -> (r: ControllerResult)
    ensures
        mvmva_effect(*old(context), *old(state), instruction, *final(context), *final(state), r),
{
    let instruction = GteInstruction::new(instruction);
    if !instruction.sf() {
        return Err(ControllerError::GteModeNotHandled);
    }
    let min = ir_min_exec(instruction.lm());
    let base: usize = match instruction.mvmva_mm() {
        MultiplyMatrix::Rotation => 0,
        MultiplyMatrix::Light => 8,
        MultiplyMatrix::Color => 16,
        MultiplyMatrix::Reserved => return Err(ControllerError::GteModeNotHandled),
    };
    let gd = context.cp2_state.gd;
    let gc = context.cp2_state.gc;
    let (vx, vy, vz) = match instruction.mvmva_mv() {
        MultiplyVector::V0 => (read_s16(gd[0], 0), read_s16(gd[0], 1), read_s16(gd[1], 0)),
        MultiplyVector::V1 => (read_s16(gd[2], 0), read_s16(gd[2], 1), read_s16(gd[3], 0)),
        MultiplyVector::V2 => (read_s16(gd[4], 0), read_s16(gd[4], 1), read_s16(gd[5], 0)),
        MultiplyVector::IR => (read_s16(gd[9], 0), read_s16(gd[10], 0), read_s16(gd[11], 0)),
    };
    let (tx, ty, tz) = match instruction.mvmva_tv() {
        TranslationVector::TR => (shl12(read_s32(gc[5])), shl12(read_s32(gc[6])), shl12(read_s32(gc[7]))),
        TranslationVector::BK => (shl12(read_s32(gc[13])), shl12(read_s32(gc[14])), shl12(read_s32(gc[15]))),
        TranslationVector::FC => return Err(ControllerError::GteModeNotHandled),
        TranslationVector::Zero => (0, 0, 0),
    };
    let mac1 = shr12(tx + mat_row_exec(&gc, base, 0, vx, vy, vz));
    let mac2 = shr12(ty + mat_row_exec(&gc, base, 1, vx, vy, vz));
    let mac3 = shr12(tz + mat_row_exec(&gc, base, 2, vx, vy, vz));
    let ir1 = clamp_i64(mac1, min, I16_MAX);
    let ir2 = clamp_i64(mac2, min, I16_MAX);
    let ir3 = clamp_i64(mac3, min, I16_MAX);
    context.cp2_state.gd[25] = mac1 as i32 as u32;
    context.cp2_state.gd[9] = ir1 as i32 as u32;
    context.cp2_state.gd[26] = mac2 as i32 as u32;
    context.cp2_state.gd[10] = ir2 as i32 as u32;
    context.cp2_state.gd[27] = mac3 as i32 as u32;
    context.cp2_state.gd[11] = ir3 as i32 as u32;
    Ok(Ok(()))
}

} // verus!
