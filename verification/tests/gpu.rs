use psx_core::color::{Color, PackedColor};
use psx_core::geometry::{Point2D, Rect, Size2D};
use psx_core::system::bus::{bus_read_u32, bus_write_u32};
use psx_core::system::gpu::backend_dispatch::{draw_rectangle, draw_triangles, render, VideoBackend};
use psx_core::system::gpu::command_gp0::handle_command as handle_gp0;
use psx_core::system::gpu::command_gp0_impl::{command_a0_length, complete_vram_to_cpu};
use psx_core::system::gpu::command_gp1::handle_command as handle_gp1;
use psx_core::system::gpu::controller::{handle_read, tick};
use psx_core::system::gpu::crtc::{handle_frame_tick, handle_render, handle_scanline_tick};
use psx_core::system::gpu::data::{
    default_copy_x_size_modifier, default_copy_y_size_modifier, default_fill_x_position_modifier,
    default_fill_x_size_modifier, default_render_x_position_modifier, extract_clut_base, extract_color,
    extract_texpage_base, extract_texpage_clut_mode, extract_texpage_transparency_mode,
    extract_texture_position_offset, make_position, make_rectangle_by_corners,
};
use psx_core::system::gpu::rendering::{
    clut_mode_value, rendering_mode_value, transparency_mode_value, BackendRequest, ClutKind, RectangleParams,
    RenderingKind, TransparencyKind, TrianglesParams,
};
use psx_core::system::gpu::types::{ClutMode, ControllerState, GpuError, TransparencyMode};
use psx_core::system::State;

const GP0: u32 = 0x1F80_1810;
const GP1: u32 = 0x1F80_1814;

fn requests(backend: &VideoBackend) -> &Vec<BackendRequest> {
    match backend {
        VideoBackend::Opengl(q) => q,
        VideoBackend::Headless => panic!("no renderer"),
    }
}

#[test]
fn vertex_coordinates_are_signed_11_bit() {
    assert_eq!(default_render_x_position_modifier(0x3FF), 1023);
    assert_eq!(default_render_x_position_modifier(0x400), -1024);
    assert_eq!(default_render_x_position_modifier(0x7FF), -1);
    assert_eq!(default_render_x_position_modifier(0xF801), 1);
}

#[test]
fn fill_and_copy_modifiers() {
    assert_eq!(default_fill_x_position_modifier(0x3FF), 0x3F0);
    assert_eq!(default_fill_x_size_modifier(0x3FF), 1024);
    assert_eq!(default_fill_x_size_modifier(17), 32);
    assert_eq!(default_fill_x_size_modifier(0), 0);
    assert_eq!(default_copy_x_size_modifier(0), 1024);
    assert_eq!(default_copy_x_size_modifier(1), 1);
    assert_eq!(default_copy_x_size_modifier(0x401), 1);
    assert_eq!(default_copy_y_size_modifier(0x200), 512);
}

#[test]
fn command_word_fields() {
    assert_eq!(extract_color(0x0011_2233), Color::new(0x33, 0x22, 0x11));
    assert_eq!(extract_clut_base(0x7FFF_0000), Point2D::new(1008, 511));
    assert_eq!(extract_texpage_base(0x001F_0000), Point2D::new(960, 256));
    assert_eq!(extract_texture_position_offset(0x0000_1234), Size2D::new(0x34, 0x12));
    assert_eq!(extract_texpage_transparency_mode(0x0060_0000), TransparencyMode::Quarter);
    assert_eq!(extract_texpage_clut_mode(0x0180_0000), ClutMode::Reserved);
    assert_eq!(extract_texpage_clut_mode(0x0100_0000), ClutMode::Bits15);
    assert_eq!(extract_texpage_clut_mode(0x0080_0000), ClutMode::Bits8);
}

#[test]
fn positions_and_rectangles() {
    assert_eq!(make_position(Point2D::new(10, -5), Size2D::new(-20, 7)), Point2D::new(-10, 2));
    let r = make_rectangle_by_corners(10, 20, 5, 30);
    assert_eq!(r.origin, Point2D::new(10, 20));
    assert_eq!(r.size, Size2D::new(-5, 10));
}

#[test]
fn shader_selectors() {
    let textured = RenderingKind::RawTexture {
        page_base: Point2D::new(0, 0),
        clut_kind: ClutKind::Bits8 { clut_base: Point2D::new(0, 0) },
    };
    assert_eq!(rendering_mode_value(RenderingKind::Shaded), 0);
    assert_eq!(rendering_mode_value(textured), 2);
    assert_eq!(clut_mode_value(textured), 2);
    assert_eq!(clut_mode_value(RenderingKind::Shaded), 0);
    assert_eq!(transparency_mode_value(TransparencyKind::Quarter), 4);
    assert_eq!(ClutKind::from_data(ClutMode::Bits15, Point2D::new(1, 2)), ClutKind::Direct);
    assert_eq!(TransparencyKind::from_data(TransparencyMode::Additive), TransparencyKind::Additive);
}

#[test]
fn headless_renderer_refuses_requests() {
    let mut backend = VideoBackend::Headless;
    assert_eq!(render(&mut backend), Err(()));
    let mut queue = VideoBackend::Opengl(Vec::new());
    assert_eq!(render(&mut queue), Ok(()));
    assert_eq!(requests(&queue).len(), 1);
    let params = RectangleParams {
        rectangle: Rect::new(Point2D::new(0, 0), Size2D::new(1, 1)),
        color: Color::new(1, 2, 3),
        texture_position_base_offset: Size2D::new(0, 0),
        rendering_kind: RenderingKind::Shaded,
        transparency_kind: TransparencyKind::Opaque,
        drawing_area: Rect::new(Point2D::new(0, 0), Size2D::new(1, 1)),
        mask_bit_force_set: false,
        mask_bit_check: false,
    };
    assert_eq!(draw_rectangle(&mut backend, params), Err(()));
}

#[test]
fn fill_rectangle_command_is_drawn() {
    let mut state = State::new();
    let mut cs = ControllerState::new();
    let mut backend = VideoBackend::Opengl(Vec::new());
    bus_write_u32(&mut state, GP0, 0x0200_00FF).unwrap();
    bus_write_u32(&mut state, GP0, 0x0020_0013).unwrap();
    bus_write_u32(&mut state, GP0, 0x0008_0011).unwrap();
    assert_eq!(handle_gp0(&mut state.gpu, &mut cs, &mut backend), Ok(()));
    assert_eq!(cs.gp0_command_buffer.len(), 0);
    match &requests(&backend)[0] {
        BackendRequest::DrawRectangle(p) => {
            assert_eq!(p.rectangle.origin, Point2D::new(0x10, 0x20));
            assert_eq!(p.rectangle.size, Size2D::new(0x20, 0x08));
            assert_eq!(p.color, Color::new(0xFF, 0, 0));
            assert_eq!(p.drawing_area.size, Size2D::new(1024, 512));
        },
        other => panic!("unexpected request {:?}", other),
    }
}

#[test]
fn partial_command_waits_for_its_words() {
    let mut state = State::new();
    let mut cs = ControllerState::new();
    let mut backend = VideoBackend::Opengl(Vec::new());
    bus_write_u32(&mut state, GP0, 0x2800_0000).unwrap();
    bus_write_u32(&mut state, GP0, 0).unwrap();
    assert_eq!(handle_gp0(&mut state.gpu, &mut cs, &mut backend), Ok(()));
    assert_eq!(cs.gp0_command_required_length, Some(5));
    assert_eq!(cs.gp0_command_buffer.len(), 2);
    assert_eq!(requests(&backend).len(), 0);
    for _ in 0..3 {
        bus_write_u32(&mut state, GP0, 0).unwrap();
    }
    assert_eq!(handle_gp0(&mut state.gpu, &mut cs, &mut backend), Ok(()));
    assert_eq!(requests(&backend).len(), 1);
    assert_eq!(cs.gp0_command_required_length, None);
}

#[test]
fn unknown_gp0_command_is_an_error() {
    let mut state = State::new();
    let mut cs = ControllerState::new();
    let mut backend = VideoBackend::Headless;
    bus_write_u32(&mut state, GP0, 0x2000_0000).unwrap();
    assert_eq!(handle_gp0(&mut state.gpu, &mut cs, &mut backend), Err(GpuError::UnknownGp0Command(0x20)));
    assert_eq!(cs.gp0_command_buffer.len(), 1);
}

#[test]
fn reserved_texture_mode_is_refused() {
    let mut state = State::new();
    let mut cs = ControllerState::new();
    let mut backend = VideoBackend::Opengl(Vec::new());
    let words = [0x2C00_0000, 0, 0, 0, 0x0180_0000, 0, 0, 0, 0];
    for w in words {
        bus_write_u32(&mut state, GP0, w).unwrap();
    }
    assert_eq!(handle_gp0(&mut state.gpu, &mut cs, &mut backend), Err(GpuError::ReservedClutMode));
    assert_eq!(requests(&backend).len(), 0);
}

#[test]
fn draw_mode_and_offset_settings() {
    let mut state = State::new();
    let mut cs = ControllerState::new();
    let mut backend = VideoBackend::Headless;
    bus_write_u32(&mut state, GP0, 0xE100_0A2F).unwrap();
    bus_write_u32(&mut state, GP0, 0xE500_0FFF).unwrap();
    bus_write_u32(&mut state, GP0, 0xE600_0003).unwrap();
    for _ in 0..3 {
        assert_eq!(handle_gp0(&mut state.gpu, &mut cs, &mut backend), Ok(()));
    }
    assert_eq!(cs.texpage_base_x, 15 * 64);
    assert_eq!(cs.texpage_base_y, 0);
    assert_eq!(cs.transparency_mode, TransparencyMode::Additive);
    assert!(cs.texture_disable);
    assert!(cs.dither);
    assert!(!cs.draw_to_display_area);
    assert_eq!((cs.drawing_offset_x, cs.drawing_offset_y), (-1, 1));
    assert!(cs.mask_bit_force_set && cs.mask_bit_check);
    assert_eq!(state.gpu.stat.value & 0x9FFF, 0x9A2F);
}

#[test]
fn gp1_reset_and_pending_commands() {
    let mut state = State::new();
    let mut cs = ControllerState::new();
    let mut backend = VideoBackend::Headless;
    state.gpu.stat.value = 0xFFFF_FFFF;
    bus_write_u32(&mut state, GP1, 0x0000_0000).unwrap();
    assert!(bus_write_u32(&mut state, GP1, 0x0300_0000).is_err());
    assert_eq!(handle_gp1(&mut state.gpu, &mut cs, &mut backend), Ok(()));
    assert_eq!(state.gpu.stat.value, 0x9E80_2000);
    assert!(!state.gpu.gp1_command_pending);
    assert_eq!(cs.gp1_command, None);
    bus_write_u32(&mut state, GP1, 0x0FFF_FFFF).unwrap();
    assert_eq!(handle_gp1(&mut state.gpu, &mut cs, &mut backend), Err(GpuError::UnknownGp1Command(0x0F)));
}

#[test]
fn display_range_commands() {
    let mut state = State::new();
    let mut cs = ControllerState::new();
    let mut backend = VideoBackend::Headless;
    bus_write_u32(&mut state, GP1, 0x0500_2C05).unwrap();
    handle_gp1(&mut state.gpu, &mut cs, &mut backend).unwrap();
    assert_eq!((cs.display_area_start_x, cs.display_area_start_y), (5, 11));
    bus_write_u32(&mut state, GP1, 0x0800_0010).unwrap();
    handle_gp1(&mut state.gpu, &mut cs, &mut backend).unwrap();
    assert_eq!(state.gpu.stat.value & (1 << 21), 1 << 21);
}

#[test]
fn vram_to_cpu_copy_goes_through_gpuread() {
    let mut state = State::new();
    let mut cs = ControllerState::new();
    let mut headless = VideoBackend::Headless;
    for w in [0xC000_0000u32, 0x0000_0000, 0x0001_0003] {
        bus_write_u32(&mut state, GP0, w).unwrap();
    }
    assert_eq!(handle_gp0(&mut state.gpu, &mut cs, &mut headless), Err(GpuError::NoFramebufferBackend));

    let mut state = State::new();
    let mut cs = ControllerState::new();
    let mut backend = VideoBackend::Opengl(Vec::new());
    for w in [0xC000_0000u32, 0x0000_0000, 0x0001_0003] {
        bus_write_u32(&mut state, GP0, w).unwrap();
    }
    assert_eq!(handle_gp0(&mut state.gpu, &mut cs, &mut backend), Ok(()));
    let rectangle = match &requests(&backend)[0] {
        BackendRequest::ReadFramebuffer(p) => p.rectangle,
        other => panic!("unexpected request {:?}", other),
    };
    assert_eq!(rectangle.size, Size2D::new(3, 1));
    let pixels = vec![PackedColor::new(0x1111), PackedColor::new(0x2222), PackedColor::new(0x3333)];
    complete_vram_to_cpu(&mut state.gpu, &mut cs, rectangle, pixels);
    assert_eq!(cs.gp0_read_buffer.len(), 2);
    assert_eq!(handle_read(&mut state.gpu, &mut cs), Ok(()));
    assert_eq!(bus_read_u32(&mut state, GP0), Ok(0x2222_1111));
    assert_eq!(bus_read_u32(&mut state, GP0), Ok(0x0000_3333));
    assert_eq!(bus_read_u32(&mut state, GP0), Ok(0xFFFF_FFFF));
}

#[test]
fn cpu_to_vram_copy_sends_pixels() {
    let mut state = State::new();
    let mut cs = ControllerState::new();
    let mut backend = VideoBackend::Opengl(Vec::new());
    assert_eq!(command_a0_length(&[0xA000_0000, 0]), None);
    assert_eq!(command_a0_length(&[0xA000_0000, 0, 0x0001_0003]), Some(5));
    for w in [0xA000_0000u32, 0x0002_0001, 0x0001_0003, 0x2222_1111, 0x4444_3333] {
        bus_write_u32(&mut state, GP0, w).unwrap();
    }
    assert_eq!(tick(&mut state.gpu, &mut cs, &mut backend), Ok(()));
    match &requests(&backend)[0] {
        BackendRequest::WriteFramebuffer(p) => {
            assert_eq!(p.rectangle.origin, Point2D::new(1, 2));
            assert_eq!(p.rectangle.size, Size2D::new(3, 1));
            let colors: Vec<u16> = p.data.iter().map(|c| c.color).collect();
            assert_eq!(colors, vec![0x1111, 0x2222, 0x3333, 0x4444]);
        },
        other => panic!("unexpected request {:?}", other),
    }
}

#[test]
fn scanlines_toggle_odd_flag_and_frames_raise_vblank() {
    let mut state = State::new();
    handle_scanline_tick(&mut state.gpu);
    assert_eq!(state.gpu.stat.value >> 31, 1);
    handle_scanline_tick(&mut state.gpu);
    assert_eq!(state.gpu.stat.value >> 31, 0);
    let mut backend = VideoBackend::Opengl(Vec::new());
    assert_eq!(handle_frame_tick(&mut state, &mut backend), Ok(()));
    assert_eq!(state.intc.stat.register.value & 1, 1);
    assert_eq!(requests(&backend).len(), 1);
    state.gpu.stat.value |= 1 << 21;
    assert_eq!(handle_render(&state.gpu, &mut backend), Err(GpuError::ColorDepth24Unsupported));
}

#[test]
fn gpuread_refill_stops_when_full_and_keeps_order() {
    let mut state = State::new();
    let mut cs = ControllerState::new();
    let rectangle = Rect::new(Point2D::new(0usize, 0usize), Size2D::new(4100usize, 1usize));
    let pixels: Vec<PackedColor> = (0..4100u32).map(|i| PackedColor::new(i as u16)).collect();
    complete_vram_to_cpu(&mut state.gpu, &mut cs, rectangle, pixels);
    assert_eq!(cs.gp0_read_buffer.len(), 2050);
    handle_read(&mut state.gpu, &mut cs).unwrap();
    assert_eq!(state.gpu.read.len(), 2048);
    assert_eq!(cs.gp0_read_buffer.len(), 2);
    assert_eq!(bus_read_u32(&mut state, GP0), Ok(0x0001_0000));
    handle_read(&mut state.gpu, &mut cs).unwrap();
    assert_eq!(cs.gp0_read_buffer.len(), 1);
    assert_eq!(cs.gp0_read_buffer[0], (4099u32 << 16) | 4098);
}

#[test]
fn gp1_reset_twice_is_reset_once() {
    let mut state = State::new();
    let mut cs = ControllerState::new();
    let mut backend = VideoBackend::Headless;
    state.gpu.stat.value = 0x1234_5678;
    bus_write_u32(&mut state, GP1, 0).unwrap();
    handle_gp1(&mut state.gpu, &mut cs, &mut backend).unwrap();
    let once = state.gpu.stat.value;
    bus_write_u32(&mut state, GP1, 0).unwrap();
    handle_gp1(&mut state.gpu, &mut cs, &mut backend).unwrap();
    assert_eq!(state.gpu.stat.value, once);
    assert_eq!(once, (0x1234_5678 & 0x9E00_2000) | 0x0080_0000);
}

#[test]
fn cpu_to_vram_copy_length_follows_size_modifiers() {
    // A width of 0 means 1024 pixels and a height of 0 means 512 lines.
    assert_eq!(command_a0_length(&[0xA000_0000, 0, 0]), Some(3 + 1024 * 512 / 2));
    assert_eq!(command_a0_length(&[0xA000_0000, 0, 0x0001_0400]), Some(3 + 512));
    assert_eq!(command_a0_length(&[0xA000_0000, 0, 0x0003_0003]), Some(3 + 5));
}

#[test]
fn headless_renderer_refuses_any_triangles() {
    let mut backend = VideoBackend::Headless;
    let params = TrianglesParams {
        vertices: 7,
        positions: Vec::new(),
        colors: Vec::new(),
        texture_position_offsets: Vec::new(),
        rendering_kind: RenderingKind::Shaded,
        transparency_kind: TransparencyKind::Opaque,
        drawing_area: Rect::new(Point2D::new(0, 0), Size2D::new(1024, 512)),
        mask_bit_force_set: false,
        mask_bit_check: false,
    };
    assert_eq!(draw_triangles(&mut backend, params), Err(()));
    assert!(matches!(backend, VideoBackend::Headless));
}
