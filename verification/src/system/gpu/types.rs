use vstd::prelude::*;
use crate::fifo::Fifo;
use crate::register::{B32EdgeRegister, Register};
use std::collections::VecDeque;

verus! {

/// How semi-transparent pixels are blended with what is behind them.
#[derive(Clone, Copy, Debug, PartialEq, Eq, Structural)]
pub enum TransparencyMode {
    Average,
    Additive,
    Difference,
    Quarter,
}

/// How texture texels are looked up: through a 4-bit or 8-bit color table, or direct 15-bit color.
#[derive(Clone, Copy, Debug, PartialEq, Eq, Structural)]
pub enum ClutMode {
    Bits4,
    Bits8,
    Bits15,
    Reserved,
}

/// VRAM width in 16-bit pixels.
pub const VRAM_WIDTH_16B: usize = 1024;

/// VRAM height in lines.
pub const VRAM_HEIGHT_LINES: usize = 512;

/// Depth of the GP0 command FIFO and of the GPUREAD FIFO.
pub const GPU_FIFO_DEPTH: usize = 2048;

/// Why the GPU controller stopped.
#[derive(Clone, Copy, Debug, PartialEq, Eq, Structural)]
pub enum GpuError {
    /// A GP0 command word with an opcode this GPU does not know.
    UnknownGp0Command(u8),
    /// A GP1 command word with an opcode this GPU does not know.
    UnknownGp1Command(u8),
    /// A GP1 command was latched while the previous one was still pending.
    Gp1CommandPending,
    /// VRAM to CPU copy with no renderer to read the framebuffer from.
    NoFramebufferBackend,
    /// A textured primitive asked for the reserved texture color mode.
    ReservedClutMode,
    /// The display is set to 24-bit color, which is not rendered.
    ColorDepth24Unsupported,
}

/// The GPU's drawing state, as set by GP0 and GP1 commands, and its command buffers.
pub struct ControllerState {
    pub gp1_command: Option<u32>,
    pub textured_rect_x_flip: bool,
    pub textured_rect_y_flip: bool,
    pub display_area_start_x: usize,
    pub display_area_start_y: usize,
    pub horizontal_display_range_x1: usize,
    pub horizontal_display_range_x2: usize,
    pub vertical_display_range_y1: usize,
    pub vertical_display_range_y2: usize,
    pub texture_window_mask_x: usize,
    pub texture_window_mask_y: usize,
    pub texture_window_offset_x: usize,
    pub texture_window_offset_y: usize,
    pub drawing_area_x1: usize,
    pub drawing_area_y1: usize,
    pub drawing_area_x2: usize,
    pub drawing_area_y2: usize,
    pub drawing_offset_x: isize,
    pub drawing_offset_y: isize,
    pub texpage_base_x: usize,
    pub texpage_base_y: usize,
    pub clut_mode: ClutMode,
    pub transparency_mode: TransparencyMode,
    pub dither: bool,
    pub draw_to_display_area: bool,
    pub texture_disable: bool,
    pub mask_bit_force_set: bool,
    pub mask_bit_check: bool,
    /// GP0 words received and not yet consumed by a command.
    pub gp0_command_buffer: Vec<u32>,
    /// Length of the command at the head of the buffer, once known.
    pub gp0_command_required_length: Option<usize>,
    /// Words of a VRAM to CPU copy waiting to enter the GPUREAD FIFO.
    pub gp0_read_buffer: VecDeque<u32>,
}

/// Contents of the GPU's drawing state and command buffers.
pub struct ControllerView {
    pub gp1_command: Option<u32>,
    pub textured_rect_x_flip: bool,
    pub textured_rect_y_flip: bool,
    pub display_area_start_x: usize,
    pub display_area_start_y: usize,
    pub horizontal_display_range_x1: usize,
    pub horizontal_display_range_x2: usize,
    pub vertical_display_range_y1: usize,
    pub vertical_display_range_y2: usize,
    pub texture_window_mask_x: usize,
    pub texture_window_mask_y: usize,
    pub texture_window_offset_x: usize,
    pub texture_window_offset_y: usize,
    pub drawing_area_x1: usize,
    pub drawing_area_y1: usize,
    pub drawing_area_x2: usize,
    pub drawing_area_y2: usize,
    pub drawing_offset_x: isize,
    pub drawing_offset_y: isize,
    pub texpage_base_x: usize,
    pub texpage_base_y: usize,
    pub clut_mode: ClutMode,
    pub transparency_mode: TransparencyMode,
    pub dither: bool,
    pub draw_to_display_area: bool,
    pub texture_disable: bool,
    pub mask_bit_force_set: bool,
    pub mask_bit_check: bool,
    pub gp0_command_buffer: Seq<u32>,
    pub gp0_command_required_length: Option<usize>,
    pub gp0_read_buffer: Seq<u32>,
}

impl View for ControllerState {
    type V = ControllerView;

    open spec fn view(&self) -> ControllerView {
        ControllerView {
            gp1_command: self.gp1_command,
            textured_rect_x_flip: self.textured_rect_x_flip,
            textured_rect_y_flip: self.textured_rect_y_flip,
            display_area_start_x: self.display_area_start_x,
            display_area_start_y: self.display_area_start_y,
            horizontal_display_range_x1: self.horizontal_display_range_x1,
            horizontal_display_range_x2: self.horizontal_display_range_x2,
            vertical_display_range_y1: self.vertical_display_range_y1,
            vertical_display_range_y2: self.vertical_display_range_y2,
            texture_window_mask_x: self.texture_window_mask_x,
            texture_window_mask_y: self.texture_window_mask_y,
            texture_window_offset_x: self.texture_window_offset_x,
            texture_window_offset_y: self.texture_window_offset_y,
            drawing_area_x1: self.drawing_area_x1,
            drawing_area_y1: self.drawing_area_y1,
            drawing_area_x2: self.drawing_area_x2,
            drawing_area_y2: self.drawing_area_y2,
            drawing_offset_x: self.drawing_offset_x,
            drawing_offset_y: self.drawing_offset_y,
            texpage_base_x: self.texpage_base_x,
            texpage_base_y: self.texpage_base_y,
            clut_mode: self.clut_mode,
            transparency_mode: self.transparency_mode,
            dither: self.dither,
            draw_to_display_area: self.draw_to_display_area,
            texture_disable: self.texture_disable,
            mask_bit_force_set: self.mask_bit_force_set,
            mask_bit_check: self.mask_bit_check,
            gp0_command_buffer: self.gp0_command_buffer@,
            gp0_command_required_length: self.gp0_command_required_length,
            gp0_read_buffer: self.gp0_read_buffer@,
        }
    }
}

impl ControllerState {
    /// Every coordinate lies in the range its command field can express.
    pub open spec fn wf(&self) -> bool {
        &&& self.drawing_area_x1 < 1024
        &&& self.drawing_area_x2 < 1024
        &&& self.drawing_area_y1 < 512
        &&& self.drawing_area_y2 < 512
        &&& -1024 <= self.drawing_offset_x < 1024
        &&& -1024 <= self.drawing_offset_y < 1024
        &&& self.texpage_base_x < 1024
        &&& self.texpage_base_y <= 256
    }

    pub fn new() -> (s: ControllerState)
        ensures
            s.wf(),
            s.gp1_command is None,
            s.gp0_command_buffer@.len() == 0,
            s.gp0_command_required_length is None,
            s.gp0_read_buffer@.len() == 0,
            s.clut_mode == ClutMode::Bits4,
            s.transparency_mode == TransparencyMode::Average,
            s.drawing_offset_x == 0 && s.drawing_offset_y == 0,
            s.drawing_area_x1 == 0 && s.drawing_area_y1 == 0 && s.drawing_area_x2 == 0 && s.drawing_area_y2 == 0,
            !s.mask_bit_force_set && !s.mask_bit_check,
    {
        ControllerState {
            gp1_command: None,
            textured_rect_x_flip: false,
            textured_rect_y_flip: false,
            display_area_start_x: 0,
            display_area_start_y: 0,
            horizontal_display_range_x1: 0,
            horizontal_display_range_x2: 0,
            vertical_display_range_y1: 0,
            vertical_display_range_y2: 0,
            texture_window_mask_x: 0,
            texture_window_mask_y: 0,
            texture_window_offset_x: 0,
            texture_window_offset_y: 0,
            drawing_area_x1: 0,
            drawing_area_y1: 0,
            drawing_area_x2: 0,
            drawing_area_y2: 0,
            drawing_offset_x: 0,
            drawing_offset_y: 0,
            texpage_base_x: 0,
            texpage_base_y: 0,
            clut_mode: ClutMode::Bits4,
            transparency_mode: TransparencyMode::Average,
            dither: false,
            draw_to_display_area: false,
            texture_disable: false,
            mask_bit_force_set: false,
            mask_bit_check: false,
            gp0_command_buffer: Vec::new(),
            gp0_command_required_length: None,
            gp0_read_buffer: VecDeque::new(),
        }
    }
}

/// Bus-visible GPU registers and FIFOs.
pub struct State {
    pub gp0: Fifo<u32>,
    pub read: Fifo<u32>,
    pub gp1: B32EdgeRegister,
    pub stat: Register,
    /// A GP1 command has been written and not yet executed.
    pub gp1_command_pending: bool,
}

/// Contents of the GPU's bus-visible registers and FIFOs.
pub struct GpuView {
    pub gp0: Seq<u32>,
    pub read: Seq<u32>,
    pub gp1: B32EdgeRegister,
    pub stat: Register,
    pub gp1_command_pending: bool,
}

impl View for State {
    type V = GpuView;

    open spec fn view(&self) -> GpuView {
        GpuView {
            gp0: self.gp0@,
            read: self.read@,
            gp1: self.gp1,
            stat: self.stat,
            gp1_command_pending: self.gp1_command_pending,
        }
    }
}

impl State {
    pub open spec fn wf(&self) -> bool {
        &&& self.gp0.wf()
        &&& self.read.wf()
        &&& self.gp0.capacity == GPU_FIFO_DEPTH
        &&& self.read.capacity == GPU_FIFO_DEPTH
        &&& self.gp1.latch != Some(crate::register::LatchKind::Read)
    }

    pub fn new() -> (s: State)
        ensures
            s.wf(),
            s@.gp0.len() == 0,
            s@.read.len() == 0,
            s.gp1.latch is None,
            !s.gp1_command_pending,
            s.stat.value == 0,
    {
        State {
            gp0: Fifo::new(GPU_FIFO_DEPTH),
            read: Fifo::new(GPU_FIFO_DEPTH),
            gp1: B32EdgeRegister::new(),
            stat: Register::new(),
            gp1_command_pending: false,
        }
    }
}

} // verus!
