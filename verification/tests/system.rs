use psx_core::mips1::Instruction;
use psx_core::r3000::controller::tick;
use psx_core::r3000::exception::handle_interrupts;
use psx_core::r3000::gte::{avsz3, mfc2, mtc2, nclip};
use psx_core::r3000::instruction_impl::{rfe, syscall};
use psx_core::r3000::types::ControllerContext;
use psx_core::system::bus::{bus_read_u16, bus_read_u32, bus_read_u8, bus_write_u16, bus_write_u32, bus_write_u8};
use psx_core::system::bus_types::{ReadErrorKind, WriteErrorKind};
use psx_core::system::intc::{handle_interrupt_check, intc_trace_lines, Line, LineTrace};
use psx_core::system::padmc::{tick as padmc_tick, ControllerState as PadmcControllerState};
use psx_core::system::State;

#[test]
fn main_memory_is_little_endian() {
    let mut state = State::new();
    assert_eq!(bus_write_u32(&mut state, 0x1000, 0x1122_3344), Ok(()));
    assert_eq!(bus_read_u8(&mut state, 0x1000), Ok(0x44));
    assert_eq!(bus_read_u16(&mut state, 0x1002), Ok(0x1122));
    assert_eq!(bus_write_u8(&mut state, 0x1001, 0xAA), Ok(()));
    assert_eq!(bus_read_u32(&mut state, 0x1000), Ok(0x1122_AA44));
    assert_eq!(bus_write_u16(&mut state, 0x1F80_0000, 0xBEEF), Ok(()));
    assert_eq!(bus_read_u16(&mut state, 0x1F80_0000), Ok(0xBEEF));
}

#[test]
fn unmapped_addresses_are_refused() {
    let mut state = State::new();
    assert_eq!(bus_read_u32(&mut state, 0x1F80_3000), Err(ReadErrorKind::Unmapped));
    assert_eq!(bus_write_u32(&mut state, 0x1F80_3000, 1), Err(WriteErrorKind::Unmapped));
    assert_eq!(bus_read_u32(&mut state, 0x001F_FFFE), Err(ReadErrorKind::Unmapped));
}

#[test]
fn interrupt_status_is_acknowledged_by_zero_bits() {
    let mut state = State::new();
    state.intc.stat.assert_line(Line::Vblank);
    state.intc.stat.assert_line(Line::Gpu);
    assert_eq!(bus_read_u32(&mut state, 0x1F80_1070), Ok(0b11));
    assert_eq!(bus_write_u32(&mut state, 0x1F80_1070, !0b01), Ok(()));
    assert_eq!(bus_read_u32(&mut state, 0x1F80_1070), Ok(0b10));
    assert_eq!(bus_write_u16(&mut state, 0x1F80_1074, 0b10), Ok(()));
    assert_eq!(bus_read_u32(&mut state, 0x1F80_1074), Ok(0b10));
    handle_interrupt_check(&mut state);
    assert!(state.r3000.cp0.interrupt.intc_pending);
    assert_eq!(bus_write_u32(&mut state, 0x1F80_1070, 0), Ok(()));
    handle_interrupt_check(&mut state);
    assert!(!state.r3000.cp0.interrupt.intc_pending);
}

#[test]
fn gpustat_reports_fifo_readiness() {
    let mut state = State::new();
    let stat = bus_read_u32(&mut state, 0x1F80_1814).unwrap();
    assert_eq!(stat & (1 << 26), 1 << 26);
    assert_eq!(stat & (1 << 27), 0);
    assert_eq!(stat & (1 << 28), 1 << 28);
}

#[test]
fn serial_port_answers_with_idle_byte() {
    let mut state = State::new();
    let mut controller_state = PadmcControllerState::new();
    assert_eq!(bus_write_u16(&mut state, 0x1F80_104A, 0x0001), Ok(()));
    assert_eq!(bus_write_u8(&mut state, 0x1F80_1040, 0x01), Ok(()));
    assert_eq!(padmc_tick(&mut state.padmc, &mut controller_state), Ok(()));
    assert!(controller_state.tx_enabled);
    assert_eq!(bus_read_u8(&mut state, 0x1F80_1040), Ok(0xFF));
    // An empty receive FIFO also reads as 0xFF.
    assert_eq!(bus_read_u8(&mut state, 0x1F80_1040), Ok(0xFF));
}

#[test]
fn ctrl_register_is_latched_until_acknowledged() {
    let mut state = State::new();
    let mut controller_state = PadmcControllerState::new();
    assert_eq!(bus_write_u16(&mut state, 0x1F80_104A, 0x0002), Ok(()));
    assert_eq!(bus_write_u16(&mut state, 0x1F80_104A, 0x0003), Err(WriteErrorKind::NotReady));
    padmc_tick(&mut state.padmc, &mut controller_state).unwrap();
    assert!(controller_state.joy_select_enabled);
    assert_eq!(bus_write_u16(&mut state, 0x1F80_104A, 0x0003), Ok(()));
}

#[test]
fn interrupt_is_taken_at_the_general_vector() {
    let mut state = State::new();
    let mut context = ControllerContext::new();
    context.r3000_state.pc.value = 0x8000_1000;
    context.cp0_state.status.value = 0x0000_0401; // IEc and IM bit for the INTC line
    state.r3000.cp0.interrupt.intc_pending = true;
    handle_interrupts(&state, &mut context.r3000_state, &mut context.cp0_state);
    assert_eq!(context.r3000_state.pc.value, 0x8000_0080);
    assert_eq!(context.cp0_state.epc.value, 0x8000_1000);
    assert_eq!(context.cp0_state.status.value & 0x3F, 0x04);
    assert_eq!((context.cp0_state.cause.value >> 2) & 0x1F, 0);
    rfe(&mut context, &mut state, Instruction::new(0x4200_0010)).unwrap().unwrap();
    assert_eq!(context.cp0_state.status.value & 0x3F, 0x01);
}

#[test]
fn syscall_raises_exception() {
    let mut state = State::new();
    let mut context = ControllerContext::new();
    context.r3000_state.pc.value = 0x8000_2004;
    context.cp0_state.status.value = 0x0040_0000; // BEV: vectors in ROM
    syscall(&mut context, &mut state, Instruction::new(0x0000_000C)).unwrap().unwrap();
    assert_eq!(context.r3000_state.pc.value, 0xBF80_0180);
    assert_eq!(context.cp0_state.epc.value, 0x8000_2000);
    assert_eq!((context.cp0_state.cause.value >> 2) & 0x1F, 8);
}

#[test]
fn gte_registers_and_nclip() {
    let mut state = State::new();
    let mut context = ControllerContext::new();
    // SXY0 = (0, 0), SXY1 = (4, 0), SXY2 = (0, 3)
    let points = [0x0000_0000u32, 0x0000_0004, 0x0003_0000];
    for (i, p) in points.iter().enumerate() {
        context.r3000_state.gpr[8] = *p;
        let rd = 12 + i as u32;
        mtc2(&mut context, &mut state, Instruction::new(0x4888_0000 | (rd << 11))).unwrap().unwrap();
    }
    nclip(&mut context, &mut state, Instruction::new(0x4A00_0006)).unwrap().unwrap();
    mfc2(&mut context, &mut state, Instruction::new(0x4809_C000)).unwrap().unwrap(); // mfc2 $t1, MAC0
    assert_eq!(context.r3000_state.gpr[9] as i32, 12);
}

#[test]
fn gte_average_z() {
    let mut state = State::new();
    let mut context = ControllerContext::new();
    context.cp2_state.gc[29] = 0x555; // ZSF3 about 1/3 in 1.3.12
    context.cp2_state.gd[17] = 300;
    context.cp2_state.gd[18] = 300;
    context.cp2_state.gd[19] = 300;
    avsz3(&mut context, &mut state, Instruction::new(0x4B58_002D)).unwrap().unwrap();
    assert_eq!(context.cp2_state.gd[24], 0x555 * 900);
    assert_eq!(context.cp2_state.gd[7], (0x555 * 900) / 4096);
}

#[test]
fn runs_a_small_program() {
    let mut state = State::new();
    let mut context = ControllerContext::new();
    // addiu $t0, $zero, 5 ; addiu $t0, $t0, 7 ; sw $t0, 0x200($zero)
    let program = [0x2408_0005u32, 0x2508_0007, 0xAC08_0200];
    for (i, word) in program.iter().enumerate() {
        bus_write_u32(&mut state, 0x100 + 4 * i as u32, *word).unwrap();
    }
    context.r3000_state.pc.value = 0x8000_0100;
    for _ in 0..3 {
        tick(&mut context, &mut state).unwrap();
    }
    assert_eq!(context.r3000_state.gpr[8], 12);
    assert_eq!(bus_read_u32(&mut state, 0x200), Ok(12));
}

#[test]
fn interrupt_trace_lists_lines_in_bit_order() {
    let mut state = State::new();
    state.intc.stat.assert_line(Line::Vblank);
    state.intc.stat.assert_line(Line::Dma);
    state.intc.mask.value = 0b1010;
    let (all, pending) = intc_trace_lines(&state, false);
    assert_eq!(all.len(), 11);
    assert_eq!(all[0], LineTrace { line: 0, raised: true, enabled: false, pending: false });
    assert_eq!(all[3], LineTrace { line: 3, raised: true, enabled: true, pending: true });
    assert!(pending);
    let (enabled, _) = intc_trace_lines(&state, true);
    assert_eq!(enabled, vec![
        LineTrace { line: 1, raised: false, enabled: true, pending: false },
        LineTrace { line: 3, raised: true, enabled: true, pending: true },
    ]);
    state.intc.mask.value = 0;
    assert!(!intc_trace_lines(&state, false).1);
}
