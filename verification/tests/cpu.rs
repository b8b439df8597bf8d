use psx_core::mips1::{signed_div_rem, status_pop_exception, status_push_exception, BranchDelaySlot, Instruction};
use psx_core::r3000::controller::{execute, tick};
use psx_core::r3000::instruction::{lookup, InstructionKind};
use psx_core::r3000::instruction_impl::{add, addu, div, divu, mult, multu, sll, sra, sub};
use psx_core::r3000::instruction_impl_memory::{lb, lw, lwl, lwr, sw, swl, swr};
use psx_core::r3000::memory_controller::{in_kseg2, translate_address};
use psx_core::r3000::bios::{bios_call, capture_stdout_putchar, is_putchar};
use psx_core::r3000::cp0::{IrqLine, Interrupt};
use psx_core::r3000::types::{initialize, ControllerContext, ControllerError, Hazard};
use psx_core::system::bus::{bus_read_u32, bus_write_u32};
use psx_core::system::State;

/// R-type instruction word.
fn r_type(rs: u32, rt: u32, rd: u32, shamt: u32, funct: u32) -> Instruction {
    Instruction::new((rs << 21) | (rt << 16) | (rd << 11) | (shamt << 6) | funct)
}

/// I-type instruction word.
fn i_type(opcode: u32, rs: u32, rt: u32, imm: u16) -> Instruction {
    Instruction::new((opcode << 26) | (rs << 21) | (rt << 16) | imm as u32)
}

#[test]
fn instruction_fields_decode() {
    let inst = Instruction::new(0x8FBF_0010); // lw $ra, 16($sp)
    assert_eq!(inst.opcode(), 0x23);
    assert_eq!(inst.rs(), 29);
    assert_eq!(inst.rt(), 31);
    assert_eq!(inst.u_imm(), 0x10);
    assert_eq!(Instruction::new(0x0000_FFFF).i_imm(), -1);
}

#[test]
fn lookup_decodes_opcodes_and_cycles() {
    assert_eq!(lookup(Instruction::new(0)), Some((InstructionKind::Sll, 1)));
    assert_eq!(lookup(r_type(1, 2, 3, 0, 0x21)), Some((InstructionKind::Addu, 1)));
    assert_eq!(lookup(i_type(0x23, 29, 31, 16)).map(|e| e.0), Some(InstructionKind::Lw));
    assert_eq!(lookup(Instruction::new(0xFC00_0000)), None);
}

#[test]
fn addu_wraps_and_keeps_zero_register() {
    let mut context = ControllerContext::new();
    let mut state = State::new();
    context.r3000_state.gpr[1] = 0xFFFF_FFFF;
    context.r3000_state.gpr[2] = 2;
    assert_eq!(addu(&mut context, &mut state, r_type(1, 2, 3, 0, 0x21)), Ok(Ok(())));
    assert_eq!(context.r3000_state.gpr[3], 1);
    assert_eq!(addu(&mut context, &mut state, r_type(1, 2, 0, 0, 0x21)), Ok(Ok(())));
    assert_eq!(context.r3000_state.gpr[0], 0);
}

#[test]
fn shifts() {
    let mut context = ControllerContext::new();
    let mut state = State::new();
    context.r3000_state.gpr[2] = 0x8000_0001;
    sll(&mut context, &mut state, r_type(0, 2, 3, 4, 0)).unwrap().unwrap();
    assert_eq!(context.r3000_state.gpr[3], 0x0000_0010);
    sra(&mut context, &mut state, r_type(0, 2, 4, 4, 3)).unwrap().unwrap();
    assert_eq!(context.r3000_state.gpr[4], 0xF800_0000);
}

#[test]
fn add_overflow_is_reported() {
    let mut context = ControllerContext::new();
    let mut state = State::new();
    context.r3000_state.gpr[1] = 0x7FFF_FFFF;
    context.r3000_state.gpr[2] = 1;
    assert_eq!(add(&mut context, &mut state, r_type(1, 2, 3, 0, 0x20)), Err(ControllerError::OverflowExceptionNotImplemented));
    assert_eq!(context.r3000_state.gpr[3], 0);
}

#[test]
fn sub_wraps() {
    let mut context = ControllerContext::new();
    let mut state = State::new();
    context.r3000_state.gpr[1] = 0x8000_0000;
    context.r3000_state.gpr[2] = 1;
    assert_eq!(sub(&mut context, &mut state, r_type(1, 2, 3, 0, 0x22)), Ok(Ok(())));
    assert_eq!(context.r3000_state.gpr[3], 0x7FFF_FFFF);
}

#[test]
fn mult_gives_64_bit_product() {
    let mut context = ControllerContext::new();
    let mut state = State::new();
    context.r3000_state.gpr[1] = 0xFFFF_FFFF; // -1
    context.r3000_state.gpr[2] = 3;
    mult(&mut context, &mut state, r_type(1, 2, 0, 0, 0x18)).unwrap().unwrap();
    assert_eq!(context.r3000_state.hi.value, 0xFFFF_FFFF);
    assert_eq!(context.r3000_state.lo.value, 0xFFFF_FFFD);
    multu(&mut context, &mut state, r_type(1, 2, 0, 0, 0x19)).unwrap().unwrap();
    assert_eq!(context.r3000_state.hi.value, 2);
    assert_eq!(context.r3000_state.lo.value, 0xFFFF_FFFD);
}

#[test]
fn div_truncates_toward_zero() {
    let mut context = ControllerContext::new();
    let mut state = State::new();
    context.r3000_state.gpr[1] = (-7i32) as u32;
    context.r3000_state.gpr[2] = 2;
    div(&mut context, &mut state, r_type(1, 2, 0, 0, 0x1A)).unwrap().unwrap();
    assert_eq!(context.r3000_state.lo.value as i32, -3);
    assert_eq!(context.r3000_state.hi.value as i32, -1);
    assert_eq!(signed_div_rem(7, -2), (-3, 1));
}

#[test]
fn div_by_zero_leaves_hi_lo() {
    let mut context = ControllerContext::new();
    let mut state = State::new();
    context.r3000_state.hi.value = 11;
    context.r3000_state.lo.value = 22;
    context.r3000_state.gpr[1] = 5;
    div(&mut context, &mut state, r_type(1, 2, 0, 0, 0x1A)).unwrap().unwrap();
    divu(&mut context, &mut state, r_type(1, 2, 0, 0, 0x1B)).unwrap().unwrap();
    assert_eq!((context.r3000_state.hi.value, context.r3000_state.lo.value), (11, 22));
}

#[test]
fn div_overflow_is_reported() {
    let mut context = ControllerContext::new();
    let mut state = State::new();
    context.r3000_state.gpr[1] = 0x8000_0000;
    context.r3000_state.gpr[2] = 0xFFFF_FFFF;
    assert_eq!(div(&mut context, &mut state, r_type(1, 2, 0, 0, 0x1A)), Err(ControllerError::DivisionOverflow));
}

#[test]
fn address_translation_mirrors_kseg0_and_kseg1() {
    assert_eq!(translate_address(0x8000_1234), 0x0000_1234);
    assert_eq!(translate_address(0xA000_1234), 0x0000_1234);
    assert_eq!(translate_address(0x1FC0_0000), 0x1FC0_0000);
    assert_eq!(translate_address(0xFFFE_0130), 0xFFFE_0130);
    assert!(in_kseg2(0xC000_0000));
    assert!(!in_kseg2(0xFFFE_0130));
    assert!(!in_kseg2(0xBFC0_0000));
}

#[test]
fn status_stack_push_then_pop() {
    let status = 0x0000_0015;
    let pushed = status_push_exception(status);
    assert_eq!(pushed & 0x3F, 0x14);
    assert_eq!(status_pop_exception(pushed) & 0xF, status & 0xF);
}

#[test]
fn branch_taken_after_one_delay_slot() {
    let mut slot = BranchDelaySlot::new();
    slot.set(0x8000_0100, 1);
    assert!(slot.branching());
    assert_eq!(slot.advance(), None);
    assert_eq!(slot.advance(), Some(0x8000_0100));
    assert!(!slot.branching());
}

#[test]
fn load_and_store_word_through_kseg0() {
    let mut context = ControllerContext::new();
    let mut state = State::new();
    context.r3000_state.gpr[1] = 0x8000_0100;
    context.r3000_state.gpr[2] = 0xDEAD_BEEF;
    sw(&mut context, &mut state, i_type(0x2B, 1, 2, 4)).unwrap().unwrap();
    assert_eq!(bus_read_u32(&mut state, 0x104), Ok(0xDEAD_BEEF));
    lw(&mut context, &mut state, i_type(0x23, 1, 3, 4)).unwrap().unwrap();
    assert_eq!(context.r3000_state.gpr[3], 0xDEAD_BEEF);
    lb(&mut context, &mut state, i_type(0x20, 1, 4, 7)).unwrap().unwrap();
    assert_eq!(context.r3000_state.gpr[4], 0xFFFF_FFDE);
}

#[test]
fn memory_access_stalls_while_bus_locked() {
    let mut context = ControllerContext::new();
    let mut state = State::new();
    state.bus_locked = true;
    context.r3000_state.gpr[1] = 0x8000_0100;
    assert_eq!(lw(&mut context, &mut state, i_type(0x23, 1, 3, 0)), Ok(Err(Hazard::BusLockedMemoryRead(0x100))));
}

#[test]
fn lwr_then_lwl_loads_unaligned_word() {
    let mut context = ControllerContext::new();
    let mut state = State::new();
    bus_write_u32(&mut state, 0x200, 0x4433_2211).unwrap();
    bus_write_u32(&mut state, 0x204, 0x8877_6655).unwrap();
    context.r3000_state.gpr[1] = 0x8000_0201;
    context.r3000_state.gpr[5] = 0xAAAA_AAAA;
    lwr(&mut context, &mut state, i_type(0x26, 1, 5, 0)).unwrap().unwrap();
    lwl(&mut context, &mut state, i_type(0x22, 1, 5, 3)).unwrap().unwrap();
    assert_eq!(context.r3000_state.gpr[5], 0x5544_3322);
}

#[test]
fn swr_then_swl_stores_unaligned_word() {
    let mut context = ControllerContext::new();
    let mut state = State::new();
    bus_write_u32(&mut state, 0x200, 0x4433_2211).unwrap();
    bus_write_u32(&mut state, 0x204, 0x8877_6655).unwrap();
    context.r3000_state.gpr[1] = 0x8000_0202;
    context.r3000_state.gpr[5] = 0xDDCC_BBAA;
    swr(&mut context, &mut state, i_type(0x2E, 1, 5, 0)).unwrap().unwrap();
    swl(&mut context, &mut state, i_type(0x2A, 1, 5, 3)).unwrap().unwrap();
    assert_eq!(bus_read_u32(&mut state, 0x200), Ok(0xBBAA_2211));
    assert_eq!(bus_read_u32(&mut state, 0x204), Ok(0x8877_DDCC));
}

#[test]
fn execute_dispatches_by_kind() {
    let mut context = ControllerContext::new();
    let mut state = State::new();
    context.r3000_state.gpr[1] = 40;
    context.r3000_state.gpr[2] = 2;
    let inst = r_type(1, 2, 3, 0, 0x21);
    let (kind, _) = lookup(inst).unwrap();
    execute(kind, &mut context, &mut state, inst).unwrap().unwrap();
    assert_eq!(context.r3000_state.gpr[3], 42);
}

#[test]
fn tick_fetches_and_runs_a_nop() {
    let mut context = ControllerContext::new();
    let mut state = State::new();
    context.r3000_state.pc.value = 0x8000_0100;
    assert_eq!(tick(&mut context, &mut state), Ok(1));
    assert_eq!(context.r3000_state.pc.value, 0x8000_0104);
}

#[test]
fn tick_refuses_bad_program_counters() {
    let mut context = ControllerContext::new();
    let mut state = State::new();
    context.r3000_state.pc.value = 0xC000_0000;
    assert_eq!(tick(&mut context, &mut state), Err(ControllerError::AddressTranslation(0xC000_0000)));
    context.r3000_state.pc.value = 0x8000_0010;
    assert_eq!(tick(&mut context, &mut state), Err(ControllerError::InstructionFetch(0x10)));
}

#[test]
fn tick_reports_unknown_instruction() {
    let mut context = ControllerContext::new();
    let mut state = State::new();
    bus_write_u32(&mut state, 0x100, 0xFC00_0000).unwrap();
    context.r3000_state.pc.value = 0x8000_0100;
    assert_eq!(tick(&mut context, &mut state), Err(ControllerError::UnknownInstruction(0xFC00_0000)));
}

#[test]
fn hazard_text() {
    assert_eq!(Hazard::MemoryRead(0x1F80_1810).describe(), "MemoryRead(0x1F801810)");
    assert_eq!(Hazard::BusLockedMemoryWrite(0xAB).describe(), "BusLockedMemoryWrite(0x000000AB)");
}

#[test]
fn reset_sets_pc_and_status_and_keeps_the_rest() {
    let mut context = ControllerContext::new();
    context.cp0_state.status.value = 0x0000_0003;
    context.cp0_state.dcic.value = 0x1234;
    context.r3000_state.hi.value = 7;
    initialize(&mut context);
    assert_eq!(context.r3000_state.pc.value, 0xBFC0_0000);
    assert_eq!(context.cp0_state.prid.value, 2);
    assert_eq!(context.cp0_state.status.value, 0x0060_0000);
    assert_eq!(context.cp0_state.dcic.value, 0x1234);
    assert_eq!(context.r3000_state.hi.value, 7);
}

#[test]
fn interrupt_line_follows_the_last_call() {
    let mut line = Interrupt::new();
    assert!(!line.line_interrupted(IrqLine::Intc));
    line.assert_line(IrqLine::Intc);
    line.assert_line(IrqLine::Intc);
    assert!(line.line_interrupted(IrqLine::Intc));
    line.deassert_line(IrqLine::Intc);
    assert!(!line.line_interrupted(IrqLine::Intc));
    line.assert_line(IrqLine::Intc);
    assert!(line.line_interrupted(IrqLine::Intc));
}

#[test]
fn bios_calls_are_named_by_table_and_t1() {
    let mut context = ControllerContext::new();
    context.r3000_state.pc.value = 0x8000_00A0;
    context.r3000_state.gpr[9] = 0x3F;
    let call = bios_call(&context.r3000_state).unwrap().unwrap();
    assert_eq!((call.table, call.function, call.name), (0xA0, 0x3F, Some("printf")));
    context.r3000_state.gpr[9] = 0x55;
    assert_eq!(bios_call(&context.r3000_state).unwrap().unwrap().name, None);
    context.r3000_state.pc.value = 0xA000_00C0;
    context.r3000_state.gpr[9] = 0x0B;
    assert!(matches!(bios_call(&context.r3000_state), Err(ControllerError::BiosSystemError)));
    context.r3000_state.pc.value = 0xBFC0_0000;
    assert!(matches!(bios_call(&context.r3000_state), Ok(None)));
}

#[test]
fn bios_putchar_lines_are_captured() {
    let mut context = ControllerContext::new();
    let mut buffer: Vec<u8> = Vec::new();
    context.r3000_state.pc.value = 0xA000_00B0;
    context.r3000_state.gpr[9] = 0x3D;
    assert!(is_putchar(&context.r3000_state));
    for ch in [b'h', b'i'] {
        context.r3000_state.gpr[4] = ch as u32;
        assert!(capture_stdout_putchar(&mut buffer, &context.r3000_state, &context.cp0_state).is_none());
    }
    assert_eq!(buffer, b"hi".to_vec());
    context.cp0_state.status.value = 1;
    context.r3000_state.gpr[4] = 10;
    let line = capture_stdout_putchar(&mut buffer, &context.r3000_state, &context.cp0_state).unwrap();
    assert_eq!(line.text, b"hi".to_vec());
    assert!(line.interrupts_enabled);
    assert!(buffer.is_empty());
    context.r3000_state.gpr[9] = 0x3C;
    assert!(!is_putchar(&context.r3000_state));
    context.r3000_state.gpr[4] = b'x' as u32;
    assert!(capture_stdout_putchar(&mut buffer, &context.r3000_state, &context.cp0_state).is_none());
    assert!(buffer.is_empty());
}
