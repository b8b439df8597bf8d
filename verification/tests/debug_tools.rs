use psx_core::memory::B8Memory;
use psx_core::r3000::access_state::AccessState;
use psx_core::r3000::disassembler::{dump_instructions, listing_text, trace_instructions_at_pc, trace_window, TraceWindow};

#[test]
fn access_counts_grow_per_address() {
    let mut reads = AccessState::new();
    assert_eq!(reads.update(0x1F80_1810), 1);
    assert_eq!(reads.update(0x1F80_1810), 2);
    assert_eq!(reads.update(0x1F80_1814), 1);
    assert_eq!(reads.update(0x1F80_1810), 3);
    reads.clear(0x1F80_1810);
    assert_eq!(reads.update(0x1F80_1810), 1);
}

#[test]
fn least_recently_used_address_is_forgotten() {
    let mut writes = AccessState::new();
    for address in 0..32u32 {
        assert_eq!(writes.update(address), 1);
    }
    assert_eq!(writes.update(0), 2);
    assert_eq!(writes.update(100), 1);
    // Address 1 was the least recently used one and has been dropped.
    assert_eq!(writes.update(1), 1);
    assert_eq!(writes.update(0), 3);
}

#[test]
fn trace_window_around_pc() {
    assert_eq!(trace_window(0x8000_0100, Some(4)), Some(TraceWindow { bios: false, start: 0xF8, length: 0x10C }));
    assert_eq!(trace_window(0xBFC0_0020, None), Some(TraceWindow { bios: true, start: 0xC, length: 0x38 }));
    assert_eq!(trace_window(0xBFC0_0010, None), None);
    assert_eq!(trace_window(0x1F80_1000, None), None);
    assert_eq!(trace_window(0xC000_0000, None), None);
}

#[test]
fn dump_highlights_the_middle_instruction() {
    let listing = dump_instructions(0x100, &[0, 0, 0, 0, 0, 0, 0, 0], 2).expect("disassembler");
    let lines: Vec<&str> = listing.lines().collect();
    assert_eq!(lines.len(), 2);
    assert!(lines[0].contains("nop") && !lines[0].starts_with('\u{1b}'));
    assert!(lines[1].starts_with("\u{1b}[31m") && lines[1].ends_with("\u{1b}[0m"));
    assert!(listing.ends_with('\n'));
}

#[test]
fn trace_reads_from_main_memory() {
    let main = B8Memory::new(0x200);
    let bios = B8Memory::new(0x80);
    let listing = trace_instructions_at_pc(&main, &bios, 0x8000_0010, Some(2)).expect("listing");
    // From byte 0xC, as many bytes as the window's end offset (0x18): six words.
    assert_eq!(listing.lines().count(), 6);
    // Around 0x1FC the window would end past the 0x200 bytes of memory.
    let window = trace_window(0x8000_01FC, Some(2)).expect("window");
    assert!(window.start + window.length > 0x200);
}

#[test]
fn listing_marks_the_middle_line_in_red() {
    let lines = vec![String::from("nop"), String::from("addiu $v0, $zero, 1"), String::from("jr $ra")];
    assert_eq!(listing_text(&lines, 3), "nop\n\u{1b}[31maddiu $v0, $zero, 1\u{1b}[0m\njr $ra\n");
    assert_eq!(listing_text(&Vec::new(), 3), "");
}
