use vstd::prelude::*;
use ansi_term::Colour::Red;
use capstone::arch;
use capstone::arch::{BuildsCapstone, BuildsCapstoneEndian};
use capstone::Capstone;
use capstone::Endian;
use crate::memory::B8Memory;
use crate::mips1::INSTRUCTION_SIZE;
use crate::r3000::memory_controller::{in_kseg2, is_kseg2, spec_translate_address, translate_address};

verus! {

/// Instructions shown around the program counter when no count is given.
pub const DEFAULT_TRACE_INSTRUCTIONS_LENGTH: usize = 10;

/// What Capstone's MIPS32 little-endian disassembler makes of `raw`, the
/// first instruction at address `base_address`: the text of each instruction
/// it finds, or `None` when Capstone reports an error.
pub uninterp spec fn mips_disassembly(raw: Seq<u8>, base_address: u32) -> Option<Seq<Seq<char>>>;

/// `text` in red on an ANSI terminal.
pub open spec fn red(text: Seq<char>) -> Seq<char> {
    seq!['\x1b', '[', '3', '1', 'm'] + text + seq!['\x1b', '[', '0', 'm']
}

/// Disassembles `raw` as MIPS32 little-endian code starting at
/// `base_address` (Capstone's `disasm_all`), one line of text per
/// instruction; `None` when Capstone reports an error.
#[verifier::external_body]
fn disassemble(raw: &[u8], base_address: u32) -> (r: Option<Vec<String>>)
    ensures
        match r {
            None => mips_disassembly(raw@, base_address) is None,
            Some(lines) => mips_disassembly(raw@, base_address) == Some(lines@.map_values(|s: String| s@)),
        },
{
    let cs = Capstone::new().mips().mode(arch::mips::ArchMode::Mips32).endian(Endian::Little).detail(true).build().ok()?;
    let instructions = cs.disasm_all(raw, base_address as u64).ok()?;
    Some(instructions.iter().map(|i| i.to_string()).collect())
}

/// `text` wrapped in the ANSI codes for red (`ansi_term::Colour::Red.paint`).
#[verifier::external_body]
fn paint_red(text: &str) -> (r: String)
    ensures
        r@ == red(text@),
{
    Red.paint(text).to_string()
}

/// One line per instruction, each ended by a newline; the middle one (index
/// `count / 2`) in red.
pub open spec fn dump_text(lines: Seq<Seq<char>>, count: usize) -> Seq<char>
    decreases lines.len(),
{
    if lines.len() == 0 {
        Seq::empty()
    } else {
        let last = lines.len() - 1;
        let line = if last == count / 2 { red(lines[last]) } else { lines[last] };
        dump_text(lines.drop_last(), count) + line + seq!['\n']
    }
}

/// The listing made of the disassembler's `lines`: each line followed by a
/// newline, the one at index `count / 2` in red.
pub fn listing_text(lines: &Vec<String>, count: usize) -> (r: String)
    ensures
        r@ == dump_text(lines@.map_values(|s: String| s@), count),
{
    let ghost all = lines@.map_values(|s: String| s@);
    let mut string = String::new();
    let mut i: usize = 0;
    while i < lines.len()
        invariant
            i <= lines@.len(),
            all == lines@.map_values(|s: String| s@),
            string@ == dump_text(all.take(i as int), count),
        decreases lines@.len() - i,
    {
        if i == count / 2 {
            let painted = paint_red(lines[i].as_str());
            string.append(painted.as_str());
        } else {
            string.append(lines[i].as_str());
        }
        string.append("\n");
        proof {
            reveal_strlit("\n");
            assert(all.take(i + 1).drop_last() =~= all.take(i as int));
        }
        i = i + 1;
    }
    assert(all.take(i as int) =~= all);
    string
}

/// The listing of the instructions in `raw_instructions`, the first at
/// `base_address`, with the one at index `count / 2` highlighted; `None`
/// when the disassembler reports an error.
pub fn dump_instructions(base_address: u32, raw_instructions: &[u8], count: usize) -> (r: Option<String>)
    ensures
        match mips_disassembly(raw_instructions@, base_address) {
            None => r is None,
            Some(lines) => r matches Some(s) && s@ == dump_text(lines, count),
        },
{
    match disassemble(raw_instructions, base_address) {
        Some(lines) => Some(listing_text(&lines, count)),
        None => None,
    }
}

/// Where an instruction dump around a program counter lies: in BIOS ROM or
/// main RAM, from byte `start`, `length` bytes long.
#[derive(Clone, Copy, Debug, PartialEq, Eq)]
pub struct TraceWindow {
    pub bios: bool,
    pub start: u32,
    pub length: u32,
}

/// The dump window for `count` instructions (taken modulo 2^32) around the
/// physical address `pc`: it starts `count / 2` words before `pc`, and its length is the
/// offset (inside its memory) of the byte just past the word `count / 2`
/// words after `pc`, so that it runs past `pc` by more than `count / 2` words
/// unless `pc` is near the start of its memory; none when `pc` is in neither
/// memory, the window would start before its memory, or the end offset does
/// not fit in 32 bits.
pub open spec fn spec_trace_window(pc: u32, count: usize) -> Option<TraceWindow> {
    let (bios, offset) = if pc <= 0x1F_FFFF {
        (false, pc as int)
    } else if 0x1FC0_0000 <= pc <= 0x1FC7_FFFF {
        (true, pc - 0x1FC0_0000)
    } else {
        (false, -1)
    };
    let half = ((count as u32) / 2) * 4;
    if offset < 0 || half > u32::MAX || offset < half || offset + half + 4 > u32::MAX {
        None
    } else {
        Some(TraceWindow { bios, start: (offset - half) as u32, length: (offset + half + 4) as u32 })
    }
}

/// The dump window around the program counter `pc` (a virtual address).
pub fn trace_window(pc: u32, instruction_count: Option<usize>) -> (r: Option<TraceWindow>)
    ensures
        is_kseg2(pc) ==> r is None,
        !is_kseg2(pc) ==> r == spec_trace_window(
            spec_translate_address(pc),
            match instruction_count {
                Some(n) => n,
                None => DEFAULT_TRACE_INSTRUCTIONS_LENGTH,
            },
        ),
{
    if in_kseg2(pc) {
        return None;
    }
    let pc = translate_address(pc);
    let (bios, offset) = if pc <= 0x1F_FFFF {
        (false, pc)
    } else if 0x1FC0_0000 <= pc && pc <= 0x1FC7_FFFF {
        (true, pc - 0x1FC0_0000)
    } else {
        return None;
    };
    let count = match instruction_count {
        Some(n) => n,
        None => DEFAULT_TRACE_INSTRUCTIONS_LENGTH,
    };
    let half_words = (count as u32) / 2;
    if half_words > 0x3FFF_FFFF {
        return None;
    }
    let half = half_words * INSTRUCTION_SIZE;
    if offset < half || offset > u32::MAX - half - INSTRUCTION_SIZE {
        return None;
    }
    Some(TraceWindow { bios, start: offset - half, length: offset + half + INSTRUCTION_SIZE })
}

/// The number of instructions a dump shows: `instruction_count`, or the default.
pub open spec fn dump_count(instruction_count: Option<usize>) -> usize {
    match instruction_count {
        Some(n) => n,
        None => DEFAULT_TRACE_INSTRUCTIONS_LENGTH,
    }
}

/// Whether the dump window around `pc` exists and lies inside its memory.
pub open spec fn dump_fits(main_memory: Seq<u8>, bios: Seq<u8>, pc: u32, instruction_count: Option<usize>) -> bool {
    &&& !is_kseg2(pc)
    &&& spec_trace_window(spec_translate_address(pc), dump_count(instruction_count)) matches Some(w)
        && w.start + w.length <= (if w.bios { bios.len() } else { main_memory.len() })
}

/// The instruction listing around the program counter `pc`, read from BIOS
/// ROM or main RAM; `None` when the disassembler reports an error.
pub fn trace_instructions_at_pc(main_memory: &B8Memory, bios: &B8Memory, pc: u32, instruction_count: Option<usize>) -> (r: Option<String>)
    requires
        dump_fits(main_memory@, bios@, pc, instruction_count),
    ensures
        ({
            let w = spec_trace_window(spec_translate_address(pc), dump_count(instruction_count))->Some_0;
            let memory = if w.bios { bios@ } else { main_memory@ };
            match mips_disassembly(memory.subrange(w.start as int, w.start + w.length), w.start) {
                None => r is None,
                Some(lines) => r matches Some(s) && s@ == dump_text(lines, dump_count(instruction_count)),
            }
        }),
{
    let window = trace_window(pc, instruction_count).unwrap();
    let count = match instruction_count {
        Some(n) => n,
        None => DEFAULT_TRACE_INSTRUCTIONS_LENGTH,
    };
    let memory = if window.bios { bios } else { main_memory };
    let start = window.start as usize;
    let length = window.length as usize;
    let total = memory.data.len();
    let mut raw: Vec<u8> = Vec::new();
    let mut k: usize = 0;
    while k < length
        invariant
            k <= length,
            memory@.len() == total,
            start + length <= memory@.len(),
            raw@ == memory@.subrange(start as int, start + k),
        decreases length - k,
    {
        raw.push(memory.data[start + k]);
        k = k + 1;
        assert(raw@ =~= memory@.subrange(start as int, start + k));
    }
    dump_instructions(window.start, raw.as_slice(), count)
}

} // verus!
