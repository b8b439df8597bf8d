use vstd::prelude::*;
use crate::bitfield::Bitfield;
use crate::register::{Register, spec_half, spec_with_half};
use crate::system::bus_types::{ReadResult, WriteResult};
use crate::r3000::cp0::IrqLine;

verus! {

/// Interrupt request lines into the interrupt controller, in bit order.
#[derive(Clone, Copy, Debug, PartialEq, Eq, Structural)]
pub enum Line {
    Vblank,
    Gpu,
    Cdrom,
    Dma,
    Tmr0,
    Tmr1,
    Tmr2,
    Padmc,
    Sio,
    Spu,
    Pio,
}

/// Bit of the status and mask registers that belongs to a line.
pub open spec fn line_bit(line: Line) -> u32 {
    match line {
        Line::Vblank => 0,
        Line::Gpu => 1,
        Line::Cdrom => 2,
        Line::Dma => 3,
        Line::Tmr0 => 4,
        Line::Tmr1 => 5,
        Line::Tmr2 => 6,
        Line::Padmc => 7,
        Line::Sio => 8,
        Line::Spu => 9,
        Line::Pio => 10,
    }
}

pub fn line_index(line: Line) -> (i: u32)
    ensures
        i == line_bit(line),
        i <= 10,
{
    match line {
        Line::Vblank => 0,
        Line::Gpu => 1,
        Line::Cdrom => 2,
        Line::Dma => 3,
        Line::Tmr0 => 4,
        Line::Tmr1 => 5,
        Line::Tmr2 => 6,
        Line::Padmc => 7,
        Line::Sio => 8,
        Line::Spu => 9,
        Line::Pio => 10,
    }
}

/// Mask of the 11 implemented interrupt lines.
pub const LINES_MASK: u32 = 0x7FF;

/// Status register after acknowledging with `acknowledge_mask`: every line
/// whose bit is 0 in the mask is cleared; the rest is kept.
pub open spec fn spec_acknowledge(value: u32, acknowledge_mask: u32) -> u32 {
    value & (acknowledge_mask | !LINES_MASK)
}

/// Lines among the first `i` bits that an acknowledge mask clears.
pub open spec fn cleared_below(acknowledge_mask: u32, i: u32) -> u32 {
    (!acknowledge_mask) & LINES_MASK & (if i >= 32 {
        0xFFFF_FFFFu32
    } else {
        ((1u32 << i) - 1) as u32
    })
}

/// The interrupt status register (I_STAT): one sticky bit per line.
#[derive(Clone, Copy)]
pub struct Stat {
    pub register: Register,
}

impl Stat {
    pub fn new() -> (s: Stat)
        ensures
            s.register.value == 0,
    {
        Stat { register: Register::new() }
    }

    pub fn value(&self) -> (v: u32)
        ensures
            v == self.register.value,
    {
        self.register.value
    }

    /// Raises a line: its status bit becomes 1.
    pub fn assert_line(&mut self, line: Line)
        ensures
            final(self).register.value == old(self).register.value | (1u32 << line_bit(line)),
    {
        let i = line_index(line);
        let v = self.register.value;
        self.register.write_bitfield(Bitfield::new(i, 1), 1);
        assert(Bitfield { start: i, length: 1 }.spec_insert(v, 1) == v | (1u32 << i)) by (bit_vector)
            requires i <= 10;
    }

    /// Acknowledges interrupts: every line whose bit is 0 in the mask is cleared.
    pub fn acknowledge(&mut self, acknowledge_mask: u32)
        ensures
            final(self).register.value == spec_acknowledge(old(self).register.value, acknowledge_mask),
    {
        let ghost old_value = self.register.value;
        assert(old_value & !cleared_below(acknowledge_mask, 0) == old_value) by (bit_vector);
        let mut i: u32 = 0;
        while i < 32
            invariant
                i <= 32,
                self.register.value == old_value & !cleared_below(acknowledge_mask, i),
            decreases 32 - i,
        {
            let acknowledged = ((acknowledge_mask >> i) & 1) == 0;
            let ghost before = self.register.value;
            if acknowledged && i <= 10 {
                self.register.write_bitfield(Bitfield::new(i, 1), 0);
                assert(Bitfield { start: i, length: 1 }.spec_insert(old_value & !cleared_below(acknowledge_mask, i), 0)
                    == old_value & !cleared_below(acknowledge_mask, (i + 1) as u32)) by (bit_vector)
                    requires i <= 10, ((acknowledge_mask >> i) & 1) == 0;
            } else {
                assert(old_value & !cleared_below(acknowledge_mask, i)
                    == old_value & !cleared_below(acknowledge_mask, (i + 1) as u32)) by (bit_vector)
                    requires i < 32, !(((acknowledge_mask >> i) & 1) == 0 && i <= 10);
            }
            i = i + 1;
        }
        assert(old_value & !cleared_below(acknowledge_mask, 32) == spec_acknowledge(old_value, acknowledge_mask))
            by (bit_vector);
    }

    pub fn read_u16(&self, offset: u32) -> (r: u16)
        requires
            offset == 0,
        ensures
            r == spec_half(self.register.value, 0),
    {
        self.register.read_u16(0)
    }

    pub fn write_u16(&mut self, offset: u32, value: u16)
        requires
            offset == 0,
        ensures
            final(self).register.value == spec_acknowledge(old(self).register.value, value as u32),
    {
        self.acknowledge(value as u32)
    }

    pub fn read_u32(&self) -> (r: u32)
        ensures
            r == self.register.value,
    {
        self.register.read_u32()
    }

    pub fn write_u32(&mut self, value: u32)
        ensures
            final(self).register.value == spec_acknowledge(old(self).register.value, value),
    {
        self.acknowledge(value)
    }
}

/// The interrupt controller: status (I_STAT) and mask (I_MASK).
#[derive(Clone, Copy)]
pub struct State {
    pub stat: Stat,
    pub mask: Register,
}

impl State {
    pub fn new() -> (s: State)
        ensures
            s.stat.register.value == 0,
            s.mask.value == 0,
    {
        State { stat: Stat::new(), mask: Register::new() }
    }
}

/// Whether a line is both raised and enabled.
pub open spec fn spec_is_pending(state: State, line_field: Bitfield) -> bool {
    line_field.spec_extract(state.stat.register.value) != 0 && line_field.spec_extract(state.mask.value) != 0
}

pub fn is_pending(state: &crate::system::State, bitfield: Bitfield) -> (b: bool)
    requires
        bitfield.wf(),
    ensures
        b == spec_is_pending(state.intc, bitfield),
{
    let stat = state.intc.stat.value();
    let mask = state.intc.mask.read_u32();
    let stat_value = bitfield.extract_from(stat) != 0;
    let mask_value = bitfield.extract_from(mask) != 0;
    stat_value && mask_value
}

/// Number of interrupt lines.
pub const LINE_COUNT: u32 = 11;

/// One interrupt line as a trace of the controller reports it.
#[derive(Clone, Copy, Debug, PartialEq, Eq, Structural)]
pub struct LineTrace {
    /// Bit of the line in the status and mask registers.
    pub line: u32,
    pub raised: bool,
    pub enabled: bool,
    pub pending: bool,
}

/// The report of line `i`.
pub open spec fn spec_line_trace(state: State, i: u32) -> LineTrace {
    let line_field = Bitfield { start: i, length: 1 };
    LineTrace {
        line: i,
        raised: line_field.spec_extract(state.stat.register.value) != 0,
        enabled: line_field.spec_extract(state.mask.value) != 0,
        pending: spec_is_pending(state, line_field),
    }
}

/// Reports of the first `n` lines in bit order; with `only_enabled`, the
/// masked lines are left out.
pub open spec fn spec_trace_lines(state: State, only_enabled: bool, n: nat) -> Seq<LineTrace>
    decreases n,
{
    if n == 0 {
        Seq::empty()
    } else {
        let before = spec_trace_lines(state, only_enabled, (n - 1) as nat);
        let t = spec_line_trace(state, (n - 1) as u32);
        if only_enabled && !t.enabled {
            before
        } else {
            before.push(t)
        }
    }
}

/// Whether one of the first `n` lines is pending.
pub open spec fn any_pending(state: State, n: nat) -> bool
    decreases n,
{
    n > 0 && (any_pending(state, (n - 1) as nat) || spec_line_trace(state, (n - 1) as u32).pending)
}

/// What a trace of the interrupt controller shows: the raised, enabled and
/// pending bits of every line (or of the enabled lines only), and whether
/// any line is pending.
pub fn intc_trace_lines(state: &crate::system::State, only_enabled: bool) -> (r: (Vec<LineTrace>, bool))
    ensures
        r.0@ == spec_trace_lines(state.intc, only_enabled, LINE_COUNT as nat),
        r.1 == any_pending(state.intc, LINE_COUNT as nat),
{
    let stat = state.intc.stat.value();
    let mask = state.intc.mask.read_u32();
    let mut lines: Vec<LineTrace> = Vec::new();
    let mut pending_sticky = false;
    let mut i: u32 = 0;
    while i < LINE_COUNT
        invariant
            i <= LINE_COUNT,
            stat == state.intc.stat.register.value,
            mask == state.intc.mask.value,
            lines@ == spec_trace_lines(state.intc, only_enabled, i as nat),
            pending_sticky == any_pending(state.intc, i as nat),
        decreases LINE_COUNT - i,
    {
        let bitfield = Bitfield::new(i, 1);
        let raised = bitfield.extract_from(stat) != 0;
        let enabled = bitfield.extract_from(mask) != 0;
        let pending = is_pending(state, bitfield);
        pending_sticky = pending_sticky || pending;
        if !(only_enabled && !enabled) {
            lines.push(LineTrace { line: i, raised, enabled, pending });
        }
        i = i + 1;
    }
    (lines, pending_sticky)
}

/// Drives the CPU's interrupt input: raised exactly when some line is both
/// raised and enabled.
pub fn handle_interrupt_check(state: &mut crate::system::State)
    ensures
        final(state).r3000.cp0.interrupt.intc_pending == (old(state).intc.stat.register.value
            & old(state).intc.mask.value != 0),
        *final(state) == (crate::system::State { r3000: final(state).r3000, ..*old(state) }),
{
    let stat_value = state.intc.stat.value();
    let mask_value = state.intc.mask.read_u32();
    let masked_value = stat_value & mask_value;

    if masked_value == 0 {
        state.r3000.cp0.interrupt.deassert_line(IrqLine::Intc);
    } else {
        state.r3000.cp0.interrupt.assert_line(IrqLine::Intc);
    }
}

/// One controller clock: the interrupt check.
pub fn tick(state: &mut crate::system::State)
    ensures
        final(state).r3000.cp0.interrupt.intc_pending == (old(state).intc.stat.register.value
            & old(state).intc.mask.value != 0),
        *final(state) == (crate::system::State { r3000: final(state).r3000, ..*old(state) }),
{
    handle_interrupt_check(state);
}


/// Status bits are sticky: a raised line stays raised through an acknowledge
/// whose mask keeps its bit, and is cleared by one whose mask has its bit 0.
pub proof fn lemma_raised_line_acknowledge(value: u32, line: Line, acknowledge_mask: u32)
    ensures
        ((spec_acknowledge(value | (1u32 << line_bit(line)), acknowledge_mask) >> line_bit(line)) & 1 == 1) == ((
        acknowledge_mask >> line_bit(line)) & 1 == 1),
{
    let b = line_bit(line);
    assert(b <= 10);
    assert(((spec_acknowledge(value | (1u32 << b), acknowledge_mask) >> b) & 1 == 1) == ((acknowledge_mask >> b) & 1 == 1))
        by (bit_vector)
        requires b <= 10;
}

/// I_STAT halfword read (the low halfword only).
pub fn stat_read_u16(state: &crate::system::State, offset: u32) -> (r: ReadResult<u16>)
    requires
        offset < 2,
    ensures
        r == Ok::<u16, crate::system::bus_types::ReadErrorKind>(spec_half(state.intc.stat.register.value, 0)),
{
    Ok(state.intc.stat.read_u16(offset / 2))
}

/// I_STAT halfword write: acknowledges the lines whose bits are 0.
pub fn stat_write_u16(state: &mut crate::system::State, offset: u32, value: u16) -> (r: WriteResult)
    requires
        offset < 2,
    ensures
        r == Ok::<(), crate::system::bus_types::WriteErrorKind>(()),
        final(state).intc.stat.register.value == spec_acknowledge(old(state).intc.stat.register.value, value as u32),
        *final(state) == (crate::system::State {
            intc: State { stat: final(state).intc.stat, ..old(state).intc },
            ..*old(state)
        }),
{
    state.intc.stat.write_u16(offset / 2, value);
    Ok(())
}

/// I_STAT word read.
pub fn stat_read_u32(state: &crate::system::State, offset: u32) -> (r: ReadResult<u32>)
    requires
        offset == 0,
    ensures
        r == Ok::<u32, crate::system::bus_types::ReadErrorKind>(state.intc.stat.register.value),
{
    Ok(state.intc.stat.read_u32())
}

/// I_STAT word write: acknowledges the lines whose bits are 0.
pub fn stat_write_u32(state: &mut crate::system::State, offset: u32, value: u32) -> (r: WriteResult)
    requires
        offset == 0,
    ensures
        r == Ok::<(), crate::system::bus_types::WriteErrorKind>(()),
        final(state).intc.stat.register.value == spec_acknowledge(old(state).intc.stat.register.value, value),
        *final(state) == (crate::system::State {
            intc: State { stat: final(state).intc.stat, ..old(state).intc },
            ..*old(state)
        }),
{
    state.intc.stat.write_u32(value);
    Ok(())
}

/// I_MASK halfword read.
pub fn mask_read_u16(state: &crate::system::State, offset: u32) -> (r: ReadResult<u16>)
    requires
        offset < 4,
    ensures
        r == Ok::<u16, crate::system::bus_types::ReadErrorKind>(spec_half(state.intc.mask.value, offset / 2)),
{
    Ok(state.intc.mask.read_u16(offset / 2))
}

/// I_MASK halfword write.
pub fn mask_write_u16(state: &mut crate::system::State, offset: u32, value: u16) -> (r: WriteResult)
    requires
        offset < 4,
    ensures
        r == Ok::<(), crate::system::bus_types::WriteErrorKind>(()),
        *final(state) == (crate::system::State {
            intc: State { mask: Register { value: spec_with_half(old(state).intc.mask.value, offset / 2, value) }, ..old(state).intc },
            ..*old(state)
        }),
{
    state.intc.mask.write_u16(offset / 2, value);
    Ok(())
}

/// I_MASK word read.
pub fn mask_read_u32(state: &crate::system::State, offset: u32) -> (r: ReadResult<u32>)
    requires
        offset == 0,
    ensures
        r == Ok::<u32, crate::system::bus_types::ReadErrorKind>(state.intc.mask.value),
{
    Ok(state.intc.mask.read_u32())
}

/// I_MASK word write.
pub fn mask_write_u32(state: &mut crate::system::State, offset: u32, value: u32) -> (r: WriteResult)
    requires
        offset == 0,
    ensures
        r == Ok::<(), crate::system::bus_types::WriteErrorKind>(()),
        *final(state) == (crate::system::State {
            intc: State { mask: Register { value }, ..old(state).intc },
            ..*old(state)
        }),
{
    state.intc.mask.write_u32(value);
    Ok(())
}

} // verus!
