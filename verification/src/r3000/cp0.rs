use vstd::prelude::*;
use crate::bitfield::Bitfield;
use crate::register::Register;

verus! {

pub use crate::bitfield::field;

pub fn prid_revision() -> (b: Bitfield)
    ensures
        b == field(0, 8),
{
    Bitfield::new(0, 8)
}

pub fn prid_implementation() -> (b: Bitfield)
    ensures
        b == field(8, 8),
{
    Bitfield::new(8, 8)
}

/// Status: interrupts enabled (current).
pub fn status_iec() -> (b: Bitfield)
    ensures
        b == field(0, 1),
{
    Bitfield::new(0, 1)
}

/// Status: kernel/user mode (current).
pub fn status_kuc() -> (b: Bitfield)
    ensures
        b == field(1, 1),
{
    Bitfield::new(1, 1)
}

/// Status: interrupt mask.
pub fn status_im() -> (b: Bitfield)
    ensures
        b == field(8, 8),
{
    Bitfield::new(8, 8)
}

/// Status: isolate cache (memory accesses go to the cache, not the bus).
pub fn status_isc() -> (b: Bitfield)
    ensures
        b == field(16, 1),
{
    Bitfield::new(16, 1)
}

pub fn status_ts() -> (b: Bitfield)
    ensures
        b == field(21, 1),
{
    Bitfield::new(21, 1)
}

/// Status: boot exception vectors (in ROM).
pub fn status_bev() -> (b: Bitfield)
    ensures
        b == field(22, 1),
{
    Bitfield::new(22, 1)
}

pub fn cause_exccode() -> (b: Bitfield)
    ensures
        b == field(2, 5),
{
    Bitfield::new(2, 5)
}

/// Cause: interrupts pending.
pub fn cause_ip() -> (b: Bitfield)
    ensures
        b == field(8, 8),
{
    Bitfield::new(8, 8)
}

pub fn cause_bd() -> (b: Bitfield)
    ensures
        b == field(31, 1),
{
    Bitfield::new(31, 1)
}

/// Cause: the pending bit of the interrupt controller's line.
pub fn cause_ip_intc() -> (b: Bitfield)
    ensures
        b == field(10, 1),
{
    Bitfield::new(10, 1)
}

pub const CAUSE_EXCCODE_INT: u32 = 0;

pub const CAUSE_EXCCODE_SYSCALL: u32 = 8;

/// Interrupt lines into the CPU.
#[derive(Clone, Copy, Debug, PartialEq, Eq, Structural)]
pub enum IrqLine {
    Intc,
}

/// The CPU's interrupt inputs (level triggered).
#[derive(Clone, Copy)]
pub struct Interrupt {
    pub intc_pending: bool,
}

impl Interrupt {
    pub fn new() -> (i: Interrupt)
        ensures
            !i.intc_pending,
    {
        Interrupt { intc_pending: false }
    }

    pub fn assert_line(&mut self, irq_line: IrqLine)
        ensures
            final(self).intc_pending,
    {
        match irq_line {
            IrqLine::Intc => self.intc_pending = true,
        }
    }

    pub fn deassert_line(&mut self, irq_line: IrqLine)
        ensures
            !final(self).intc_pending,
    {
        match irq_line {
            IrqLine::Intc => self.intc_pending = false,
        }
    }

    pub fn line_interrupted(&self, irq_line: IrqLine) -> (b: bool)
        ensures
            b == self.intc_pending,
    {
        match irq_line {
            IrqLine::Intc => self.intc_pending,
        }
    }
}

/// The interrupt line is level triggered: starting from a fresh input
/// (`Interrupt::new`) and going through any sequence of raise (`true`,
/// `assert_line`) and lower (`false`, `deassert_line`) calls, the line reads
/// as raised (`line_interrupted`) exactly when there was a call and the last
/// one raised it. `states[k]` is the input before call `k`.
pub proof fn lemma_line_follows_last_call(states: Seq<Interrupt>, calls: Seq<bool>)
    requires
        states.len() == calls.len() + 1,
        !states[0].intc_pending,
        forall|k: int| 0 <= k < calls.len() ==> #[trigger] states[k + 1].intc_pending == calls[k],
    ensures
        states.last().intc_pending == (calls.len() > 0 && calls.last()),
{
    if calls.len() > 0 {
        assert(states[calls.len() - 1 + 1].intc_pending == calls[calls.len() - 1]);
    }
}

/// System-visible part of coprocessor 0: its interrupt inputs.
pub struct State {
    pub interrupt: Interrupt,
}

impl State {
    pub fn new() -> (s: State)
        ensures
            !s.interrupt.intc_pending,
    {
        State { interrupt: Interrupt::new() }
    }
}

/// The registers of coprocessor 0 (system control).
#[derive(Clone, Copy)]
pub struct ControllerState {
    pub bpc: Register,
    pub bda: Register,
    pub jump_dest: Register,
    pub dcic: Register,
    pub bdam: Register,
    pub bpcm: Register,
    pub status: Register,
    pub cause: Register,
    pub epc: Register,
    pub prid: Register,
}

impl ControllerState {
    pub open spec fn all_zero(self) -> bool {
        &&& self.bpc.value == 0
        &&& self.bda.value == 0
        &&& self.jump_dest.value == 0
        &&& self.dcic.value == 0
        &&& self.bdam.value == 0
        &&& self.bpcm.value == 0
        &&& self.status.value == 0
        &&& self.cause.value == 0
        &&& self.epc.value == 0
        &&& self.prid.value == 0
    }

    pub fn new() -> (s: ControllerState)
        ensures
            s.all_zero(),
    {
        ControllerState {
            bpc: Register::new(),
            bda: Register::new(),
            jump_dest: Register::new(),
            dcic: Register::new(),
            bdam: Register::new(),
            bpcm: Register::new(),
            status: Register::new(),
            cause: Register::new(),
            epc: Register::new(),
            prid: Register::new(),
        }
    }
}

/// Processor id reported at reset: revision 2, implementation 0.
pub fn initialize_prid() -> (r: u32)
    ensures
        r == 2,
{
    let mut value: u32 = 0;
    value = prid_revision().insert_into(value, 2);
    value = prid_implementation().insert_into(value, 0);
    assert(value == 2) by {
        assert(field(0, 8).spec_insert(0, 2) == 2u32) by (bit_vector);
        assert(field(8, 8).spec_insert(2, 0) == 2u32) by (bit_vector);
    }
    value
}

/// Status register after reset: KUc and IEc cleared (kernel mode,
/// interrupts off), BEV and TS set (boot exception vectors, TLB shutdown);
/// the other bits kept.
pub open spec fn spec_reset_status(status: u32) -> u32 {
    field(21, 1).spec_insert(
        field(22, 1).spec_insert(field(0, 1).spec_insert(field(1, 1).spec_insert(status, 0), 0), 1),
        1,
    )
}

/// Coprocessor 0 after reset: PRID set to revision 2 and the status register
/// reset; every other register kept.
pub open spec fn spec_reset(cp0_state: ControllerState) -> ControllerState {
    ControllerState {
        prid: Register { value: 2 },
        status: Register { value: spec_reset_status(cp0_state.status.value) },
        ..cp0_state
    }
}

/// Reset state of coprocessor 0: PRID set, kernel mode, interrupts off,
/// boot exception vectors and TLB shutdown flag on.
pub fn initialize(cp0_state: &mut ControllerState)
    ensures
        *final(cp0_state) == spec_reset(*old(cp0_state)),
{
    cp0_state.prid.write_u32(initialize_prid());
    cp0_state.status.write_bitfield(status_kuc(), 0);
    cp0_state.status.write_bitfield(status_iec(), 0);
    cp0_state.status.write_bitfield(status_bev(), 1);
    cp0_state.status.write_bitfield(status_ts(), 1);
}

} // verus!
