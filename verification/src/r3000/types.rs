use vstd::prelude::*;
use crate::mips1::BranchDelaySlot;
use crate::register::Register;
use crate::text::{hex8, spec_hex8};
use crate::r3000::cp0::{ControllerState as Cp0ControllerState, State as Cp0State};
use crate::r3000::cp2::ControllerState as Cp2ControllerState;

verus! {

/// Why an instruction could not complete this cycle; it is retried later.
#[derive(Clone, Copy, Debug, PartialEq, Eq, Structural)]
pub enum Hazard {
    BusLockedMemoryRead(u32),
    BusLockedMemoryWrite(u32),
    MemoryRead(u32),
    MemoryWrite(u32),
}

/// The name of a hazard's kind.
pub open spec fn hazard_name(hazard: Hazard) -> Seq<char> {
    match hazard {
        Hazard::BusLockedMemoryRead(_) => "BusLockedMemoryRead"@,
        Hazard::BusLockedMemoryWrite(_) => "BusLockedMemoryWrite"@,
        Hazard::MemoryRead(_) => "MemoryRead"@,
        Hazard::MemoryWrite(_) => "MemoryWrite"@,
    }
}

/// The address a hazard happened at.
pub open spec fn hazard_address(hazard: Hazard) -> u32 {
    match hazard {
        Hazard::BusLockedMemoryRead(a) => a,
        Hazard::BusLockedMemoryWrite(a) => a,
        Hazard::MemoryRead(a) => a,
        Hazard::MemoryWrite(a) => a,
    }
}

impl Hazard {
    /// The hazard as text: its kind, then its address in eight hex digits, as in
    /// `MemoryRead(0x1F801810)`.
    pub fn describe(&self) -> (s: String)
        ensures
            s@ == hazard_name(*self) + "(0x"@ + spec_hex8(hazard_address(*self)) + ")"@,
    {
        let (name, address) = match *self {
            Hazard::BusLockedMemoryRead(a) => ("BusLockedMemoryRead", a),
            Hazard::BusLockedMemoryWrite(a) => ("BusLockedMemoryWrite", a),
            Hazard::MemoryRead(a) => ("MemoryRead", a),
            Hazard::MemoryWrite(a) => ("MemoryWrite", a),
        };
        let mut s = String::new();
        s.append(name);
        s.append("(0x");
        let digits = hex8(address);
        s.append(digits.as_str());
        s.append(")");
        proof {
            assert(s@ =~= hazard_name(*self) + "(0x"@ + spec_hex8(hazard_address(*self)) + ")"@);
        }
        s
    }
}

/// Emulation failures: behaviour the emulator does not implement.
#[derive(Clone, Copy, Debug, PartialEq, Eq, Structural)]
pub enum ControllerError {
    InstructionNotImplemented,
    OverflowExceptionNotImplemented,
    SyscallInBranchDelaySlot,
    GteModeNotHandled,
    UnknownInstruction(u32),
    UnknownCp0Register(u32),
    ExceptionNotImplemented(u32),
    InstructionFetch(u32),
    AddressTranslation(u32),
    DivisionOverflow,
    BiosSystemError,
}

pub type InstResult = Result<(), Hazard>;

pub type ControllerResult = Result<InstResult, ControllerError>;

/// The CPU's own registers.
#[derive(Clone, Copy)]
pub struct ControllerState {
    pub pc: Register,
    pub branch_delay: BranchDelaySlot,
    pub gpr: [u32; 32],
    pub hi: Register,
    pub lo: Register,
}

impl ControllerState {
    pub fn new() -> (s: ControllerState)
        ensures
            s.pc.value == 0,
            s.branch_delay.current is None,
            forall|i: int| 0 <= i < 32 ==> s.gpr@[i] == 0,
            s.hi.value == 0,
            s.lo.value == 0,
    {
        ControllerState {
            pc: Register::new(),
            branch_delay: BranchDelaySlot::new(),
            gpr: [0u32; 32],
            hi: Register::new(),
            lo: Register::new(),
        }
    }
}

/// Everything the instruction interpreter works on: the CPU and its two coprocessors.
#[derive(Clone, Copy)]
pub struct ControllerContext {
    pub r3000_state: ControllerState,
    pub cp0_state: Cp0ControllerState,
    pub cp2_state: Cp2ControllerState,
}

impl ControllerContext {
    /// All registers zero, no branch pending.
    pub fn new() -> (c: ControllerContext)
        ensures
            c.r3000_state.pc.value == 0,
            c.r3000_state.branch_delay.current is None,
            forall|i: int| 0 <= i < 32 ==> c.r3000_state.gpr@[i] == 0,
            c.cp0_state.all_zero(),
            forall|i: int| 0 <= i < 32 ==> c.cp2_state.gd@[i] == 0 && c.cp2_state.gc@[i] == 0,
    {
        ControllerContext {
            r3000_state: ControllerState::new(),
            cp0_state: Cp0ControllerState::new(),
            cp2_state: Cp2ControllerState::new(),
        }
    }
}

/// System-visible CPU state.
pub struct State {
    pub cp0: Cp0State,
}

impl State {
    pub fn new() -> (s: State)
        ensures
            !s.cp0.interrupt.intc_pending,
    {
        State { cp0: Cp0State::new() }
    }
}

/// Reset vector of the CPU (in BIOS ROM, uncached).
pub const RESET_VECTOR: u32 = 0xBFC0_0000;

/// Reset: the PC starts at the reset vector and coprocessor 0 is initialized.
pub fn initialize(context: &mut ControllerContext)
    ensures
        final(context).r3000_state.pc.value == RESET_VECTOR,
        final(context).r3000_state.gpr == old(context).r3000_state.gpr,
        final(context).r3000_state.branch_delay == old(context).r3000_state.branch_delay,
        final(context).r3000_state.hi == old(context).r3000_state.hi,
        final(context).r3000_state.lo == old(context).r3000_state.lo,
        final(context).cp0_state == crate::r3000::cp0::spec_reset(old(context).cp0_state),
        final(context).cp2_state == old(context).cp2_state,
{
    context.r3000_state.pc.write_u32(RESET_VECTOR);
    crate::r3000::cp0::initialize(&mut context.cp0_state);
}

} // verus!
