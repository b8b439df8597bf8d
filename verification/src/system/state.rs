use vstd::prelude::*;
use crate::r3000::cp0::Interrupt;
use crate::r3000::types::State as R3000State;
use crate::system::gpu::types::{GpuView, State as GpuState};
use crate::system::intc::State as IntcState;
use crate::system::memory::{MemoryView, State as MemoryState};
use crate::system::padmc::{PadmcView, State as PadmcState};

verus! {

/// The emulated machine's shared hardware state (everything but the CPU's own registers).
pub struct State {
    pub memory: MemoryState,
    pub intc: IntcState,
    pub padmc: PadmcState,
    pub gpu: GpuState,
    pub r3000: R3000State,
    /// Set while a DMA transfer owns the bus; CPU memory accesses then stall.
    pub bus_locked: bool,
}

/// Contents of the machine's shared hardware state.
pub struct SystemView {
    pub memory: MemoryView,
    pub intc: IntcState,
    pub padmc: PadmcView,
    pub gpu: GpuView,
    pub interrupt: Interrupt,
    pub bus_locked: bool,
}

impl View for State {
    type V = SystemView;

    open spec fn view(&self) -> SystemView {
        SystemView {
            memory: self.memory@,
            intc: self.intc,
            padmc: self.padmc@,
            gpu: self.gpu@,
            interrupt: self.r3000.cp0.interrupt,
            bus_locked: self.bus_locked,
        }
    }
}

impl State {
    /// Memories have their sizes and FIFOs their capacities.
    pub open spec fn wf(&self) -> bool {
        &&& self.memory.wf()
        &&& self.padmc.wf()
        &&& self.gpu.wf()
    }

    /// Power-on state.
    pub fn new() -> (s: State)
        ensures
            s.wf(),
            !s.bus_locked,
            !s@.interrupt.intc_pending,
    {
        State {
            memory: MemoryState::new(),
            intc: IntcState::new(),
            padmc: PadmcState::new(),
            gpu: GpuState::new(),
            r3000: R3000State::new(),
            bus_locked: false,
        }
    }
}

} // verus!
