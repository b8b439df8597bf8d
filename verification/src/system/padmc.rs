use vstd::prelude::*;
use crate::bitfield::Bitfield;
use crate::fifo::Fifo;
use crate::register::{B16EdgeRegister, B16LevelRegister, LatchKind, Register, spec_half};
use crate::mips1::{bool_to_flag, spec_flag};
use crate::system::state::SystemView;
use crate::system::bus_types::{ReadErrorKind, ReadResult, WriteErrorKind, WriteResult};

verus! {

/// Depth of the receive and transmit FIFOs.
pub const FIFO_DEPTH: usize = 16;

/// Value shifted in from the (absent) controllers and memory cards: the line idles high.
pub const NO_DEVICE_RESPONSE: u8 = 0xFF;

pub open spec fn ctrl_bit(value: u16, bit: u32) -> bool {
    (value >> bit) & 1 != 0
}

/// Controller-side state of the pad/memory-card serial port.
#[derive(Clone, Copy, Debug, PartialEq, Eq, Structural)]
pub struct ControllerState {
    pub tx_enabled: bool,
    pub joy_select_enabled: bool,
    pub ack_interrupt_enabled: bool,
    pub use_joy2: bool,
}

impl ControllerState {
    pub fn new() -> (s: ControllerState)
        ensures
            !s.tx_enabled && !s.joy_select_enabled && !s.ack_interrupt_enabled && !s.use_joy2,
    {
        ControllerState {
            tx_enabled: false,
            joy_select_enabled: false,
            ack_interrupt_enabled: false,
            use_joy2: false,
        }
    }
}

/// Bus-visible registers of the pad/memory-card serial port.
pub struct State {
    pub rx_fifo: Fifo<u8>,
    pub tx_fifo: Fifo<u8>,
    pub stat: Register,
    pub mode: B16LevelRegister,
    pub ctrl: B16EdgeRegister,
    pub baud_reload: B16LevelRegister,
}

/// Contents of the serial port's registers and FIFOs.
pub struct PadmcView {
    pub rx_fifo: Seq<u8>,
    pub tx_fifo: Seq<u8>,
    pub stat: Register,
    pub mode: B16LevelRegister,
    pub ctrl: B16EdgeRegister,
    pub baud_reload: B16LevelRegister,
}

impl View for State {
    type V = PadmcView;

    open spec fn view(&self) -> PadmcView {
        PadmcView {
            rx_fifo: self.rx_fifo@,
            tx_fifo: self.tx_fifo@,
            stat: self.stat,
            mode: self.mode,
            ctrl: self.ctrl,
            baud_reload: self.baud_reload,
        }
    }
}

impl State {
    pub open spec fn wf(&self) -> bool {
        &&& self.rx_fifo.wf()
        &&& self.tx_fifo.wf()
        &&& self.rx_fifo.capacity == FIFO_DEPTH
        &&& self.tx_fifo.capacity == FIFO_DEPTH
    }

    pub fn new() -> (s: State)
        ensures
            s.wf(),
            s.rx_fifo@.len() == 0,
            s.tx_fifo@.len() == 0,
            s.ctrl.latch is None,
    {
        State {
            rx_fifo: Fifo::new(FIFO_DEPTH),
            tx_fifo: Fifo::new(FIFO_DEPTH),
            stat: Register::new(),
            mode: B16LevelRegister::new(),
            ctrl: B16EdgeRegister::new(),
            baud_reload: B16LevelRegister::new(),
        }
    }
}

/// Errors of the serial port controller.
#[derive(Clone, Copy, Debug, PartialEq, Eq, Structural)]
pub enum PadmcError {
    RxFifoFull,
}

/// Controller state after acknowledging a CTRL write of `value`.
pub open spec fn spec_ctrl_written(value: u16) -> ControllerState {
    ControllerState {
        tx_enabled: ctrl_bit(value, 0),
        joy_select_enabled: ctrl_bit(value, 1),
        ack_interrupt_enabled: ctrl_bit(value, 12),
        use_joy2: ctrl_bit(value, 13),
    }
}

fn ctrl_flag(value: u16, bit: u32) -> (b: bool)
    requires
        bit < 16,
    ensures
        b == ctrl_bit(value, bit),
{
    (value >> bit) & 1 != 0
}

/// Acknowledges a latched CTRL access: a write updates the transmit enable,
/// joypad select, ACK interrupt enable and slot selection; a read just releases the latch.
pub fn handle_ctrl(state: &mut State, controller_state: &mut ControllerState)
    ensures
        final(state).ctrl.latch is None,
        final(state).ctrl.value == old(state).ctrl.value,
        old(state).ctrl.latch == Some(LatchKind::Write) ==> *final(controller_state) == spec_ctrl_written(
            old(state).ctrl.value,
        ),
        old(state).ctrl.latch != Some(LatchKind::Write) ==> *final(controller_state) == *old(controller_state),
        final(state).rx_fifo == old(state).rx_fifo,
        final(state).tx_fifo == old(state).tx_fifo,
        final(state).stat == old(state).stat,
        final(state).mode == old(state).mode,
        final(state).baud_reload == old(state).baud_reload,
{
    let value = state.ctrl.value;
    match state.ctrl.latch {
        None => {},
        Some(LatchKind::Read) => {
            state.ctrl.acknowledge(value);
        },
        Some(LatchKind::Write) => {
            controller_state.tx_enabled = ctrl_flag(value, 0);
            controller_state.joy_select_enabled = ctrl_flag(value, 1);
            controller_state.ack_interrupt_enabled = ctrl_flag(value, 12);
            controller_state.use_joy2 = ctrl_flag(value, 13);
            state.ctrl.acknowledge(value);
        },
    }
}

/// One serial port clock: handle CTRL, then, when transmitting, move one byte
/// out of the TX FIFO and answer it with the idle-high response byte.
pub fn tick(state: &mut State, controller_state: &mut ControllerState) -> (r: Result<(), PadmcError>)
    requires
        old(state).wf(),
    ensures
        final(state).wf(),
        final(state).ctrl.latch is None,
        final(state).ctrl.value == old(state).ctrl.value,
        final(state).stat == old(state).stat,
        final(state).mode == old(state).mode,
        final(state).baud_reload == old(state).baud_reload,
        ({
            let cs = if old(state).ctrl.latch == Some(LatchKind::Write) {
                spec_ctrl_written(old(state).ctrl.value)
            } else {
                *old(controller_state)
            };
            let sends = cs.tx_enabled && old(state).tx_fifo@.len() > 0;
            &&& *final(controller_state) == cs
            &&& !sends ==> r is Ok && final(state).tx_fifo@ == old(state).tx_fifo@ && final(state).rx_fifo@
                == old(state).rx_fifo@
            &&& sends ==> final(state).tx_fifo@ == old(state).tx_fifo@.drop_first()
            &&& (sends && old(state).rx_fifo@.len() < FIFO_DEPTH) ==> r is Ok && final(state).rx_fifo@
                == old(state).rx_fifo@.push(NO_DEVICE_RESPONSE)
            &&& (sends && old(state).rx_fifo@.len() >= FIFO_DEPTH) ==> r == Err::<(), _>(
                PadmcError::RxFifoFull,
            ) && final(state).rx_fifo@ == old(state).rx_fifo@
        }),
{
    handle_ctrl(state, controller_state);

    if controller_state.tx_enabled {
        if state.tx_fifo.read_one().is_ok() {
            if state.rx_fifo.write_one(NO_DEVICE_RESPONSE).is_err() {
                return Err(PadmcError::RxFifoFull);
            }
        }
    }
    Ok(())
}

/// A command byte sent to the (absent) pad: the response 0xFF is queued.
pub fn handle_command(state: &mut crate::system::State, data: u8)
    requires
        old(state).padmc.wf(),
        old(state).padmc.rx_fifo@.len() < FIFO_DEPTH,
    ensures
        final(state).padmc.wf(),
        final(state).padmc.rx_fifo@ == old(state).padmc.rx_fifo@.push(NO_DEVICE_RESPONSE),
        final(state).padmc.tx_fifo == old(state).padmc.tx_fifo,
{
    let _ = state.padmc.rx_fifo.write_one(NO_DEVICE_RESPONSE);
}

/// RX data (0x1F801040) read: pops the receive FIFO; reads as 0xFF when it is empty.
pub open spec fn spec_padmc1040_read(s: SystemView) -> (SystemView, ReadResult<u8>) {
    if s.padmc.rx_fifo.len() == 0 {
        (s, Ok(0xFFu8))
    } else {
        (SystemView { padmc: PadmcView { rx_fifo: s.padmc.rx_fifo.drop_first(), ..s.padmc }, ..s }, Ok(s.padmc.rx_fifo[0]))
    }
}

/// TX data (0x1F801040) write: queues a byte; refused when the FIFO is full.
pub open spec fn spec_padmc1040_write(s: SystemView, value: u8) -> (SystemView, WriteResult) {
    if s.padmc.tx_fifo.len() >= FIFO_DEPTH {
        (s, Err(WriteErrorKind::Full))
    } else {
        (SystemView { padmc: PadmcView { tx_fifo: s.padmc.tx_fifo.push(value), ..s.padmc }, ..s }, Ok(()))
    }
}

/// CTRL (0x1F80104A) read: latches the register until the controller
/// acknowledges it; refused while latched.
pub open spec fn spec_ctrl_read(s: SystemView) -> (SystemView, ReadResult<u16>) {
    if s.padmc.ctrl.latch is Some {
        (s, Err(ReadErrorKind::NotReady))
    } else {
        (
            SystemView {
                padmc: PadmcView {
                    ctrl: B16EdgeRegister { value: s.padmc.ctrl.value, latch: Some(LatchKind::Read) },
                    ..s.padmc
                },
                ..s
            },
            Ok(s.padmc.ctrl.value),
        )
    }
}

/// CTRL (0x1F80104A) write: latched until the controller acknowledges it;
/// refused while latched.
pub open spec fn spec_ctrl_write(s: SystemView, value: u16) -> (SystemView, WriteResult) {
    if s.padmc.ctrl.latch is Some {
        (s, Err(WriteErrorKind::NotReady))
    } else {
        (
            SystemView {
                padmc: PadmcView { ctrl: B16EdgeRegister { value, latch: Some(LatchKind::Write) }, ..s.padmc },
                ..s
            },
            Ok(()),
        )
    }
}

pub fn padmc1040_read_u8(state: &mut crate::system::State, offset: u32) -> (r: ReadResult<u8>)
    requires
        offset == 0,
        old(state).wf(),
    ensures
        final(state).wf(),
        (final(state)@, r) == spec_padmc1040_read(old(state)@),
{
    match state.padmc.rx_fifo.read_one() {
        Ok(v) => Ok(v),
        Err(_) => Ok(0xFF),
    }
}

pub fn padmc1040_write_u8(state: &mut crate::system::State, offset: u32, value: u8) -> (r: WriteResult)
    requires
        offset == 0,
        old(state).wf(),
    ensures
        final(state).wf(),
        (final(state)@, r) == spec_padmc1040_write(old(state)@, value),
{
    match state.padmc.tx_fifo.write_one(value) {
        Ok(()) => Ok(()),
        Err(_) => Err(WriteErrorKind::Full),
    }
}

/// STAT as read: the stored value with TX ready (bits 0 and 2) always set and
/// RX FIFO not empty (bit 1) reflecting the receive FIFO.
pub open spec fn spec_stat_value(stat: u32, rx_not_empty: bool) -> u32 {
    Bitfield { start: 2, length: 1 }.spec_insert(
        Bitfield { start: 1, length: 1 }.spec_insert(
            Bitfield { start: 0, length: 1 }.spec_insert(stat, 1),
            spec_flag(rx_not_empty),
        ),
        1,
    )
}

pub fn stat_read_u32(state: &crate::system::State, offset: u32) -> (r: ReadResult<u32>)
    requires
        offset == 0,
    ensures
        r == Ok::<u32, ReadErrorKind>(spec_stat_value(state.padmc.stat.value, state.padmc.rx_fifo@.len() > 0)),
{
    let mut value = state.padmc.stat.read_u32();
    value = Bitfield::new(0, 1).insert_into(value, 1);
    value = Bitfield::new(1, 1).insert_into(value, !bool_to_flag(state.padmc.rx_fifo.is_empty()));
    value = Bitfield::new(2, 1).insert_into(value, 1);
    proof {
        let v0 = Bitfield { start: 0, length: 1 }.spec_insert(state.padmc.stat.value, 1);
        assert(Bitfield { start: 1, length: 1 }.spec_insert(v0, !1u32) == Bitfield { start: 1, length: 1 }.spec_insert(v0, 0))
            by (bit_vector);
        assert(Bitfield { start: 1, length: 1 }.spec_insert(v0, !0u32) == Bitfield { start: 1, length: 1 }.spec_insert(v0, 1))
            by (bit_vector);
    }
    Ok(value)
}

pub fn stat_read_u16(state: &crate::system::State, offset: u32) -> (r: ReadResult<u16>)
    requires
        offset == 0,
    ensures
        r == Ok::<u16, ReadErrorKind>(spec_half(
            spec_stat_value(state.padmc.stat.value, state.padmc.rx_fifo@.len() > 0),
            0,
        )),
{
    match stat_read_u32(state, 0) {
        Ok(v) => Ok(crate::register::half_of(v, 0)),
        Err(e) => Err(e),
    }
}

pub fn stat_write_u32(state: &mut crate::system::State, offset: u32, value: u32) -> (r: WriteResult)
    requires
        offset == 0,
        old(state).wf(),
    ensures
        final(state).wf(),
        r == Ok::<(), WriteErrorKind>(()),
        final(state)@ == (SystemView { padmc: PadmcView { stat: Register { value }, ..old(state)@.padmc }, ..old(state)@ }),
{
    state.padmc.stat.write_u32(value);
    Ok(())
}

pub fn mode_read_u16(state: &crate::system::State, offset: u32) -> (r: ReadResult<u16>)
    requires
        offset == 0,
    ensures
        r == Ok::<u16, ReadErrorKind>(state.padmc.mode.value),
{
    Ok(state.padmc.mode.read_u16())
}

pub fn mode_write_u16(state: &mut crate::system::State, offset: u32, value: u16) -> (r: WriteResult)
    requires
        offset == 0,
        old(state).wf(),
    ensures
        final(state).wf(),
        r == Ok::<(), WriteErrorKind>(()),
        final(state)@ == (SystemView {
            padmc: PadmcView { mode: B16LevelRegister { value }, ..old(state)@.padmc },
            ..old(state)@
        }),
{
    state.padmc.mode.write_u16(value);
    Ok(())
}

pub fn ctrl_read_u16(state: &mut crate::system::State, offset: u32) -> (r: ReadResult<u16>)
    requires
        offset == 0,
        old(state).wf(),
    ensures
        final(state).wf(),
        (final(state)@, r) == spec_ctrl_read(old(state)@),
{
    match state.padmc.ctrl.read_u16() {
        Ok(v) => Ok(v),
        Err(_) => Err(ReadErrorKind::NotReady),
    }
}

pub fn ctrl_write_u16(state: &mut crate::system::State, offset: u32, value: u16) -> (r: WriteResult)
    requires
        offset == 0,
        old(state).wf(),
    ensures
        final(state).wf(),
        (final(state)@, r) == spec_ctrl_write(old(state)@, value),
{
    match state.padmc.ctrl.write_u16(value) {
        Ok(()) => Ok(()),
        Err(_) => Err(WriteErrorKind::NotReady),
    }
}

pub fn baud_reload_read_u16(state: &crate::system::State, offset: u32) -> (r: ReadResult<u16>)
    requires
        offset == 0,
    ensures
        r == Ok::<u16, ReadErrorKind>(state.padmc.baud_reload.value),
{
    Ok(state.padmc.baud_reload.read_u16())
}

pub fn baud_reload_write_u16(state: &mut crate::system::State, offset: u32, value: u16) -> (r: WriteResult)
    requires
        offset == 0,
        old(state).wf(),
    ensures
        final(state).wf(),
        r == Ok::<(), WriteErrorKind>(()),
        final(state)@ == (SystemView {
            padmc: PadmcView { baud_reload: B16LevelRegister { value }, ..old(state)@.padmc },
            ..old(state)@
        }),
{
    state.padmc.baud_reload.write_u16(value);
    Ok(())
}

} // verus!
