use vstd::prelude::*;
use crate::bitfield::Bitfield;
use crate::mips1::{spec_flag, spec_status_push, status_push_exception, bool_to_flag, INSTRUCTION_SIZE};
use crate::r3000::cp0::{field, IrqLine, CAUSE_EXCCODE_INT, CAUSE_EXCCODE_SYSCALL, cause_ip_intc, cause_ip, cause_exccode, status_bev, status_iec, status_im};
use crate::r3000::cp0::ControllerState as Cp0ControllerState;
use crate::r3000::types::ControllerState;
use crate::register::Register;
use crate::system::State;

verus! {

/// Exception vector for interrupts and system calls, chosen by the BEV bit of the status register.
pub open spec fn spec_general_vector(status: u32) -> u32 {
    if field(22, 1).spec_extract(status) != 0 {
        0xBF80_0180u32
    } else {
        0x8000_0080u32
    }
}

/// Exception codes that this CPU model raises.
pub open spec fn implemented_exception(exccode: u32) -> bool {
    exccode == CAUSE_EXCCODE_INT || exccode == CAUSE_EXCCODE_SYSCALL
}

/// Copies the interrupt controller's line into the pending bit of the cause register.
pub fn update_ip_field(state: &State, cp0_state: &mut Cp0ControllerState)
    ensures
        *final(cp0_state) == (Cp0ControllerState {
            cause: crate::register::Register {
                value: field(10, 1).spec_insert(
                    old(cp0_state).cause.value,
                    spec_flag(state.r3000.cp0.interrupt.intc_pending),
                ),
            },
            ..*old(cp0_state)
        }),
{
    let intc_pending = state.r3000.cp0.interrupt.line_interrupted(IrqLine::Intc);
    cp0_state.cause.write_bitfield(cause_ip_intc(), bool_to_flag(intc_pending));
}

/// Drops the interrupt line and clears all pending bits of the cause register.
pub fn clear_ip_field(state: &mut State, cp0_state: &mut Cp0ControllerState)
    ensures
        !final(state).r3000.cp0.interrupt.intc_pending,
        *final(state) == (State { r3000: final(state).r3000, ..*old(state) }),
        *final(cp0_state) == (Cp0ControllerState {
            cause: crate::register::Register {
                value: field(8, 8).spec_insert(old(cp0_state).cause.value, 0),
            },
            ..*old(cp0_state)
        }),
{
    state.r3000.cp0.interrupt.deassert_line(IrqLine::Intc);
    cp0_state.cause.write_bitfield(cause_ip(), 0);
}

/// Takes an exception: pushes the mode/interrupt-enable stack, records the
/// cause and the return address, and jumps to the exception vector.
pub fn set_exception(r3000_state: &mut ControllerState, cp0_state: &mut Cp0ControllerState, exccode: u32)
    requires
        implemented_exception(exccode),
        old(r3000_state).branch_delay.current is None,
    ensures
        ({
            let new_status = spec_status_push(old(cp0_state).status.value);
            &&& final(cp0_state).status.value == new_status
            &&& final(cp0_state).cause.value == field(2, 5).spec_insert(old(cp0_state).cause.value, exccode)
            &&& final(cp0_state).epc.value == (if exccode == CAUSE_EXCCODE_INT {
                old(r3000_state).pc.value
            } else {
                crate::mips1::wrap32(old(r3000_state).pc.value - INSTRUCTION_SIZE)
            })
            &&& final(r3000_state).pc.value == spec_general_vector(new_status)
        }),
        final(cp0_state).prid == old(cp0_state).prid,
        final(cp0_state).bpc == old(cp0_state).bpc,
        final(cp0_state).bda == old(cp0_state).bda,
        final(cp0_state).jump_dest == old(cp0_state).jump_dest,
        final(cp0_state).dcic == old(cp0_state).dcic,
        final(cp0_state).bdam == old(cp0_state).bdam,
        final(cp0_state).bpcm == old(cp0_state).bpcm,
        final(r3000_state).gpr == old(r3000_state).gpr,
        final(r3000_state).hi == old(r3000_state).hi,
        final(r3000_state).lo == old(r3000_state).lo,
        final(r3000_state).branch_delay == old(r3000_state).branch_delay,
{
    let pc_value = if exccode == CAUSE_EXCCODE_INT {
        r3000_state.pc.read_u32()
    } else {
        r3000_state.pc.read_u32().wrapping_sub(INSTRUCTION_SIZE)
    };

    // Push IEc & KUc (stack).
    let old_status_value = cp0_state.status.read_u32();
    let new_status_value = status_push_exception(old_status_value);
    cp0_state.status.write_u32(new_status_value);

    // Set ExcCode cause.
    cp0_state.cause.write_bitfield(cause_exccode(), exccode);

    // Set EPC address.
    cp0_state.epc.write_u32(pc_value);

    // Base exception vector address, then the general exception vector offset.
    let bev = cp0_state.status.read_bitfield(status_bev()) != 0;
    let vector_base: u32 = if bev {
        0xBF80_0100
    } else {
        0x8000_0000
    };
    r3000_state.pc.write_u32(vector_base + 0x80);
}

/// Whether an interrupt is taken this cycle: interrupts enabled, no branch in
/// flight, and some pending line (after refreshing the controller's line) unmasked.
pub open spec fn spec_interrupt_taken(state: State, r3000_state: ControllerState, cp0_state: Cp0ControllerState) -> bool {
    let cause = field(10, 1).spec_insert(
        cp0_state.cause.value,
        spec_flag(state.r3000.cp0.interrupt.intc_pending),
    );
    &&& field(0, 1).spec_extract(cp0_state.status.value) != 0
    &&& r3000_state.branch_delay.current is None
    &&& field(8, 8).spec_extract(cp0_state.status.value) & field(8, 8).spec_extract(cause) != 0
}

/// The CPU and coprocessor 0 registers after the interrupt check: with
/// interrupts enabled and no branch in flight, the controller's line is
/// copied into the cause register, and an unmasked pending interrupt is
/// taken (status stack pushed, ExcCode set, EPC at the PC, PC at the vector).
pub open spec fn spec_handle_interrupts(
    state: State,
    r3000_state: ControllerState,
    cp0_state: Cp0ControllerState,
) -> (ControllerState, Cp0ControllerState) {
    if field(0, 1).spec_extract(cp0_state.status.value) == 0 || r3000_state.branch_delay.current is Some {
        (r3000_state, cp0_state)
    } else {
        let cause = field(10, 1).spec_insert(
            cp0_state.cause.value,
            spec_flag(state.r3000.cp0.interrupt.intc_pending),
        );
        if field(8, 8).spec_extract(cp0_state.status.value) & field(8, 8).spec_extract(cause) == 0 {
            (r3000_state, Cp0ControllerState { cause: Register { value: cause }, ..cp0_state })
        } else {
            let status = spec_status_push(cp0_state.status.value);
            (
                ControllerState { pc: Register { value: spec_general_vector(status) }, ..r3000_state },
                Cp0ControllerState {
                    status: Register { value: status },
                    cause: Register { value: field(2, 5).spec_insert(cause, CAUSE_EXCCODE_INT) },
                    epc: Register { value: r3000_state.pc.value },
                    ..cp0_state
                },
            )
        }
    }
}

/// Checks for a pending, enabled interrupt and takes it.
pub fn handle_interrupts(state: &State, r3000_state: &mut ControllerState, cp0_state: &mut Cp0ControllerState)
    ensures
        (*final(r3000_state), *final(cp0_state)) == spec_handle_interrupts(*state, *old(r3000_state), *old(cp0_state)),
        final(r3000_state).gpr == old(r3000_state).gpr,
        final(r3000_state).branch_delay == old(r3000_state).branch_delay,
        final(cp0_state).prid == old(cp0_state).prid,
        !spec_interrupt_taken(*state, *old(r3000_state), *old(cp0_state)) ==> final(r3000_state).pc
            == old(r3000_state).pc && final(cp0_state).status == old(cp0_state).status
            && final(cp0_state).epc == old(cp0_state).epc,
        spec_interrupt_taken(*state, *old(r3000_state), *old(cp0_state)) ==> final(cp0_state).status.value
            == spec_status_push(old(cp0_state).status.value),
        spec_interrupt_taken(*state, *old(r3000_state), *old(cp0_state)) ==> final(cp0_state).epc.value
            == old(r3000_state).pc.value,
        spec_interrupt_taken(*state, *old(r3000_state), *old(cp0_state)) ==> final(r3000_state).pc.value
            == spec_general_vector(spec_status_push(old(cp0_state).status.value)),
        spec_interrupt_taken(*state, *old(r3000_state), *old(cp0_state)) ==> field(2, 5).spec_extract(
            final(cp0_state).cause.value,
        ) == CAUSE_EXCCODE_INT,
{
    if cp0_state.status.read_bitfield(status_iec()) == 0 {
        return;
    }

    if r3000_state.branch_delay.branching() {
        // Taken once the branch has completed.
        return;
    }

    update_ip_field(state, cp0_state);

    let set_bits = cp0_state.status.read_bitfield(status_im()) & cp0_state.cause.read_bitfield(cause_ip());

    if set_bits != 0 {
        let ghost cause = cp0_state.cause.value;
        set_exception(r3000_state, cp0_state, CAUSE_EXCCODE_INT);
        assert(field(2, 5).spec_extract(field(2, 5).spec_insert(cause, 0)) == 0) by (bit_vector);
    }
}

} // verus!
