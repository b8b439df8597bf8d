use vstd::prelude::*;
use crate::r3000::memory_controller::{is_kseg2, spec_translate_address, translate_address};
use crate::bitfield::field;
use crate::r3000::cp0::ControllerState as Cp0ControllerState;
use crate::r3000::types::{ControllerError, ControllerState};

verus! {

/// Physical addresses of the three BIOS function tables' entry points.
pub const BIOS_TABLE_A0: u32 = 0xA0;
pub const BIOS_TABLE_B0: u32 = 0xB0;
pub const BIOS_TABLE_C0: u32 = 0xC0;

/// The function of table C0 that reports a fatal system error.
pub const BIOS_SYSTEM_ERROR: u32 = 0x0B;

/// The name of function `function` of BIOS table `table`, for the functions
/// that a trace names.
pub open spec fn spec_bios_function_name(table: u32, function: u32) -> Option<&'static str> {
    if table == 0xA0 {
        match function {
            0x13 => Some("SaveState"),
            0x17 => Some("strcmp"),
            0x1B => Some("strlen"),
            0x25 => Some("toupper"),
            0x28 => Some("bzero"),
            0x2A => Some("memcpy"),
            0x2F => Some("rand"),
            0x33 => Some("malloc"),
            0x39 => Some("InitHeap"),
            0x3C => Some("std_out_putchar"),
            0x3F => Some("printf"),
            0x44 => Some("FlushCache"),
            0x49 => Some("GPU_cw"),
            0x56 => Some("CdRemove"),
            0x72 => Some("CdRemove"),
            0x96 => Some("AddCDROMDevice"),
            0x97 => Some("AddMemCardDevice"),
            0x99 => Some("AddDummyTtyDevice"),
            0xA3 => Some("DequeueCdIntr"),
            _ => None,
        }
    } else if table == 0xB0 {
        match function {
            0x00 => Some("alloc_kernel_memory"),
            0x07 => Some("DeliverEvent"),
            0x08 => Some("OpenEvent"),
            0x09 => Some("CloseEvent"),
            0x0B => Some("TestEvent"),
            0x0C => Some("EnableEvent"),
            0x12 => Some("InitPad"),
            0x13 => Some("StartPad"),
            0x17 => Some("ReturnFromException"),
            0x18 => Some("SetDefaultExitFromException"),
            0x19 => Some("SetCustomExitFromException"),
            0x3D => Some("std_out_putchar"),
            0x47 => Some("AddDevice"),
            0x5B => Some("ChangeClearPad"),
            _ => None,
        }
    } else if table == 0xC0 {
        match function {
            0x00 => Some("EnqueueTimerAndVblankIrqs"),
            0x01 => Some("EnqueueSyscallHandler"),
            0x02 => Some("SysEnqIntRP"),
            0x03 => Some("SysDeqIntRP"),
            0x07 => Some("InstallExceptionHandlers"),
            0x08 => Some("SysInitMemory"),
            0x09 => Some("SysInitKernelVariables"),
            0x0A => Some("ChangeClearRCnt"),
            0x0C => Some("InitDefInt"),
            0x12 => Some("InstallDevices"),
            0x1C => Some("AdjustA0Table"),
            _ => None,
        }
    } else {
        None
    }
}

/// The name of function `function` of BIOS table `table`, when a trace names it.
pub fn bios_function_name(table: u32, function: u32) -> (r: Option<&'static str>)
    ensures
        r == spec_bios_function_name(table, function),
{
    if table == 0xA0 {
        match function {
            0x13 => Some("SaveState"),
            0x17 => Some("strcmp"),
            0x1B => Some("strlen"),
            0x25 => Some("toupper"),
            0x28 => Some("bzero"),
            0x2A => Some("memcpy"),
            0x2F => Some("rand"),
            0x33 => Some("malloc"),
            0x39 => Some("InitHeap"),
            0x3C => Some("std_out_putchar"),
            0x3F => Some("printf"),
            0x44 => Some("FlushCache"),
            0x49 => Some("GPU_cw"),
            0x56 => Some("CdRemove"),
            0x72 => Some("CdRemove"),
            0x96 => Some("AddCDROMDevice"),
            0x97 => Some("AddMemCardDevice"),
            0x99 => Some("AddDummyTtyDevice"),
            0xA3 => Some("DequeueCdIntr"),
            _ => None,
        }
    } else if table == 0xB0 {
        match function {
            0x00 => Some("alloc_kernel_memory"),
            0x07 => Some("DeliverEvent"),
            0x08 => Some("OpenEvent"),
            0x09 => Some("CloseEvent"),
            0x0B => Some("TestEvent"),
            0x0C => Some("EnableEvent"),
            0x12 => Some("InitPad"),
            0x13 => Some("StartPad"),
            0x17 => Some("ReturnFromException"),
            0x18 => Some("SetDefaultExitFromException"),
            0x19 => Some("SetCustomExitFromException"),
            0x3D => Some("std_out_putchar"),
            0x47 => Some("AddDevice"),
            0x5B => Some("ChangeClearPad"),
            _ => None,
        }
    } else if table == 0xC0 {
        match function {
            0x00 => Some("EnqueueTimerAndVblankIrqs"),
            0x01 => Some("EnqueueSyscallHandler"),
            0x02 => Some("SysEnqIntRP"),
            0x03 => Some("SysDeqIntRP"),
            0x07 => Some("InstallExceptionHandlers"),
            0x08 => Some("SysInitMemory"),
            0x09 => Some("SysInitKernelVariables"),
            0x0A => Some("ChangeClearRCnt"),
            0x0C => Some("InitDefInt"),
            0x12 => Some("InstallDevices"),
            0x1C => Some("AdjustA0Table"),
            _ => None,
        }
    } else {
        None
    }
}

/// A call into a BIOS function table: the table's entry address, the function
/// number (register t1) and the function's name when it has one.
#[derive(Clone, Copy, Debug)]
pub struct BiosCall {
    pub table: u32,
    pub function: u32,
    pub name: Option<&'static str>,
}

/// Whether a physical address is the entry point of a BIOS function table.
pub open spec fn is_bios_table(address: u32) -> bool {
    address == BIOS_TABLE_A0 || address == BIOS_TABLE_B0 || address == BIOS_TABLE_C0
}

/// The BIOS call that the CPU makes at its current PC: none unless the PC is
/// at a table's entry point; a call to the system error function of table C0
/// is reported as an error.
pub fn bios_call(r3000_state: &ControllerState) -> (r: Result<Option<BiosCall>, ControllerError>)
    requires
        !is_kseg2(r3000_state.pc.value),
    ensures
        ({
            let table = spec_translate_address(r3000_state.pc.value);
            let function = r3000_state.gpr@[9];
            &&& !is_bios_table(table) ==> r == Ok::<Option<BiosCall>, ControllerError>(None)
            &&& (table == BIOS_TABLE_C0 && function == BIOS_SYSTEM_ERROR) ==> r == Err::<Option<BiosCall>, ControllerError>(
                ControllerError::BiosSystemError,
            )
            &&& (is_bios_table(table) && !(table == BIOS_TABLE_C0 && function == BIOS_SYSTEM_ERROR)) ==> r
                == Ok::<Option<BiosCall>, ControllerError>(
                Some(BiosCall { table, function, name: spec_bios_function_name(table, function) }),
            )
        }),
{
    let table = translate_address(r3000_state.pc.read_u32());
    if table != BIOS_TABLE_A0 && table != BIOS_TABLE_B0 && table != BIOS_TABLE_C0 {
        return Ok(None);
    }
    assert(r3000_state.gpr@.len() == 32);
    let function = r3000_state.gpr[9];
    if table == BIOS_TABLE_C0 && function == BIOS_SYSTEM_ERROR {
        return Err(ControllerError::BiosSystemError);
    }
    Ok(Some(BiosCall { table, function, name: bios_function_name(table, function) }))
}

/// Whether the CPU, at physical address `table` with `function` in t1, is
/// calling one of the BIOS character output functions (A0(0x3C), B0(0x3D)).
pub open spec fn is_putchar_call(table: u32, function: u32) -> bool {
    (table == BIOS_TABLE_A0 && function == 0x3C) || (table == BIOS_TABLE_B0 && function == 0x3D)
}

/// Whether the current instruction is a BIOS character output call.
pub open spec fn putchar_call(r3000_state: ControllerState) -> bool {
    is_putchar_call(spec_translate_address(r3000_state.pc.value), r3000_state.gpr@[9])
}

/// Whether the current instruction is a BIOS character output call.
pub fn is_putchar(r3000_state: &ControllerState) -> (b: bool)
    requires
        !is_kseg2(r3000_state.pc.value),
    ensures
        b == putchar_call(*r3000_state),
{
    let table = translate_address(r3000_state.pc.read_u32());
    assert(r3000_state.gpr@.len() == 32);
    let function = r3000_state.gpr[9];
    (table == BIOS_TABLE_A0 && function == 0x3C) || (table == BIOS_TABLE_B0 && function == 0x3D)
}

/// A line that the BIOS printed: its ASCII text, and whether interrupts were
/// enabled (IEc) when its newline was printed.
pub struct StdoutLine {
    pub text: Vec<u8>,
    pub interrupts_enabled: bool,
}

/// Follows the BIOS character output: a character printed by a putchar call
/// (register a0, ASCII) is added to `buffer`, and a newline hands the
/// buffered line out and empties the buffer. Other instructions change nothing.
pub fn capture_stdout_putchar(
    buffer: &mut Vec<u8>,
    r3000_state: &ControllerState,
    cp0_state: &Cp0ControllerState,
) -> (r: Option<StdoutLine>)
    requires
        !is_kseg2(r3000_state.pc.value),
        putchar_call(*r3000_state) ==> r3000_state.gpr@[4] < 128,
    ensures
        !putchar_call(*r3000_state) ==> r is None && final(buffer)@ == old(buffer)@,
        (putchar_call(*r3000_state) && r3000_state.gpr@[4] != 10) ==> r is None && final(buffer)@ == old(
            buffer,
        )@.push(r3000_state.gpr@[4] as u8),
        (putchar_call(*r3000_state) && r3000_state.gpr@[4] == 10) ==> {
            &&& final(buffer)@.len() == 0
            &&& r matches Some(line)
            &&& line.text@ == old(buffer)@
            &&& line.interrupts_enabled == (field(0, 1).spec_extract(cp0_state.status.value) != 0)
        },
{
    if !is_putchar(r3000_state) {
        return None;
    }
    assert(r3000_state.gpr@.len() == 32);
    let character = r3000_state.gpr[4];
    if character != 10 {
        buffer.push(character as u8);
        return None;
    }
    let mut text: Vec<u8> = Vec::new();
    std::mem::swap(&mut text, buffer);
    let interrupts_enabled = cp0_state.status.read_bitfield(crate::r3000::cp0::status_iec()) != 0;
    Some(StdoutLine { text, interrupts_enabled })
}

} // verus!
