use vstd::prelude::*;
use crate::mips1::Instruction;

verus! {

/// The instructions of the MIPS I CPU and its geometry coprocessor.
#[derive(Clone, Copy, Debug, PartialEq, Eq, Structural)]
pub enum InstructionKind {
    Sll,
    Srl,
    Sra,
    Sllv,
    Srlv,
    Srav,
    Jr,
    Jalr,
    Syscall,
    Break,
    Mfhi,
    Mthi,
    Mflo,
    Mtlo,
    Mult,
    Multu,
    Div,
    Divu,
    Add,
    Addu,
    Sub,
    Subu,
    And,
    Or,
    Xor,
    Nor,
    Slt,
    Sltu,
    Bltz,
    Bgez,
    Bltzal,
    Bgezal,
    J,
    Jal,
    Beq,
    Bne,
    Blez,
    Bgtz,
    Addi,
    Addiu,
    Slti,
    Sltiu,
    Andi,
    Ori,
    Xori,
    Lui,
    Lb,
    Lh,
    Lwl,
    Lw,
    Lbu,
    Lhu,
    Lwr,
    Sb,
    Sh,
    Swl,
    Sw,
    Swr,
    Lwc2,
    Swc2,
    Bc0f,
    Bc0t,
    Tlbr,
    Tlbwi,
    Tlbwr,
    Tlbp,
    Rfe,
    Mfc2,
    Cfc2,
    Mtc2,
    Ctc2,
    Rtps,
    Nclip,
    Op,
    Dpcs,
    Intpl,
    Mvmva,
    Ncds,
    Cdp,
    Ncdt,
    Nccs,
    Cc,
    Ncs,
    Nct,
    Sqr,
    Dcpl,
    Dpct,
    Avsz3,
    Avsz4,
    Rtpt,
    Gpf,
    Gpl,
    Ncct,
    Mfc0,
    Mtc0,
}

/// Decoding of coprocessor 2 instructions: register moves (by `rs`) and GTE
/// commands (by `funct`), with their cycle counts.
pub open spec fn spec_lookup_cop2(inst: Instruction) -> Option<(InstructionKind, usize)> {
    let funct = inst.spec_funct();
    let rs = inst.spec_rs();
    if funct == 0 {
        if rs == 0 {
            Some((InstructionKind::Mfc2, 2usize))
        } else if rs == 2 {
            Some((InstructionKind::Cfc2, 2usize))
        } else if rs == 4 {
            Some((InstructionKind::Mtc2, 2usize))
        } else if rs == 6 {
            Some((InstructionKind::Ctc2, 2usize))
        } else {
            None
        }
    } else if funct == 1 {
        Some((InstructionKind::Rtps, 2usize))
    } else if funct == 6 {
        Some((InstructionKind::Nclip, 2usize))
    } else if funct == 12 {
        Some((InstructionKind::Op, 2usize))
    } else if funct == 16 {
        Some((InstructionKind::Dpcs, 2usize))
    } else if funct == 17 {
        Some((InstructionKind::Intpl, 2usize))
    } else if funct == 18 {
        Some((InstructionKind::Mvmva, 2usize))
    } else if funct == 19 {
        Some((InstructionKind::Ncds, 2usize))
    } else if funct == 20 {
        Some((InstructionKind::Cdp, 2usize))
    } else if funct == 22 {
        Some((InstructionKind::Ncdt, 2usize))
    } else if funct == 27 {
        Some((InstructionKind::Nccs, 2usize))
    } else if funct == 28 {
        Some((InstructionKind::Cc, 2usize))
    } else if funct == 30 {
        Some((InstructionKind::Ncs, 2usize))
    } else if funct == 32 {
        Some((InstructionKind::Nct, 2usize))
    } else if funct == 40 {
        Some((InstructionKind::Sqr, 2usize))
    } else if funct == 41 {
        Some((InstructionKind::Dcpl, 2usize))
    } else if funct == 42 {
        Some((InstructionKind::Dpct, 2usize))
    } else if funct == 45 {
        Some((InstructionKind::Avsz3, 2usize))
    } else if funct == 46 {
        Some((InstructionKind::Avsz4, 2usize))
    } else if funct == 48 {
        Some((InstructionKind::Rtpt, 2usize))
    } else if funct == 61 {
        Some((InstructionKind::Gpf, 2usize))
    } else if funct == 62 {
        Some((InstructionKind::Gpl, 2usize))
    } else if funct == 63 {
        Some((InstructionKind::Ncct, 2usize))
    } else {
        None
    }
}

/// The instruction decoding table: instruction kind and cycle count.
pub open spec fn spec_lookup(inst: Instruction) -> Option<(InstructionKind, usize)> {
    let opcode = inst.spec_opcode();
    let funct = inst.spec_funct();
    let rt = inst.spec_rt();
    let rs4 = inst.spec_rs4();
    if opcode == 0 {
        if funct == 0 {
            Some((InstructionKind::Sll, 1usize))
        } else if funct == 2 {
            Some((InstructionKind::Srl, 1usize))
        } else if funct == 3 {
            Some((InstructionKind::Sra, 1usize))
        } else if funct == 4 {
            Some((InstructionKind::Sllv, 1usize))
        } else if funct == 6 {
            Some((InstructionKind::Srlv, 1usize))
        } else if funct == 7 {
            Some((InstructionKind::Srav, 1usize))
        } else if funct == 8 {
            Some((InstructionKind::Jr, 2usize))
        } else if funct == 9 {
            Some((InstructionKind::Jalr, 2usize))
        } else if funct == 12 {
            Some((InstructionKind::Syscall, 2usize))
        } else if funct == 13 {
            Some((InstructionKind::Break, 2usize))
        } else if funct == 16 {
            Some((InstructionKind::Mfhi, 1usize))
        } else if funct == 17 {
            Some((InstructionKind::Mthi, 1usize))
        } else if funct == 18 {
            Some((InstructionKind::Mflo, 1usize))
        } else if funct == 19 {
            Some((InstructionKind::Mtlo, 1usize))
        } else if funct == 24 {
            Some((InstructionKind::Mult, 1usize))
        } else if funct == 25 {
            Some((InstructionKind::Multu, 1usize))
        } else if funct == 26 {
            Some((InstructionKind::Div, 2usize))
        } else if funct == 27 {
            Some((InstructionKind::Divu, 2usize))
        } else if funct == 32 {
            Some((InstructionKind::Add, 1usize))
        } else if funct == 33 {
            Some((InstructionKind::Addu, 1usize))
        } else if funct == 34 {
            Some((InstructionKind::Sub, 1usize))
        } else if funct == 35 {
            Some((InstructionKind::Subu, 1usize))
        } else if funct == 36 {
            Some((InstructionKind::And, 1usize))
        } else if funct == 37 {
            Some((InstructionKind::Or, 1usize))
        } else if funct == 38 {
            Some((InstructionKind::Xor, 1usize))
        } else if funct == 39 {
            Some((InstructionKind::Nor, 1usize))
        } else if funct == 42 {
            Some((InstructionKind::Slt, 1usize))
        } else if funct == 43 {
            Some((InstructionKind::Sltu, 1usize))
        } else {
            None
        }
    } else if opcode == 1 {
        if rt == 0 {
            Some((InstructionKind::Bltz, 2usize))
        } else if rt == 1 {
            Some((InstructionKind::Bgez, 2usize))
        } else if rt == 16 {
            Some((InstructionKind::Bltzal, 2usize))
        } else if rt == 17 {
            Some((InstructionKind::Bgezal, 2usize))
        } else {
            None
        }
    } else if opcode == 16 {
        if !inst.spec_c() {
            if rs4 == 0 {
                Some((InstructionKind::Mfc0, 2usize))
            } else if rs4 == 4 {
                Some((InstructionKind::Mtc0, 2usize))
            } else if rs4 == 8 {
                if rt == 0 {
                    Some((InstructionKind::Bc0f, 2usize))
                } else if rt == 1 {
                    Some((InstructionKind::Bc0t, 2usize))
                } else {
                    None
                }
            } else {
                None
            }
        } else if rs4 == 0 {
            if funct == 1 {
                Some((InstructionKind::Tlbr, 2usize))
            } else if funct == 2 {
                Some((InstructionKind::Tlbwi, 2usize))
            } else if funct == 6 {
                Some((InstructionKind::Tlbwr, 2usize))
            } else if funct == 8 {
                Some((InstructionKind::Tlbp, 2usize))
            } else if funct == 16 {
                Some((InstructionKind::Rfe, 2usize))
            } else {
                None
            }
        } else {
            None
        }
    } else if opcode == 18 {
        spec_lookup_cop2(inst)
    } else if opcode == 2 {
        Some((InstructionKind::J, 2usize))
    } else if opcode == 3 {
        Some((InstructionKind::Jal, 2usize))
    } else if opcode == 4 {
        Some((InstructionKind::Beq, 2usize))
    } else if opcode == 5 {
        Some((InstructionKind::Bne, 2usize))
    } else if opcode == 6 {
        Some((InstructionKind::Blez, 2usize))
    } else if opcode == 7 {
        Some((InstructionKind::Bgtz, 2usize))
    } else if opcode == 8 {
        Some((InstructionKind::Addi, 1usize))
    } else if opcode == 9 {
        Some((InstructionKind::Addiu, 1usize))
    } else if opcode == 10 {
        Some((InstructionKind::Slti, 1usize))
    } else if opcode == 11 {
        Some((InstructionKind::Sltiu, 1usize))
    } else if opcode == 12 {
        Some((InstructionKind::Andi, 1usize))
    } else if opcode == 13 {
        Some((InstructionKind::Ori, 1usize))
    } else if opcode == 14 {
        Some((InstructionKind::Xori, 1usize))
    } else if opcode == 15 {
        Some((InstructionKind::Lui, 1usize))
    } else if opcode == 32 {
        Some((InstructionKind::Lb, 2usize))
    } else if opcode == 33 {
        Some((InstructionKind::Lh, 2usize))
    } else if opcode == 34 {
        Some((InstructionKind::Lwl, 2usize))
    } else if opcode == 35 {
        Some((InstructionKind::Lw, 2usize))
    } else if opcode == 36 {
        Some((InstructionKind::Lbu, 2usize))
    } else if opcode == 37 {
        Some((InstructionKind::Lhu, 2usize))
    } else if opcode == 38 {
        Some((InstructionKind::Lwr, 2usize))
    } else if opcode == 40 {
        Some((InstructionKind::Sb, 2usize))
    } else if opcode == 41 {
        Some((InstructionKind::Sh, 2usize))
    } else if opcode == 42 {
        Some((InstructionKind::Swl, 2usize))
    } else if opcode == 43 {
        Some((InstructionKind::Sw, 2usize))
    } else if opcode == 46 {
        Some((InstructionKind::Swr, 2usize))
    } else if opcode == 50 {
        Some((InstructionKind::Lwc2, 2usize))
    } else if opcode == 58 {
        Some((InstructionKind::Swc2, 2usize))
    } else {
        None
    }
}

pub fn lookup_cop2(inst: Instruction) -> (r: Option<(InstructionKind, usize)>)
    ensures
        r == spec_lookup_cop2(inst),
{
    let funct = inst.funct();
    if funct == 0 {
        match inst.rs() {
            0 => Some((InstructionKind::Mfc2, 2)),
            2 => Some((InstructionKind::Cfc2, 2)),
            4 => Some((InstructionKind::Mtc2, 2)),
            6 => Some((InstructionKind::Ctc2, 2)),
            _ => None,
        }
    } else {
        match funct {
            1 => Some((InstructionKind::Rtps, 2)),
            6 => Some((InstructionKind::Nclip, 2)),
            12 => Some((InstructionKind::Op, 2)),
            16 => Some((InstructionKind::Dpcs, 2)),
            17 => Some((InstructionKind::Intpl, 2)),
            18 => Some((InstructionKind::Mvmva, 2)),
            19 => Some((InstructionKind::Ncds, 2)),
            20 => Some((InstructionKind::Cdp, 2)),
            22 => Some((InstructionKind::Ncdt, 2)),
            27 => Some((InstructionKind::Nccs, 2)),
            28 => Some((InstructionKind::Cc, 2)),
            30 => Some((InstructionKind::Ncs, 2)),
            32 => Some((InstructionKind::Nct, 2)),
            40 => Some((InstructionKind::Sqr, 2)),
            41 => Some((InstructionKind::Dcpl, 2)),
            42 => Some((InstructionKind::Dpct, 2)),
            45 => Some((InstructionKind::Avsz3, 2)),
            46 => Some((InstructionKind::Avsz4, 2)),
            48 => Some((InstructionKind::Rtpt, 2)),
            61 => Some((InstructionKind::Gpf, 2)),
            62 => Some((InstructionKind::Gpl, 2)),
            63 => Some((InstructionKind::Ncct, 2)),
            _ => None,
        }
    }
}

pub fn lookup(inst: Instruction) -> (r: Option<(InstructionKind, usize)>)
    ensures
        r == spec_lookup(inst),
{
    match inst.opcode() {
        0 => {
            match inst.funct() {
                0 => Some((InstructionKind::Sll, 1)),
                2 => Some((InstructionKind::Srl, 1)),
                3 => Some((InstructionKind::Sra, 1)),
                4 => Some((InstructionKind::Sllv, 1)),
                6 => Some((InstructionKind::Srlv, 1)),
                7 => Some((InstructionKind::Srav, 1)),
                8 => Some((InstructionKind::Jr, 2)),
                9 => Some((InstructionKind::Jalr, 2)),
                12 => Some((InstructionKind::Syscall, 2)),
                13 => Some((InstructionKind::Break, 2)),
                16 => Some((InstructionKind::Mfhi, 1)),
                17 => Some((InstructionKind::Mthi, 1)),
                18 => Some((InstructionKind::Mflo, 1)),
                19 => Some((InstructionKind::Mtlo, 1)),
                24 => Some((InstructionKind::Mult, 1)),
                25 => Some((InstructionKind::Multu, 1)),
                26 => Some((InstructionKind::Div, 2)),
                27 => Some((InstructionKind::Divu, 2)),
                32 => Some((InstructionKind::Add, 1)),
                33 => Some((InstructionKind::Addu, 1)),
                34 => Some((InstructionKind::Sub, 1)),
                35 => Some((InstructionKind::Subu, 1)),
                36 => Some((InstructionKind::And, 1)),
                37 => Some((InstructionKind::Or, 1)),
                38 => Some((InstructionKind::Xor, 1)),
                39 => Some((InstructionKind::Nor, 1)),
                42 => Some((InstructionKind::Slt, 1)),
                43 => Some((InstructionKind::Sltu, 1)),
                _ => None,
            }
        },
        1 => {
            match inst.rt() {
                0 => Some((InstructionKind::Bltz, 2)),
                1 => Some((InstructionKind::Bgez, 2)),
                16 => Some((InstructionKind::Bltzal, 2)),
                17 => Some((InstructionKind::Bgezal, 2)),
                _ => None,
            }
        },
        16 => {
            if !inst.c() {
                match inst.rs4() {
                    0 => Some((InstructionKind::Mfc0, 2)),
                    4 => Some((InstructionKind::Mtc0, 2)),
                    8 => {
                        match inst.rt() {
                            0 => Some((InstructionKind::Bc0f, 2)),
                            1 => Some((InstructionKind::Bc0t, 2)),
                            _ => None,
                        }
                    },
                    _ => None,
                }
            } else {
                match inst.rs4() {
                    0 => {
                        match inst.funct() {
                            1 => Some((InstructionKind::Tlbr, 2)),
                            2 => Some((InstructionKind::Tlbwi, 2)),
                            6 => Some((InstructionKind::Tlbwr, 2)),
                            8 => Some((InstructionKind::Tlbp, 2)),
                            16 => Some((InstructionKind::Rfe, 2)),
                            _ => None,
                        }
                    },
                    _ => None,
                }
            }
        },
        18 => lookup_cop2(inst),
        2 => Some((InstructionKind::J, 2)),
        3 => Some((InstructionKind::Jal, 2)),
        4 => Some((InstructionKind::Beq, 2)),
        5 => Some((InstructionKind::Bne, 2)),
        6 => Some((InstructionKind::Blez, 2)),
        7 => Some((InstructionKind::Bgtz, 2)),
        8 => Some((InstructionKind::Addi, 1)),
        9 => Some((InstructionKind::Addiu, 1)),
        10 => Some((InstructionKind::Slti, 1)),
        11 => Some((InstructionKind::Sltiu, 1)),
        12 => Some((InstructionKind::Andi, 1)),
        13 => Some((InstructionKind::Ori, 1)),
        14 => Some((InstructionKind::Xori, 1)),
        15 => Some((InstructionKind::Lui, 1)),
        32 => Some((InstructionKind::Lb, 2)),
        33 => Some((InstructionKind::Lh, 2)),
        34 => Some((InstructionKind::Lwl, 2)),
        35 => Some((InstructionKind::Lw, 2)),
        36 => Some((InstructionKind::Lbu, 2)),
        37 => Some((InstructionKind::Lhu, 2)),
        38 => Some((InstructionKind::Lwr, 2)),
        40 => Some((InstructionKind::Sb, 2)),
        41 => Some((InstructionKind::Sh, 2)),
        42 => Some((InstructionKind::Swl, 2)),
        43 => Some((InstructionKind::Sw, 2)),
        46 => Some((InstructionKind::Swr, 2)),
        50 => Some((InstructionKind::Lwc2, 2)),
        58 => Some((InstructionKind::Swc2, 2)),
        _ => None,
    }
}

} // verus!
