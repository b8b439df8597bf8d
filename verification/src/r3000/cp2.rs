use vstd::prelude::*;
use crate::mips1::Instruction;

verus! {

#[derive(Clone, Copy, Debug, PartialEq, Eq, Structural)]
pub enum MultiplyMatrix {
    Rotation,
    Light,
    Color,
    Reserved,
}

#[derive(Clone, Copy, Debug, PartialEq, Eq, Structural)]
pub enum MultiplyVector {
    V0,
    V1,
    V2,
    IR,
}

#[derive(Clone, Copy, Debug, PartialEq, Eq, Structural)]
pub enum TranslationVector {
    TR,
    BK,
    FC,
    Zero,
}

/// A coprocessor 2 (geometry transformation engine) command word.
#[derive(Clone, Copy)]
pub struct GteInstruction {
    pub instruction: Instruction,
}

impl GteInstruction {
    pub open spec fn spec_sf(self) -> bool {
        (self.instruction.value >> 19u32) & 1 > 0
    }

    pub open spec fn spec_lm(self) -> bool {
        (self.instruction.value >> 10u32) & 1 > 0
    }

    pub open spec fn spec_mm(self) -> u32 {
        (self.instruction.value >> 17u32) & 3
    }

    pub open spec fn spec_mv(self) -> u32 {
        (self.instruction.value >> 15u32) & 3
    }

    pub open spec fn spec_tv(self) -> u32 {
        (self.instruction.value >> 13u32) & 3
    }

    pub open spec fn mm_kind(self) -> MultiplyMatrix {
        if self.spec_mm() == 0 {
            MultiplyMatrix::Rotation
        } else if self.spec_mm() == 1 {
            MultiplyMatrix::Light
        } else if self.spec_mm() == 2 {
            MultiplyMatrix::Color
        } else {
            MultiplyMatrix::Reserved
        }
    }

    pub open spec fn mv_kind(self) -> MultiplyVector {
        if self.spec_mv() == 0 {
            MultiplyVector::V0
        } else if self.spec_mv() == 1 {
            MultiplyVector::V1
        } else if self.spec_mv() == 2 {
            MultiplyVector::V2
        } else {
            MultiplyVector::IR
        }
    }

    pub open spec fn tv_kind(self) -> TranslationVector {
        if self.spec_tv() == 0 {
            TranslationVector::TR
        } else if self.spec_tv() == 1 {
            TranslationVector::BK
        } else if self.spec_tv() == 2 {
            TranslationVector::FC
        } else {
            TranslationVector::Zero
        }
    }

    pub fn new(instruction: Instruction) -> (g: GteInstruction)
        ensures
            g.instruction == instruction,
    {
        GteInstruction { instruction }
    }

    pub fn fake(&self) -> (r: usize)
        ensures
            r == (self.instruction.value >> 20u32) & 0x1F,
    {
        ((self.instruction.value >> 20u32) & 0x1F) as usize
    }

    /// Shift fraction: results are divided by 4096.
    pub fn sf(&self) -> (b: bool)
        ensures
            b == self.spec_sf(),
    {
        ((self.instruction.value >> 19u32) & 0x1) > 0
    }

    pub fn mvmva_mm(&self) -> (m: MultiplyMatrix)
        ensures
            m == (if self.spec_mm() == 0 {
                MultiplyMatrix::Rotation
            } else if self.spec_mm() == 1 {
                MultiplyMatrix::Light
            } else if self.spec_mm() == 2 {
                MultiplyMatrix::Color
            } else {
                MultiplyMatrix::Reserved
            }),
    {
        let v = self.instruction.value;
        assert((v >> 17u32) & 3 < 4) by (bit_vector);
        match (self.instruction.value >> 17u32) & 0x3 {
            0 => MultiplyMatrix::Rotation,
            1 => MultiplyMatrix::Light,
            2 => MultiplyMatrix::Color,
            _ => MultiplyMatrix::Reserved,
        }
    }

    pub fn mvmva_mv(&self) -> (m: MultiplyVector)
        ensures
            m == (if self.spec_mv() == 0 {
                MultiplyVector::V0
            } else if self.spec_mv() == 1 {
                MultiplyVector::V1
            } else if self.spec_mv() == 2 {
                MultiplyVector::V2
            } else {
                MultiplyVector::IR
            }),
    {
        let v = self.instruction.value;
        assert((v >> 15u32) & 3 < 4) by (bit_vector);
        match (self.instruction.value >> 15u32) & 0x3 {
            0 => MultiplyVector::V0,
            1 => MultiplyVector::V1,
            2 => MultiplyVector::V2,
            _ => MultiplyVector::IR,
        }
    }

    pub fn mvmva_tv(&self) -> (t: TranslationVector)
        ensures
            t == (if self.spec_tv() == 0 {
                TranslationVector::TR
            } else if self.spec_tv() == 1 {
                TranslationVector::BK
            } else if self.spec_tv() == 2 {
                TranslationVector::FC
            } else {
                TranslationVector::Zero
            }),
    {
        let v = self.instruction.value;
        assert((v >> 13u32) & 3 < 4) by (bit_vector);
        match (self.instruction.value >> 13u32) & 0x3 {
            0 => TranslationVector::TR,
            1 => TranslationVector::BK,
            2 => TranslationVector::FC,
            _ => TranslationVector::Zero,
        }
    }

    /// Limit mode: IR results are clamped to 0 instead of -0x8000.
    pub fn lm(&self) -> (b: bool)
        ensures
            b == self.spec_lm(),
    {
        ((self.instruction.value >> 10u32) & 0x1) > 0
    }

    pub fn cmd(&self) -> (r: usize)
        ensures
            r == self.instruction.value & 0x1F,
    {
        (self.instruction.value & 0x1F) as usize
    }
}

/// The data (`gd`) and control (`gc`) registers of the geometry engine.
#[derive(Clone, Copy)]
pub struct ControllerState {
    pub gd: [u32; 32],
    pub gc: [u32; 32],
}

impl ControllerState {
    pub fn new() -> (s: ControllerState)
        ensures
            forall|i: int| 0 <= i < 32 ==> s.gd@[i] == 0 && s.gc@[i] == 0,
    {
        ControllerState { gd: [0u32; 32], gc: [0u32; 32] }
    }
}

/// Data registers after writing `value` to register `index` through the
/// coprocessor interface: a write to SXYP (15) pushes the screen XY FIFO, and
/// SXYP then mirrors SXY2.
pub open spec fn spec_gd_write(gd: Seq<u32>, index: int, value: u32) -> Seq<u32> {
    let written = gd.update(index, value);
    let pushed = if index == 15 {
        written.update(12, written[13]).update(13, written[14]).update(14, written[15])
    } else {
        written
    };
    pushed.update(15, pushed[14])
}

} // verus!
