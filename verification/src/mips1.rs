use vstd::prelude::*;

verus! {

/// Size in bytes of one MIPS I instruction.
pub const INSTRUCTION_SIZE: u32 = 4;

/// `x` reduced modulo 2^32: the result of 32-bit wrapping arithmetic.
pub open spec fn wrap32(x: int) -> u32 {
    (x % 0x1_0000_0000) as u32
}

/// 1 for `true`, 0 for `false`.
pub open spec fn spec_flag(b: bool) -> u32 {
    if b {
        1
    } else {
        0
    }
}

pub fn bool_to_flag(b: bool) -> (r: u32)
    ensures
        r == spec_flag(b),
{
    if b {
        1
    } else {
        0
    }
}

/// Clamps `value` into `[min, max]`, also saying whether it had to be clamped.
pub fn checked_clamp(value: i64, min: i64, max: i64) -> (r: (i64, bool))
    requires
        min <= max,
    ensures
        r.0 == (if value < min {
            min
        } else if value > max {
            max
        } else {
            value
        }),
        r.1 == (value < min || value > max),
{
    if value < min {
        (min, true)
    } else if value > max {
        (max, true)
    } else {
        (value, false)
    }
}

/// Every field of an instruction word lies in its range.
pub proof fn lemma_field_bounds(v: u32)
    by (bit_vector)
    ensures
        v >> 26u32 < 64,
        (v >> 21u32) & 0x1F < 32,
        (v >> 16u32) & 0x1F < 32,
        (v >> 11u32) & 0x1F < 32,
        (v >> 6u32) & 0x1F < 32,
        v & 0x3F < 64,
{
}

/// A raw 32-bit MIPS I instruction word and its fields.
#[derive(Clone, Copy)]
pub struct Instruction {
    pub value: u32,
}

impl Instruction {
    pub open spec fn spec_opcode(self) -> u32 {
        self.value >> 26u32
    }

    pub open spec fn spec_rs(self) -> u32 {
        (self.value >> 21u32) & 0x1F
    }

    pub open spec fn spec_rt(self) -> u32 {
        (self.value >> 16u32) & 0x1F
    }

    pub open spec fn spec_rd(self) -> u32 {
        (self.value >> 11u32) & 0x1F
    }

    pub open spec fn spec_shamt(self) -> u32 {
        (self.value >> 6u32) & 0x1F
    }

    pub open spec fn spec_funct(self) -> u32 {
        self.value & 0x3F
    }

    pub open spec fn spec_u_imm(self) -> u16 {
        self.value as u16
    }

    pub open spec fn spec_i_imm(self) -> i16 {
        self.value as u16 as i16
    }

    pub open spec fn spec_addr(self) -> u32 {
        self.value & 0x03FF_FFFF
    }

    pub open spec fn spec_c(self) -> bool {
        (self.value >> 25u32) & 1 != 0
    }

    pub open spec fn spec_rs4(self) -> u32 {
        (self.value >> 21u32) & 0xF
    }

    /// The register fields name one of the 32 general purpose registers.
    pub proof fn lemma_register_fields(self)
        ensures
            self.spec_rs() < 32,
            self.spec_rt() < 32,
            self.spec_rd() < 32,
    {
        lemma_field_bounds(self.value);
    }

    pub fn new(value: u32) -> (i: Instruction)
        ensures
            i.value == value,
    {
        Instruction { value }
    }

    pub fn opcode(&self) -> (r: u32)
        ensures
            r == self.spec_opcode(),
            r < 64,
    {
        let v = self.value;
        proof {
            lemma_field_bounds(v);
        }
        v >> 26u32
    }

    pub fn rs(&self) -> (r: usize)
        ensures
            r == self.spec_rs(),
            r < 32,
    {
        let v = self.value;
        proof {
            lemma_field_bounds(v);
        }
        ((v >> 21u32) & 0x1F) as usize
    }

    pub fn rt(&self) -> (r: usize)
        ensures
            r == self.spec_rt(),
            r < 32,
    {
        let v = self.value;
        proof {
            lemma_field_bounds(v);
        }
        ((v >> 16u32) & 0x1F) as usize
    }

    pub fn rd(&self) -> (r: usize)
        ensures
            r == self.spec_rd(),
            r < 32,
    {
        let v = self.value;
        proof {
            lemma_field_bounds(v);
        }
        ((v >> 11u32) & 0x1F) as usize
    }

    pub fn shamt(&self) -> (r: u32)
        ensures
            r == self.spec_shamt(),
            r < 32,
    {
        let v = self.value;
        proof {
            lemma_field_bounds(v);
        }
        (v >> 6u32) & 0x1F
    }

    pub fn funct(&self) -> (r: u32)
        ensures
            r == self.spec_funct(),
            r < 64,
    {
        let v = self.value;
        proof {
            lemma_field_bounds(v);
        }
        v & 0x3F
    }

    pub fn u_imm(&self) -> (r: u16)
        ensures
            r == self.spec_u_imm(),
    {
        self.value as u16
    }

    pub fn i_imm(&self) -> (r: i16)
        ensures
            r == self.spec_i_imm(),
    {
        self.value as u16 as i16
    }

    pub fn addr(&self) -> (r: u32)
        ensures
            r == self.spec_addr(),
    {
        self.value & 0x03FF_FFFF
    }

    pub fn c(&self) -> (r: bool)
        ensures
            r == self.spec_c(),
    {
        (self.value >> 25u32) & 1 != 0
    }

    pub fn rs4(&self) -> (r: u32)
        ensures
            r == self.spec_rs4(),
    {
        (self.value >> 21u32) & 0xF
    }
}

/// Jump target of J/JAL: the upper 4 bits of the PC with the 26-bit word index.
pub open spec fn spec_jump_target(pc: u32, addr: u32) -> u32 {
    (pc & 0xF000_0000) | ((addr << 2u32) & 0x0FFF_FFFF)
}

pub fn pc_calc_jump_target(pc: u32, addr: u32) -> (r: u32)
    ensures
        r == spec_jump_target(pc, addr),
{
    (pc & 0xF000_0000) | ((addr << 2u32) & 0x0FFF_FFFF)
}

/// Status register after taking an exception: the (KU, IE) stack of bits 0..5
/// shifts up by one entry and the current entry becomes kernel mode, interrupts off.
pub open spec fn spec_status_push(status: u32) -> u32 {
    (status & !0x3Fu32) | ((status << 2u32) & 0x3C)
}

/// Status register after RFE: the (KU, IE) stack shifts down by one entry;
/// the oldest entry (bits 4..5) is kept.
pub open spec fn spec_status_pop(status: u32) -> u32 {
    (status & !0x0Fu32) | ((status >> 2u32) & 0x0F)
}

pub fn status_push_exception(status: u32) -> (r: u32)
    ensures
        r == spec_status_push(status),
{
    (status & !0x3Fu32) | ((status << 2u32) & 0x3C)
}

pub fn status_pop_exception(status: u32) -> (r: u32)
    ensures
        r == spec_status_pop(status),
{
    (status & !0x0Fu32) | ((status >> 2u32) & 0x0F)
}

/// Returning from an exception undoes taking it for the current and previous
/// (KU, IE) entries and for every bit above the stack; the oldest entry then
/// holds what the previous entry held before the exception.
pub proof fn lemma_status_pop_push(status: u32)
    by (bit_vector)
    ensures
        spec_status_pop(spec_status_push(status)) & 0x0F == status & 0x0F,
        spec_status_pop(spec_status_push(status)) & !0x3Fu32 == status & !0x3Fu32,
        (spec_status_pop(spec_status_push(status)) >> 4u32) & 0x3 == (status >> 2u32) & 0x3,
        spec_status_push(status) & 0x3 == 0,
{
}

/// A pending branch: its target and how many more instructions run before it is taken.
#[derive(Clone, Copy, Debug, PartialEq, Eq, Structural)]
pub struct PendingBranch {
    pub target: u32,
    pub remaining: u32,
}

/// The branch delay slot: a branch takes effect after the instruction that follows it.
#[derive(Clone, Copy)]
pub struct BranchDelaySlot {
    pub current: Option<PendingBranch>,
    pub previous: Option<PendingBranch>,
}

/// What `advance` does to a pending branch, and which target it yields.
pub open spec fn spec_advance(current: Option<PendingBranch>) -> (Option<PendingBranch>, Option<u32>) {
    match current {
        None => (None, None),
        Some(p) => if p.remaining == 0 {
            (None, Some(p.target))
        } else {
            (Some(PendingBranch { target: p.target, remaining: (p.remaining - 1) as u32 }), None)
        },
    }
}

impl BranchDelaySlot {
    pub fn new() -> (b: BranchDelaySlot)
        ensures
            b.current is None,
            b.previous is None,
    {
        BranchDelaySlot { current: None, previous: None }
    }

    /// Schedules a branch to `target` after `slots` more instructions.
    pub fn set(&mut self, target: u32, slots: u32)
        ensures
            final(self).current == Some(PendingBranch { target, remaining: slots }),
            final(self).previous == old(self).previous,
    {
        self.current = Some(PendingBranch { target, remaining: slots });
    }

    /// Steps the delay slot by one instruction; yields the target when the branch is due.
    pub fn advance(&mut self) -> (r: Option<u32>)
        ensures
            final(self).previous == old(self).current,
            final(self).current == spec_advance(old(self).current).0,
            r == spec_advance(old(self).current).1,
    {
        self.previous = self.current;
        match self.current {
            None => None,
            Some(p) => {
                if p.remaining == 0 {
                    self.current = None;
                    Some(p.target)
                } else {
                    self.current = Some(PendingBranch { target: p.target, remaining: p.remaining - 1 });
                    None
                }
            },
        }
    }

    /// Takes a pending branch at once, whatever its remaining delay.
    pub fn advance_all(&mut self) -> (r: Option<u32>)
        ensures
            final(self).previous == old(self).current,
            final(self).current is None,
            r == (match old(self).current {
                None => None,
                Some(p) => Some(p.target),
            }),
    {
        self.previous = self.current;
        match self.current {
            None => None,
            Some(p) => {
                self.current = None;
                Some(p.target)
            },
        }
    }

    /// Undoes the last `advance`, for an instruction that has to be retried.
    pub fn back(&mut self)
        ensures
            final(self).current == old(self).previous,
            final(self).previous == old(self).previous,
    {
        self.current = self.previous;
    }

    pub fn branching(&self) -> (b: bool)
        ensures
            b == self.current is Some,
    {
        self.current.is_some()
    }

    pub fn target_or_null(&self) -> (r: u32)
        ensures
            r == (match self.current {
                None => 0u32,
                Some(p) => p.target,
            }),
    {
        match self.current {
            None => 0,
            Some(p) => p.target,
        }
    }
}

/// A branch scheduled with one delay slot is taken on the second advance, not the first.
pub proof fn lemma_branch_delay_one(target: u32)
    ensures
        spec_advance(Some(PendingBranch { target, remaining: 1 })).1 is None,
        spec_advance(spec_advance(Some(PendingBranch { target, remaining: 1 })).0).1 == Some(target),
        spec_advance(spec_advance(Some(PendingBranch { target, remaining: 1 })).0).0 is None,
{
}


pub open spec fn abs(x: int) -> nat {
    if x < 0 {
        (-x) as nat
    } else {
        x as nat
    }
}

/// Quotient of integer division rounding toward zero (as Rust's `/` on signed integers).
pub open spec fn trunc_div(a: int, b: int) -> int {
    if (a >= 0) == (b > 0) {
        (abs(a) / abs(b)) as int
    } else {
        -((abs(a) / abs(b)) as int)
    }
}

/// Remainder matching `trunc_div` (as Rust's `%` on signed integers).
pub open spec fn trunc_rem(a: int, b: int) -> int {
    a - b * trunc_div(a, b)
}

/// Signed division: quotient times divisor plus remainder gives back the
/// dividend, and the remainder is smaller than the divisor in magnitude and
/// zero or of the dividend's sign.
pub proof fn lemma_trunc_div_rem(a: int, b: int)
    requires
        b != 0,
    ensures
        trunc_div(a, b) * b + trunc_rem(a, b) == a,
        abs(trunc_rem(a, b)) < abs(b),
        trunc_rem(a, b) == 0 || ((trunc_rem(a, b) < 0) == (a < 0)),
{
    let ua = abs(a) as int;
    let ub = abs(b) as int;
    vstd::arithmetic::div_mod::lemma_fundamental_div_mod(ua, ub);
    let q = ua / ub;
    let r0 = ua % ub;
    assert(0 <= r0 < ub);
    assert(trunc_rem(a, b) == if a < 0 { -r0 } else { r0 }) by (nonlinear_arith)
        requires
            ua == abs(a),
            ub == abs(b),
            ua == ub * q + r0,
            (a >= 0) == (b > 0) ==> trunc_div(a, b) == q,
            (a >= 0) != (b > 0) ==> trunc_div(a, b) == -q,
            trunc_rem(a, b) == a - b * trunc_div(a, b),
            b != 0,
    ;
    assert(trunc_div(a, b) * b + trunc_rem(a, b) == a) by (nonlinear_arith)
        requires
            trunc_rem(a, b) == a - b * trunc_div(a, b),
    ;
}

/// Signed 32-bit division with the quotient rounded toward zero, and its remainder.
pub fn signed_div_rem(a: i32, b: i32) -> (r: (i32, i32))
    requires
        b != 0,
        !(a == i32::MIN && b == -1),
    ensures
        r.0 == trunc_div(a as int, b as int),
        r.1 == trunc_rem(a as int, b as int),
{
    let ua: u64 = if a < 0 {
        (-(a as i64)) as u64
    } else {
        a as u64
    };
    let ub: u64 = if b < 0 {
        (-(b as i64)) as u64
    } else {
        b as u64
    };
    let uq = ua / ub;
    let ur = ua % ub;
    assert(uq <= ua);
    proof {
        vstd::arithmetic::div_mod::lemma_fundamental_div_mod(ua as int, ub as int);
    }
    let q: i64 = if (a >= 0) == (b > 0) {
        uq as i64
    } else {
        -(uq as i64)
    };
    let r: i64 = if a < 0 {
        -(ur as i64)
    } else {
        ur as i64
    };
    assert(r == trunc_rem(a as int, b as int)) by (nonlinear_arith)
        requires
            ua == abs(a as int),
            ub == abs(b as int),
            ua == ub * uq + ur,
            q == trunc_div(a as int, b as int),
            r == (if a < 0 {
                -(ur as int)
            } else {
                ur as int
            }),
            uq == ua / ub,
            (a >= 0) == (b > 0) ==> q == uq,
            (a >= 0) != (b > 0) ==> q == -uq,
    ;
    assert(r >= i32::MIN && r <= i32::MAX) by {
        assert(ur < ub);
    }
    assert(q >= i32::MIN && q <= i32::MAX) by {
        if ub >= 2 {
            assert(uq <= ua / 2) by {
                vstd::arithmetic::div_mod::lemma_div_is_ordered_by_denominator(ua as int, 2, ub as int);
            }
        } else {
            assert(uq <= ua);
        }
    }
    (q as i32, r as i32)
}

} // verus!
