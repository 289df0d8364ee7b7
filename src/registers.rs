//! General-purpose registers, program counter and condition flags.
use vstd::prelude::*;

verus! {

/// The condition flags N, Z and P.
#[derive(Clone, Copy, Debug, PartialEq, Eq, Structural)]
pub struct Flags {
    pub negative: bool,
    pub zero: bool,
    pub positive: bool,
}

impl Flags {
    /// The flags that describe `value` read as a two's-complement word.
    pub open spec fn of(value: u16) -> Flags {
        Flags { negative: value >= 0x8000, zero: value == 0, positive: 0 < value < 0x8000 }
    }

    /// Recompute the flags from `value`.
    pub fn update(&mut self, value: u16)
        ensures
            *final(self) == Flags::of(value),
    {
        self.negative = false;
        self.zero = false;
        self.positive = false;

        if value == 0 {
            self.zero = true;
        } else if (value >> 15u16) != 0 {
            assert((value >> 15u16) != 0 ==> value >= 0x8000) by (bit_vector);
            self.negative = true;
        } else {
            assert((value >> 15u16) == 0 ==> value < 0x8000) by (bit_vector);
            self.positive = true;
        }
    }
}

/// After an update from
/// `value` exactly one of N, Z and P holds, Z holds iff `value` is zero, and N
/// holds iff the sign bit of `value` is set.
pub proof fn lemma_flags_update(value: u16)
    ensures
        Flags::of(value).zero <==> value == 0,
        Flags::of(value).negative <==> value >= 0x8000,
        (Flags::of(value).negative as int) + (Flags::of(value).zero as int) + (
        Flags::of(value).positive as int) == 1,
{
}

impl Default for Flags {
    /// All three flags clear, as before the first update.
    fn default() -> (r: Flags)
        ensures
            !r.negative && !r.zero && !r.positive,
    {
        Flags { negative: false, zero: false, positive: false }
    }
}

/// The register file: R0 to R7, the program counter and the condition flags.
#[derive(Clone, Copy, Debug, PartialEq, Eq, Structural)]
pub struct Registers {
    pub r0: u16,
    pub r1: u16,
    pub r2: u16,
    pub r3: u16,
    pub r4: u16,
    pub r5: u16,
    pub r6: u16,
    pub r7: u16,
    /// Program counter.
    pub pc: u16,
    pub flags: Flags,
}

impl Registers {
    /// The eight general-purpose registers, R0 first.
    pub open spec fn gprs(&self) -> Seq<u16> {
        seq![self.r0, self.r1, self.r2, self.r3, self.r4, self.r5, self.r6, self.r7]
    }

    /// The register file with general-purpose register `index` holding `value`.
    pub open spec fn with_reg(self, index: int, value: u16) -> Registers {
        Registers {
            r0: if index == 0 { value } else { self.r0 },
            r1: if index == 1 { value } else { self.r1 },
            r2: if index == 2 { value } else { self.r2 },
            r3: if index == 3 { value } else { self.r3 },
            r4: if index == 4 { value } else { self.r4 },
            r5: if index == 5 { value } else { self.r5 },
            r6: if index == 6 { value } else { self.r6 },
            r7: if index == 7 { value } else { self.r7 },
            pc: self.pc,
            flags: self.flags,
        }
    }

    /// Writes `value` to register `index` and sets the flags from it.
    pub open spec fn with_result(self, index: int, value: u16) -> Registers {
        Registers { flags: Flags::of(value), ..self.with_reg(index, value) }
    }

    /// The register file with the program counter set to `pc`.
    pub open spec fn with_pc(self, pc: u16) -> Registers {
        Registers { pc, ..self }
    }

    /// Read general-purpose register `index`.
    pub fn get(&self, index: u16) -> (r: u16)
        requires
            index < 8,
        ensures
            r == self.gprs()[index as int],
    {
        match index {
            0 => self.r0,
            1 => self.r1,
            2 => self.r2,
            3 => self.r3,
            4 => self.r4,
            5 => self.r5,
            6 => self.r6,
            _ => self.r7,
        }
    }

    /// Write `value` to general-purpose register `index`.
    pub fn set(&mut self, index: u16, value: u16)
        requires
            index < 8,
        ensures
            *final(self) == old(self).with_reg(index as int, value),
    {
        match index {
            0 => self.r0 = value,
            1 => self.r1 = value,
            2 => self.r2 = value,
            3 => self.r3 = value,
            4 => self.r4 = value,
            5 => self.r5 = value,
            6 => self.r6 = value,
            _ => self.r7 = value,
        }
    }
}

/// Writing a register and reading it back gives the value written; the other
/// registers, the program counter and the flags keep their values.
pub proof fn lemma_set_then_get(regs: Registers, index: int, value: u16)
    requires
        0 <= index < 8,
    ensures
        regs.with_reg(index, value).gprs()[index] == value,
        forall|j: int|
            0 <= j < 8 && j != index ==> #[trigger] regs.with_reg(index, value).gprs()[j]
                == regs.gprs()[j],
        regs.with_reg(index, value).gprs().len() == 8,
        regs.with_reg(index, value).pc == regs.pc,
        regs.with_reg(index, value).flags == regs.flags,
{
}

impl Default for Registers {
    /// Every register zero and every flag clear.
    fn default() -> (r: Registers)
        ensures
            r.gprs() == seq![0u16, 0, 0, 0, 0, 0, 0, 0],
            r.pc == 0,
            !r.flags.negative && !r.flags.zero && !r.flags.positive,
    {
        Registers {
            r0: 0,
            r1: 0,
            r2: 0,
            r3: 0,
            r4: 0,
            r5: 0,
            r6: 0,
            r7: 0,
            pc: 0,
            flags: Flags::default(),
        }
    }
}

} // verus!
