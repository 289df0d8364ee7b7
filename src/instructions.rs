//! The sixteen opcodes and their decoder.
use vstd::prelude::*;

verus! {

/// An LC-3 opcode, as named by the top four bits of an instruction word.
#[derive(Clone, Copy, Debug, PartialEq, Eq, Structural)]
pub enum Instructions {
    /// Conditional branch.
    BR,
    /// Addition.
    ADD,
    /// Load, PC-relative.
    LD,
    /// Store, PC-relative.
    ST,
    /// Jump to subroutine.
    JSR,
    /// Bitwise and.
    AND,
    /// Load, base plus offset.
    LDR,
    /// Store, base plus offset.
    STR,
    /// Return from interrupt (unused).
    RTI,
    /// Bitwise complement.
    NOT,
    /// Load indirect.
    LDI,
    /// Store indirect.
    STI,
    /// Jump, and return from subroutine.
    JMP,
    /// Reserved (unused).
    RES,
    /// Load effective address.
    LEA,
    /// Service call.
    TRAP,
}

impl Instructions {
    /// The opcode's number, from 0 to 15.
    pub open spec fn code(self) -> int {
        match self {
            Instructions::BR => 0,
            Instructions::ADD => 1,
            Instructions::LD => 2,
            Instructions::ST => 3,
            Instructions::JSR => 4,
            Instructions::AND => 5,
            Instructions::LDR => 6,
            Instructions::STR => 7,
            Instructions::RTI => 8,
            Instructions::NOT => 9,
            Instructions::LDI => 10,
            Instructions::STI => 11,
            Instructions::JMP => 12,
            Instructions::RES => 13,
            Instructions::LEA => 14,
            Instructions::TRAP => 15,
        }
    }

    /// The opcode numbered `opcode`, if it is below 16.
    pub open spec fn decode(opcode: int) -> Option<Instructions> {
        if opcode == 0 {
            Some(Instructions::BR)
        } else if opcode == 1 {
            Some(Instructions::ADD)
        } else if opcode == 2 {
            Some(Instructions::LD)
        } else if opcode == 3 {
            Some(Instructions::ST)
        } else if opcode == 4 {
            Some(Instructions::JSR)
        } else if opcode == 5 {
            Some(Instructions::AND)
        } else if opcode == 6 {
            Some(Instructions::LDR)
        } else if opcode == 7 {
            Some(Instructions::STR)
        } else if opcode == 8 {
            Some(Instructions::RTI)
        } else if opcode == 9 {
            Some(Instructions::NOT)
        } else if opcode == 10 {
            Some(Instructions::LDI)
        } else if opcode == 11 {
            Some(Instructions::STI)
        } else if opcode == 12 {
            Some(Instructions::JMP)
        } else if opcode == 13 {
            Some(Instructions::RES)
        } else if opcode == 14 {
            Some(Instructions::LEA)
        } else if opcode == 15 {
            Some(Instructions::TRAP)
        } else {
            None
        }
    }

    /// The opcode whose number is `opcode`; `None` from 16 on.
    pub fn get(opcode: u16) -> (r: Option<Instructions>)
        ensures
            r == Instructions::decode(opcode as int),
            r is Some <==> opcode < 16,
            r matches Some(i) ==> i.code() == opcode,
    {
        match opcode {
            0 => Some(Instructions::BR),
            1 => Some(Instructions::ADD),
            2 => Some(Instructions::LD),
            3 => Some(Instructions::ST),
            4 => Some(Instructions::JSR),
            5 => Some(Instructions::AND),
            6 => Some(Instructions::LDR),
            7 => Some(Instructions::STR),
            8 => Some(Instructions::RTI),
            9 => Some(Instructions::NOT),
            10 => Some(Instructions::LDI),
            11 => Some(Instructions::STI),
            12 => Some(Instructions::JMP),
            13 => Some(Instructions::RES),
            14 => Some(Instructions::LEA),
            15 => Some(Instructions::TRAP),
            _ => None,
        }
    }
}

} // verus!
