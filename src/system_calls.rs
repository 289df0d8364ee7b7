//! The six service calls reached through TRAP, and their decoder.
use vstd::prelude::*;

verus! {

/// A service call, as named by the trap vector in bits [7:0] of a TRAP word.
#[derive(Clone, Copy, Debug, PartialEq, Eq, Structural)]
pub enum SystemCall {
    /// Read a character from the keyboard, without echo.
    GETC,
    /// Write the character in R0 to the display.
    OUT,
    /// Write a string of one character per word.
    PUTS,
    /// Read a character from the keyboard and echo it.
    IN,
    /// Write a string of two characters per word.
    PUTSP,
    /// Stop the machine.
    HALT,
}

impl SystemCall {
    /// The trap vector of the call.
    pub open spec fn vector(self) -> int {
        match self {
            SystemCall::GETC => 0x20,
            SystemCall::OUT => 0x21,
            SystemCall::PUTS => 0x22,
            SystemCall::IN => 0x23,
            SystemCall::PUTSP => 0x24,
            SystemCall::HALT => 0x25,
        }
    }

    /// The call with trap vector `vector`, if there is one.
    pub open spec fn decode(vector: int) -> Option<SystemCall> {
        if vector == 0x20 {
            Some(SystemCall::GETC)
        } else if vector == 0x21 {
            Some(SystemCall::OUT)
        } else if vector == 0x22 {
            Some(SystemCall::PUTS)
        } else if vector == 0x23 {
            Some(SystemCall::IN)
        } else if vector == 0x24 {
            Some(SystemCall::PUTSP)
        } else if vector == 0x25 {
            Some(SystemCall::HALT)
        } else {
            None
        }
    }

    /// The service call named by the low eight bits of a TRAP instruction.
    pub fn get(instruction: u16) -> (r: Option<SystemCall>)
        ensures
            r == SystemCall::decode((instruction & 0xFF) as int),
            r is Some <==> 0x20 <= (instruction & 0xFF) <= 0x25,
            r matches Some(c) ==> c.vector() == (instruction & 0xFF),
    {
        let code = instruction & 0xFF;
        match code {
            0x20 => Some(SystemCall::GETC),
            0x21 => Some(SystemCall::OUT),
            0x22 => Some(SystemCall::PUTS),
            0x23 => Some(SystemCall::IN),
            0x24 => Some(SystemCall::PUTSP),
            0x25 => Some(SystemCall::HALT),
            _ => None,
        }
    }
}

} // verus!
