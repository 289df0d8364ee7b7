//! Errors that stop the machine.
use vstd::prelude::*;
use crate::instructions::Instructions;

verus! {

/// Why the machine cannot go on.
#[derive(Clone, Copy, Debug, PartialEq, Eq, Structural)]
pub enum EmulatorError {
    /// The opcode has no handler (RTI or RES).
    UnimplementedInstruction(Instructions),
    /// The ROM image is too short to hold its origin word.
    RomParseError,
}

} // verus!
