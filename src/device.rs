//! Memory-mapped device registers and the events that carry them.
use vstd::prelude::*;

verus! {

/// A device register, each at a fixed address in memory.
#[derive(Clone, Copy, Debug, PartialEq, Eq, Structural)]
pub enum DeviceRegister {
    KeyboardStatus,
    KeyboardData,
    DisplayStatus,
    DisplayData,
    MachineControl,
}

/// Address of the keyboard status register.
pub const KBSR: u16 = 0xFE00;
/// Address of the keyboard data register.
pub const KBDR: u16 = 0xFE02;
/// Address of the display status register.
pub const DSR: u16 = 0xFE04;
/// Address of the display data register.
pub const DDR: u16 = 0xFE06;
/// Address of the machine control register.
pub const MCR: u16 = 0xFFFE;

/// Bit 15: "ready" in a status register, "running" in the machine control
/// register.
pub const READY: u16 = 0x8000;

/// A message between the machine and the outside world: a device register and
/// a word.
pub type Event = (DeviceRegister, u16);

impl DeviceRegister {
    /// Where the register sits in memory.
    pub open spec fn spec_address(self) -> u16 {
        match self {
            DeviceRegister::KeyboardStatus => KBSR,
            DeviceRegister::KeyboardData => KBDR,
            DeviceRegister::DisplayStatus => DSR,
            DeviceRegister::DisplayData => DDR,
            DeviceRegister::MachineControl => MCR,
        }
    }

    /// Where the register sits in memory.
    #[verifier::when_used_as_spec(spec_address)]
    pub fn address(self) -> (r: u16)
        ensures
            r == self.spec_address(),
    {
        match self {
            DeviceRegister::KeyboardStatus => KBSR,
            DeviceRegister::KeyboardData => KBDR,
            DeviceRegister::DisplayStatus => DSR,
            DeviceRegister::DisplayData => DDR,
            DeviceRegister::MachineControl => MCR,
        }
    }
}

} // verus!
