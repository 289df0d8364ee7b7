//! The service calls' handshake with the devices, as a state machine.
//!
//! A service call that needs a device which is not ready leaves the processor
//! waiting in a [`TrapState`]; each inbound event is a chance to go on.
use vstd::prelude::*;
use crate::device::{DeviceRegister, Event, DDR, DSR, KBDR, KBSR, MCR, READY};
use crate::registers::Registers;
use crate::system_calls::SystemCall;

verus! {

/// What a string-writing call does once a character is out.
#[derive(Clone, Copy, Debug, PartialEq, Eq, Structural)]
pub enum AfterChar {
    /// The call is over.
    Finish,
    /// PUTS: go on with the cell at `next`.
    Puts { next: u16 },
    /// PUTSP: write `high`, the upper half of the current cell, then go on with
    /// the cell at `next`.
    PutspHigh { high: u16, next: u16 },
    /// PUTSP: go on with the cell at `next`.
    Putsp { next: u16 },
}

/// The service call in progress, if any.
#[derive(Clone, Copy, Debug, PartialEq, Eq, Structural)]
pub enum TrapState {
    /// None: the next tick fetches an instruction.
    Idle,
    /// GETC or IN: waiting for the keyboard's ready bit; `echo` for IN.
    AwaitKey { echo: bool },
    /// Waiting for the display's ready bit to write `ch`, then `then`.
    AwaitDisplay { ch: u16, then: AfterChar },
}

/// Whether the status register at `address` has its ready bit (bit 15) set.
pub open spec fn ready(mem: Seq<u16>, address: u16) -> bool {
    mem[address as int] >= READY
}

/// The state after a character is out, given the memory at that moment.
pub open spec fn after_char(then: AfterChar, mem: Seq<u16>) -> TrapState {
    match then {
        AfterChar::Finish => TrapState::Idle,
        AfterChar::Puts { next } => {
            let c = mem[next as int];
            if c == 0 {
                TrapState::Idle
            } else {
                TrapState::AwaitDisplay {
                    ch: c & 0xFF,
                    then: AfterChar::Puts { next: next.wrapping_add(1) },
                }
            }
        },
        AfterChar::Putsp { next } => {
            let c = mem[next as int];
            if c == 0 {
                TrapState::Idle
            } else {
                TrapState::AwaitDisplay {
                    ch: c & 0xFF,
                    then: if c >> 8 != 0 {
                        AfterChar::PutspHigh { high: c >> 8, next: next.wrapping_add(1) }
                    } else {
                        AfterChar::Putsp { next: next.wrapping_add(1) }
                    },
                }
            }
        },
        AfterChar::PutspHigh { high, next } => TrapState::AwaitDisplay {
            ch: high,
            then: AfterChar::Putsp { next },
        },
    }
}

/// Writing `ch` to the display: if the display is ready, the character goes to
/// the data register, the ready bit is cleared and `(DisplayData, ch)` is sent;
/// otherwise the call keeps waiting. Gives the call's state, the registers, the
/// memory and the events sent.
pub open spec fn put_char_effect(ch: u16, then: AfterChar, regs: Registers, mem: Seq<u16>) -> (
    TrapState,
    Registers,
    Seq<u16>,
    Seq<Event>,
) {
    if !ready(mem, DSR) {
        (TrapState::AwaitDisplay { ch, then }, regs, mem, seq![])
    } else {
        let written = mem.update(DDR as int, ch).update(DSR as int, 0);
        (after_char(then, written), regs, written, seq![(DeviceRegister::DisplayData, ch)])
    }
}

/// One attempt to go on with the call in progress.
pub open spec fn resume_effect(trap: TrapState, regs: Registers, mem: Seq<u16>) -> (
    TrapState,
    Registers,
    Seq<u16>,
    Seq<Event>,
) {
    match trap {
        TrapState::Idle => (TrapState::Idle, regs, mem, seq![]),
        TrapState::AwaitKey { echo } => {
            if !ready(mem, KBSR) {
                (trap, regs, mem, seq![])
            } else {
                let key = mem[KBDR as int];
                if echo {
                    put_char_effect(key, AfterChar::Finish, regs.with_reg(0, key), mem)
                } else {
                    (TrapState::Idle, regs.with_reg(0, key), mem, seq![])
                }
            }
        },
        TrapState::AwaitDisplay { ch, then } => put_char_effect(ch, then, regs, mem),
    }
}

/// A keyboard read: the request `(KeyboardStatus, 0)` goes out, then the call
/// waits for the key.
pub open spec fn read_key_effect(echo: bool, regs: Registers, mem: Seq<u16>) -> (
    TrapState,
    Registers,
    Seq<u16>,
    Seq<Event>,
) {
    let r = resume_effect(TrapState::AwaitKey { echo }, regs, mem);
    (r.0, r.1, r.2, seq![(DeviceRegister::KeyboardStatus, 0u16)] + r.3)
}

/// TRAP with the vector in bits [7:0] of `instr`, up to its first wait.
pub open spec fn trap_effect(regs: Registers, mem: Seq<u16>, instr: u16) -> (
    TrapState,
    Registers,
    Seq<u16>,
    Seq<Event>,
) {
    match SystemCall::decode((instr & 0xFF) as int) {
        Some(SystemCall::GETC) => read_key_effect(false, regs, mem),
        Some(SystemCall::IN) => read_key_effect(true, regs, mem),
        Some(SystemCall::OUT) => resume_effect(
            TrapState::AwaitDisplay { ch: regs.r0 & 0xFF, then: AfterChar::Finish },
            regs,
            mem,
        ),
        Some(SystemCall::PUTS) => resume_effect(
            after_char(AfterChar::Puts { next: regs.r0 }, mem),
            regs,
            mem,
        ),
        Some(SystemCall::PUTSP) => resume_effect(
            after_char(AfterChar::Putsp { next: regs.r0 }, mem),
            regs,
            mem,
        ),
        Some(SystemCall::HALT) => (TrapState::Idle, regs, mem.update(MCR as int, 0), seq![]),
        None => (TrapState::Idle, regs, mem, seq![]),
    }
}

/// A waiting call waits on a device whose ready bit is clear.
pub open spec fn waits_on_busy_device(trap: TrapState, mem: Seq<u16>) -> bool {
    match trap {
        TrapState::Idle => true,
        TrapState::AwaitKey { .. } => !ready(mem, KBSR),
        TrapState::AwaitDisplay { .. } => !ready(mem, DSR),
    }
}

} // verus!
