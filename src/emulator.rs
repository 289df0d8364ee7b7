//! The whole machine: memory and processor, the ROM loader, and the step that
//! an outside driver repeats.
use vstd::prelude::*;
use crate::cpu::{tick_effect, CPU};
use crate::device::{DeviceRegister, Event, DSR, KBDR, KBSR, MCR, READY};
use crate::error::EmulatorError;
use crate::memory::{Memory, MEMORY_SIZE};
use crate::registers::{Flags, Registers};
use crate::service::{waits_on_busy_device, TrapState};

verus! {

/// What the driver does after a step, once it has sent the step's events.
#[derive(Clone, Copy, Debug, PartialEq, Eq, Structural)]
pub enum Next {
    /// A service call waits on a device: block until an inbound event arrives
    /// and step with it.
    Receive,
    /// The instruction is done and the machine runs: poll for an inbound event
    /// (10 ms at most) and step with what came, if anything.
    Poll,
    /// The machine has halted: stop.
    Stop,
}

/// The result of a step: the events to send to the outside world, in order,
/// and what to do next.
pub struct Outcome {
    pub sent: Vec<Event>,
    pub next: Next,
}

/// The big-endian word made of bytes `2k` and `2k + 1` of the ROM.
pub open spec fn rom_word(rom: Seq<u8>, k: int) -> u16 {
    (rom[2 * k] * 256 + rom[2 * k + 1]) as u16
}

/// Memory after the first `n` words that follow the origin have been loaded,
/// word `k` (from 1) at the origin plus `k - 1`, wrapping.
pub open spec fn loaded(rom: Seq<u8>, n: nat) -> Seq<u16>
    decreases n,
{
    if n == 0 {
        Seq::new(MEMORY_SIZE as nat, |i: int| 0u16)
    } else {
        loaded(rom, (n - 1) as nat).update(
            (rom_word(rom, 0) + n - 1) % 0x10000,
            rom_word(rom, n as int),
        )
    }
}

/// Memory once a ROM of at least two bytes is loaded: every whole word after
/// the origin in place (an odd last byte is ignored), then the machine control
/// and display status registers seeded with their ready bit.
pub open spec fn rom_image(rom: Seq<u8>) -> Seq<u16> {
    loaded(rom, (rom.len() / 2 - 1) as nat).update(MCR as int, READY).update(DSR as int, READY)
}

/// The memory after an inbound event: a display acknowledgement sets the
/// display's ready bit; a key lands in the keyboard data register and sets the
/// keyboard's ready bit; other events change nothing.
pub open spec fn inbound_effect(mem: Seq<u16>, event: Event) -> Seq<u16> {
    match event.0 {
        DeviceRegister::DisplayStatus => mem.update(DSR as int, READY),
        DeviceRegister::KeyboardData => mem.update(KBDR as int, event.1).update(KBSR as int, READY),
        _ => mem,
    }
}

/// One step of the machine from the call in progress, the registers and the
/// memory, given what came from the outside world since the last step: the
/// inbound event is applied, the processor ticks, and the step says what the
/// driver does next. On a halt, `(MachineControl, 0x8000)` is sent last.
pub open spec fn step_effect(
    trap: TrapState,
    regs: Registers,
    mem: Seq<u16>,
    inbound: Option<Event>,
) -> Result<(TrapState, Registers, Seq<u16>, Seq<Event>, Next), EmulatorError> {
    let mem = match inbound {
        Some(event) => inbound_effect(mem, event),
        None => mem,
    };
    match tick_effect(trap, regs, mem) {
        Err(e) => Err(e),
        Ok((t, r, m, sent)) => if !(t is Idle) {
            Ok((t, r, m, sent, Next::Receive))
        } else if m[MCR as int] == 0 {
            Ok((t, r, m, sent.push((DeviceRegister::MachineControl, READY)), Next::Stop))
        } else {
            Ok((t, r, m, sent, Next::Poll))
        },
    }
}

/// The LC-3 machine.
pub struct Emulator {
    memory: Memory,
    cpu: CPU,
}

impl Emulator {
    /// The memory.
    pub closed spec fn mem(&self) -> Seq<u16> {
        self.memory@
    }

    /// The processor.
    pub closed spec fn processor(&self) -> CPU {
        self.cpu
    }

    /// Every address has a cell.
    pub open spec fn wf(&self) -> bool {
        self.mem().len() == MEMORY_SIZE
    }

    /// Load a ROM image: a big-endian origin word, then the words to place from
    /// the origin on. The PC starts at the origin. Fails when the image is
    /// shorter than two bytes.
    pub fn new(binary_data: Vec<u8>) -> (r: Result<Emulator, EmulatorError>)
        ensures
            r is Err <==> binary_data@.len() < 2,
            r matches Err(e) ==> e == EmulatorError::RomParseError,
            r matches Ok(emulator) ==> {
                &&& emulator.wf()
                &&& emulator.mem() == rom_image(binary_data@)
                &&& emulator.processor().regs() == (Registers {
                    r0: 0,
                    r1: 0,
                    r2: 0,
                    r3: 0,
                    r4: 0,
                    r5: 0,
                    r6: 0,
                    r7: 0,
                    pc: rom_word(binary_data@, 0),
                    flags: Flags { negative: false, zero: false, positive: false },
                })
                &&& emulator.processor().pending() == TrapState::Idle
            },
    {
        let limit = binary_data.len();
        if limit < 2 {
            return Err(EmulatorError::RomParseError);
        }
        let origin = word(binary_data[0], binary_data[1]);
        let mut memory = Memory::new();
        let mut address = origin;
        let mut i: usize = 2;
        while i + 1 < limit
            invariant
                limit == binary_data@.len(),
                2 <= i <= limit,
                i % 2 == 0,
                origin == rom_word(binary_data@, 0),
                address == (origin + (i / 2 - 1)) % 0x10000,
                memory.wf(),
                memory@ == loaded(binary_data@, (i / 2 - 1) as nat),
            decreases limit - i,
        {
            let data = word(binary_data[i], binary_data[i + 1]);
            memory.write(address, data);
            address = address.wrapping_add(1);
            i = i + 2;
        }
        memory.write(MCR, READY);
        memory.write(DSR, READY);
        Ok(Emulator { memory, cpu: CPU::new(origin) })
    }

    /// Apply an inbound event, if there is one, to the device registers.
    pub fn check_events(&mut self, event: Option<Event>)
        requires
            old(self).wf(),
        ensures
            final(self).wf(),
            final(self).processor() == old(self).processor(),
            final(self).mem() == match event {
                Some(e) => inbound_effect(old(self).mem(), e),
                None => old(self).mem(),
            },
    {
        match event {
            Some((DeviceRegister::DisplayStatus, _)) => {
                self.memory.write(DSR, READY);
            },
            Some((DeviceRegister::KeyboardData, value)) => {
                self.memory.write(KBDR, value);
                self.memory.write(KBSR, READY);
            },
            _ => {},
        }
    }

    /// One step of the machine: apply `inbound`, what came from the outside
    /// world since the last step, then let the processor tick. The outcome
    /// lists the events to send and says whether to block for an event, poll,
    /// or stop. When it says to block, the call in progress waits on a device
    /// whose ready bit is clear.
    pub fn step(&mut self, inbound: Option<Event>) -> (r: Result<Outcome, EmulatorError>)
        requires
            old(self).wf(),
        ensures
            final(self).wf(),
            match r {
                Ok(outcome) => step_effect(
                    old(self).processor().pending(),
                    old(self).processor().regs(),
                    old(self).mem(),
                    inbound,
                ) == Ok::<(TrapState, Registers, Seq<u16>, Seq<Event>, Next), EmulatorError>(
                    (
                        final(self).processor().pending(),
                        final(self).processor().regs(),
                        final(self).mem(),
                        outcome.sent@,
                        outcome.next,
                    ),
                ),
                Err(e) => step_effect(
                    old(self).processor().pending(),
                    old(self).processor().regs(),
                    old(self).mem(),
                    inbound,
                ) == Err::<(TrapState, Registers, Seq<u16>, Seq<Event>, Next), EmulatorError>(e),
            },
            r matches Ok(outcome) && outcome.next == Next::Receive ==> waits_on_busy_device(
                final(self).processor().pending(),
                final(self).mem(),
            ),
    {
        self.check_events(inbound);
        let mut sent = match self.cpu.next_tick(&mut self.memory) {
            Ok(sent) => sent,
            Err(e) => {
                return Err(e);
            },
        };
        if self.cpu.is_waiting() {
            return Ok(Outcome { sent, next: Next::Receive });
        }
        if self.memory.read(MCR) == 0 {
            sent.push((DeviceRegister::MachineControl, READY));
            return Ok(Outcome { sent, next: Next::Stop });
        }
        Ok(Outcome { sent, next: Next::Poll })
    }

    /// The memory, for inspection.
    pub fn memory(&self) -> (r: &Memory)
        ensures
            r@ == self.mem(),
    {
        &self.memory
    }

    /// The processor, for inspection.
    pub fn cpu(&self) -> (r: &CPU)
        ensures
            *r == self.processor(),
    {
        &self.cpu
    }
}

/// The big-endian word of two bytes.
fn word(high: u8, low: u8) -> (r: u16)
    ensures
        r == high * 256 + low,
{
    let r = ((high as u16) << 8) | (low as u16);
    assert(((high as u16) << 8) | (low as u16) == high * 256 + low) by (bit_vector);
    r
}

} // verus!
