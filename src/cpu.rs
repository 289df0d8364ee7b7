//! The control unit and ALU: fetch, decode and execute.
use vstd::prelude::*;
use crate::device::{DeviceRegister, Event, DDR, DSR, KBDR, KBSR, MCR};
use crate::error::EmulatorError;
use crate::instructions::Instructions;
use crate::isa::{
    base_relative, bit, branch_taken, dr, execute, opcode, operand2, pc_relative, reg_field,
    sign_extend, sign_extend_spec, sr1,
};
use crate::memory::Memory;
use crate::registers::{Flags, Registers};
use crate::service::{
    after_char, put_char_effect, read_key_effect, ready, resume_effect, trap_effect,
    waits_on_busy_device, AfterChar, TrapState,
};
use crate::system_calls::SystemCall;

verus! {

/// The LC-3 processor.
pub struct CPU {
    /// Registers and condition flags.
    registers: Registers,
    /// The service call in progress.
    trap: TrapState,
}

/// What an instruction does, from the registers after the fetch (the PC already
/// incremented) and the memory: the service call left waiting, the registers,
/// the memory and the events sent; or the error that stops the machine.
pub open spec fn instruction_effect(regs: Registers, mem: Seq<u16>, instr: u16) -> Result<
    (TrapState, Registers, Seq<u16>, Seq<Event>),
    EmulatorError,
> {
    match Instructions::decode(opcode(instr) as int) {
        Some(Instructions::RTI) => Err(EmulatorError::UnimplementedInstruction(Instructions::RTI)),
        Some(Instructions::RES) => Err(EmulatorError::UnimplementedInstruction(Instructions::RES)),
        Some(Instructions::TRAP) => Ok(trap_effect(regs, mem, instr)),
        _ => {
            let (r, m) = execute(regs, mem, instr);
            Ok((TrapState::Idle, r, m, seq![]))
        },
    }
}

/// One step of the processor: with a service call waiting, one attempt to go
/// on with it; otherwise the fetch of the word at PC, the increment of PC
/// (wrapping), and the word's execution.
pub open spec fn tick_effect(trap: TrapState, regs: Registers, mem: Seq<u16>) -> Result<
    (TrapState, Registers, Seq<u16>, Seq<Event>),
    EmulatorError,
> {
    if trap is Idle {
        instruction_effect(regs.with_pc(regs.pc.wrapping_add(1)), mem, mem[regs.pc as int])
    } else {
        Ok(resume_effect(trap, regs, mem))
    }
}

/// Whether the status register at `address` has its ready bit set.
fn is_ready(memory: &Memory, address: u16) -> (r: bool)
    requires
        memory.wf(),
    ensures
        r == ready(memory@, address),
{
    let status = memory.read(address);
    assert((status >> 15u16 == 1) == (status >= 0x8000)) by (bit_vector);
    status >> 15 == 1
}

/// The state after a character is out.
fn next_state(then: AfterChar, memory: &Memory) -> (r: TrapState)
    requires
        memory.wf(),
    ensures
        r == after_char(then, memory@),
{
    match then {
        AfterChar::Finish => TrapState::Idle,
        AfterChar::Puts { next } => {
            let c = memory.read(next);
            if c == 0 {
                TrapState::Idle
            } else {
                TrapState::AwaitDisplay {
                    ch: c & 0xFF,
                    then: AfterChar::Puts { next: next.wrapping_add(1) },
                }
            }
        },
        AfterChar::Putsp { next } => {
            let c = memory.read(next);
            if c == 0 {
                TrapState::Idle
            } else {
                let high = c >> 8;
                let then = if high != 0 {
                    AfterChar::PutspHigh { high, next: next.wrapping_add(1) }
                } else {
                    AfterChar::Putsp { next: next.wrapping_add(1) }
                };
                TrapState::AwaitDisplay { ch: c & 0xFF, then }
            }
        },
        AfterChar::PutspHigh { high, next } => TrapState::AwaitDisplay {
            ch: high,
            then: AfterChar::Putsp { next },
        },
    }
}

/// The three-bit register index whose lowest bit is bit `shift`.
fn reg_index(instruction: u16, shift: u16) -> (r: u16)
    requires
        shift <= 9,
    ensures
        r == reg_field(instruction, shift),
        r < 8,
{
    let r = (instruction >> shift) & 0x7;
    assert(r == (instruction >> shift) & 0x7 ==> r < 8) by (bit_vector);
    r
}

impl CPU {
    /// The register file.
    pub closed spec fn regs(&self) -> Registers {
        self.registers
    }

    /// The service call in progress.
    pub closed spec fn pending(&self) -> TrapState {
        self.trap
    }

    /// Whether a service call is waiting for an inbound event.
    pub fn is_waiting(&self) -> (r: bool)
        ensures
            r == !(self.pending() is Idle),
    {
        !matches!(self.trap, TrapState::Idle)
    }

    /// A processor about to fetch from `initial_pc`, with every other register
    /// zero and every flag clear.
    pub fn new(initial_pc: u16) -> (r: CPU)
        ensures
            r.regs() == (Registers {
                r0: 0,
                r1: 0,
                r2: 0,
                r3: 0,
                r4: 0,
                r5: 0,
                r6: 0,
                r7: 0,
                pc: initial_pc,
                flags: Flags { negative: false, zero: false, positive: false },
            }),
            r.pending() == TrapState::Idle,
    {
        let mut registers = Registers::default();
        registers.pc = initial_pc;
        CPU { registers, trap: TrapState::Idle }
    }

    /// A processor with the given register file.
    pub fn with_registers(registers: Registers) -> (r: CPU)
        ensures
            r.regs() == registers,
            r.pending() == TrapState::Idle,
    {
        CPU { registers, trap: TrapState::Idle }
    }

    /// The register file, for inspection.
    pub fn get_registers(&self) -> (r: &Registers)
        ensures
            *r == self.regs(),
    {
        &self.registers
    }

    /// Write `value` to register `dest` and set the flags from it.
    fn set_result(&mut self, dest: u16, value: u16)
        requires
            dest < 8,
        ensures
            final(self).registers == old(self).registers.with_result(dest as int, value),
    {
        self.registers.set(dest, value);
        self.registers.flags.update(value);
    }

    /// ADD: DR = SR1 + (SR2 or sext(imm5)), wrapping; sets the flags.
    fn opcode_add(&mut self, instruction: u16)
        ensures
            final(self).registers == old(self).registers.with_result(
                dr(instruction),
                old(self).registers.gprs()[sr1(instruction)].wrapping_add(
                    operand2(old(self).registers, instruction),
                ),
            ),
    {
        let dest = reg_index(instruction, 9);
        let src1 = reg_index(instruction, 6);
        let is_imm = (instruction >> 5) & 0x1 == 1;

        let new_value = if is_imm {
            let src2 = sign_extend(instruction & 0x1F, 5);
            self.registers.get(src1).wrapping_add(src2)
        } else {
            let src2 = reg_index(instruction, 0);
            self.registers.get(src1).wrapping_add(self.registers.get(src2))
        };
        self.set_result(dest, new_value);
    }

    /// AND: DR = SR1 & (SR2 or sext(imm5)); sets the flags.
    fn opcode_and(&mut self, instruction: u16)
        ensures
            final(self).registers == old(self).registers.with_result(
                dr(instruction),
                old(self).registers.gprs()[sr1(instruction)] & operand2(
                    old(self).registers,
                    instruction,
                ),
            ),
    {
        let dest = reg_index(instruction, 9);
        let src1 = reg_index(instruction, 6);
        let is_imm = (instruction >> 5) & 0x1 == 1;

        let new_value = if is_imm {
            let src2 = sign_extend(instruction & 0x1F, 5);
            self.registers.get(src1) & src2
        } else {
            let src2 = reg_index(instruction, 0);
            self.registers.get(src1) & self.registers.get(src2)
        };
        self.set_result(dest, new_value);
    }

    /// NOT: DR = !SR; sets the flags.
    fn opcode_not(&mut self, instruction: u16)
        ensures
            final(self).registers == old(self).registers.with_result(
                dr(instruction),
                !old(self).registers.gprs()[sr1(instruction)],
            ),
    {
        let dest = reg_index(instruction, 9);
        let src = reg_index(instruction, 6);
        let negated = !self.registers.get(src);
        self.set_result(dest, negated);
    }

    /// BR: when a condition named in bits [11:9] holds, PC = PC + sext(off9).
    fn opcode_br(&mut self, instruction: u16)
        ensures
            final(self).registers == if branch_taken(old(self).registers.flags, instruction) {
                old(self).registers.with_pc(pc_relative(old(self).registers, instruction))
            } else {
                old(self).registers
            },
    {
        let offset = sign_extend(instruction & 0x1FF, 9);
        let flag_n = (instruction >> 11) & 0x1 == 1;
        let flag_z = (instruction >> 10) & 0x1 == 1;
        let flag_p = (instruction >> 9) & 0x1 == 1;

        let flags = self.registers.flags;
        if (flag_n && flags.negative) || (flag_z && flags.zero) || (flag_p && flags.positive) {
            self.registers.pc = self.registers.pc.wrapping_add(offset);
        }
    }

    /// JMP: PC = BaseR. RET is JMP with R7 as the base register.
    fn opcode_jmp_ret(&mut self, instruction: u16)
        ensures
            final(self).registers == old(self).registers.with_pc(
                old(self).registers.gprs()[sr1(instruction)],
            ),
    {
        let base = reg_index(instruction, 6);
        self.registers.pc = self.registers.get(base);
    }

    /// JSR and JSRR: R7 = PC, then PC = PC + sext(off11) when bit [11] is set,
    /// else PC = BaseR.
    fn opcode_jsr(&mut self, instruction: u16)
        ensures
            ({
                let linked = old(self).registers.with_reg(7, old(self).registers.pc);
                final(self).registers == if bit(instruction, 11) {
                    linked.with_pc(
                        old(self).registers.pc.wrapping_add(
                            sign_extend_spec(instruction & 0x7FF, 11),
                        ),
                    )
                } else {
                    linked.with_pc(linked.gprs()[sr1(instruction)])
                }
            }),
    {
        let is_pc_relative = (instruction >> 11) & 0x1 == 1;
        self.registers.r7 = self.registers.pc;

        if is_pc_relative {
            let offset = sign_extend(instruction & 0x7FF, 11);
            self.registers.pc = self.registers.pc.wrapping_add(offset);
        } else {
            let base = reg_index(instruction, 6);
            self.registers.pc = self.registers.get(base);
        }
    }

    /// The PC-relative address of LD, LDI, ST, STI and LEA.
    fn pc_relative_address(&self, instruction: u16) -> (r: u16)
        ensures
            r == pc_relative(self.registers, instruction),
    {
        self.registers.pc.wrapping_add(sign_extend(instruction & 0x1FF, 9))
    }

    /// The base-plus-offset address of LDR and STR.
    fn base_relative_address(&self, instruction: u16) -> (r: u16)
        ensures
            r == base_relative(self.registers, instruction),
    {
        let base = reg_index(instruction, 6);
        self.registers.get(base).wrapping_add(sign_extend(instruction & 0x3F, 6))
    }

    /// LD: DR = mem[PC + sext(off9)]; sets the flags.
    fn opcode_ld(&mut self, instruction: u16, memory: &Memory)
        requires
            memory.wf(),
        ensures
            final(self).registers == old(self).registers.with_result(
                dr(instruction),
                memory@[pc_relative(old(self).registers, instruction) as int],
            ),
    {
        let dest = reg_index(instruction, 9);
        let value = memory.read(self.pc_relative_address(instruction));
        self.set_result(dest, value);
    }

    /// LDI: DR = mem[mem[PC + sext(off9)]]; sets the flags.
    fn opcode_ldi(&mut self, instruction: u16, memory: &Memory)
        requires
            memory.wf(),
        ensures
            final(self).registers == old(self).registers.with_result(
                dr(instruction),
                memory@[memory@[pc_relative(old(self).registers, instruction) as int] as int],
            ),
    {
        let dest = reg_index(instruction, 9);
        let pointer = memory.read(self.pc_relative_address(instruction));
        let value = memory.read(pointer);
        self.set_result(dest, value);
    }

    /// LDR: DR = mem[BaseR + sext(off6)]; sets the flags.
    fn opcode_ldr(&mut self, instruction: u16, memory: &Memory)
        requires
            memory.wf(),
        ensures
            final(self).registers == old(self).registers.with_result(
                dr(instruction),
                memory@[base_relative(old(self).registers, instruction) as int],
            ),
    {
        let dest = reg_index(instruction, 9);
        let value = memory.read(self.base_relative_address(instruction));
        self.set_result(dest, value);
    }

    /// LEA: DR = PC + sext(off9); sets the flags.
    fn opcode_lea(&mut self, instruction: u16)
        ensures
            final(self).registers == old(self).registers.with_result(
                dr(instruction),
                pc_relative(old(self).registers, instruction),
            ),
    {
        let dest = reg_index(instruction, 9);
        let value = self.pc_relative_address(instruction);
        self.set_result(dest, value);
    }

    /// ST: mem[PC + sext(off9)] = SR.
    fn opcode_st(&self, instruction: u16, memory: &mut Memory)
        requires
            old(memory).wf(),
        ensures
            final(memory).wf(),
            final(memory)@ == old(memory)@.update(
                pc_relative(self.registers, instruction) as int,
                self.registers.gprs()[dr(instruction)],
            ),
    {
        let src = reg_index(instruction, 9);
        memory.write(self.pc_relative_address(instruction), self.registers.get(src));
    }

    /// STI: mem[mem[PC + sext(off9)]] = SR.
    fn opcode_sti(&self, instruction: u16, memory: &mut Memory)
        requires
            old(memory).wf(),
        ensures
            final(memory).wf(),
            final(memory)@ == old(memory)@.update(
                old(memory)@[pc_relative(self.registers, instruction) as int] as int,
                self.registers.gprs()[dr(instruction)],
            ),
    {
        let src = reg_index(instruction, 9);
        let address = memory.read(self.pc_relative_address(instruction));
        memory.write(address, self.registers.get(src));
    }

    /// STR: mem[BaseR + sext(off6)] = SR.
    fn opcode_str(&self, instruction: u16, memory: &mut Memory)
        requires
            old(memory).wf(),
        ensures
            final(memory).wf(),
            final(memory)@ == old(memory)@.update(
                base_relative(self.registers, instruction) as int,
                self.registers.gprs()[dr(instruction)],
            ),
    {
        let src = reg_index(instruction, 9);
        memory.write(self.base_relative_address(instruction), self.registers.get(src));
    }

    /// Write `ch` to the display once it is ready, then go on with `then`.
    fn put_char(&mut self, ch: u16, then: AfterChar, memory: &mut Memory) -> (r: Vec<Event>)
        requires
            old(memory).wf(),
        ensures
            final(memory).wf(),
            (final(self).trap, final(self).registers, final(memory)@, r@) == put_char_effect(
                ch,
                then,
                old(self).registers,
                old(memory)@,
            ),
    {
        let mut sent: Vec<Event> = Vec::new();
        if !is_ready(memory, DSR) {
            self.trap = TrapState::AwaitDisplay { ch, then };
            return sent;
        }
        memory.write(DDR, ch);
        memory.write(DSR, 0);
        self.trap = next_state(then, memory);
        sent.push((DeviceRegister::DisplayData, ch));
        sent
    }

    /// Go on with the service call in progress, as far as the devices allow.
    fn resume(&mut self, memory: &mut Memory) -> (r: Vec<Event>)
        requires
            old(memory).wf(),
        ensures
            final(memory).wf(),
            (final(self).trap, final(self).registers, final(memory)@, r@) == resume_effect(
                old(self).trap,
                old(self).registers,
                old(memory)@,
            ),
    {
        match self.trap {
            TrapState::Idle => Vec::new(),
            TrapState::AwaitKey { echo } => {
                if !is_ready(memory, KBSR) {
                    return Vec::new();
                }
                let key = memory.read(KBDR);
                self.registers.r0 = key;
                if echo {
                    self.put_char(key, AfterChar::Finish, memory)
                } else {
                    self.trap = TrapState::Idle;
                    Vec::new()
                }
            },
            TrapState::AwaitDisplay { ch, then } => self.put_char(ch, then, memory),
        }
    }

    /// GETC and IN: ask the keyboard for a key, then wait for it.
    fn read_key(&mut self, echo: bool, memory: &mut Memory) -> (r: Vec<Event>)
        requires
            old(memory).wf(),
        ensures
            final(memory).wf(),
            (final(self).trap, final(self).registers, final(memory)@, r@)
                == read_key_effect(echo, old(self).registers, old(memory)@),
    {
        let mut sent: Vec<Event> = Vec::new();
        sent.push((DeviceRegister::KeyboardStatus, 0));
        self.trap = TrapState::AwaitKey { echo };
        let mut rest = self.resume(memory);
        sent.append(&mut rest);
        sent
    }

    /// TRAP: start the service call named by bits [7:0]. Unknown vectors are
    /// ignored.
    fn opcode_trap(&mut self, instruction: u16, memory: &mut Memory) -> (r: Vec<Event>)
        requires
            old(memory).wf(),
        ensures
            final(memory).wf(),
            (final(self).trap, final(self).registers, final(memory)@, r@) == trap_effect(
                old(self).registers,
                old(memory)@,
                instruction,
            ),
    {
        match SystemCall::get(instruction) {
            Some(SystemCall::GETC) => self.read_key(false, memory),
            Some(SystemCall::IN) => self.read_key(true, memory),
            Some(SystemCall::OUT) => {
                self.trap = TrapState::AwaitDisplay {
                    ch: self.registers.r0 & 0xFF,
                    then: AfterChar::Finish,
                };
                self.resume(memory)
            },
            Some(SystemCall::PUTS) => {
                self.trap = next_state(AfterChar::Puts { next: self.registers.r0 }, memory);
                self.resume(memory)
            },
            Some(SystemCall::PUTSP) => {
                self.trap = next_state(AfterChar::Putsp { next: self.registers.r0 }, memory);
                self.resume(memory)
            },
            Some(SystemCall::HALT) => {
                memory.write(MCR, 0);
                self.trap = TrapState::Idle;
                Vec::new()
            },
            None => {
                self.trap = TrapState::Idle;
                Vec::new()
            },
        }
    }

    /// Execute `instruction`, the PC already pointing past it. Gives the events
    /// to send to the outside world, in order.
    pub fn next_opcode(&mut self, instruction: u16, memory: &mut Memory) -> (r: Result<
        Vec<Event>,
        EmulatorError,
    >)
        requires
            old(memory).wf(),
        ensures
            final(memory).wf(),
            match r {
                Ok(sent) => instruction_effect(old(self).regs(), old(memory)@, instruction) == Ok::<
                    (TrapState, Registers, Seq<u16>, Seq<Event>),
                    EmulatorError,
                >((final(self).pending(), final(self).regs(), final(memory)@, sent@)),
                Err(e) => instruction_effect(old(self).regs(), old(memory)@, instruction) == Err::<
                    (TrapState, Registers, Seq<u16>, Seq<Event>),
                    EmulatorError,
                >(e) && *final(self) == *old(self) && final(memory)@ == old(memory)@,
            },
    {
        let opcode = Instructions::get(instruction >> 12);
        assert((instruction >> 12u16) < 16) by (bit_vector);
        match opcode {
            Some(Instructions::TRAP) => {
                return Ok(self.opcode_trap(instruction, memory));
            },
            Some(Instructions::RTI) => {
                return Err(EmulatorError::UnimplementedInstruction(Instructions::RTI));
            },
            Some(Instructions::RES) => {
                return Err(EmulatorError::UnimplementedInstruction(Instructions::RES));
            },
            Some(Instructions::BR) => self.opcode_br(instruction),
            Some(Instructions::ADD) => self.opcode_add(instruction),
            Some(Instructions::LD) => self.opcode_ld(instruction, memory),
            Some(Instructions::ST) => self.opcode_st(instruction, memory),
            Some(Instructions::JSR) => self.opcode_jsr(instruction),
            Some(Instructions::AND) => self.opcode_and(instruction),
            Some(Instructions::LDR) => self.opcode_ldr(instruction, memory),
            Some(Instructions::STR) => self.opcode_str(instruction, memory),
            Some(Instructions::NOT) => self.opcode_not(instruction),
            Some(Instructions::LDI) => self.opcode_ldi(instruction, memory),
            Some(Instructions::STI) => self.opcode_sti(instruction, memory),
            Some(Instructions::JMP) => self.opcode_jmp_ret(instruction),
            Some(Instructions::LEA) => self.opcode_lea(instruction),
            None => {},
        }
        self.trap = TrapState::Idle;
        Ok(Vec::new())
    }

    /// One step of the processor. With a service call waiting, go on with it as
    /// far as the devices allow; otherwise fetch the word at PC, advance PC by
    /// one (wrapping) and execute the word. Gives the events to send to the
    /// outside world, in order. A call still waiting afterwards waits on a
    /// device that is not ready.
    pub fn next_tick(&mut self, memory: &mut Memory) -> (r: Result<Vec<Event>, EmulatorError>)
        requires
            old(memory).wf(),
        ensures
            final(memory).wf(),
            match r {
                Ok(sent) => tick_effect(old(self).pending(), old(self).regs(), old(memory)@)
                    == Ok::<(TrapState, Registers, Seq<u16>, Seq<Event>), EmulatorError>(
                    (final(self).pending(), final(self).regs(), final(memory)@, sent@),
                ),
                Err(e) => tick_effect(old(self).pending(), old(self).regs(), old(memory)@)
                    == Err::<(TrapState, Registers, Seq<u16>, Seq<Event>), EmulatorError>(e)
                    && final(self).regs() == old(self).regs().with_pc(
                    old(self).regs().pc.wrapping_add(1),
                ) && final(self).pending() == TrapState::Idle && final(memory)@ == old(memory)@,
            },
            r is Ok ==> waits_on_busy_device(final(self).pending(), final(memory)@),
    {
        if self.is_waiting() {
            let sent = self.resume(memory);
            proof {
                lemma_resume_waits_on_busy_device(old(self).trap, old(self).registers, old(memory)@);
            }
            return Ok(sent);
        }
        let instruction = memory.read(self.registers.pc);
        self.registers.pc = self.registers.pc.wrapping_add(1);
        let r = self.next_opcode(instruction, memory);
        proof {
            lemma_instruction_waits_on_busy_device(self.registers, old(memory)@, instruction);
        }
        r
    }
}

/// ADD with an immediate operand depends on nothing but the state it starts
/// from: two runs from equal registers and memory end in equal states, which
/// hold `SR1 + sext(imm5)` (wrapping) in DR with the flags set from it, the
/// memory as it was, no call waiting and nothing sent.
pub proof fn lemma_add_immediate_deterministic(
    regs1: Registers,
    mem1: Seq<u16>,
    regs2: Registers,
    mem2: Seq<u16>,
    w: u16,
)
    requires
        opcode(w) == 1,
        bit(w, 5),
        regs1 == regs2,
        mem1 == mem2,
    ensures
        instruction_effect(regs1, mem1, w) == instruction_effect(regs2, mem2, w),
        instruction_effect(regs1, mem1, w) == Ok::<
            (TrapState, Registers, Seq<u16>, Seq<Event>),
            EmulatorError,
        >(
            (
                TrapState::Idle,
                regs1.with_result(
                    dr(w),
                    regs1.gprs()[sr1(w)].wrapping_add(sign_extend_spec(w & 0x1F, 5)),
                ),
                mem1,
                seq![],
            ),
        ),
{
}

/// A call left waiting by one attempt to go on waits on a busy device.
proof fn lemma_resume_waits_on_busy_device(trap: TrapState, regs: Registers, mem: Seq<u16>)
    requires
        mem.len() == crate::memory::MEMORY_SIZE,
    ensures
        ({
            let r = resume_effect(trap, regs, mem);
            waits_on_busy_device(r.0, r.2)
        }),
{
}

/// A call left waiting by an instruction waits on a busy device.
proof fn lemma_instruction_waits_on_busy_device(regs: Registers, mem: Seq<u16>, instr: u16)
    requires
        mem.len() == crate::memory::MEMORY_SIZE,
    ensures
        instruction_effect(regs, mem, instr) matches Ok(r) ==> waits_on_busy_device(r.0, r.2),
{
    lemma_resume_waits_on_busy_device(TrapState::AwaitKey { echo: false }, regs, mem);
    lemma_resume_waits_on_busy_device(TrapState::AwaitKey { echo: true }, regs, mem);
}

} // verus!
