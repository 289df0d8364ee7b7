use lc3emu::cpu::CPU;
use lc3emu::error::EmulatorError;
use lc3emu::instructions::Instructions;
use lc3emu::memory::Memory;
use lc3emu::registers::{Flags, Registers};

const NEG: Flags = Flags { negative: true, zero: false, positive: false };
const ZERO: Flags = Flags { negative: false, zero: true, positive: false };
const POS: Flags = Flags { negative: false, zero: false, positive: true };

/// Places `words` in memory and ticks once from `regs`.
fn tick(regs: Registers, words: &[(u16, u16)]) -> (CPU, Memory) {
    let mut memory = Memory::new();
    for &(address, word) in words {
        memory.write(address, word);
    }
    let mut cpu = CPU::with_registers(regs);
    let sent = cpu.next_tick(&mut memory).expect("instruction runs");
    assert!(sent.is_empty());
    (cpu, memory)
}

fn at(pc: u16) -> Registers {
    Registers { pc, ..Registers::default() }
}

#[test]
fn add_immediate() {
    let (cpu, _) = tick(Registers { r1: 5, ..at(0x3000) }, &[(0x3000, 0x1062)]);
    let regs = cpu.get_registers();
    assert_eq!(regs.pc, 0x3001);
    assert_eq!(regs.r0, 7);
    assert_eq!(regs.flags, POS);
}

#[test]
fn add_wrap() {
    // ADD R0, R1, #1
    let (cpu, _) = tick(Registers { r1: 0xFFFF, ..at(0x3000) }, &[(0x3000, 0x1061)]);
    let regs = cpu.get_registers();
    assert_eq!(regs.r0, 0x0000);
    assert_eq!(regs.flags, ZERO);
}

#[test]
fn add_wrap_register_operand() {
    // x1041 has bit [5] clear: ADD R0, R1, R1.
    let (cpu, _) = tick(Registers { r1: 0xFFFF, ..at(0x3000) }, &[(0x3000, 0x1041)]);
    let regs = cpu.get_registers();
    assert_eq!(regs.r0, 0xFFFE);
    assert_eq!(regs.flags, NEG);
}

#[test]
fn br_taken() {
    let regs = Registers { flags: ZERO, ..at(0x3000) };
    let (cpu, _) = tick(regs, &[(0x3000, 0x0403)]);
    assert_eq!(cpu.get_registers().pc, 0x3004);
}

#[test]
fn br_not_taken() {
    let regs = Registers { flags: POS, ..at(0x3000) };
    let (cpu, _) = tick(regs, &[(0x3000, 0x0403)]);
    assert_eq!(cpu.get_registers().pc, 0x3001);
}

#[test]
fn br_backwards_nine_bit_offset() {
    // BRnzp -256: the offset's sign is bit 8.
    let regs = Registers { flags: NEG, ..at(0x3000) };
    let (cpu, _) = tick(regs, &[(0x3000, 0x0F00)]);
    assert_eq!(cpu.get_registers().pc, 0x3001 - 0x100);
}

#[test]
fn ldi_chain() {
    let (cpu, _) = tick(at(0x3000), &[(0x3000, 0xA001), (0x3002, 0x4000), (0x4000, 0x1234)]);
    let regs = cpu.get_registers();
    assert_eq!(regs.r0, 0x1234);
    assert_eq!(regs.pc, 0x3001);
    assert_eq!(regs.flags, POS);
}

#[test]
fn add_registers() {
    // ADD R2, R3, R4
    let regs = Registers { r3: 0x7000, r4: 0x2000, ..at(0x3000) };
    let (cpu, _) = tick(regs, &[(0x3000, 0x14C4)]);
    assert_eq!(cpu.get_registers().r2, 0x9000);
    assert_eq!(cpu.get_registers().flags, NEG);
}

#[test]
fn add_negative_immediate() {
    // ADD R1, R1, #-1
    let (cpu, _) = tick(Registers { r1: 3, ..at(0x3000) }, &[(0x3000, 0x127F)]);
    assert_eq!(cpu.get_registers().r1, 2);
}

#[test]
fn and_immediate_and_registers() {
    // AND R0, R0, #0
    let (cpu, _) = tick(Registers { r0: 0x1234, ..at(0x3000) }, &[(0x3000, 0x5020)]);
    assert_eq!(cpu.get_registers().r0, 0);
    assert_eq!(cpu.get_registers().flags, ZERO);
    // AND R5, R6, R7
    let regs = Registers { r6: 0xF0F0, r7: 0xFF00, ..at(0x3000) };
    let (cpu, _) = tick(regs, &[(0x3000, 0x5B87)]);
    assert_eq!(cpu.get_registers().r5, 0xF000);
    assert_eq!(cpu.get_registers().flags, NEG);
}

#[test]
fn not_sets_flags() {
    // NOT R1, R2
    let (cpu, _) = tick(Registers { r2: 0x00FF, ..at(0x3000) }, &[(0x3000, 0x92BF)]);
    assert_eq!(cpu.get_registers().r1, 0xFF00);
    assert_eq!(cpu.get_registers().flags, NEG);
}

#[test]
fn ld_pc_relative() {
    // LD R3, #2
    let (cpu, _) = tick(at(0x3000), &[(0x3000, 0x2602), (0x3003, 0x8001)]);
    assert_eq!(cpu.get_registers().r3, 0x8001);
    assert_eq!(cpu.get_registers().flags, NEG);
}

#[test]
fn ld_negative_nine_bit_offset() {
    // LD R0, #-256
    let (cpu, _) = tick(at(0x3000), &[(0x3000, 0x2100), (0x2F01, 42)]);
    assert_eq!(cpu.get_registers().r0, 42);
}

#[test]
fn ldr_base_offset() {
    // LDR R1, R2, #-1
    let regs = Registers { r2: 0x5000, ..at(0x3000) };
    let (cpu, _) = tick(regs, &[(0x3000, 0x62BF), (0x4FFF, 9)]);
    assert_eq!(cpu.get_registers().r1, 9);
    assert_eq!(cpu.get_registers().flags, POS);
}

#[test]
fn lea_address() {
    // LEA R4, #5
    let (cpu, memory) = tick(at(0x3000), &[(0x3000, 0xE805)]);
    assert_eq!(cpu.get_registers().r4, 0x3006);
    assert_eq!(cpu.get_registers().flags, POS);
    assert_eq!(memory.read(0x3006), 0);
}

#[test]
fn st_sti_str() {
    // ST R1, #4
    let (cpu, memory) = tick(Registers { r1: 77, ..at(0x3000) }, &[(0x3000, 0x3204)]);
    assert_eq!(memory.read(0x3005), 77);
    assert_eq!(cpu.get_registers().flags, Flags::default());
    // STI R1, #1
    let (_, memory) = tick(Registers { r1: 78, ..at(0x3000) }, &[(0x3000, 0xB201), (0x3002, 0x4444)]);
    assert_eq!(memory.read(0x4444), 78);
    // STR R1, R2, #3
    let regs = Registers { r1: 79, r2: 0x6000, ..at(0x3000) };
    let (_, memory) = tick(regs, &[(0x3000, 0x7283)]);
    assert_eq!(memory.read(0x6003), 79);
}

#[test]
fn jmp_and_ret() {
    // JMP R3
    let (cpu, _) = tick(Registers { r3: 0x5555, ..at(0x3000) }, &[(0x3000, 0xC0C0)]);
    assert_eq!(cpu.get_registers().pc, 0x5555);
    // RET
    let (cpu, _) = tick(Registers { r7: 0x3210, ..at(0x3000) }, &[(0x3000, 0xC1C0)]);
    assert_eq!(cpu.get_registers().pc, 0x3210);
}

#[test]
fn jsr_and_jsrr() {
    // JSR #-2
    let (cpu, _) = tick(at(0x3000), &[(0x3000, 0x4FFE)]);
    assert_eq!(cpu.get_registers().r7, 0x3001);
    assert_eq!(cpu.get_registers().pc, 0x2FFF);
    // JSRR R2
    let (cpu, _) = tick(Registers { r2: 0x4000, ..at(0x3000) }, &[(0x3000, 0x4080)]);
    assert_eq!(cpu.get_registers().r7, 0x3001);
    assert_eq!(cpu.get_registers().pc, 0x4000);
}

#[test]
fn pc_wraps_at_top_of_memory() {
    // AND R0, R0, #0 at 0xFFFF
    let (cpu, _) = tick(at(0xFFFF), &[(0xFFFF, 0x5020)]);
    assert_eq!(cpu.get_registers().pc, 0x0000);
}

#[test]
fn rti_and_res_are_unimplemented() {
    let mut memory = Memory::new();
    let mut cpu = CPU::new(0x3000);
    assert_eq!(
        cpu.next_opcode(0x8000, &mut memory).unwrap_err(),
        EmulatorError::UnimplementedInstruction(Instructions::RTI)
    );
    assert_eq!(
        cpu.next_opcode(0xD000, &mut memory).unwrap_err(),
        EmulatorError::UnimplementedInstruction(Instructions::RES)
    );
}

#[test]
fn add_immediate_twice_same_result() {
    for w in [0x1062u16, 0x1041, 0x1E3F, 0x1A70] {
        let start = Registers { r0: 3, r1: 0xFFFF, r2: 0x8000, r7: 12, flags: NEG, ..at(0x3000) };
        let (a, ma) = tick(start, &[(0x3000, w)]);
        let (b, mb) = tick(start, &[(0x3000, w)]);
        assert_eq!(a.get_registers(), b.get_registers());
        for address in [0u16, 0x3000, 0x3001, 0xFFFF] {
            assert_eq!(ma.read(address), mb.read(address));
        }
    }
}

#[test]
fn new_cpu_starts_at_pc() {
    let cpu = CPU::new(0x3000);
    let regs = cpu.get_registers();
    assert_eq!(regs.pc, 0x3000);
    assert_eq!(regs.r0, 0);
    assert_eq!(regs.flags, Flags::default());
    assert!(!cpu.is_waiting());
}
