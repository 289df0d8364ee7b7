//! The meaning of each instruction word: bit fields, sign extension, and the
//! effect of every opcode but TRAP on the registers and memory.
use vstd::prelude::*;
use vstd::arithmetic::power2::{pow2, lemma2_to64};
use crate::registers::{Flags, Registers};

verus! {

/// Sign extension from `num_bits` bits to 16: when bit `num_bits - 1` of
/// `value` is set, bits `num_bits` to 15 are filled with ones.
pub open spec fn sign_extend_spec(value: u16, num_bits: u16) -> u16
    recommends
        1 <= num_bits <= 15,
{
    if (value >> ((num_bits - 1) as u16)) & 1 != 0 {
        value | (0xFFFFu16 << num_bits)
    } else {
        value
    }
}

/// Sign-extend the low `num_bits` bits of `value` to a 16-bit word.
pub fn sign_extend(value: u16, num_bits: u16) -> (r: u16)
    requires
        1 <= num_bits <= 15,
    ensures
        r == sign_extend_spec(value, num_bits),
{
    if (value >> (num_bits - 1)) & 1 != 0 {
        value | (0xFFFFu16 << num_bits)
    } else {
        value
    }
}

/// For the field widths that instructions use, sign extension of an `n`-bit
/// field `x` is the 16-bit two's-complement word of the signed value of `x`.
pub proof fn lemma_sign_extend_two_complement(x: u16, n: u16)
    requires
        n == 5 || n == 6 || n == 9 || n == 11,
        x < pow2(n as nat),
    ensures
        sign_extend_spec(x, n) as int == if x < pow2((n - 1) as nat) {
            x as int
        } else {
            x - pow2(n as nat) + 0x10000
        },
{
    lemma2_to64();
    if n == 5 {
        assert(x < 32 ==> sign_extend_spec(x, 5) as int == if x < 16 {
            x as int
        } else {
            x - 32 + 0x10000
        }) by (bit_vector);
    } else if n == 6 {
        assert(x < 64 ==> sign_extend_spec(x, 6) as int == if x < 32 {
            x as int
        } else {
            x - 64 + 0x10000
        }) by (bit_vector);
    } else if n == 9 {
        assert(x < 512 ==> sign_extend_spec(x, 9) as int == if x < 256 {
            x as int
        } else {
            x - 512 + 0x10000
        }) by (bit_vector);
    } else {
        assert(x < 2048 ==> sign_extend_spec(x, 11) as int == if x < 1024 {
            x as int
        } else {
            x - 2048 + 0x10000
        }) by (bit_vector);
    }
}

/// The opcode number, bits [15:12].
pub open spec fn opcode(instr: u16) -> u16 {
    instr >> 12
}

/// The three-bit register field whose lowest bit is bit `shift`.
pub open spec fn reg_field(instr: u16, shift: u16) -> u16 {
    (instr >> shift) & 7
}

/// Destination (or, for stores, source) register, bits [11:9].
pub open spec fn dr(instr: u16) -> int {
    reg_field(instr, 9) as int
}

/// First source or base register, bits [8:6].
pub open spec fn sr1(instr: u16) -> int {
    reg_field(instr, 6) as int
}

/// Second source register, bits [2:0].
pub open spec fn sr2(instr: u16) -> int {
    reg_field(instr, 0) as int
}

/// Bit `n` of the instruction.
pub open spec fn bit(instr: u16, n: u16) -> bool {
    (instr >> n) & 1 == 1
}

/// The second operand of ADD and AND: sign-extended imm5 when bit [5] is set,
/// else the register named by bits [2:0].
pub open spec fn operand2(regs: Registers, instr: u16) -> u16 {
    if bit(instr, 5) {
        sign_extend_spec(instr & 0x1F, 5)
    } else {
        regs.gprs()[sr2(instr)]
    }
}

/// The PC-relative address: the incremented PC plus sign-extended bits [8:0].
pub open spec fn pc_relative(regs: Registers, instr: u16) -> u16 {
    regs.pc.wrapping_add(sign_extend_spec(instr & 0x1FF, 9))
}

/// The base-plus-offset address: the base register plus sign-extended bits [5:0].
pub open spec fn base_relative(regs: Registers, instr: u16) -> u16 {
    regs.gprs()[sr1(instr)].wrapping_add(sign_extend_spec(instr & 0x3F, 6))
}

/// Whether BR branches: a condition named in bits [11:9] holds.
pub open spec fn branch_taken(flags: Flags, instr: u16) -> bool {
    (bit(instr, 11) && flags.negative) || (bit(instr, 10) && flags.zero) || (bit(instr, 9)
        && flags.positive)
}

/// What an instruction with an opcode other than TRAP, RTI and RES does to the
/// registers and memory. `regs.pc` is the incremented PC.
pub open spec fn execute(regs: Registers, mem: Seq<u16>, instr: u16) -> (Registers, Seq<u16>) {
    let op = opcode(instr);
    if op == 0 {
        // BR
        if branch_taken(regs.flags, instr) {
            (regs.with_pc(pc_relative(regs, instr)), mem)
        } else {
            (regs, mem)
        }
    } else if op == 1 {
        // ADD
        (regs.with_result(dr(instr), regs.gprs()[sr1(instr)].wrapping_add(operand2(regs, instr))), mem)
    } else if op == 2 {
        // LD
        (regs.with_result(dr(instr), mem[pc_relative(regs, instr) as int]), mem)
    } else if op == 3 {
        // ST
        (regs, mem.update(pc_relative(regs, instr) as int, regs.gprs()[dr(instr)]))
    } else if op == 4 {
        // JSR and JSRR: R7 takes the incremented PC first.
        let linked = regs.with_reg(7, regs.pc);
        if bit(instr, 11) {
            (linked.with_pc(regs.pc.wrapping_add(sign_extend_spec(instr & 0x7FF, 11))), mem)
        } else {
            (linked.with_pc(linked.gprs()[sr1(instr)]), mem)
        }
    } else if op == 5 {
        // AND
        (regs.with_result(dr(instr), regs.gprs()[sr1(instr)] & operand2(regs, instr)), mem)
    } else if op == 6 {
        // LDR
        (regs.with_result(dr(instr), mem[base_relative(regs, instr) as int]), mem)
    } else if op == 7 {
        // STR
        (regs, mem.update(base_relative(regs, instr) as int, regs.gprs()[dr(instr)]))
    } else if op == 9 {
        // NOT
        (regs.with_result(dr(instr), !regs.gprs()[sr1(instr)]), mem)
    } else if op == 10 {
        // LDI
        (regs.with_result(dr(instr), mem[mem[pc_relative(regs, instr) as int] as int]), mem)
    } else if op == 11 {
        // STI
        (regs, mem.update(mem[pc_relative(regs, instr) as int] as int, regs.gprs()[dr(instr)]))
    } else if op == 12 {
        // JMP, and RET when the base register is R7
        (regs.with_pc(regs.gprs()[sr1(instr)]), mem)
    } else if op == 14 {
        // LEA
        (regs.with_result(dr(instr), pc_relative(regs, instr)), mem)
    } else {
        // RTI, RES and TRAP are not described here.
        (regs, mem)
    }
}

} // verus!
