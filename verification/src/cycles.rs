//! The cost of each instruction in clock cycles.

use vstd::prelude::*;
use crate::isa::{decode, Instr, Reg};

verus! {

/// The cycles that an instruction costs. A conditional call or return
/// costs the same whether it is taken or not. An opcode without an
/// instruction has its cost from `opcode_cycles`.
pub open spec fn instr_cycles(instr: Instr) -> u8 {
    match instr {
        Instr::Nop => 4,
        Instr::Lxi(_) => 10,
        Instr::Dad(_) => 10,
        Instr::Stax(_) => 7,
        Instr::Ldax(_) => 7,
        Instr::Shld => 16,
        Instr::Lhld => 16,
        Instr::Sta => 13,
        Instr::Lda => 13,
        Instr::Inx(_) => 5,
        Instr::Dcx(_) => 5,
        Instr::Inr(r) => if r == Reg::M { 10 } else { 5 },
        Instr::Dcr(r) => if r == Reg::M { 10 } else { 5 },
        Instr::Mvi(r) => if r == Reg::M { 10 } else { 7 },
        Instr::Rlc => 4,
        Instr::Rrc => 4,
        Instr::Ral => 4,
        Instr::Rar => 4,
        Instr::Daa => 4,
        Instr::Cma => 4,
        Instr::Stc => 4,
        Instr::Cmc => 4,
        Instr::Mov(dst, src) => if dst == Reg::M || src == Reg::M { 7 } else { 5 },
        Instr::Alu(_, r) => if r == Reg::M { 7 } else { 4 },
        Instr::AluImm(_) => 7,
        Instr::RetIf(_) => 11,
        Instr::Ret => 10,
        Instr::Pop(_) => 10,
        Instr::Pchl => 5,
        Instr::Sphl => 5,
        Instr::JmpIf(_) => 10,
        Instr::Jmp => 10,
        Instr::Out => 10,
        Instr::In => 10,
        Instr::Xthl => 18,
        Instr::Xchg => 5,
        Instr::Di => 4,
        Instr::Ei => 4,
        Instr::CallIf(_) => 17,
        Instr::Call => 17,
        Instr::Push(_) => 11,
        Instr::Rst(_) => 11,
        Instr::Halt => 7,
        Instr::Undefined => 4,
    }
}

/// The cycles that an opcode costs. An opcode without an instruction of
/// its own costs what the instruction costs that the chip runs in its
/// place: `NOP` below `0x40`, `JMP` for `0xCB`, `RET` for `0xD9`, `CALL`
/// for the others.
pub open spec fn opcode_cycles(opcode: u8) -> u8 {
    if decode(opcode) != Instr::Undefined {
        instr_cycles(decode(opcode))
    } else if opcode < 0x40 {
        4
    } else if opcode == 0xCB || opcode == 0xD9 {
        10
    } else {
        17
    }
}

/// Every instruction costs at least 4 cycles and at most 18.
pub proof fn lemma_cycles_bounds(instr: Instr)
    ensures
        4 <= instr_cycles(instr) <= 18,
{
}

/// The cycle cost of every opcode, by opcode.
pub const CYCLES_8080: [u8; 256] = [
    4, 10, 7, 5, 5, 5, 7, 4, 4, 10, 7, 5, 5, 5, 7, 4,
    4, 10, 7, 5, 5, 5, 7, 4, 4, 10, 7, 5, 5, 5, 7, 4,
    4, 10, 16, 5, 5, 5, 7, 4, 4, 10, 16, 5, 5, 5, 7, 4,
    4, 10, 13, 5, 10, 10, 10, 4, 4, 10, 13, 5, 5, 5, 7, 4,
    5, 5, 5, 5, 5, 5, 7, 5, 5, 5, 5, 5, 5, 5, 7, 5,
    5, 5, 5, 5, 5, 5, 7, 5, 5, 5, 5, 5, 5, 5, 7, 5,
    5, 5, 5, 5, 5, 5, 7, 5, 5, 5, 5, 5, 5, 5, 7, 5,
    7, 7, 7, 7, 7, 7, 7, 7, 5, 5, 5, 5, 5, 5, 7, 5,
    4, 4, 4, 4, 4, 4, 7, 4, 4, 4, 4, 4, 4, 4, 7, 4,
    4, 4, 4, 4, 4, 4, 7, 4, 4, 4, 4, 4, 4, 4, 7, 4,
    4, 4, 4, 4, 4, 4, 7, 4, 4, 4, 4, 4, 4, 4, 7, 4,
    4, 4, 4, 4, 4, 4, 7, 4, 4, 4, 4, 4, 4, 4, 7, 4,
    11, 10, 10, 10, 17, 11, 7, 11, 11, 10, 10, 10, 17, 17, 7, 11,
    11, 10, 10, 10, 17, 11, 7, 11, 11, 10, 10, 10, 17, 17, 7, 11,
    11, 10, 10, 18, 17, 11, 7, 11, 11, 5, 10, 5, 17, 17, 7, 11,
    11, 10, 10, 4, 17, 11, 7, 11, 11, 5, 10, 4, 17, 17, 7, 11,
];

/// The cycle cost of an opcode, looked up in the table.
pub fn cycles_of(opcode: u8) -> (cycles: u8)
    ensures
        cycles == opcode_cycles(opcode),
{
    CYCLES_8080[opcode as usize]
}

} // verus!
