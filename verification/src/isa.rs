//! The instruction set: what each of the 256 opcode bytes stands for, read
//! off the bit fields of the opcode.

use vstd::prelude::*;

verus! {

/// An 8-bit operand named by a three-bit field. `M` is the byte in memory
/// at the address held in HL.
#[derive(Clone, Copy, Debug, PartialEq, Eq, Structural)]
pub enum Reg {
    B,
    C,
    D,
    E,
    H,
    L,
    M,
    A,
}

/// A 16-bit operand named by a two-bit field.
#[derive(Clone, Copy, Debug, PartialEq, Eq, Structural)]
pub enum Pair {
    BC,
    DE,
    HL,
    SP,
}

/// What `PUSH` and `POP` move: a register pair, or A with the status byte.
#[derive(Clone, Copy, Debug, PartialEq, Eq, Structural)]
pub enum StackPair {
    BC,
    DE,
    HL,
    PSW,
}

/// The eight accumulator operations.
#[derive(Clone, Copy, Debug, PartialEq, Eq, Structural)]
pub enum AluOp {
    Add,
    Adc,
    Sub,
    Sbb,
    Ana,
    Xra,
    Ora,
    Compare,
}

/// The eight branch conditions.
#[derive(Clone, Copy, Debug, PartialEq, Eq, Structural)]
pub enum Cond {
    NotZero,
    Zero,
    NoCarry,
    Carry,
    ParityOdd,
    ParityEven,
    Plus,
    Minus,
}

/// A decoded instruction, without its immediate operand.
#[derive(Clone, Copy, Debug, PartialEq, Eq, Structural)]
pub enum Instr {
    Nop,
    Lxi(Pair),
    Dad(Pair),
    Stax(Pair),
    Ldax(Pair),
    Shld,
    Lhld,
    Sta,
    Lda,
    Inx(Pair),
    Dcx(Pair),
    Inr(Reg),
    Dcr(Reg),
    Mvi(Reg),
    Rlc,
    Rrc,
    Ral,
    Rar,
    Daa,
    Cma,
    Stc,
    Cmc,
    Mov(Reg, Reg),
    Alu(AluOp, Reg),
    AluImm(AluOp),
    RetIf(Cond),
    Ret,
    Pop(StackPair),
    Pchl,
    Sphl,
    JmpIf(Cond),
    Jmp,
    Out,
    In,
    Xthl,
    Xchg,
    Di,
    Ei,
    CallIf(Cond),
    Call,
    Push(StackPair),
    Rst(u8),
    /// `HLT`, which this core does not execute.
    Halt,
    /// One of the twelve opcodes to which the 8080 assigns no instruction.
    Undefined,
}

/// The operand that a three-bit register field names.
pub open spec fn reg_of(field: int) -> Reg {
    if field == 0 {
        Reg::B
    } else if field == 1 {
        Reg::C
    } else if field == 2 {
        Reg::D
    } else if field == 3 {
        Reg::E
    } else if field == 4 {
        Reg::H
    } else if field == 5 {
        Reg::L
    } else if field == 6 {
        Reg::M
    } else {
        Reg::A
    }
}

/// The register pair that a two-bit field names.
pub open spec fn pair_of(field: int) -> Pair {
    if field == 0 {
        Pair::BC
    } else if field == 1 {
        Pair::DE
    } else if field == 2 {
        Pair::HL
    } else {
        Pair::SP
    }
}

/// The stack operand that a two-bit field names.
pub open spec fn stack_pair_of(field: int) -> StackPair {
    if field == 0 {
        StackPair::BC
    } else if field == 1 {
        StackPair::DE
    } else if field == 2 {
        StackPair::HL
    } else {
        StackPair::PSW
    }
}

/// The accumulator operation that a three-bit field names.
pub open spec fn alu_of(field: int) -> AluOp {
    if field == 0 {
        AluOp::Add
    } else if field == 1 {
        AluOp::Adc
    } else if field == 2 {
        AluOp::Sub
    } else if field == 3 {
        AluOp::Sbb
    } else if field == 4 {
        AluOp::Ana
    } else if field == 5 {
        AluOp::Xra
    } else if field == 6 {
        AluOp::Ora
    } else {
        AluOp::Compare
    }
}

/// The branch condition that a three-bit field names.
pub open spec fn cond_of(field: int) -> Cond {
    if field == 0 {
        Cond::NotZero
    } else if field == 1 {
        Cond::Zero
    } else if field == 2 {
        Cond::NoCarry
    } else if field == 3 {
        Cond::Carry
    } else if field == 4 {
        Cond::ParityOdd
    } else if field == 5 {
        Cond::ParityEven
    } else if field == 6 {
        Cond::Plus
    } else {
        Cond::Minus
    }
}

/// Opcodes `00 yyy zzz`: transfers, 16-bit arithmetic, increments, rotates.
pub open spec fn decode_low(y: int, z: int) -> Instr {
    if z == 0 {
        if y == 0 {
            Instr::Nop
        } else {
            Instr::Undefined
        }
    } else if z == 1 {
        if y % 2 == 0 {
            Instr::Lxi(pair_of(y / 2))
        } else {
            Instr::Dad(pair_of(y / 2))
        }
    } else if z == 2 {
        if y == 0 {
            Instr::Stax(Pair::BC)
        } else if y == 1 {
            Instr::Ldax(Pair::BC)
        } else if y == 2 {
            Instr::Stax(Pair::DE)
        } else if y == 3 {
            Instr::Ldax(Pair::DE)
        } else if y == 4 {
            Instr::Shld
        } else if y == 5 {
            Instr::Lhld
        } else if y == 6 {
            Instr::Sta
        } else {
            Instr::Lda
        }
    } else if z == 3 {
        if y % 2 == 0 {
            Instr::Inx(pair_of(y / 2))
        } else {
            Instr::Dcx(pair_of(y / 2))
        }
    } else if z == 4 {
        Instr::Inr(reg_of(y))
    } else if z == 5 {
        Instr::Dcr(reg_of(y))
    } else if z == 6 {
        Instr::Mvi(reg_of(y))
    } else if y == 0 {
        Instr::Rlc
    } else if y == 1 {
        Instr::Rrc
    } else if y == 2 {
        Instr::Ral
    } else if y == 3 {
        Instr::Rar
    } else if y == 4 {
        Instr::Daa
    } else if y == 5 {
        Instr::Cma
    } else if y == 6 {
        Instr::Stc
    } else {
        Instr::Cmc
    }
}

/// Opcodes `11 yyy zzz`: branches, the stack, immediates, I/O.
pub open spec fn decode_high(y: int, z: int) -> Instr {
    if z == 0 {
        Instr::RetIf(cond_of(y))
    } else if z == 1 {
        if y % 2 == 0 {
            Instr::Pop(stack_pair_of(y / 2))
        } else if y == 1 {
            Instr::Ret
        } else if y == 5 {
            Instr::Pchl
        } else if y == 7 {
            Instr::Sphl
        } else {
            Instr::Undefined
        }
    } else if z == 2 {
        Instr::JmpIf(cond_of(y))
    } else if z == 3 {
        if y == 0 {
            Instr::Jmp
        } else if y == 1 {
            Instr::Undefined
        } else if y == 2 {
            Instr::Out
        } else if y == 3 {
            Instr::In
        } else if y == 4 {
            Instr::Xthl
        } else if y == 5 {
            Instr::Xchg
        } else if y == 6 {
            Instr::Di
        } else {
            Instr::Ei
        }
    } else if z == 4 {
        Instr::CallIf(cond_of(y))
    } else if z == 5 {
        if y % 2 == 0 {
            Instr::Push(stack_pair_of(y / 2))
        } else if y == 1 {
            Instr::Call
        } else {
            Instr::Undefined
        }
    } else if z == 6 {
        Instr::AluImm(alu_of(y))
    } else {
        Instr::Rst(y as u8)
    }
}

/// The instruction that an opcode byte stands for. With the opcode written
/// in bits as `xx yyy zzz`, `xx` picks the group and the two three-bit
/// fields pick the operation and its operands.
pub open spec fn decode(opcode: u8) -> Instr {
    let x = opcode as int / 64;
    let y = (opcode as int / 8) % 8;
    let z = opcode as int % 8;
    if x == 0 {
        decode_low(y, z)
    } else if x == 1 {
        if y == 6 && z == 6 {
            Instr::Halt
        } else {
            Instr::Mov(reg_of(y), reg_of(z))
        }
    } else if x == 2 {
        Instr::Alu(alu_of(y), reg_of(z))
    } else {
        decode_high(y, z)
    }
}

/// The bytes of immediate operand that follow the opcode: 0, 1 or 2.
pub open spec fn operand_bytes(instr: Instr) -> int {
    match instr {
        Instr::Mvi(_) => 1,
        Instr::AluImm(_) => 1,
        Instr::Out => 1,
        Instr::In => 1,
        Instr::Lxi(_) => 2,
        Instr::Shld => 2,
        Instr::Lhld => 2,
        Instr::Sta => 2,
        Instr::Lda => 2,
        Instr::JmpIf(_) => 2,
        Instr::Jmp => 2,
        Instr::CallIf(_) => 2,
        Instr::Call => 2,
        _ => 0,
    }
}

/// The bytes that the instruction of an opcode takes, the opcode
/// included: 1, 2 or 3.
pub fn instruction_length(opcode: u8) -> (length: u8)
    ensures
        length == 1 + operand_bytes(decode(opcode)),
{
    assert((opcode & 0x07) == opcode % 8 && ((opcode >> 3) & 0x07) == (opcode / 8) % 8 && (opcode
        >> 6) == opcode / 64) by (bit_vector);
    let z = opcode & 0x07;
    let y = (opcode >> 3) & 0x07;
    match opcode >> 6 {
        0 => {
            if z == 6 {
                2
            } else if z == 1 && y % 2 == 0 {
                3
            } else if z == 2 && y >= 4 {
                3
            } else {
                1
            }
        },
        3 => {
            if z == 6 || (z == 3 && (y == 2 || y == 3)) {
                2
            } else if z == 2 || z == 4 || (z == 3 && y == 0) || (z == 5 && y == 1) {
                3
            } else {
                1
            }
        },
        _ => 1,
    }
}

/// An instruction has at most two bytes of immediate operand.
pub proof fn lemma_operand_bytes_bounds(instr: Instr)
    ensures
        0 <= operand_bytes(instr) <= 2,
{
}

/// Where the instructions of a program start: offset `i`, then the
/// offset behind the instruction at `i`, and so on to the end of the
/// bytes.
pub open spec fn walk(bytes: Seq<u8>, i: int) -> Seq<int>
    decreases bytes.len() + 2 - i,
{
    if 0 <= i < bytes.len() {
        proof {
            lemma_operand_bytes_bounds(decode(bytes[i]));
        }
        seq![i] + walk(bytes, i + 1 + operand_bytes(decode(bytes[i])))
    } else {
        Seq::empty()
    }
}

/// The offsets at which the instructions of a program start, from offset
/// 0 on. The last instruction may reach past the end of the bytes.
pub fn listing_offsets(bytes: &[u8]) -> (offsets: Vec<usize>)
    ensures
        offsets@.len() == walk(bytes@, 0).len(),
        forall|j: int| 0 <= j < offsets@.len() ==> offsets@[j] == walk(bytes@, 0)[j],
{
    let mut offsets: Vec<usize> = Vec::new();
    let mut i: usize = 0;
    let ghost mut done: Seq<int> = Seq::empty();
    while i < bytes.len()
        invariant
            i <= bytes@.len(),
            done.len() == offsets@.len(),
            forall|j: int| 0 <= j < done.len() ==> offsets@[j] == done[j],
            walk(bytes@, 0) == done + walk(bytes@, i as int),
        decreases bytes@.len() - i,
    {
        let length = instruction_length(bytes[i]) as usize;
        proof {
            assert(walk(bytes@, i as int) == seq![i as int] + walk(bytes@, i + length));
            assert(done.push(i as int) + walk(bytes@, i + length) =~= done + (seq![i as int]
                + walk(bytes@, i + length)));
            done = done.push(i as int);
        }
        offsets.push(i);
        if length >= bytes.len() - i {
            i = bytes.len();
        } else {
            i = i + length;
        }
    }
    assert(walk(bytes@, 0) =~= done);
    offsets
}

/// Whether the interpreter executes the instruction.
pub open spec fn executable(instr: Instr) -> bool {
    instr != Instr::Halt && instr != Instr::Undefined
}

/// Whether the interpreter executes the opcode.
pub open spec fn implemented(opcode: u8) -> bool {
    executable(decode(opcode))
}

} // verus!
