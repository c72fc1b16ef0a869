//! The machine as a mathematical value, and the meaning of one instruction
//! as a function from machine to machine.

use vstd::prelude::*;
use crate::flags::{
    bit, high, low, pack_psw, unpack_psw, with_zsp, word, wrap16, wrap8, ConditionCodes,
};
use crate::isa::{decode, AluOp, Cond, Instr, Pair, Reg, StackPair};
use crate::memory::{bus_read, bus_write, MEMORY_SIZE};

verus! {

/// The I/O device: the two halves of the shift register, the shift amount,
/// and the byte last latched on each input port.
pub struct PortView {
    pub shift0: u8,
    pub shift1: u8,
    pub shift_amount: u8,
    pub inputs: Map<u8, u8>,
}

/// The whole machine between two instructions.
pub struct Machine {
    pub a: u8,
    pub b: u8,
    pub c: u8,
    pub d: u8,
    pub e: u8,
    pub h: u8,
    pub l: u8,
    pub sp: u16,
    pub pc: u16,
    pub cc: ConditionCodes,
    pub int_enable: bool,
    pub mem: Seq<u8>,
    pub port: PortView,
}

/// An accumulator value together with the flags that came with it.
pub struct AluResult {
    pub value: u8,
    pub cc: ConditionCodes,
}

/// `a + v + carry_in`: the sum modulo 256, CY on a carry out of bit 7, AC
/// on a carry out of bit 3.
pub open spec fn add_result(cc: ConditionCodes, a: u8, v: u8, carry_in: bool) -> AluResult {
    let sum = a + v + bit(carry_in);
    AluResult {
        value: wrap8(sum),
        cc: ConditionCodes {
            cy: sum > 0xFF,
            ac: a % 16 + v % 16 + bit(carry_in) > 15,
            ..with_zsp(cc, wrap8(sum))
        },
    }
}

/// `a - v - borrow_in`: the difference modulo 256, CY on a borrow, AC
/// unless the low digit had to borrow.
pub open spec fn sub_result(cc: ConditionCodes, a: u8, v: u8, borrow_in: bool) -> AluResult {
    let diff = a - v - bit(borrow_in);
    AluResult {
        value: wrap8(diff),
        cc: ConditionCodes {
            cy: diff < 0,
            ac: a % 16 - v % 16 - bit(borrow_in) >= 0,
            ..with_zsp(cc, wrap8(diff))
        },
    }
}

/// A bitwise result: CY is cleared and AC set as given.
pub open spec fn logic_result(cc: ConditionCodes, value: u8, ac: bool) -> AluResult {
    AluResult { value, cc: ConditionCodes { cy: false, ac, ..with_zsp(cc, value) } }
}

/// The accumulator and flags after `op` on accumulator `a` and operand `v`.
/// A comparison sets the flags of the subtraction and keeps `a`.
pub open spec fn alu(op: AluOp, cc: ConditionCodes, a: u8, v: u8) -> AluResult {
    match op {
        AluOp::Add => add_result(cc, a, v, false),
        AluOp::Adc => add_result(cc, a, v, cc.cy),
        AluOp::Sub => sub_result(cc, a, v, false),
        AluOp::Sbb => sub_result(cc, a, v, cc.cy),
        AluOp::Ana => logic_result(cc, a & v, (a | v) & 0x08 != 0),
        AluOp::Xra => logic_result(cc, a ^ v, false),
        AluOp::Ora => logic_result(cc, a | v, false),
        AluOp::Compare => AluResult { value: a, cc: sub_result(cc, a, v, false).cc },
    }
}

/// Decimal adjust: 6 is added to the low digit if it exceeds 9 or AC is
/// set, then 6 to the high digit if it now exceeds 9 or CY is set. CY is
/// set by the second correction and otherwise kept; AC is the carry out of
/// the low digit.
pub open spec fn daa_result(cc: ConditionCodes, a: u8) -> AluResult {
    let low_fix: int = if cc.ac || a % 16 > 9 { 0x06 } else { 0 };
    let mid = a + low_fix;
    let high_fix: int = if cc.cy || mid / 16 > 9 { 0x60 } else { 0 };
    let value = wrap8(mid + high_fix);
    AluResult {
        value,
        cc: ConditionCodes {
            cy: cc.cy || mid / 16 > 9,
            ac: a % 16 + low_fix > 15,
            ..with_zsp(cc, value)
        },
    }
}

/// `v + 1` modulo 256: Z, S, P and AC follow the result, CY is kept.
pub open spec fn inr_result(cc: ConditionCodes, v: u8) -> AluResult {
    let value = wrap8(v + 1);
    AluResult { value, cc: ConditionCodes { ac: value % 16 == 0, ..with_zsp(cc, value) } }
}

/// `v - 1` modulo 256: Z, S, P and AC follow the result, CY is kept.
pub open spec fn dcr_result(cc: ConditionCodes, v: u8) -> AluResult {
    let value = wrap8(v - 1);
    AluResult { value, cc: ConditionCodes { ac: value % 16 != 15, ..with_zsp(cc, value) } }
}

/// Whether a branch condition holds of the flags.
pub open spec fn cond_holds(cc: ConditionCodes, cond: Cond) -> bool {
    match cond {
        Cond::NotZero => !cc.z,
        Cond::Zero => cc.z,
        Cond::NoCarry => !cc.cy,
        Cond::Carry => cc.cy,
        Cond::ParityOdd => !cc.p,
        Cond::ParityEven => cc.p,
        Cond::Plus => !cc.s,
        Cond::Minus => cc.s,
    }
}

/// Whether a character names a register: one of `a b c d e h l`.
pub open spec fn is_register_name(name: char) -> bool {
    name == 'a' || name == 'b' || name == 'c' || name == 'd' || name == 'e' || name == 'h' || name
        == 'l'
}

/// The byte latched on input port `number`: zero until one is latched.
pub open spec fn port_in_latch(port: PortView, number: u8) -> u8 {
    if port.inputs.contains_key(number) {
        port.inputs[number]
    } else {
        0
    }
}

/// The byte that input port `number` delivers.
pub open spec fn port_in(port: PortView, number: u8) -> u8 {
    if number == 1 {
        port_in_latch(port, 1)
    } else if number == 3 {
        ((word(port.shift1, port.shift0) >> ((8 - port.shift_amount) as u16)) & 0xFF) as u8
    } else {
        0
    }
}

/// The device after `value` is sent to output port `number`.
pub open spec fn port_out(port: PortView, number: u8, value: u8) -> PortView {
    if number == 2 {
        PortView { shift_amount: value & 0x07, ..port }
    } else if number == 4 {
        PortView { shift0: port.shift1, shift1: value, ..port }
    } else {
        port
    }
}

impl PortView {
    /// The shift amount fits its three-bit latch.
    pub open spec fn wf(self) -> bool {
        self.shift_amount <= 7
    }
}

impl Machine {
    /// The store has its full size and the I/O device is well formed.
    pub open spec fn wf(self) -> bool {
        self.mem.len() == MEMORY_SIZE && self.port.wf()
    }

    pub open spec fn bc(self) -> u16 {
        word(self.b, self.c)
    }

    pub open spec fn de(self) -> u16 {
        word(self.d, self.e)
    }

    pub open spec fn hl(self) -> u16 {
        word(self.h, self.l)
    }

    /// The byte on the bus at `address`.
    pub open spec fn read(self, address: u16) -> u8 {
        bus_read(self.mem, address as int)
    }

    /// The little-endian word on the bus at `address`.
    pub open spec fn read_word(self, address: u16) -> u16 {
        word(self.read(wrap16(address + 1)), self.read(address))
    }

    /// The machine after a CPU write.
    pub open spec fn write(self, address: u16, value: u8) -> Machine {
        Machine { mem: bus_write(self.mem, address as int, value), ..self }
    }

    /// The machine after a CPU write of a little-endian word.
    pub open spec fn write_word(self, address: u16, value: u16) -> Machine {
        self.write(address, low(value)).write(wrap16(address + 1), high(value))
    }

    /// The value of an 8-bit operand.
    pub open spec fn reg(self, r: Reg) -> u8 {
        match r {
            Reg::B => self.b,
            Reg::C => self.c,
            Reg::D => self.d,
            Reg::E => self.e,
            Reg::H => self.h,
            Reg::L => self.l,
            Reg::M => self.read(self.hl()),
            Reg::A => self.a,
        }
    }

    /// The machine after an 8-bit operand is set.
    pub open spec fn with_reg(self, r: Reg, value: u8) -> Machine {
        match r {
            Reg::B => Machine { b: value, ..self },
            Reg::C => Machine { c: value, ..self },
            Reg::D => Machine { d: value, ..self },
            Reg::E => Machine { e: value, ..self },
            Reg::H => Machine { h: value, ..self },
            Reg::L => Machine { l: value, ..self },
            Reg::M => self.write(self.hl(), value),
            Reg::A => Machine { a: value, ..self },
        }
    }

    /// The register that a lower-case letter names; 0 for any other
    /// character.
    pub open spec fn named(self, name: char) -> u8 {
        if name == 'a' {
            self.a
        } else if name == 'b' {
            self.b
        } else if name == 'c' {
            self.c
        } else if name == 'd' {
            self.d
        } else if name == 'e' {
            self.e
        } else if name == 'h' {
            self.h
        } else if name == 'l' {
            self.l
        } else {
            0
        }
    }

    /// The value of a 16-bit operand.
    pub open spec fn pair(self, p: Pair) -> u16 {
        match p {
            Pair::BC => self.bc(),
            Pair::DE => self.de(),
            Pair::HL => self.hl(),
            Pair::SP => self.sp,
        }
    }

    /// The machine after a 16-bit operand is set.
    pub open spec fn with_pair(self, p: Pair, value: u16) -> Machine {
        match p {
            Pair::BC => Machine { b: high(value), c: low(value), ..self },
            Pair::DE => Machine { d: high(value), e: low(value), ..self },
            Pair::HL => Machine { h: high(value), l: low(value), ..self },
            Pair::SP => Machine { sp: value, ..self },
        }
    }

    /// The word that `PUSH` stores for a stack operand.
    pub open spec fn stack_pair(self, p: StackPair) -> u16 {
        match p {
            StackPair::BC => self.bc(),
            StackPair::DE => self.de(),
            StackPair::HL => self.hl(),
            StackPair::PSW => word(self.a, pack_psw(self.cc)),
        }
    }

    /// The machine after `POP` has loaded a stack operand from a word.
    pub open spec fn with_stack_pair(self, p: StackPair, value: u16) -> Machine {
        match p {
            StackPair::BC => Machine { b: high(value), c: low(value), ..self },
            StackPair::DE => Machine { d: high(value), e: low(value), ..self },
            StackPair::HL => Machine { h: high(value), l: low(value), ..self },
            StackPair::PSW => Machine { a: high(value), cc: unpack_psw(low(value)), ..self },
        }
    }

    /// The opcode byte at PC.
    pub open spec fn opcode(self) -> u8 {
        self.read(self.pc)
    }

    /// The machine with PC moved forward by `n`.
    pub open spec fn skip(self, n: int) -> Machine {
        Machine { pc: wrap16(self.pc + n), ..self }
    }

    /// The one-byte immediate operand, once PC is past the opcode.
    pub open spec fn imm8(self) -> u8 {
        self.read(self.pc)
    }

    /// The little-endian two-byte immediate operand, once PC is past the
    /// opcode.
    pub open spec fn imm16(self) -> u16 {
        self.read_word(self.pc)
    }

    /// Whether `lo` and `hi` are the two bytes that follow the opcode, once
    /// PC is past the opcode.
    pub open spec fn operands(self, lo: u8, hi: u8) -> bool {
        lo == self.imm8() && hi == self.read(wrap16(self.pc + 1))
    }

    /// The machine after a word is pushed: high byte at SP-1, low byte at
    /// SP-2, SP lowered by 2.
    pub open spec fn pushed(self, value: u16) -> Machine {
        Machine {
            sp: wrap16(self.sp - 2),
            ..self.write(wrap16(self.sp - 1), high(value)).write(wrap16(self.sp - 2), low(value))
        }
    }

    /// The word on top of the stack: low byte at SP, high byte at SP+1.
    pub open spec fn top(self) -> u16 {
        self.read_word(self.sp)
    }

    /// The machine with the top word dropped from the stack.
    pub open spec fn dropped(self) -> Machine {
        Machine { sp: wrap16(self.sp + 2), ..self }
    }

    /// The machine with the accumulator and flags of an ALU result.
    pub open spec fn with_alu(self, r: AluResult) -> Machine {
        Machine { a: r.value, cc: r.cc, ..self }
    }

    /// The machine after a jump to `target` if `taken`, and past the
    /// two-byte operand if not.
    pub open spec fn jump(self, taken: bool, target: u16) -> Machine {
        if taken {
            Machine { pc: target, ..self }
        } else {
            self.skip(2)
        }
    }

    /// The machine after a call of `target` if `taken`: the address past
    /// the operand is pushed. If not taken, PC moves past the operand.
    pub open spec fn call(self, taken: bool, target: u16) -> Machine {
        if taken {
            Machine { pc: target, ..self.pushed(wrap16(self.pc + 2)) }
        } else {
            self.skip(2)
        }
    }

    /// The machine after a return if `taken`: PC is popped.
    pub open spec fn ret(self, taken: bool) -> Machine {
        if taken {
            Machine { pc: self.top(), ..self.dropped() }
        } else {
            self
        }
    }

    /// The machine after an interrupt request for vector `n`. With
    /// interrupts enabled PC is pushed, PC becomes `8 * n` and interrupts
    /// are disabled; with interrupts disabled nothing happens.
    pub open spec fn interrupt(self, n: u8) -> Machine {
        if self.int_enable {
            Machine { pc: (8 * n) as u16, int_enable: false, ..self.pushed(self.pc) }
        } else {
            self
        }
    }

    /// The effect of an instruction on a machine whose PC is already past
    /// the opcode byte.
    #[verifier::opaque]
    pub open spec fn execute(self, instr: Instr) -> Machine {
        match instr {
            Instr::Nop => self,
            Instr::Lxi(p) => self.with_pair(p, self.imm16()).skip(2),
            Instr::Dad(p) => {
                let sum = self.hl() + self.pair(p);
                Machine {
                    cc: ConditionCodes { cy: sum > 0xFFFF, ..self.cc },
                    ..self.with_pair(Pair::HL, wrap16(sum))
                }
            },
            Instr::Stax(p) => self.write(self.pair(p), self.a),
            Instr::Ldax(p) => Machine { a: self.read(self.pair(p)), ..self },
            Instr::Shld => self.write_word(self.imm16(), self.hl()).skip(2),
            Instr::Lhld => self.with_pair(Pair::HL, self.read_word(self.imm16())).skip(2),
            Instr::Sta => self.write(self.imm16(), self.a).skip(2),
            Instr::Lda => Machine { a: self.read(self.imm16()), ..self }.skip(2),
            Instr::Inx(p) => self.with_pair(p, wrap16(self.pair(p) + 1)),
            Instr::Dcx(p) => self.with_pair(p, wrap16(self.pair(p) - 1)),
            Instr::Inr(r) => {
                let res = inr_result(self.cc, self.reg(r));
                Machine { cc: res.cc, ..self.with_reg(r, res.value) }
            },
            Instr::Dcr(r) => {
                let res = dcr_result(self.cc, self.reg(r));
                Machine { cc: res.cc, ..self.with_reg(r, res.value) }
            },
            Instr::Mvi(r) => self.with_reg(r, self.imm8()).skip(1),
            Instr::Rlc => Machine {
                a: wrap8(2 * self.a + self.a / 0x80),
                cc: ConditionCodes { cy: self.a >= 0x80, ..self.cc },
                ..self
            },
            Instr::Rrc => Machine {
                a: (self.a / 2 + 0x80 * (self.a % 2)) as u8,
                cc: ConditionCodes { cy: self.a % 2 == 1, ..self.cc },
                ..self
            },
            Instr::Ral => Machine {
                a: wrap8(2 * self.a + bit(self.cc.cy)),
                cc: ConditionCodes { cy: self.a >= 0x80, ..self.cc },
                ..self
            },
            Instr::Rar => Machine {
                a: (self.a / 2 + 0x80 * bit(self.cc.cy)) as u8,
                cc: ConditionCodes { cy: self.a % 2 == 1, ..self.cc },
                ..self
            },
            Instr::Daa => self.with_alu(daa_result(self.cc, self.a)),
            Instr::Cma => Machine { a: (0xFF - self.a) as u8, ..self },
            Instr::Stc => Machine { cc: ConditionCodes { cy: true, ..self.cc }, ..self },
            Instr::Cmc => Machine { cc: ConditionCodes { cy: !self.cc.cy, ..self.cc }, ..self },
            Instr::Mov(dst, src) => self.with_reg(dst, self.reg(src)),
            Instr::Alu(op, r) => self.with_alu(alu(op, self.cc, self.a, self.reg(r))),
            Instr::AluImm(op) => self.with_alu(alu(op, self.cc, self.a, self.imm8())).skip(1),
            Instr::RetIf(cond) => self.ret(cond_holds(self.cc, cond)),
            Instr::Ret => self.ret(true),
            Instr::Pop(p) => self.with_stack_pair(p, self.top()).dropped(),
            Instr::Pchl => Machine { pc: self.hl(), ..self },
            Instr::Sphl => Machine { sp: self.hl(), ..self },
            Instr::JmpIf(cond) => self.jump(cond_holds(self.cc, cond), self.imm16()),
            Instr::Jmp => self.jump(true, self.imm16()),
            Instr::Out => Machine { port: port_out(self.port, self.imm8(), self.a), ..self }.skip(1),
            Instr::In => Machine { a: port_in(self.port, self.imm8()), ..self }.skip(1),
            Instr::Xthl => self.with_pair(Pair::HL, self.top()).write_word(self.sp, self.hl()),
            Instr::Xchg => Machine { d: self.h, e: self.l, h: self.d, l: self.e, ..self },
            Instr::Di => Machine { int_enable: false, ..self },
            Instr::Ei => Machine { int_enable: true, ..self },
            Instr::CallIf(cond) => self.call(cond_holds(self.cc, cond), self.imm16()),
            Instr::Call => self.call(true, self.imm16()),
            Instr::Push(p) => self.pushed(self.stack_pair(p)),
            Instr::Rst(n) => Machine { pc: (8 * n) as u16, ..self.pushed(self.pc) },
            Instr::Halt => self,
            Instr::Undefined => self,
        }
    }

    /// One instruction: the opcode at PC is fetched, PC moves past it, and
    /// the instruction it stands for is executed.
    pub open spec fn step(self) -> Machine {
        self.skip(1).execute(decode(self.opcode()))
    }
}

} // verus!
