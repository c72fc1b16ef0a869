//! Laws of the instruction set, proved of the machine semantics.

use vstd::prelude::*;
use crate::flags::{
    even_parity, high, lemma_psw_round_trip, low, pack_psw, word, wrap16, wrap8, ConditionCodes,
};
use crate::isa::{decode, operand_bytes, AluOp, Instr, Pair, Reg, StackPair};
use crate::machine::{alu, cond_holds, daa_result, dcr_result, inr_result, Machine};
use crate::memory::{fold, lemma_fold_closed_form, ROM_END};

verus! {

/// PC and SP stay within 16 bits and every register within 8, in every
/// state.
pub proof fn lemma_registers_in_range(s: Machine)
    ensures
        0 <= s.pc <= 0xFFFF,
        0 <= s.sp <= 0xFFFF,
        0 <= s.a <= 0xFF,
        0 <= s.b <= 0xFF,
        0 <= s.c <= 0xFF,
        0 <= s.d <= 0xFF,
        0 <= s.e <= 0xFF,
        0 <= s.h <= 0xFF,
        0 <= s.l <= 0xFF,
{
}

/// Every address from `0x4000` upward reads what the address `0x2000`
/// below it reads.
pub proof fn lemma_machine_mirror(s: Machine, address: u16)
    requires
        address >= 0x4000,
    ensures
        s.read(address) == s.read((address - 0x2000) as u16),
{
}

/// A byte written outside ROM is read back at the same address, and at
/// the address `0x2000` above it while that is still an address.
pub proof fn lemma_write_then_read(s: Machine, address: u16, value: u8)
    requires
        s.wf(),
        address > ROM_END,
    ensures
        s.write(address, value).read(address) == value,
        address + 0x2000 <= 0xFFFF && address + 0x2000 >= 0x4000 ==> s.write(address, value).read(
            (address + 0x2000) as u16,
        ) == value,
{
    lemma_fold_closed_form(address as int);
}

/// A CPU write leaves every ROM byte as it was and the machine well formed.
pub proof fn lemma_write_keeps_rom(s: Machine, address: u16, value: u8)
    requires
        s.wf(),
    ensures
        s.write(address, value).wf(),
        forall|a: int| 0 <= a <= ROM_END ==> #[trigger] s.write(address, value).mem[a] == s.mem[a],
{
    lemma_fold_closed_form(address as int);
}

/// Whether two machines hold the same ROM.
pub open spec fn same_rom(s: Machine, t: Machine) -> bool {
    forall|a: int| 0 <= a <= ROM_END ==> #[trigger] t.mem[a] == s.mem[a]
}

/// Writing a word changes no ROM byte and leaves the machine well
/// formed.
pub proof fn lemma_write_word_keeps_rom(s: Machine, address: u16, value: u16)
    requires
        s.wf(),
    ensures
        s.write_word(address, value).wf(),
        same_rom(s, s.write_word(address, value)),
{
    lemma_write_keeps_rom(s, address, low(value));
    lemma_write_keeps_rom(s.write(address, low(value)), wrap16(address + 1), high(value));
}

/// Pushing a word changes no ROM byte and leaves the machine well formed.
pub proof fn lemma_push_keeps_rom(s: Machine, value: u16)
    requires
        s.wf(),
    ensures
        s.pushed(value).wf(),
        same_rom(s, s.pushed(value)),
{
    lemma_write_keeps_rom(s, wrap16(s.sp - 1), high(value));
    lemma_write_keeps_rom(s.write(wrap16(s.sp - 1), high(value)), wrap16(s.sp - 2), low(value));
}

/// Setting an 8-bit operand changes no ROM byte and leaves the machine
/// well formed.
pub proof fn lemma_with_reg_keeps_rom(s: Machine, r: Reg, value: u8)
    requires
        s.wf(),
    ensures
        s.with_reg(r, value).wf(),
        same_rom(s, s.with_reg(r, value)),
{
    lemma_write_keeps_rom(s, s.hl(), value);
}

/// No instruction changes a ROM byte, and every instruction leaves the
/// machine well formed.
pub proof fn lemma_execute_keeps_rom(s: Machine, instr: Instr)
    requires
        s.wf(),
    ensures
        s.execute(instr).wf(),
        same_rom(s, s.execute(instr)),
{
    reveal(Machine::execute);
    match instr {
        Instr::Stax(p) => {
            lemma_write_keeps_rom(s, s.pair(p), s.a);
        },
        Instr::Shld => {
            lemma_write_word_keeps_rom(s, s.imm16(), s.hl());
        },
        Instr::Sta => {
            lemma_write_keeps_rom(s, s.imm16(), s.a);
        },
        Instr::Inr(r) => {
            lemma_with_reg_keeps_rom(s, r, inr_result(s.cc, s.reg(r)).value);
        },
        Instr::Dcr(r) => {
            lemma_with_reg_keeps_rom(s, r, dcr_result(s.cc, s.reg(r)).value);
        },
        Instr::Mvi(r) => {
            lemma_with_reg_keeps_rom(s, r, s.imm8());
        },
        Instr::Mov(dst, src) => {
            lemma_with_reg_keeps_rom(s, dst, s.reg(src));
        },
        Instr::Out => {
            let a = s.a;
            assert((a & 0x07) <= 7) by (bit_vector);
        },
        Instr::Xthl => {
            lemma_write_word_keeps_rom(s.with_pair(Pair::HL, s.top()), s.sp, s.hl());
        },
        Instr::CallIf(_) => {
            lemma_push_keeps_rom(s, wrap16(s.pc + 2));
        },
        Instr::Call => {
            lemma_push_keeps_rom(s, wrap16(s.pc + 2));
        },
        Instr::Push(p) => {
            lemma_push_keeps_rom(s, s.stack_pair(p));
        },
        Instr::Rst(_) => {
            lemma_push_keeps_rom(s, s.pc);
        },
        _ => {},
    }
}

/// One step of the interpreter changes no ROM byte and leaves the machine
/// well formed.
pub proof fn lemma_step_keeps_rom(s: Machine)
    requires
        s.wf(),
    ensures
        s.step().wf(),
        same_rom(s, s.step()),
{
    lemma_execute_keeps_rom(s.skip(1), decode(s.opcode()));
}

/// An interrupt request changes no ROM byte and leaves the machine well
/// formed.
pub proof fn lemma_interrupt_keeps_rom(s: Machine, n: u8)
    requires
        s.wf(),
    ensures
        s.interrupt(n).wf(),
        same_rom(s, s.interrupt(n)),
{
    lemma_write_keeps_rom(s, wrap16(s.sp - 1), high(s.pc));
    lemma_write_keeps_rom(s.write(wrap16(s.sp - 1), high(s.pc)), wrap16(s.sp - 2), low(s.pc));
}

/// After an accumulator operation Z, S and P describe the result: Z is
/// set exactly if it is 0, S exactly if its bit 7 is set, P exactly if it
/// has an even number of 1 bits. The result is the new accumulator, and
/// for a comparison the difference that is not stored.
pub proof fn lemma_alu_flags_follow_result(op: AluOp, cc: ConditionCodes, a: u8, v: u8)
    ensures
        ({
            let r = alu(op, cc, a, v);
            let result = if op == AluOp::Compare {
                wrap8(a - v)
            } else {
                r.value
            };
            &&& r.cc.z == (result == 0)
            &&& r.cc.s == (result >= 0x80)
            &&& r.cc.p == even_parity(result)
        }),
{
}

/// After an increment, a decrement or a decimal adjust Z, S and P
/// describe the result, and an increment or decrement keeps CY.
pub proof fn lemma_unary_flags_follow_result(cc: ConditionCodes, v: u8)
    ensures
        ({
            let r = inr_result(cc, v);
            r.cc.z == (r.value == 0) && r.cc.s == (r.value >= 0x80) && r.cc.p == even_parity(r.value)
                && r.cc.cy == cc.cy
        }),
        ({
            let r = dcr_result(cc, v);
            r.cc.z == (r.value == 0) && r.cc.s == (r.value >= 0x80) && r.cc.p == even_parity(r.value)
                && r.cc.cy == cc.cy
        }),
        ({
            let r = daa_result(cc, v);
            r.cc.z == (r.value == 0) && r.cc.s == (r.value >= 0x80) && r.cc.p == even_parity(r.value)
        }),
{
}

/// Whether both bytes that a push at `sp` would write lie outside ROM.
pub open spec fn stack_writable(sp: u16) -> bool {
    wrap16(sp - 1) > ROM_END && wrap16(sp - 2) > ROM_END
}

/// A word pushed on a stack outside ROM is the word on top of the stack,
/// and dropping it gives SP back.
pub proof fn lemma_push_then_top(s: Machine, value: u16)
    requires
        s.wf(),
        stack_writable(s.sp),
    ensures
        s.pushed(value).top() == value,
        s.pushed(value).dropped().sp == s.sp,
        s.pushed(value).wf(),
{
    let a1 = wrap16(s.sp - 1);
    let a2 = wrap16(s.sp - 2);
    lemma_fold_closed_form(a1 as int);
    lemma_fold_closed_form(a2 as int);
    assert(fold(a1 as int) != fold(a2 as int));
    assert(wrap16(a2 + 1) == a1);
}

/// What `PUSH` and `POP` do, in terms of the stack.
pub proof fn lemma_push_and_pop_unfold(s: Machine, p: StackPair)
    ensures
        s.execute(Instr::Push(p)) == s.pushed(s.stack_pair(p)),
        s.execute(Instr::Pop(p)) == s.with_stack_pair(p, s.top()).dropped(),
{
    reveal(Machine::execute);
}

/// `PUSH` followed by `POP` of the same operand restores the registers,
/// the flags and SP; for `PSW` that is A and all five flags. Only memory
/// changes. The stack must lie outside ROM, where a write is kept.
pub proof fn lemma_push_pop(s: Machine, p: StackPair)
    requires
        s.wf(),
        stack_writable(s.sp),
    ensures
        s.execute(Instr::Push(p)).execute(Instr::Pop(p)) == (Machine {
            mem: s.execute(Instr::Push(p)).mem,
            ..s
        }),
{
    let w = s.stack_pair(p);
    let t = s.pushed(w);
    lemma_push_and_pop_unfold(s, p);
    lemma_push_and_pop_unfold(t, p);
    lemma_push_then_top(s, w);
    lemma_psw_round_trip(s.cc);
    assert(t.top() == w);
    assert(t.dropped().sp == s.sp);
    assert(high(w) == high(s.stack_pair(p)) && low(w) == low(s.stack_pair(p)));
    match p {
        StackPair::BC => {
            assert(high(w) == s.b && low(w) == s.c);
        },
        StackPair::DE => {
            assert(high(w) == s.d && low(w) == s.e);
        },
        StackPair::HL => {
            assert(high(w) == s.h && low(w) == s.l);
        },
        StackPair::PSW => {
            assert(high(w) == s.a && low(w) == pack_psw(s.cc));
        },
    }
}

/// Whether an instruction can send PC anywhere but to the instruction
/// after it.
pub open spec fn is_branch(instr: Instr) -> bool {
    match instr {
        Instr::RetIf(_) => true,
        Instr::Ret => true,
        Instr::Pchl => true,
        Instr::JmpIf(_) => true,
        Instr::Jmp => true,
        Instr::CallIf(_) => true,
        Instr::Call => true,
        Instr::Rst(_) => true,
        _ => false,
    }
}

/// An instruction that is no branch leaves PC behind its operand bytes,
/// and so does a conditional jump or call that is not taken.
pub proof fn lemma_pc_moves_past_operand(s: Machine, instr: Instr)
    ensures
        !is_branch(instr) ==> s.execute(instr).pc == wrap16(s.pc + operand_bytes(instr)),
        (instr matches Instr::JmpIf(c) && !cond_holds(s.cc, c)) ==> s.execute(instr).pc == wrap16(
            s.pc + operand_bytes(instr),
        ),
        (instr matches Instr::CallIf(c) && !cond_holds(s.cc, c)) ==> s.execute(instr).pc == wrap16(
            s.pc + operand_bytes(instr),
        ),
        (instr matches Instr::RetIf(c) && !cond_holds(s.cc, c)) ==> s.execute(instr).pc == s.pc,
{
    reveal(Machine::execute);
}

/// A comparison sets the flags that the subtraction sets and keeps A,
/// whether the operand is a register, memory or an immediate byte.
pub proof fn lemma_compare_is_subtract(s: Machine, r: Reg)
    ensures
        s.execute(Instr::Alu(AluOp::Compare, r)).cc == s.execute(Instr::Alu(AluOp::Sub, r)).cc,
        s.execute(Instr::Alu(AluOp::Compare, r)) == (Machine {
            cc: s.execute(Instr::Alu(AluOp::Compare, r)).cc,
            ..s
        }),
        s.execute(Instr::AluImm(AluOp::Compare)).cc == s.execute(Instr::AluImm(AluOp::Sub)).cc,
        s.execute(Instr::AluImm(AluOp::Compare)).a == s.a,
{
    reveal(Machine::execute);
}

/// `XCHG` twice is the identity.
pub proof fn lemma_xchg_twice(s: Machine)
    ensures
        s.execute(Instr::Xchg).execute(Instr::Xchg) == s,
{
    reveal(Machine::execute);
}

/// `CMA` twice is the identity.
pub proof fn lemma_cma_twice(s: Machine)
    ensures
        s.execute(Instr::Cma).execute(Instr::Cma) == s,
{
    reveal(Machine::execute);
}

/// `CALL` followed by `RET` comes back to the instruction after the
/// call with SP as it was; only memory changes. The stack must lie
/// outside ROM.
pub proof fn lemma_call_ret(s: Machine)
    requires
        s.wf(),
        stack_writable(s.sp),
    ensures
        s.execute(Instr::Call).sp == wrap16(s.sp - 2),
        s.execute(Instr::Call).top() == wrap16(s.pc + 2),
        s.execute(Instr::Call).execute(Instr::Ret) == (Machine {
            pc: wrap16(s.pc + 2),
            mem: s.execute(Instr::Call).mem,
            ..s
        }),
{
    reveal(Machine::execute);
    lemma_push_then_top(s, wrap16(s.pc + 2));
}

/// With interrupts enabled, an interrupt request for a vector from 0 to 7
/// does what `RST` of that vector does, and disables interrupts.
pub proof fn lemma_interrupt_is_restart(s: Machine, n: u8)
    requires
        s.int_enable,
        n <= 7,
    ensures
        s.interrupt(n) == (Machine { int_enable: false, ..s.execute(Instr::Rst(n)) }),
{
    reveal(Machine::execute);
}

/// `DAD` writes HL and CY and nothing else: Z, S, P and AC stay.
pub proof fn lemma_dad_writes_carry_only(s: Machine, p: Pair)
    ensures
        s.execute(Instr::Dad(p)) == (Machine {
            h: s.execute(Instr::Dad(p)).h,
            l: s.execute(Instr::Dad(p)).l,
            cc: ConditionCodes { cy: s.hl() + s.pair(p) > 0xFFFF, ..s.cc },
            ..s
        }),
        word(s.execute(Instr::Dad(p)).h, s.execute(Instr::Dad(p)).l) == wrap16(s.hl() + s.pair(p)),
{
    reveal(Machine::execute);
}

} // verus!
