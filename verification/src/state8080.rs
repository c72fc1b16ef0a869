//! The executable machine: CPU registers, memory, the I/O device, the
//! instruction interpreter and interrupt delivery.

use std::collections::HashMap;
use vstd::prelude::*;
use vstd::std_specs::hash::group_hash_axioms;
use crate::cycles::{cycles_of, instr_cycles};
pub use crate::flags::ConditionCodes;
use crate::flags::{
    bit, high_byte, lemma_select_flags, low_byte, low_digit, make_word, pack_flags, parity,
    select_flags, unpack_flags, word, wrap16, wrap8,
};
use crate::isa::{decode, implemented, AluOp, Cond, Instr, Pair, Reg, StackPair};
use crate::machine::{
    add_result, alu, cond_holds, daa_result, dcr_result, inr_result, is_register_name,
    logic_result, port_in, port_in_latch, port_out, sub_result, Machine, PortView,
};
use crate::memory::{Memory, MEMORY_SIZE, ROM_SIZE};

verus! {

broadcast use group_hash_axioms;

/// The I/O device of the board.
pub struct Port {
    write2: u8,
    shift0: u8,
    shift1: u8,
    io_ports: HashMap<u8, u8>,
}

impl View for Port {
    type V = PortView;

    closed spec fn view(&self) -> PortView {
        PortView {
            shift0: self.shift0,
            shift1: self.shift1,
            shift_amount: self.write2,
            inputs: self.io_ports@,
        }
    }
}

impl Port {
    /// A device with every latch at zero and no input latched.
    pub fn new() -> (port: Port)
        ensures
            port@.wf(),
            port@ == (PortView { shift0: 0, shift1: 0, shift_amount: 0, inputs: Map::empty() }),
    {
        Port { write2: 0, shift0: 0, shift1: 0, io_ports: HashMap::new() }
    }

    /// The low half of the shift register.
    pub fn shift0(&self) -> (value: u8)
        ensures
            value == self@.shift0,
    {
        self.shift0
    }

    /// The high half of the shift register, which holds the byte last
    /// sent to output port 4.
    pub fn shift1(&self) -> (value: u8)
        ensures
            value == self@.shift1,
    {
        self.shift1
    }

    /// The shift amount last sent to output port 2.
    pub fn write2(&self) -> (value: u8)
        ensures
            value == self@.shift_amount,
    {
        self.write2
    }

    /// The byte latched on input port `number`, 0 if none was.
    pub fn latched(&self, number: u8) -> (value: u8)
        ensures
            value == port_in_latch(self@, number),
    {
        match self.io_ports.get(&number) {
            Some(v) => *v,
            None => 0,
        }
    }

    /// Sets the bits of `mask` in the latch of input port `number`: a key
    /// went down.
    pub fn set_input_bits(&mut self, number: u8, mask: u8)
        ensures
            final(self)@ == (PortView {
                inputs: old(self)@.inputs.insert(
                    number,
                    port_in_latch(old(self)@, number) | mask,
                ),
                ..old(self)@
            }),
    {
        let current = self.latched(number);
        self.io_ports.insert(number, current | mask);
    }

    /// Clears the bits of `mask` in the latch of input port `number`: a key
    /// came up.
    pub fn clear_input_bits(&mut self, number: u8, mask: u8)
        ensures
            final(self)@ == (PortView {
                inputs: old(self)@.inputs.insert(
                    number,
                    port_in_latch(old(self)@, number) & !mask,
                ),
                ..old(self)@
            }),
    {
        let current = self.latched(number);
        self.io_ports.insert(number, current & !mask);
    }
}

/// The CPU with its memory and I/O device.
pub struct State8080 {
    a: u8,
    b: u8,
    c: u8,
    d: u8,
    e: u8,
    h: u8,
    l: u8,
    sp: u16,
    pc: u16,
    memory: Memory,
    port: Port,
    cc: ConditionCodes,
    int_enable: bool,
}

impl View for State8080 {
    type V = Machine;

    closed spec fn view(&self) -> Machine {
        Machine {
            a: self.a,
            b: self.b,
            c: self.c,
            d: self.d,
            e: self.e,
            h: self.h,
            l: self.l,
            sp: self.sp,
            pc: self.pc,
            cc: self.cc,
            int_enable: self.int_enable,
            mem: self.memory@,
            port: self.port@,
        }
    }
}

impl Default for State8080 {
    /// A machine with every register, flag and byte of memory at zero and
    /// interrupts disabled.
    fn default() -> (state: State8080)
        ensures
            state.wf(),
            state@.a == 0 && state@.b == 0 && state@.c == 0 && state@.d == 0,
            state@.e == 0 && state@.h == 0 && state@.l == 0,
            state@.sp == 0 && state@.pc == 0,
            state@.cc == (ConditionCodes { z: false, s: false, p: false, cy: false, ac: false }),
            !state@.int_enable,
            forall|i: int| 0 <= i < state@.mem.len() ==> state@.mem[i] == 0,
            state@.port == (PortView { shift0: 0, shift1: 0, shift_amount: 0, inputs: Map::empty() }),
    {
        State8080 {
            a: 0,
            b: 0,
            c: 0,
            d: 0,
            e: 0,
            h: 0,
            l: 0,
            sp: 0,
            pc: 0,
            memory: Memory::new(),
            port: Port::new(),
            cc: ConditionCodes { z: false, s: false, p: false, cy: false, ac: false },
            int_enable: false,
        }
    }
}

impl State8080 {
    /// The machine is well formed.
    pub open spec fn wf(&self) -> bool {
        self@.wf()
    }

    /// A CPU write: discarded in ROM, stored elsewhere.
    pub fn write_mem(&mut self, address: u16, value: u8)
        requires
            old(self).wf(),
        ensures
            final(self).wf(),
            final(self)@ == old(self)@.write(address, value),
    {
        self.memory.write_byte(address, value);
    }

    /// The loader's raw store at a physical address.
    pub fn write_rom_mem(&mut self, address: u16, value: u8)
        requires
            old(self).wf(),
            address < MEMORY_SIZE,
        ensures
            final(self).wf(),
            final(self)@ == (Machine {
                mem: old(self)@.mem.update(address as int, value),
                ..old(self)@
            }),
    {
        self.memory.rom_write_byte(address, value)
    }

    /// Loads a ROM image at address 0 upward through the loader's write
    /// path. An image longer than the ROM region is refused and nothing
    /// is written.
    pub fn load_rom(&mut self, image: &[u8]) -> (loaded: bool)
        requires
            old(self).wf(),
        ensures
            final(self).wf(),
            loaded == (image@.len() <= ROM_SIZE),
            loaded ==> final(self)@ == (Machine {
                mem: Seq::new(
                    MEMORY_SIZE as nat,
                    |i: int|
                        if i < image@.len() {
                            image@[i]
                        } else {
                            old(self)@.mem[i]
                        },
                ),
                ..old(self)@
            }),
            !loaded ==> final(self)@ == old(self)@,
    {
        if image.len() > ROM_SIZE {
            return false;
        }
        let mut address: usize = 0;
        while address < image.len()
            invariant
                self.wf(),
                image@.len() <= ROM_SIZE,
                address <= image@.len(),
                self@ == (Machine { mem: self@.mem, ..old(self)@ }),
                forall|i: int| 0 <= i < address ==> self@.mem[i] == image@[i],
                forall|i: int| address <= i < MEMORY_SIZE ==> self@.mem[i] == old(self)@.mem[i],
            decreases image@.len() - address,
        {
            self.write_rom_mem(address as u16, image[address]);
            address = address + 1;
        }
        assert(self@.mem =~= Seq::new(
            MEMORY_SIZE as nat,
            |i: int|
                if i < image@.len() {
                    image@[i]
                } else {
                    old(self)@.mem[i]
                },
        ));
        true
    }

    /// The byte on the bus at `address`.
    pub fn read_mem(&self, address: u16) -> (value: u8)
        requires
            self.wf(),
        ensures
            value == self@.read(address),
    {
        self.memory.read_byte(address)
    }

    /// The register that a lower-case letter names.
    pub fn get_reg(emu8080: &State8080, reg: char) -> (value: u8)
        requires
            is_register_name(reg),
        ensures
            value == emu8080@.named(reg),
    {
        match reg {
            'a' => emu8080.a,
            'b' => emu8080.b,
            'c' => emu8080.c,
            'd' => emu8080.d,
            'e' => emu8080.e,
            'h' => emu8080.h,
            _ => emu8080.l,
        }
    }

    /// The bytes at the physical addresses `start_address..=end_address`.
    pub fn read_mem_chunk(&self, start_address: u16, end_address: u16) -> (chunk: &[u8])
        requires
            self.wf(),
            start_address <= end_address + 1,
            end_address < MEMORY_SIZE,
        ensures
            chunk@ == self@.mem.subrange(start_address as int, end_address + 1),
    {
        self.memory.read_byte_chunk(start_address, end_address)
    }

    pub fn get_pc(&self) -> (pc: u16)
        ensures
            pc == self@.pc,
    {
        self.pc
    }

    pub fn set_pc(&mut self, value: u16)
        ensures
            final(self)@ == (Machine { pc: value, ..old(self)@ }),
    {
        self.pc = value;
    }

    pub fn get_sp(&self) -> (sp: u16)
        ensures
            sp == self@.sp,
    {
        self.sp
    }

    pub fn set_sp(&mut self, value: u16)
        ensures
            final(self)@ == (Machine { sp: value, ..old(self)@ }),
    {
        self.sp = value;
    }

    /// The I/O device.
    pub fn port(&self) -> (port: &Port)
        ensures
            port@ == self@.port,
    {
        &self.port
    }

    /// The five condition flags.
    pub fn flags(&self) -> (cc: ConditionCodes)
        ensures
            cc == self@.cc,
    {
        self.cc
    }

    pub fn set_flags(&mut self, cc: ConditionCodes)
        ensures
            final(self)@ == (Machine { cc, ..old(self)@ }),
    {
        self.cc = cc;
    }

    pub fn set_a(&mut self, value: u8)
        ensures
            final(self)@ == (Machine { a: value, ..old(self)@ }),
    {
        self.a = value;
    }

    /// Sets the bits of `mask` in the latch of input port `number`.
    pub fn set_input_bits(&mut self, number: u8, mask: u8)
        ensures
            final(self)@ == (Machine {
                port: PortView {
                    inputs: old(self)@.port.inputs.insert(
                        number,
                        port_in_latch(old(self)@.port, number) | mask,
                    ),
                    ..old(self)@.port
                },
                ..old(self)@
            }),
    {
        self.port.set_input_bits(number, mask);
    }

    /// Clears the bits of `mask` in the latch of input port `number`.
    pub fn clear_input_bits(&mut self, number: u8, mask: u8)
        ensures
            final(self)@ == (Machine {
                port: PortView {
                    inputs: old(self)@.port.inputs.insert(
                        number,
                        port_in_latch(old(self)@.port, number) & !mask,
                    ),
                    ..old(self)@.port
                },
                ..old(self)@
            }),
    {
        self.port.clear_input_bits(number, mask);
    }

    pub fn interrupt_enabled(&self) -> (enabled: bool)
        ensures
            enabled == self@.int_enable,
    {
        self.int_enable
    }

    pub fn set_interrupt_enabled(&mut self, enabled: bool)
        ensures
            final(self)@ == (Machine { int_enable: enabled, ..old(self)@ }),
    {
        self.int_enable = enabled;
    }
}

/// Writes the flags that `flags_to_set` picks (bit 0 = Z, bit 1 = S,
/// bit 2 = P, bit 3 = CY) from `value` and `carry`.
pub fn update_state(state: &mut State8080, value: u8, carry: bool, flags_to_set: u8)
    ensures
        final(state)@ == (Machine {
            cc: select_flags(old(state)@.cc, value, carry, flags_to_set),
            ..old(state)@
        }),
{
    if flags_to_set & 0b0001 != 0 {
        state.cc.z = value == 0;
    }
    if flags_to_set & 0b0010 != 0 {
        state.cc.s = (value & 0x80) != 0;
        assert(((value & 0x80) != 0) == (value >= 0x80)) by (bit_vector);
    }
    if flags_to_set & 0b0100 != 0 {
        state.cc.p = parity(value);
    }
    if flags_to_set & 0b1000 != 0 {
        state.cc.cy = carry;
    }
}

/// Sends the accumulator to output port `port`.
pub fn machine_out(state: &mut State8080, port: u8)
    requires
        old(state).wf(),
    ensures
        final(state).wf(),
        final(state)@ == (Machine {
            port: port_out(old(state)@.port, port, old(state)@.a),
            ..old(state)@
        }),
{
    match port {
        2 => {
            let a = state.a;
            assert(a & 0x07 <= 7) by (bit_vector);
            state.port.write2 = a & 0x07;
        },
        4 => {
            state.port.shift0 = state.port.shift1;
            state.port.shift1 = state.a;
        },
        _ => {},
    }
}

/// The byte that input port `port` delivers.
pub fn machine_in(state: &State8080, port: u8) -> (value: u8)
    requires
        state.wf(),
    ensures
        value == port_in(state@.port, port),
{
    match port {
        1 => state.port.latched(1),
        3 => {
            let v: u16 = make_word(state.port.shift1, state.port.shift0);
            let shift: u16 = (8 - state.port.write2) as u16;
            assert(((v >> shift) & 0xFF) <= 0xFF) by (bit_vector);
            ((v >> shift) & 0xFF) as u8
        },
        _ => 0,
    }
}

/// Pushes two bytes: `high_byte` at SP-1, `low_byte` at SP-2, and lowers
/// SP by 2.
pub fn push(state: &mut State8080, high_byte: u8, low_byte: u8)
    requires
        old(state).wf(),
    ensures
        final(state).wf(),
        final(state)@ == old(state)@.pushed(word(high_byte, low_byte)),
{
    let sp = state.sp;
    state.memory.write_byte(sp.wrapping_sub(1), high_byte);
    state.memory.write_byte(sp.wrapping_sub(2), low_byte);
    state.sp = sp.wrapping_sub(2);
}

/// Requests interrupt `interrupt_num`. If interrupts are enabled, PC is
/// pushed, PC becomes `8 * interrupt_num` and interrupts are disabled;
/// otherwise the request is lost.
pub fn generate_interrupt(state: &mut State8080, interrupt_num: u8)
    requires
        old(state).wf(),
    ensures
        final(state).wf(),
        final(state)@ == old(state)@.interrupt(interrupt_num),
{
    if state.int_enable {
        let pc = state.pc;
        push(state, high_byte(pc), low_byte(pc));
        state.pc = 8 * (interrupt_num as u16);
        state.int_enable = false;
    }
}

/// Adds `v` and the carry-in to the accumulator.
fn add_to_a(state: &mut State8080, v: u8, carry_in: bool)
    ensures
        final(state)@ == old(state)@.with_alu(add_result(old(state)@.cc, old(state)@.a, v, carry_in)),
{
    let a = state.a;
    let c: u8 = if carry_in { 1 } else { 0 };
    let sum: u16 = a as u16 + v as u16 + c as u16;
    let result = low_byte(sum);
    let ac = low_digit(a) + low_digit(v) + c > 0x0F;
    proof {
        lemma_select_flags(state.cc, result, sum > 0xFF);
    }
    update_state(state, result, sum > 0xFF, 0b1111);
    state.cc.ac = ac;
    state.a = result;
}

/// Sets the flags of `a - v - borrow_in` and returns the difference.
fn subtract(state: &mut State8080, v: u8, borrow_in: bool) -> (result: u8)
    ensures
        result == sub_result(old(state)@.cc, old(state)@.a, v, borrow_in).value,
        final(state)@ == (Machine {
            cc: sub_result(old(state)@.cc, old(state)@.a, v, borrow_in).cc,
            ..old(state)@
        }),
{
    let a = state.a;
    let b: u8 = if borrow_in { 1 } else { 0 };
    let borrow = (a as u16) < v as u16 + b as u16;
    let result = a.wrapping_sub(v).wrapping_sub(b);
    let ac = low_digit(a) >= low_digit(v) + b;
    proof {
        lemma_select_flags(state.cc, result, borrow);
    }
    update_state(state, result, borrow, 0b1111);
    state.cc.ac = ac;
    result
}

/// Stores a bitwise result in the accumulator: CY is cleared, AC is set
/// as given.
fn store_logic(state: &mut State8080, result: u8, ac: bool)
    ensures
        final(state)@ == old(state)@.with_alu(logic_result(old(state)@.cc, result, ac)),
{
    proof {
        lemma_select_flags(state.cc, result, false);
    }
    update_state(state, result, false, 0b1111);
    state.cc.ac = ac;
    state.a = result;
}

/// One of the eight accumulator operations with operand `v`.
fn alu_op(state: &mut State8080, op: AluOp, v: u8)
    ensures
        final(state)@ == old(state)@.with_alu(alu(op, old(state)@.cc, old(state)@.a, v)),
{
    let a = state.a;
    let cy = state.cc.cy;
    match op {
        AluOp::Add => add_to_a(state, v, false),
        AluOp::Adc => add_to_a(state, v, cy),
        AluOp::Sub => {
            let result = subtract(state, v, false);
            state.a = result;
        },
        AluOp::Sbb => {
            let result = subtract(state, v, cy);
            state.a = result;
        },
        AluOp::Ana => store_logic(state, a & v, ((a | v) & 0x08) != 0),
        AluOp::Xra => store_logic(state, a ^ v, false),
        AluOp::Ora => store_logic(state, a | v, false),
        AluOp::Compare => {
            let _ = subtract(state, v, false);
        },
    }
}

/// Sets Z, S, P and AC for `v + 1` and returns it.
fn increment(state: &mut State8080, v: u8) -> (result: u8)
    ensures
        result == inr_result(old(state)@.cc, v).value,
        final(state)@ == (Machine { cc: inr_result(old(state)@.cc, v).cc, ..old(state)@ }),
{
    let result = v.wrapping_add(1);
    proof {
        lemma_select_flags(state.cc, result, false);
    }
    update_state(state, result, false, 0b0111);
    state.cc.ac = low_digit(result) == 0;
    result
}

/// Sets Z, S, P and AC for `v - 1` and returns it.
fn decrement(state: &mut State8080, v: u8) -> (result: u8)
    ensures
        result == dcr_result(old(state)@.cc, v).value,
        final(state)@ == (Machine { cc: dcr_result(old(state)@.cc, v).cc, ..old(state)@ }),
{
    let result = v.wrapping_sub(1);
    proof {
        lemma_select_flags(state.cc, result, false);
    }
    update_state(state, result, false, 0b0111);
    state.cc.ac = low_digit(result) != 0x0F;
    result
}

/// Adds `w` to HL; only CY is written.
fn dad(state: &mut State8080, w: u16)
    ensures
        final(state)@ == (Machine {
            cc: ConditionCodes { cy: old(state)@.hl() + w > 0xFFFF, ..old(state)@.cc },
            ..old(state)@.with_pair(Pair::HL, wrap16(old(state)@.hl() + w))
        }),
{
    let hl = make_word(state.h, state.l);
    let carry = hl as u32 + w as u32 > 0xFFFF;
    let result = hl.wrapping_add(w);
    state.h = high_byte(result);
    state.l = low_byte(result);
    proof {
        lemma_select_flags(state.cc, 0, carry);
    }
    update_state(state, 0, carry, 0b1000);
}

/// The decimal-adjusted accumulator with the CY and AC that come with it.
fn decimal_adjust(cc: ConditionCodes, a: u8) -> (r: (u8, bool, bool))
    ensures
        r.0 == daa_result(cc, a).value,
        r.1 == daa_result(cc, a).cc.cy,
        r.2 == daa_result(cc, a).cc.ac,
{
    let low_fix: u16 = if cc.ac || low_digit(a) > 9 { 0x06 } else { 0 };
    let mid: u16 = a as u16 + low_fix;
    let carry = cc.cy || mid > 0x9F;
    let high_fix: u16 = if carry { 0x60 } else { 0 };
    let result = low_byte(mid + high_fix);
    let ac = low_digit(a) as u16 + low_fix > 0x0F;
    assert((mid as int / 16 > 9) == (mid > 0x9F));
    (result, carry, ac)
}

/// Decimal adjust of the accumulator.
fn daa(state: &mut State8080)
    requires
        old(state).wf(),
    ensures
        final(state).wf(),
        final(state)@ == old(state)@.execute(Instr::Daa),
{
    let ghost m = state@;
    assert(m.execute(Instr::Daa) == m.with_alu(daa_result(m.cc, m.a))) by {
        reveal(Machine::execute);
    }
    let (result, carry, ac) = decimal_adjust(state.cc, state.a);
    proof {
        lemma_select_flags(state.cc, result, carry);
    }
    update_state(state, result, carry, 0b1111);
    state.cc.ac = ac;
    state.a = result;
}

/// Rotates the accumulator left; bit 7 goes to bit 0 and to CY.
fn rlc(state: &mut State8080)
    requires
        old(state).wf(),
    ensures
        final(state).wf(),
        final(state)@ == old(state)@.execute(Instr::Rlc),
{
    let ghost m = state@;
    assert(m.execute(Instr::Rlc) == (Machine {
            a: wrap8(2 * m.a + m.a / 0x80),
            cc: ConditionCodes { cy: m.a >= 0x80, ..m.cc },
            ..m
        })) by {
        reveal(Machine::execute);
    }
    let a = state.a;
    assert((((a << 1) | ((a & 0x80) >> 7)) as int == (2 * a + a / 0x80) % 0x100) && (((a & 0x80)
        >> 7) != 0) == (a >= 0x80)) by (bit_vector);
    let carry = (a & 0x80) >> 7;
    state.a = (a << 1) | carry;
    state.cc.cy = carry != 0;
}

/// Rotates the accumulator right; bit 0 goes to bit 7 and to CY.
fn rrc(state: &mut State8080)
    requires
        old(state).wf(),
    ensures
        final(state).wf(),
        final(state)@ == old(state)@.execute(Instr::Rrc),
{
    let ghost m = state@;
    assert(m.execute(Instr::Rrc) == (Machine {
            a: (m.a / 2 + 0x80 * (m.a % 2)) as u8,
            cc: ConditionCodes { cy: m.a % 2 == 1, ..m.cc },
            ..m
        })) by {
        reveal(Machine::execute);
    }
    let a = state.a;
    assert((((a >> 1) | ((a & 0x01) << 7)) as int == a / 2 + 0x80 * (a % 2)) && ((a & 0x01) != 0)
        == (a % 2 == 1)) by (bit_vector);
    let carry = a & 0x01;
    state.a = (a >> 1) | (carry << 7);
    state.cc.cy = carry != 0;
}

/// Rotates the accumulator left through CY.
fn ral(state: &mut State8080)
    requires
        old(state).wf(),
    ensures
        final(state).wf(),
        final(state)@ == old(state)@.execute(Instr::Ral),
{
    let ghost m = state@;
    assert(m.execute(Instr::Ral) == (Machine {
            a: wrap8(2 * m.a + bit(m.cc.cy)),
            cc: ConditionCodes { cy: m.a >= 0x80, ..m.cc },
            ..m
        })) by {
        reveal(Machine::execute);
    }
    let a = state.a;
    let carry_in: u8 = if state.cc.cy { 1 } else { 0 };
    assert((((a << 1) | carry_in) as int == (2 * a + carry_in) % 0x100) && ((a & 0x80) != 0) == (a
        >= 0x80)) by (bit_vector)
        requires
            carry_in <= 1,
    ;
    state.cc.cy = (a & 0x80) != 0;
    state.a = (a << 1) | carry_in;
}

/// Rotates the accumulator right through CY.
fn rar(state: &mut State8080)
    requires
        old(state).wf(),
    ensures
        final(state).wf(),
        final(state)@ == old(state)@.execute(Instr::Rar),
{
    let ghost m = state@;
    assert(m.execute(Instr::Rar) == (Machine {
            a: (m.a / 2 + 0x80 * bit(m.cc.cy)) as u8,
            cc: ConditionCodes { cy: m.a % 2 == 1, ..m.cc },
            ..m
        })) by {
        reveal(Machine::execute);
    }
    let a = state.a;
    let carry_in: u8 = if state.cc.cy { 1 } else { 0 };
    assert((((carry_in << 7) | (a >> 1)) as int == a / 2 + 0x80 * carry_in) && ((a & 0x01) != 0)
        == (a % 2 == 1)) by (bit_vector)
        requires
            carry_in <= 1,
    ;
    state.cc.cy = (a & 0x01) != 0;
    state.a = (carry_in << 7) | (a >> 1);
}

/// Complements the accumulator.
fn cma(state: &mut State8080)
    requires
        old(state).wf(),
    ensures
        final(state).wf(),
        final(state)@ == old(state)@.execute(Instr::Cma),
{
    let ghost m = state@;
    assert(m.execute(Instr::Cma) == (Machine { a: (0xFF - m.a) as u8, ..m })) by {
        reveal(Machine::execute);
    }
    let a = state.a;
    assert((!a) as int == 0xFF - a) by (bit_vector);
    state.a = !a;
}

/// Takes the top word off the stack.
fn pop_word(state: &mut State8080) -> (w: u16)
    requires
        old(state).wf(),
    ensures
        w == old(state)@.top(),
        final(state)@ == old(state)@.dropped(),
{
    let lo = state.memory.read_byte(state.sp);
    let hi = state.memory.read_byte(state.sp.wrapping_add(1));
    state.sp = state.sp.wrapping_add(2);
    make_word(hi, lo)
}

/// Jumps to `target` if `taken`, and skips the operand if not.
fn jump_if(state: &mut State8080, taken: bool, target: u16)
    ensures
        final(state)@ == old(state)@.jump(taken, target),
{
    if taken {
        state.pc = target;
    } else {
        state.pc = state.pc.wrapping_add(2);
    }
}

/// Calls `target` if `taken`, and skips the operand if not.
fn call_if(state: &mut State8080, taken: bool, target: u16)
    requires
        old(state).wf(),
    ensures
        final(state).wf(),
        final(state)@ == old(state)@.call(taken, target),
{
    if taken {
        let ret = state.pc.wrapping_add(2);
        push(state, high_byte(ret), low_byte(ret));
        state.pc = target;
    } else {
        state.pc = state.pc.wrapping_add(2);
    }
}

/// Returns if `taken`.
fn return_if(state: &mut State8080, taken: bool)
    requires
        old(state).wf(),
    ensures
        final(state).wf(),
        final(state)@ == old(state)@.ret(taken),
{
    if taken {
        let target = pop_word(state);
        state.pc = target;
    }
}

/// Calls the fixed vector `8 * n`.
fn restart(state: &mut State8080, n: u8)
    requires
        old(state).wf(),
        n <= 7,
    ensures
        final(state).wf(),
        final(state)@ == old(state)@.execute(Instr::Rst(n)),
{
    let ghost m = state@;
    assert(m.execute(Instr::Rst(n)) == (Machine { pc: (8 * n) as u16, ..m.pushed(m.pc) })) by {
        reveal(Machine::execute);
    }
    let pc = state.pc;
    push(state, high_byte(pc), low_byte(pc));
    state.pc = 8 * (n as u16);
}

/// Swaps HL with the word on top of the stack.
fn xthl(state: &mut State8080)
    requires
        old(state).wf(),
    ensures
        final(state).wf(),
        final(state)@ == old(state)@.execute(Instr::Xthl),
{
    let ghost m = state@;
    assert(m.execute(Instr::Xthl) == m.with_pair(Pair::HL, m.top()).write_word(m.sp, m.hl())) by {
        reveal(Machine::execute);
    }
    let sp = state.sp;
    let old_hl = make_word(state.h, state.l);
    let l = state.memory.read_byte(sp);
    let h = state.memory.read_byte(sp.wrapping_add(1));
    let top = make_word(h, l);
    state.memory.write_byte(sp, low_byte(old_hl));
    state.memory.write_byte(sp.wrapping_add(1), high_byte(old_hl));
    state.set_pair(Pair::HL, top);
}

impl State8080 {
    /// The value of an 8-bit operand.
    fn operand(&self, r: Reg) -> (value: u8)
        requires
            self.wf(),
        ensures
            value == self@.reg(r),
    {
        match r {
            Reg::B => self.b,
            Reg::C => self.c,
            Reg::D => self.d,
            Reg::E => self.e,
            Reg::H => self.h,
            Reg::L => self.l,
            Reg::M => self.memory.read_byte(make_word(self.h, self.l)),
            Reg::A => self.a,
        }
    }

    /// Sets an 8-bit operand.
    fn set_operand(&mut self, r: Reg, value: u8)
        requires
            old(self).wf(),
        ensures
            final(self).wf(),
            final(self)@ == old(self)@.with_reg(r, value),
    {
        match r {
            Reg::B => self.b = value,
            Reg::C => self.c = value,
            Reg::D => self.d = value,
            Reg::E => self.e = value,
            Reg::H => self.h = value,
            Reg::L => self.l = value,
            Reg::M => self.memory.write_byte(make_word(self.h, self.l), value),
            Reg::A => self.a = value,
        }
    }

    /// The value of a 16-bit operand.
    fn pair(&self, p: Pair) -> (value: u16)
        ensures
            value == self@.pair(p),
    {
        match p {
            Pair::BC => make_word(self.b, self.c),
            Pair::DE => make_word(self.d, self.e),
            Pair::HL => make_word(self.h, self.l),
            Pair::SP => self.sp,
        }
    }

    /// Sets a 16-bit operand.
    fn set_pair(&mut self, p: Pair, value: u16)
        ensures
            final(self)@ == old(self)@.with_pair(p, value),
    {
        match p {
            Pair::BC => {
                self.b = high_byte(value);
                self.c = low_byte(value);
            },
            Pair::DE => {
                self.d = high_byte(value);
                self.e = low_byte(value);
            },
            Pair::HL => {
                self.h = high_byte(value);
                self.l = low_byte(value);
            },
            Pair::SP => self.sp = value,
        }
    }

    /// Whether a branch condition holds.
    fn holds(&self, cond: Cond) -> (yes: bool)
        ensures
            yes == cond_holds(self@.cc, cond),
    {
        match cond {
            Cond::NotZero => !self.cc.z,
            Cond::Zero => self.cc.z,
            Cond::NoCarry => !self.cc.cy,
            Cond::Carry => self.cc.cy,
            Cond::ParityOdd => !self.cc.p,
            Cond::ParityEven => self.cc.p,
            Cond::Plus => !self.cc.s,
            Cond::Minus => self.cc.s,
        }
    }

    /// Moves PC forward by `n`.
    fn skip(&mut self, n: u16)
        ensures
            final(self)@ == old(self)@.skip(n as int),
    {
        self.pc = self.pc.wrapping_add(n);
    }
}

/// `NOP`.
fn nop(state: &mut State8080)
    requires
        old(state).wf(),
    ensures
        final(state).wf(),
        final(state)@ == old(state)@.execute(Instr::Nop),
{
    let ghost m = state@;
    assert(m.execute(Instr::Nop) == m) by {
        reveal(Machine::execute);
    }
}

/// `LXI`: loads a register pair with the immediate word.
fn lxi(state: &mut State8080, p: Pair, lo: u8, hi: u8)
    requires
        old(state).wf(),
        old(state)@.operands(lo, hi),
    ensures
        final(state).wf(),
        final(state)@ == old(state)@.execute(Instr::Lxi(p)),
{
    let ghost m = state@;
    assert(m.execute(Instr::Lxi(p)) == m.with_pair(p, m.imm16()).skip(2)) by {
        reveal(Machine::execute);
    }
    state.set_pair(p, make_word(hi, lo));
    state.skip(2);
}

/// `DAD`: adds a register pair to HL.
fn dad_pair(state: &mut State8080, p: Pair)
    requires
        old(state).wf(),
    ensures
        final(state).wf(),
        final(state)@ == old(state)@.execute(Instr::Dad(p)),
{
    let ghost m = state@;
    assert(m.execute(Instr::Dad(p)) == (Machine {
            cc: ConditionCodes { cy: m.hl() + m.pair(p) > 0xFFFF, ..m.cc },
            ..m.with_pair(Pair::HL, wrap16(m.hl() + m.pair(p)))
        })) by {
        reveal(Machine::execute);
    }
    let w = state.pair(p);
    dad(state, w);
}

/// `STAX`: stores the accumulator at the address in a register pair.
fn stax(state: &mut State8080, p: Pair)
    requires
        old(state).wf(),
    ensures
        final(state).wf(),
        final(state)@ == old(state)@.execute(Instr::Stax(p)),
{
    let ghost m = state@;
    assert(m.execute(Instr::Stax(p)) == m.write(m.pair(p), m.a)) by {
        reveal(Machine::execute);
    }
    let address = state.pair(p);
    state.memory.write_byte(address, state.a);
}

/// `LDAX`: loads the accumulator from the address in a register pair.
fn ldax(state: &mut State8080, p: Pair)
    requires
        old(state).wf(),
    ensures
        final(state).wf(),
        final(state)@ == old(state)@.execute(Instr::Ldax(p)),
{
    let ghost m = state@;
    assert(m.execute(Instr::Ldax(p)) == (Machine { a: m.read(m.pair(p)), ..m })) by {
        reveal(Machine::execute);
    }
    let address = state.pair(p);
    state.a = state.memory.read_byte(address);
}

/// `SHLD`: stores L and H at the immediate address and the one after.
fn shld(state: &mut State8080, lo: u8, hi: u8)
    requires
        old(state).wf(),
        old(state)@.operands(lo, hi),
    ensures
        final(state).wf(),
        final(state)@ == old(state)@.execute(Instr::Shld),
{
    let ghost m = state@;
    assert(m.execute(Instr::Shld) == m.write_word(m.imm16(), m.hl()).skip(2)) by {
        reveal(Machine::execute);
    }
    let address = make_word(hi, lo);
    state.memory.write_byte(address, state.l);
    state.memory.write_byte(address.wrapping_add(1), state.h);
    state.skip(2);
}

/// `LHLD`: loads L and H from the immediate address and the one after.
fn lhld(state: &mut State8080, lo: u8, hi: u8)
    requires
        old(state).wf(),
        old(state)@.operands(lo, hi),
    ensures
        final(state).wf(),
        final(state)@ == old(state)@.execute(Instr::Lhld),
{
    let ghost m = state@;
    assert(m.execute(Instr::Lhld) == m.with_pair(Pair::HL, m.read_word(m.imm16())).skip(2)) by {
        reveal(Machine::execute);
    }
    let address = make_word(hi, lo);
    state.l = state.memory.read_byte(address);
    state.h = state.memory.read_byte(address.wrapping_add(1));
    state.skip(2);
}

/// `STA`: stores the accumulator at the immediate address.
fn sta(state: &mut State8080, lo: u8, hi: u8)
    requires
        old(state).wf(),
        old(state)@.operands(lo, hi),
    ensures
        final(state).wf(),
        final(state)@ == old(state)@.execute(Instr::Sta),
{
    let ghost m = state@;
    assert(m.execute(Instr::Sta) == m.write(m.imm16(), m.a).skip(2)) by {
        reveal(Machine::execute);
    }
    let address = make_word(hi, lo);
    state.memory.write_byte(address, state.a);
    state.skip(2);
}

/// `LDA`: loads the accumulator from the immediate address.
fn lda(state: &mut State8080, lo: u8, hi: u8)
    requires
        old(state).wf(),
        old(state)@.operands(lo, hi),
    ensures
        final(state).wf(),
        final(state)@ == old(state)@.execute(Instr::Lda),
{
    let ghost m = state@;
    assert(m.execute(Instr::Lda) == (Machine { a: m.read(m.imm16()), ..m }).skip(2)) by {
        reveal(Machine::execute);
    }
    let address = make_word(hi, lo);
    state.a = state.memory.read_byte(address);
    state.skip(2);
}

/// `INX`: adds 1 to a register pair; no flag is written.
fn inx(state: &mut State8080, p: Pair)
    requires
        old(state).wf(),
    ensures
        final(state).wf(),
        final(state)@ == old(state)@.execute(Instr::Inx(p)),
{
    let ghost m = state@;
    assert(m.execute(Instr::Inx(p)) == m.with_pair(p, wrap16(m.pair(p) + 1))) by {
        reveal(Machine::execute);
    }
    let w = state.pair(p).wrapping_add(1);
    state.set_pair(p, w);
}

/// `DCX`: takes 1 from a register pair; no flag is written.
fn dcx(state: &mut State8080, p: Pair)
    requires
        old(state).wf(),
    ensures
        final(state).wf(),
        final(state)@ == old(state)@.execute(Instr::Dcx(p)),
{
    let ghost m = state@;
    assert(m.execute(Instr::Dcx(p)) == m.with_pair(p, wrap16(m.pair(p) - 1))) by {
        reveal(Machine::execute);
    }
    let w = state.pair(p).wrapping_sub(1);
    state.set_pair(p, w);
}

/// `INR`: adds 1 to an 8-bit operand; CY is kept.
fn inr(state: &mut State8080, r: Reg)
    requires
        old(state).wf(),
    ensures
        final(state).wf(),
        final(state)@ == old(state)@.execute(Instr::Inr(r)),
{
    let ghost m = state@;
    assert(m.execute(Instr::Inr(r)) == (Machine {
            cc: inr_result(m.cc, m.reg(r)).cc,
            ..m.with_reg(r, inr_result(m.cc, m.reg(r)).value)
        })) by {
        reveal(Machine::execute);
    }
    let v = state.operand(r);
    let result = increment(state, v);
    state.set_operand(r, result);
}

/// `DCR`: takes 1 from an 8-bit operand; CY is kept.
fn dcr(state: &mut State8080, r: Reg)
    requires
        old(state).wf(),
    ensures
        final(state).wf(),
        final(state)@ == old(state)@.execute(Instr::Dcr(r)),
{
    let ghost m = state@;
    assert(m.execute(Instr::Dcr(r)) == (Machine {
            cc: dcr_result(m.cc, m.reg(r)).cc,
            ..m.with_reg(r, dcr_result(m.cc, m.reg(r)).value)
        })) by {
        reveal(Machine::execute);
    }
    let v = state.operand(r);
    let result = decrement(state, v);
    state.set_operand(r, result);
}

/// `MVI`: loads an 8-bit operand with the immediate byte.
fn mvi(state: &mut State8080, r: Reg, lo: u8)
    requires
        old(state).wf(),
        lo == old(state)@.imm8(),
    ensures
        final(state).wf(),
        final(state)@ == old(state)@.execute(Instr::Mvi(r)),
{
    let ghost m = state@;
    assert(m.execute(Instr::Mvi(r)) == m.with_reg(r, m.imm8()).skip(1)) by {
        reveal(Machine::execute);
    }
    state.set_operand(r, lo);
    state.skip(1);
}

/// `STC`: sets CY.
fn stc(state: &mut State8080)
    requires
        old(state).wf(),
    ensures
        final(state).wf(),
        final(state)@ == old(state)@.execute(Instr::Stc),
{
    let ghost m = state@;
    assert(m.execute(Instr::Stc) == (Machine { cc: ConditionCodes { cy: true, ..m.cc }, ..m })) by {
        reveal(Machine::execute);
    }
    state.cc.cy = true;
}

/// `CMC`: complements CY.
fn cmc(state: &mut State8080)
    requires
        old(state).wf(),
    ensures
        final(state).wf(),
        final(state)@ == old(state)@.execute(Instr::Cmc),
{
    let ghost m = state@;
    assert(m.execute(Instr::Cmc) == (Machine { cc: ConditionCodes { cy: !m.cc.cy, ..m.cc }, ..m })) by {
        reveal(Machine::execute);
    }
    state.cc.cy = !state.cc.cy;
}

/// `MOV`: copies one 8-bit operand to another.
fn mov(state: &mut State8080, dst: Reg, src: Reg)
    requires
        old(state).wf(),
    ensures
        final(state).wf(),
        final(state)@ == old(state)@.execute(Instr::Mov(dst, src)),
{
    let ghost m = state@;
    assert(m.execute(Instr::Mov(dst, src)) == m.with_reg(dst, m.reg(src))) by {
        reveal(Machine::execute);
    }
    let v = state.operand(src);
    state.set_operand(dst, v);
}

/// An accumulator operation on an 8-bit operand.
fn alu_reg(state: &mut State8080, op: AluOp, r: Reg)
    requires
        old(state).wf(),
    ensures
        final(state).wf(),
        final(state)@ == old(state)@.execute(Instr::Alu(op, r)),
{
    let ghost m = state@;
    assert(m.execute(Instr::Alu(op, r)) == m.with_alu(alu(op, m.cc, m.a, m.reg(r)))) by {
        reveal(Machine::execute);
    }
    let v = state.operand(r);
    alu_op(state, op, v);
}

/// An accumulator operation on the immediate byte.
fn alu_imm(state: &mut State8080, op: AluOp, lo: u8)
    requires
        old(state).wf(),
        lo == old(state)@.imm8(),
    ensures
        final(state).wf(),
        final(state)@ == old(state)@.execute(Instr::AluImm(op)),
{
    let ghost m = state@;
    assert(m.execute(Instr::AluImm(op)) == m.with_alu(alu(op, m.cc, m.a, m.imm8())).skip(1)) by {
        reveal(Machine::execute);
    }
    alu_op(state, op, lo);
    state.skip(1);
}

/// `Rcc`: returns if the condition holds.
fn ret_cond(state: &mut State8080, cond: Cond)
    requires
        old(state).wf(),
    ensures
        final(state).wf(),
        final(state)@ == old(state)@.execute(Instr::RetIf(cond)),
{
    let ghost m = state@;
    assert(m.execute(Instr::RetIf(cond)) == m.ret(cond_holds(m.cc, cond))) by {
        reveal(Machine::execute);
    }
    let taken = state.holds(cond);
    return_if(state, taken);
}

/// `RET`.
fn ret(state: &mut State8080)
    requires
        old(state).wf(),
    ensures
        final(state).wf(),
        final(state)@ == old(state)@.execute(Instr::Ret),
{
    let ghost m = state@;
    assert(m.execute(Instr::Ret) == m.ret(true)) by {
        reveal(Machine::execute);
    }
    return_if(state, true);
}

/// `POP`: loads a stack operand from the top of the stack.
fn pop(state: &mut State8080, p: StackPair)
    requires
        old(state).wf(),
    ensures
        final(state).wf(),
        final(state)@ == old(state)@.execute(Instr::Pop(p)),
{
    let ghost m = state@;
    assert(m.execute(Instr::Pop(p)) == m.with_stack_pair(p, m.top()).dropped()) by {
        reveal(Machine::execute);
    }
    let w = pop_word(state);
    match p {
        StackPair::BC => state.set_pair(Pair::BC, w),
        StackPair::DE => state.set_pair(Pair::DE, w),
        StackPair::HL => state.set_pair(Pair::HL, w),
        StackPair::PSW => {
            state.a = high_byte(w);
            state.cc = unpack_flags(low_byte(w));
        },
    }
}

/// `PCHL`: jumps to the address in HL.
fn pchl(state: &mut State8080)
    requires
        old(state).wf(),
    ensures
        final(state).wf(),
        final(state)@ == old(state)@.execute(Instr::Pchl),
{
    let ghost m = state@;
    assert(m.execute(Instr::Pchl) == (Machine { pc: m.hl(), ..m })) by {
        reveal(Machine::execute);
    }
    state.pc = make_word(state.h, state.l);
}

/// `SPHL`: loads SP from HL.
fn sphl(state: &mut State8080)
    requires
        old(state).wf(),
    ensures
        final(state).wf(),
        final(state)@ == old(state)@.execute(Instr::Sphl),
{
    let ghost m = state@;
    assert(m.execute(Instr::Sphl) == (Machine { sp: m.hl(), ..m })) by {
        reveal(Machine::execute);
    }
    state.sp = make_word(state.h, state.l);
}

/// `Jcc`: jumps to the immediate address if the condition holds.
fn jump_cond(state: &mut State8080, cond: Cond, lo: u8, hi: u8)
    requires
        old(state).wf(),
        old(state)@.operands(lo, hi),
    ensures
        final(state).wf(),
        final(state)@ == old(state)@.execute(Instr::JmpIf(cond)),
{
    let ghost m = state@;
    assert(m.execute(Instr::JmpIf(cond)) == m.jump(cond_holds(m.cc, cond), m.imm16())) by {
        reveal(Machine::execute);
    }
    let taken = state.holds(cond);
    jump_if(state, taken, make_word(hi, lo));
}

/// `JMP`.
fn jmp(state: &mut State8080, lo: u8, hi: u8)
    requires
        old(state).wf(),
        old(state)@.operands(lo, hi),
    ensures
        final(state).wf(),
        final(state)@ == old(state)@.execute(Instr::Jmp),
{
    let ghost m = state@;
    assert(m.execute(Instr::Jmp) == m.jump(true, m.imm16())) by {
        reveal(Machine::execute);
    }
    jump_if(state, true, make_word(hi, lo));
}

/// `OUT`: sends the accumulator to the port that the immediate byte names.
fn out_port(state: &mut State8080, lo: u8)
    requires
        old(state).wf(),
        lo == old(state)@.imm8(),
    ensures
        final(state).wf(),
        final(state)@ == old(state)@.execute(Instr::Out),
{
    let ghost m = state@;
    assert(m.execute(Instr::Out) == (Machine { port: port_out(m.port, m.imm8(), m.a), ..m }).skip(1)) by {
        reveal(Machine::execute);
    }
    machine_out(state, lo);
    state.skip(1);
}

/// `IN`: loads the accumulator from the port that the immediate byte names.
fn in_port(state: &mut State8080, lo: u8)
    requires
        old(state).wf(),
        lo == old(state)@.imm8(),
    ensures
        final(state).wf(),
        final(state)@ == old(state)@.execute(Instr::In),
{
    let ghost m = state@;
    assert(m.execute(Instr::In) == (Machine { a: port_in(m.port, m.imm8()), ..m }).skip(1)) by {
        reveal(Machine::execute);
    }
    state.a = machine_in(state, lo);
    state.skip(1);
}

/// `XCHG`: swaps DE and HL.
fn xchg(state: &mut State8080)
    requires
        old(state).wf(),
    ensures
        final(state).wf(),
        final(state)@ == old(state)@.execute(Instr::Xchg),
{
    let ghost m = state@;
    assert(m.execute(Instr::Xchg) == (Machine { d: m.h, e: m.l, h: m.d, l: m.e, ..m })) by {
        reveal(Machine::execute);
    }
    let d = state.d;
    let e = state.e;
    state.d = state.h;
    state.e = state.l;
    state.h = d;
    state.l = e;
}

/// `DI`: disables interrupts.
fn di(state: &mut State8080)
    requires
        old(state).wf(),
    ensures
        final(state).wf(),
        final(state)@ == old(state)@.execute(Instr::Di),
{
    let ghost m = state@;
    assert(m.execute(Instr::Di) == (Machine { int_enable: false, ..m })) by {
        reveal(Machine::execute);
    }
    state.int_enable = false;
}

/// `EI`: enables interrupts.
fn ei(state: &mut State8080)
    requires
        old(state).wf(),
    ensures
        final(state).wf(),
        final(state)@ == old(state)@.execute(Instr::Ei),
{
    let ghost m = state@;
    assert(m.execute(Instr::Ei) == (Machine { int_enable: true, ..m })) by {
        reveal(Machine::execute);
    }
    state.int_enable = true;
}

/// `Ccc`: calls the immediate address if the condition holds.
fn call_cond(state: &mut State8080, cond: Cond, lo: u8, hi: u8)
    requires
        old(state).wf(),
        old(state)@.operands(lo, hi),
    ensures
        final(state).wf(),
        final(state)@ == old(state)@.execute(Instr::CallIf(cond)),
{
    let ghost m = state@;
    assert(m.execute(Instr::CallIf(cond)) == m.call(cond_holds(m.cc, cond), m.imm16())) by {
        reveal(Machine::execute);
    }
    let taken = state.holds(cond);
    call_if(state, taken, make_word(hi, lo));
}

/// `CALL`.
fn call(state: &mut State8080, lo: u8, hi: u8)
    requires
        old(state).wf(),
        old(state)@.operands(lo, hi),
    ensures
        final(state).wf(),
        final(state)@ == old(state)@.execute(Instr::Call),
{
    let ghost m = state@;
    assert(m.execute(Instr::Call) == m.call(true, m.imm16())) by {
        reveal(Machine::execute);
    }
    call_if(state, true, make_word(hi, lo));
}

/// `PUSH`: pushes a stack operand.
fn push_pair(state: &mut State8080, p: StackPair)
    requires
        old(state).wf(),
    ensures
        final(state).wf(),
        final(state)@ == old(state)@.execute(Instr::Push(p)),
{
    let ghost m = state@;
    assert(m.execute(Instr::Push(p)) == m.pushed(m.stack_pair(p))) by {
        reveal(Machine::execute);
    }
    match p {
        StackPair::BC => push(state, state.b, state.c),
        StackPair::DE => push(state, state.d, state.e),
        StackPair::HL => push(state, state.h, state.l),
        StackPair::PSW => push(state, state.a, pack_flags(state.cc)),
    }
}

/// Whether the interpreter executes `opcode`: every opcode but `HLT` and
/// the twelve to which the 8080 assigns no instruction.
pub fn is_implemented(opcode: u8) -> (yes: bool)
    ensures
        yes == implemented(opcode),
{
    !(opcode == 0x08 || opcode == 0x10 || opcode == 0x18 || opcode == 0x20 || opcode == 0x28
        || opcode == 0x30 || opcode == 0x38 || opcode == 0x76 || opcode == 0xCB || opcode == 0xD9
        || opcode == 0xDD || opcode == 0xED || opcode == 0xFD)
}

/// Opcodes `0x00..=0x3F`: transfers, 16-bit arithmetic, increments and
/// rotates.
#[verifier::rlimit(40)]
fn run_low(state: &mut State8080, opcode: u8, lo: u8, hi: u8)
    requires
        old(state).wf(),
        implemented(opcode),
        opcode < 0x40,
        old(state)@.operands(lo, hi),
    ensures
        final(state).wf(),
        final(state)@ == old(state)@.execute(decode(opcode)),
{
    match opcode {
        0x00 => nop(state),                                 // NOP
        0x01 => lxi(state, Pair::BC, lo, hi),               // LXI B,d16
        0x02 => stax(state, Pair::BC),                      // STAX B
        0x03 => inx(state, Pair::BC),                       // INX B
        0x04 => inr(state, Reg::B),                         // INR B
        0x05 => dcr(state, Reg::B),                         // DCR B
        0x06 => mvi(state, Reg::B, lo),                     // MVI B,d8
        0x07 => rlc(state),                                 // RLC
        0x09 => dad_pair(state, Pair::BC),                  // DAD B
        0x0A => ldax(state, Pair::BC),                      // LDAX B
        0x0B => dcx(state, Pair::BC),                       // DCX B
        0x0C => inr(state, Reg::C),                         // INR C
        0x0D => dcr(state, Reg::C),                         // DCR C
        0x0E => mvi(state, Reg::C, lo),                     // MVI C,d8
        0x0F => rrc(state),                                 // RRC
        0x11 => lxi(state, Pair::DE, lo, hi),               // LXI D,d16
        0x12 => stax(state, Pair::DE),                      // STAX D
        0x13 => inx(state, Pair::DE),                       // INX D
        0x14 => inr(state, Reg::D),                         // INR D
        0x15 => dcr(state, Reg::D),                         // DCR D
        0x16 => mvi(state, Reg::D, lo),                     // MVI D,d8
        0x17 => ral(state),                                 // RAL
        0x19 => dad_pair(state, Pair::DE),                  // DAD D
        0x1A => ldax(state, Pair::DE),                      // LDAX D
        0x1B => dcx(state, Pair::DE),                       // DCX D
        0x1C => inr(state, Reg::E),                         // INR E
        0x1D => dcr(state, Reg::E),                         // DCR E
        0x1E => mvi(state, Reg::E, lo),                     // MVI E,d8
        0x1F => rar(state),                                 // RAR
        0x21 => lxi(state, Pair::HL, lo, hi),               // LXI H,d16
        0x22 => shld(state, lo, hi),                        // SHLD a16
        0x23 => inx(state, Pair::HL),                       // INX H
        0x24 => inr(state, Reg::H),                         // INR H
        0x25 => dcr(state, Reg::H),                         // DCR H
        0x26 => mvi(state, Reg::H, lo),                     // MVI H,d8
        0x27 => daa(state),                                 // DAA
        0x29 => dad_pair(state, Pair::HL),                  // DAD H
        0x2A => lhld(state, lo, hi),                        // LHLD a16
        0x2B => dcx(state, Pair::HL),                       // DCX H
        0x2C => inr(state, Reg::L),                         // INR L
        0x2D => dcr(state, Reg::L),                         // DCR L
        0x2E => mvi(state, Reg::L, lo),                     // MVI L,d8
        0x2F => cma(state),                                 // CMA
        0x31 => lxi(state, Pair::SP, lo, hi),               // LXI SP,d16
        0x32 => sta(state, lo, hi),                         // STA a16
        0x33 => inx(state, Pair::SP),                       // INX SP
        0x34 => inr(state, Reg::M),                         // INR M
        0x35 => dcr(state, Reg::M),                         // DCR M
        0x36 => mvi(state, Reg::M, lo),                     // MVI M,d8
        0x37 => stc(state),                                 // STC
        0x39 => dad_pair(state, Pair::SP),                  // DAD SP
        0x3A => lda(state, lo, hi),                         // LDA a16
        0x3B => dcx(state, Pair::SP),                       // DCX SP
        0x3C => inr(state, Reg::A),                         // INR A
        0x3D => dcr(state, Reg::A),                         // DCR A
        0x3E => mvi(state, Reg::A, lo),                     // MVI A,d8
        0x3F => cmc(state),                                 // CMC
        _ => {},
    }
}

/// Opcodes `0x40..=0x7F`: the moves between 8-bit operands.
#[verifier::rlimit(40)]
fn run_move(state: &mut State8080, opcode: u8)
    requires
        old(state).wf(),
        implemented(opcode),
        0x40 <= opcode < 0x80,
    ensures
        final(state).wf(),
        final(state)@ == old(state)@.execute(decode(opcode)),
{
    match opcode {
        0x40 => mov(state, Reg::B, Reg::B),                 // MOV B,B
        0x41 => mov(state, Reg::B, Reg::C),                 // MOV B,C
        0x42 => mov(state, Reg::B, Reg::D),                 // MOV B,D
        0x43 => mov(state, Reg::B, Reg::E),                 // MOV B,E
        0x44 => mov(state, Reg::B, Reg::H),                 // MOV B,H
        0x45 => mov(state, Reg::B, Reg::L),                 // MOV B,L
        0x46 => mov(state, Reg::B, Reg::M),                 // MOV B,M
        0x47 => mov(state, Reg::B, Reg::A),                 // MOV B,A
        0x48 => mov(state, Reg::C, Reg::B),                 // MOV C,B
        0x49 => mov(state, Reg::C, Reg::C),                 // MOV C,C
        0x4A => mov(state, Reg::C, Reg::D),                 // MOV C,D
        0x4B => mov(state, Reg::C, Reg::E),                 // MOV C,E
        0x4C => mov(state, Reg::C, Reg::H),                 // MOV C,H
        0x4D => mov(state, Reg::C, Reg::L),                 // MOV C,L
        0x4E => mov(state, Reg::C, Reg::M),                 // MOV C,M
        0x4F => mov(state, Reg::C, Reg::A),                 // MOV C,A
        0x50 => mov(state, Reg::D, Reg::B),                 // MOV D,B
        0x51 => mov(state, Reg::D, Reg::C),                 // MOV D,C
        0x52 => mov(state, Reg::D, Reg::D),                 // MOV D,D
        0x53 => mov(state, Reg::D, Reg::E),                 // MOV D,E
        0x54 => mov(state, Reg::D, Reg::H),                 // MOV D,H
        0x55 => mov(state, Reg::D, Reg::L),                 // MOV D,L
        0x56 => mov(state, Reg::D, Reg::M),                 // MOV D,M
        0x57 => mov(state, Reg::D, Reg::A),                 // MOV D,A
        0x58 => mov(state, Reg::E, Reg::B),                 // MOV E,B
        0x59 => mov(state, Reg::E, Reg::C),                 // MOV E,C
        0x5A => mov(state, Reg::E, Reg::D),                 // MOV E,D
        0x5B => mov(state, Reg::E, Reg::E),                 // MOV E,E
        0x5C => mov(state, Reg::E, Reg::H),                 // MOV E,H
        0x5D => mov(state, Reg::E, Reg::L),                 // MOV E,L
        0x5E => mov(state, Reg::E, Reg::M),                 // MOV E,M
        0x5F => mov(state, Reg::E, Reg::A),                 // MOV E,A
        0x60 => mov(state, Reg::H, Reg::B),                 // MOV H,B
        0x61 => mov(state, Reg::H, Reg::C),                 // MOV H,C
        0x62 => mov(state, Reg::H, Reg::D),                 // MOV H,D
        0x63 => mov(state, Reg::H, Reg::E),                 // MOV H,E
        0x64 => mov(state, Reg::H, Reg::H),                 // MOV H,H
        0x65 => mov(state, Reg::H, Reg::L),                 // MOV H,L
        0x66 => mov(state, Reg::H, Reg::M),                 // MOV H,M
        0x67 => mov(state, Reg::H, Reg::A),                 // MOV H,A
        0x68 => mov(state, Reg::L, Reg::B),                 // MOV L,B
        0x69 => mov(state, Reg::L, Reg::C),                 // MOV L,C
        0x6A => mov(state, Reg::L, Reg::D),                 // MOV L,D
        0x6B => mov(state, Reg::L, Reg::E),                 // MOV L,E
        0x6C => mov(state, Reg::L, Reg::H),                 // MOV L,H
        0x6D => mov(state, Reg::L, Reg::L),                 // MOV L,L
        0x6E => mov(state, Reg::L, Reg::M),                 // MOV L,M
        0x6F => mov(state, Reg::L, Reg::A),                 // MOV L,A
        0x70 => mov(state, Reg::M, Reg::B),                 // MOV M,B
        0x71 => mov(state, Reg::M, Reg::C),                 // MOV M,C
        0x72 => mov(state, Reg::M, Reg::D),                 // MOV M,D
        0x73 => mov(state, Reg::M, Reg::E),                 // MOV M,E
        0x74 => mov(state, Reg::M, Reg::H),                 // MOV M,H
        0x75 => mov(state, Reg::M, Reg::L),                 // MOV M,L
        0x77 => mov(state, Reg::M, Reg::A),                 // MOV M,A
        0x78 => mov(state, Reg::A, Reg::B),                 // MOV A,B
        0x79 => mov(state, Reg::A, Reg::C),                 // MOV A,C
        0x7A => mov(state, Reg::A, Reg::D),                 // MOV A,D
        0x7B => mov(state, Reg::A, Reg::E),                 // MOV A,E
        0x7C => mov(state, Reg::A, Reg::H),                 // MOV A,H
        0x7D => mov(state, Reg::A, Reg::L),                 // MOV A,L
        0x7E => mov(state, Reg::A, Reg::M),                 // MOV A,M
        0x7F => mov(state, Reg::A, Reg::A),                 // MOV A,A
        _ => {},
    }
}

/// Opcodes `0x80..=0xBF`: the accumulator operations on an 8-bit operand.
#[verifier::rlimit(40)]
fn run_alu(state: &mut State8080, opcode: u8)
    requires
        old(state).wf(),
        implemented(opcode),
        0x80 <= opcode < 0xC0,
    ensures
        final(state).wf(),
        final(state)@ == old(state)@.execute(decode(opcode)),
{
    match opcode {
        0x80 => alu_reg(state, AluOp::Add, Reg::B),         // ADD B
        0x81 => alu_reg(state, AluOp::Add, Reg::C),         // ADD C
        0x82 => alu_reg(state, AluOp::Add, Reg::D),         // ADD D
        0x83 => alu_reg(state, AluOp::Add, Reg::E),         // ADD E
        0x84 => alu_reg(state, AluOp::Add, Reg::H),         // ADD H
        0x85 => alu_reg(state, AluOp::Add, Reg::L),         // ADD L
        0x86 => alu_reg(state, AluOp::Add, Reg::M),         // ADD M
        0x87 => alu_reg(state, AluOp::Add, Reg::A),         // ADD A
        0x88 => alu_reg(state, AluOp::Adc, Reg::B),         // ADC B
        0x89 => alu_reg(state, AluOp::Adc, Reg::C),         // ADC C
        0x8A => alu_reg(state, AluOp::Adc, Reg::D),         // ADC D
        0x8B => alu_reg(state, AluOp::Adc, Reg::E),         // ADC E
        0x8C => alu_reg(state, AluOp::Adc, Reg::H),         // ADC H
        0x8D => alu_reg(state, AluOp::Adc, Reg::L),         // ADC L
        0x8E => alu_reg(state, AluOp::Adc, Reg::M),         // ADC M
        0x8F => alu_reg(state, AluOp::Adc, Reg::A),         // ADC A
        0x90 => alu_reg(state, AluOp::Sub, Reg::B),         // SUB B
        0x91 => alu_reg(state, AluOp::Sub, Reg::C),         // SUB C
        0x92 => alu_reg(state, AluOp::Sub, Reg::D),         // SUB D
        0x93 => alu_reg(state, AluOp::Sub, Reg::E),         // SUB E
        0x94 => alu_reg(state, AluOp::Sub, Reg::H),         // SUB H
        0x95 => alu_reg(state, AluOp::Sub, Reg::L),         // SUB L
        0x96 => alu_reg(state, AluOp::Sub, Reg::M),         // SUB M
        0x97 => alu_reg(state, AluOp::Sub, Reg::A),         // SUB A
        0x98 => alu_reg(state, AluOp::Sbb, Reg::B),         // SBB B
        0x99 => alu_reg(state, AluOp::Sbb, Reg::C),         // SBB C
        0x9A => alu_reg(state, AluOp::Sbb, Reg::D),         // SBB D
        0x9B => alu_reg(state, AluOp::Sbb, Reg::E),         // SBB E
        0x9C => alu_reg(state, AluOp::Sbb, Reg::H),         // SBB H
        0x9D => alu_reg(state, AluOp::Sbb, Reg::L),         // SBB L
        0x9E => alu_reg(state, AluOp::Sbb, Reg::M),         // SBB M
        0x9F => alu_reg(state, AluOp::Sbb, Reg::A),         // SBB A
        0xA0 => alu_reg(state, AluOp::Ana, Reg::B),         // ANA B
        0xA1 => alu_reg(state, AluOp::Ana, Reg::C),         // ANA C
        0xA2 => alu_reg(state, AluOp::Ana, Reg::D),         // ANA D
        0xA3 => alu_reg(state, AluOp::Ana, Reg::E),         // ANA E
        0xA4 => alu_reg(state, AluOp::Ana, Reg::H),         // ANA H
        0xA5 => alu_reg(state, AluOp::Ana, Reg::L),         // ANA L
        0xA6 => alu_reg(state, AluOp::Ana, Reg::M),         // ANA M
        0xA7 => alu_reg(state, AluOp::Ana, Reg::A),         // ANA A
        0xA8 => alu_reg(state, AluOp::Xra, Reg::B),         // XRA B
        0xA9 => alu_reg(state, AluOp::Xra, Reg::C),         // XRA C
        0xAA => alu_reg(state, AluOp::Xra, Reg::D),         // XRA D
        0xAB => alu_reg(state, AluOp::Xra, Reg::E),         // XRA E
        0xAC => alu_reg(state, AluOp::Xra, Reg::H),         // XRA H
        0xAD => alu_reg(state, AluOp::Xra, Reg::L),         // XRA L
        0xAE => alu_reg(state, AluOp::Xra, Reg::M),         // XRA M
        0xAF => alu_reg(state, AluOp::Xra, Reg::A),         // XRA A
        0xB0 => alu_reg(state, AluOp::Ora, Reg::B),         // ORA B
        0xB1 => alu_reg(state, AluOp::Ora, Reg::C),         // ORA C
        0xB2 => alu_reg(state, AluOp::Ora, Reg::D),         // ORA D
        0xB3 => alu_reg(state, AluOp::Ora, Reg::E),         // ORA E
        0xB4 => alu_reg(state, AluOp::Ora, Reg::H),         // ORA H
        0xB5 => alu_reg(state, AluOp::Ora, Reg::L),         // ORA L
        0xB6 => alu_reg(state, AluOp::Ora, Reg::M),         // ORA M
        0xB7 => alu_reg(state, AluOp::Ora, Reg::A),         // ORA A
        0xB8 => alu_reg(state, AluOp::Compare, Reg::B),     // CMP B
        0xB9 => alu_reg(state, AluOp::Compare, Reg::C),     // CMP C
        0xBA => alu_reg(state, AluOp::Compare, Reg::D),     // CMP D
        0xBB => alu_reg(state, AluOp::Compare, Reg::E),     // CMP E
        0xBC => alu_reg(state, AluOp::Compare, Reg::H),     // CMP H
        0xBD => alu_reg(state, AluOp::Compare, Reg::L),     // CMP L
        0xBE => alu_reg(state, AluOp::Compare, Reg::M),     // CMP M
        0xBF => alu_reg(state, AluOp::Compare, Reg::A),     // CMP A
        _ => {},
    }
}

/// Opcodes `0xC0..=0xFF`: branches, the stack, immediates and I/O.
#[verifier::rlimit(40)]
fn run_high(state: &mut State8080, opcode: u8, lo: u8, hi: u8)
    requires
        old(state).wf(),
        implemented(opcode),
        0xC0 <= opcode,
        old(state)@.operands(lo, hi),
    ensures
        final(state).wf(),
        final(state)@ == old(state)@.execute(decode(opcode)),
{
    match opcode {
        0xC0 => ret_cond(state, Cond::NotZero),             // RNZ
        0xC1 => pop(state, StackPair::BC),                  // POP B
        0xC2 => jump_cond(state, Cond::NotZero, lo, hi),    // JNZ a16
        0xC3 => jmp(state, lo, hi),                         // JMP a16
        0xC4 => call_cond(state, Cond::NotZero, lo, hi),    // CNZ a16
        0xC5 => push_pair(state, StackPair::BC),            // PUSH B
        0xC6 => alu_imm(state, AluOp::Add, lo),             // ADI d8
        0xC7 => restart(state, 0),                          // RST 0
        0xC8 => ret_cond(state, Cond::Zero),                // RZ
        0xC9 => ret(state),                                 // RET
        0xCA => jump_cond(state, Cond::Zero, lo, hi),       // JZ a16
        0xCC => call_cond(state, Cond::Zero, lo, hi),       // CZ a16
        0xCD => call(state, lo, hi),                        // CALL a16
        0xCE => alu_imm(state, AluOp::Adc, lo),             // ACI d8
        0xCF => restart(state, 1),                          // RST 1
        0xD0 => ret_cond(state, Cond::NoCarry),             // RNC
        0xD1 => pop(state, StackPair::DE),                  // POP D
        0xD2 => jump_cond(state, Cond::NoCarry, lo, hi),    // JNC a16
        0xD3 => out_port(state, lo),                        // OUT d8
        0xD4 => call_cond(state, Cond::NoCarry, lo, hi),    // CNC a16
        0xD5 => push_pair(state, StackPair::DE),            // PUSH D
        0xD6 => alu_imm(state, AluOp::Sub, lo),             // SUI d8
        0xD7 => restart(state, 2),                          // RST 2
        0xD8 => ret_cond(state, Cond::Carry),               // RC
        0xDA => jump_cond(state, Cond::Carry, lo, hi),      // JC a16
        0xDB => in_port(state, lo),                         // IN d8
        0xDC => call_cond(state, Cond::Carry, lo, hi),      // CC a16
        0xDE => alu_imm(state, AluOp::Sbb, lo),             // SBI d8
        0xDF => restart(state, 3),                          // RST 3
        0xE0 => ret_cond(state, Cond::ParityOdd),           // RPO
        0xE1 => pop(state, StackPair::HL),                  // POP H
        0xE2 => jump_cond(state, Cond::ParityOdd, lo, hi),  // JPO a16
        0xE3 => xthl(state),                                // XTHL
        0xE4 => call_cond(state, Cond::ParityOdd, lo, hi),  // CPO a16
        0xE5 => push_pair(state, StackPair::HL),            // PUSH H
        0xE6 => alu_imm(state, AluOp::Ana, lo),             // ANI d8
        0xE7 => restart(state, 4),                          // RST 4
        0xE8 => ret_cond(state, Cond::ParityEven),          // RPE
        0xE9 => pchl(state),                                // PCHL
        0xEA => jump_cond(state, Cond::ParityEven, lo, hi), // JPE a16
        0xEB => xchg(state),                                // XCHG
        0xEC => call_cond(state, Cond::ParityEven, lo, hi), // CPE a16
        0xEE => alu_imm(state, AluOp::Xra, lo),             // XRI d8
        0xEF => restart(state, 5),                          // RST 5
        0xF0 => ret_cond(state, Cond::Plus),                // RP
        0xF1 => pop(state, StackPair::PSW),                 // POP PSW
        0xF2 => jump_cond(state, Cond::Plus, lo, hi),       // JP a16
        0xF3 => di(state),                                  // DI
        0xF4 => call_cond(state, Cond::Plus, lo, hi),       // CP a16
        0xF5 => push_pair(state, StackPair::PSW),           // PUSH PSW
        0xF6 => alu_imm(state, AluOp::Ora, lo),             // ORI d8
        0xF7 => restart(state, 6),                          // RST 6
        0xF8 => ret_cond(state, Cond::Minus),               // RM
        0xF9 => sphl(state),                                // SPHL
        0xFA => jump_cond(state, Cond::Minus, lo, hi),      // JM a16
        0xFB => ei(state),                                  // EI
        0xFC => call_cond(state, Cond::Minus, lo, hi),      // CM a16
        0xFE => alu_imm(state, AluOp::Compare, lo),         // CPI d8
        0xFF => restart(state, 7),                          // RST 7
        _ => {},
    }
}

/// Executes `opcode` on a machine whose PC is already past it; `lo` and
/// `hi` are the two bytes that follow the opcode.
fn dispatch(state: &mut State8080, opcode: u8, lo: u8, hi: u8)
    requires
        old(state).wf(),
        implemented(opcode),
        old(state)@.operands(lo, hi),
    ensures
        final(state).wf(),
        final(state)@ == old(state)@.execute(decode(opcode)),
{
    if opcode < 0x40 {
        run_low(state, opcode, lo, hi);
    } else if opcode < 0x80 {
        run_move(state, opcode);
    } else if opcode < 0xC0 {
        run_alu(state, opcode);
    } else {
        run_high(state, opcode, lo, hi);
    }
}

/// Runs the instruction at PC and returns the cycles it cost.
pub fn emulate_8080_op(state: &mut State8080) -> (cycles: u8)
    requires
        old(state).wf(),
        implemented(old(state)@.opcode()),
    ensures
        final(state).wf(),
        final(state)@ == old(state)@.step(),
        cycles == instr_cycles(decode(old(state)@.opcode())),
{
    let opcode = state.memory.read_byte(state.pc);
    let lo = state.memory.read_byte(state.pc.wrapping_add(1));
    let hi = state.memory.read_byte(state.pc.wrapping_add(2));
    state.skip(1);
    dispatch(state, opcode, lo, hi);
    cycles_of(opcode)
}

} // verus!
