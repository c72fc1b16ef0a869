//! Condition flags, parity, the packed status byte, and the arithmetic of
//! the 8-bit ALU stated over the integers.

use vstd::prelude::*;

verus! {

/// The five condition flags.
#[derive(Clone, Copy, Debug, PartialEq, Eq, Structural)]
pub struct ConditionCodes {
    /// Zero: the last flagged result was 0.
    pub z: bool,
    /// Sign: bit 7 of the last flagged result.
    pub s: bool,
    /// Parity: the last flagged result had an even number of 1 bits.
    pub p: bool,
    /// Carry out of bit 7 on addition, borrow on subtraction.
    pub cy: bool,
    /// Auxiliary carry out of bit 3.
    pub ac: bool,
}

/// Selector bit for the zero flag.
pub const FLAG_Z: u8 = 0b0001;

/// Selector bit for the sign flag.
pub const FLAG_S: u8 = 0b0010;

/// Selector bit for the parity flag.
pub const FLAG_P: u8 = 0b0100;

/// Selector bit for the carry flag.
pub const FLAG_CY: u8 = 0b1000;

/// The number of 1 bits in the binary expansion of `v`.
pub open spec fn ones(v: nat) -> nat
    decreases v,
{
    if v == 0 {
        0
    } else {
        (v % 2) + ones(v / 2)
    }
}

/// Whether `v` has an even number of 1 bits.
pub open spec fn even_parity(v: u8) -> bool {
    ones(v as nat) % 2 == 0
}

/// 1 for a set flag, 0 for a clear one.
pub open spec fn bit(flag: bool) -> int {
    if flag {
        1
    } else {
        0
    }
}

/// `x` reduced into `0..=0xFF`.
pub open spec fn wrap8(x: int) -> u8 {
    (x % 0x100) as u8
}

/// `x` reduced into `0..=0xFFFF`.
pub open spec fn wrap16(x: int) -> u16 {
    (x % 0x10000) as u16
}

/// The 16-bit word whose high half is `hi` and whose low half is `lo`.
pub open spec fn word(hi: u8, lo: u8) -> u16 {
    (hi * 0x100 + lo) as u16
}

/// The high half of a word.
pub open spec fn high(w: u16) -> u8 {
    (w / 0x100) as u8
}

/// The low half of a word.
pub open spec fn low(w: u16) -> u8 {
    (w % 0x100) as u8
}

/// Z, S and P as `result` sets them; CY and AC as before.
pub open spec fn with_zsp(cc: ConditionCodes, result: u8) -> ConditionCodes {
    ConditionCodes { z: result == 0, s: result >= 0x80, p: even_parity(result), ..cc }
}

/// The flags after an update from `value` and `carry` in which only the
/// flags picked by `selector` are written.
pub open spec fn select_flags(
    cc: ConditionCodes,
    value: u8,
    carry: bool,
    selector: u8,
) -> ConditionCodes {
    ConditionCodes {
        z: if selector & FLAG_Z != 0 { value == 0 } else { cc.z },
        s: if selector & FLAG_S != 0 { value >= 0x80 } else { cc.s },
        p: if selector & FLAG_P != 0 { even_parity(value) } else { cc.p },
        cy: if selector & FLAG_CY != 0 { carry } else { cc.cy },
        ac: cc.ac,
    }
}

/// The status byte: bit 0 = Z, bit 1 = S, bit 2 = P, bit 3 = CY, bit 4 = AC.
pub open spec fn pack_psw(cc: ConditionCodes) -> u8 {
    (bit(cc.z) + 2 * bit(cc.s) + 4 * bit(cc.p) + 8 * bit(cc.cy) + 16 * bit(cc.ac)) as u8
}

/// The flags that a status byte holds; its three top bits are ignored.
pub open spec fn unpack_psw(psw: u8) -> ConditionCodes {
    ConditionCodes {
        z: psw % 2 == 1,
        s: (psw / 2) % 2 == 1,
        p: (psw / 4) % 2 == 1,
        cy: (psw / 8) % 2 == 1,
        ac: (psw / 16) % 2 == 1,
    }
}

/// Unpacking a packed status byte gives the flags back.
pub proof fn lemma_psw_round_trip(cc: ConditionCodes)
    ensures
        unpack_psw(pack_psw(cc)) == cc,
        pack_psw(cc) < 0x20,
{
}

proof fn lemma_ones_step(v: u8)
    by (bit_vector)
    ensures
        (v & 1) as int == v % 2,
        (v >> 1) as int == v / 2,
        v != 0 ==> (v >> 1) < v,
{
}

/// Whether `value` has an even number of 1 bits.
pub fn parity(value: u8) -> (even: bool)
    ensures
        even == even_parity(value),
{
    let mut bits: u8 = 0;
    let mut rest: u8 = value;
    proof {
        lemma_ones_bound(value);
    }
    while rest != 0
        invariant
            bits + ones(rest as nat) == ones(value as nat),
            bits + ones(rest as nat) <= 8,
        decreases rest,
    {
        proof {
            lemma_ones_step(rest);
        }
        bits = bits + (rest & 1);
        rest = rest >> 1;
    }
    proof {
        lemma_ones_step(bits);
    }
    (bits & 1) == 0
}

/// The word with high half `hi` and low half `lo`.
pub fn make_word(hi: u8, lo: u8) -> (w: u16)
    ensures
        w == word(hi, lo),
        high(w) == hi,
        low(w) == lo,
{
    assert(((hi as u16) << 8 | (lo as u16)) == hi * 0x100 + lo) by (bit_vector);
    (hi as u16) << 8 | (lo as u16)
}

/// The high half of a word.
pub fn high_byte(w: u16) -> (hi: u8)
    ensures
        hi == high(w),
{
    assert((w >> 8) == w / 0x100 && (w >> 8) <= 0xFF) by (bit_vector);
    (w >> 8) as u8
}

/// The low half of a word.
pub fn low_byte(w: u16) -> (lo: u8)
    ensures
        lo == low(w),
{
    assert((w & 0xFF) == w % 0x100) by (bit_vector);
    (w & 0xFF) as u8
}

/// The low four bits of a byte.
pub fn low_digit(v: u8) -> (digit: u8)
    ensures
        digit == v % 16,
{
    assert((v & 0x0F) == v % 16) by (bit_vector);
    v & 0x0F
}

/// Packs the flags into a status byte.
pub fn pack_flags(cc: ConditionCodes) -> (psw: u8)
    ensures
        psw == pack_psw(cc),
{
    let mut psw: u8 = 0;
    if cc.z {
        psw = psw + 0x01;
    }
    if cc.s {
        psw = psw + 0x02;
    }
    if cc.p {
        psw = psw + 0x04;
    }
    if cc.cy {
        psw = psw + 0x08;
    }
    if cc.ac {
        psw = psw + 0x10;
    }
    psw
}

/// Reads the flags out of a status byte.
pub fn unpack_flags(psw: u8) -> (cc: ConditionCodes)
    ensures
        cc == unpack_psw(psw),
{
    assert(((psw & 0x01) == 0x01) == (psw % 2 == 1) && ((psw & 0x02) == 0x02) == ((psw / 2) % 2 == 1)
        && ((psw & 0x04) == 0x04) == ((psw / 4) % 2 == 1) && ((psw & 0x08) == 0x08) == ((psw / 8)
        % 2 == 1) && ((psw & 0x10) == 0x10) == ((psw / 16) % 2 == 1)) by (bit_vector);
    ConditionCodes {
        z: (psw & 0x01) == 0x01,
        s: (psw & 0x02) == 0x02,
        p: (psw & 0x04) == 0x04,
        cy: (psw & 0x08) == 0x08,
        ac: (psw & 0x10) == 0x10,
    }
}

/// What a flag update writes under the selectors that the interpreter
/// uses: all four flags, all but carry, and carry alone.
pub proof fn lemma_select_flags(cc: ConditionCodes, value: u8, carry: bool)
    ensures
        select_flags(cc, value, carry, 0b1111) == (ConditionCodes { cy: carry, ..with_zsp(cc, value) }),
        select_flags(cc, value, carry, 0b0111) == with_zsp(cc, value),
        select_flags(cc, value, carry, 0b1000) == (ConditionCodes { cy: carry, ..cc }),
{
    assert(0b1111u8 & 0b0001u8 != 0 && 0b1111u8 & 0b0010u8 != 0 && 0b1111u8 & 0b0100u8 != 0
        && 0b1111u8 & 0b1000u8 != 0) by (bit_vector);
    assert(0b0111u8 & 0b0001u8 != 0 && 0b0111u8 & 0b0010u8 != 0 && 0b0111u8 & 0b0100u8 != 0
        && 0b0111u8 & 0b1000u8 == 0) by (bit_vector);
    assert(0b1000u8 & 0b0001u8 == 0 && 0b1000u8 & 0b0010u8 == 0 && 0b1000u8 & 0b0100u8 == 0
        && 0b1000u8 & 0b1000u8 != 0) by (bit_vector);
}

/// A byte has at most eight 1 bits.
pub proof fn lemma_ones_bound(v: u8)
    ensures
        ones(v as nat) <= 8,
{
    reveal_with_fuel(ones, 10);
}

} // verus!
