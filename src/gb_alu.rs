use vstd::prelude::*;

verus! {

/// The four meaningful bits of the F register.
#[derive(Debug, Clone, Copy, PartialEq, Eq, Structural)]
pub struct Flags {
    pub zero: bool,
    pub subtract: bool,
    pub half_carry: bool,
    pub carry: bool,
}

/// The F register as a byte: Zero in bit 7, Subtract in bit 6, Half-Carry in bit 5, Carry in
/// bit 4; the low nibble is always zero.
pub open spec fn flags_byte(f: Flags) -> u8 {
    ((if f.zero { 128int } else { 0 }) + (if f.subtract { 64int } else { 0 }) + (if f.half_carry {
        32int
    } else {
        0
    }) + (if f.carry { 16int } else { 0 })) as u8
}

/// The flags that a byte loaded into F stands for; its low nibble is ignored.
pub open spec fn flags_of_byte(b: u8) -> Flags {
    Flags {
        zero: (b / 128) % 2 == 1,
        subtract: (b / 64) % 2 == 1,
        half_carry: (b / 32) % 2 == 1,
        carry: (b / 16) % 2 == 1,
    }
}

impl Flags {
    /// All four flags clear, as at power-on.
    pub fn cleared() -> (r: Flags)
        ensures
            !r.zero && !r.subtract && !r.half_carry && !r.carry,
    {
        Flags { zero: false, subtract: false, half_carry: false, carry: false }
    }

    /// The F register as a byte.
    pub fn to_byte(&self) -> (r: u8)
        ensures
            r == flags_byte(*self),
            r % 16 == 0,
    {
        let mut r: u8 = 0;
        if self.zero {
            r = r + 128;
        }
        if self.subtract {
            r = r + 64;
        }
        if self.half_carry {
            r = r + 32;
        }
        if self.carry {
            r = r + 16;
        }
        r
    }

    /// The flags held in a byte loaded into F.
    pub fn from_byte(b: u8) -> (r: Flags)
        ensures
            r == flags_of_byte(b),
    {
        Flags {
            zero: (b / 128) % 2 == 1,
            subtract: (b / 64) % 2 == 1,
            half_carry: (b / 32) % 2 == 1,
            carry: (b / 16) % 2 == 1,
        }
    }
}

/// Storing the flags as a byte and loading that byte back gives the same flags.
pub proof fn lemma_flags_byte_round_trip(f: Flags)
    ensures
        flags_of_byte(flags_byte(f)) == f,
        flags_byte(f) % 16 == 0,
{
}

/// An 8-bit result together with the flags it leaves.
#[derive(Debug, Clone, Copy, PartialEq, Eq, Structural)]
pub struct AluResult {
    pub value: u8,
    pub flags: Flags,
}

/// The byte `n` as a two's-complement displacement.
pub open spec fn signed_offset(n: u8) -> int {
    if n < 128 {
        n as int
    } else {
        n - 256
    }
}

pub open spec fn add_spec(a: u8, b: u8, carry_in: bool) -> AluResult {
    let c: int = if carry_in { 1 } else { 0 };
    let sum: int = a + b + c;
    let value = (sum % 256) as u8;
    AluResult {
        value,
        flags: Flags {
            zero: value == 0,
            subtract: false,
            half_carry: a % 16 + b % 16 + c >= 16,
            carry: sum >= 256,
        },
    }
}

pub open spec fn sub_spec(a: u8, b: u8, carry_in: bool) -> AluResult {
    let c: int = if carry_in { 1 } else { 0 };
    let diff: int = a - b - c;
    let value = ((diff + 512) % 256) as u8;
    AluResult {
        value,
        flags: Flags {
            zero: value == 0,
            subtract: true,
            half_carry: a % 16 < b % 16 + c,
            carry: a < b + c,
        },
    }
}

/// `a + b` modulo 256, with Carry and Half-Carry from bit 7 and bit 3.
pub fn add8(a: u8, b: u8) -> (r: AluResult)
    ensures
        r == add_spec(a, b, false),
        r.value == (a + b) % 256,
        r.flags.carry == (a + b >= 256),
        r.flags.half_carry == ((a & 0xF) + (b & 0xF) >= 0x10),
        r.flags.zero == (r.value == 0),
        !r.flags.subtract,
{
    add8_with_carry(a, b, false)
}

/// `a + b + carry` computed once over nine bits: Carry when the sum reaches 256, Half-Carry
/// when the low nibbles and the carry reach 16.
pub fn add8_with_carry(a: u8, b: u8, carry_in: bool) -> (r: AluResult)
    ensures
        r == add_spec(a, b, carry_in),
        r.flags.half_carry == ((a & 0xF) + (b & 0xF) + (if carry_in { 1int } else { 0 }) >= 0x10),
{
    let c: u16 = if carry_in { 1 } else { 0 };
    let sum: u16 = a as u16 + b as u16 + c;
    let value = (sum % 256) as u8;
    let half = (a % 16) as u16 + (b % 16) as u16 + c >= 16;
    proof {
        assert(a & 0xF == a % 16) by (bit_vector);
        assert(b & 0xF == b % 16) by (bit_vector);
    }
    AluResult {
        value,
        flags: Flags { zero: value == 0, subtract: false, half_carry: half, carry: sum >= 256 },
    }
}

/// `a - b` modulo 256; Carry and Half-Carry report a borrow out of bit 7 and bit 3.
pub fn sub8(a: u8, b: u8) -> (r: AluResult)
    ensures
        r == sub_spec(a, b, false),
{
    sub8_with_carry(a, b, false)
}

/// `a - b - carry` computed once; Carry and Half-Carry report a borrow out of bit 7 and bit 3.
pub fn sub8_with_carry(a: u8, b: u8, carry_in: bool) -> (r: AluResult)
    ensures
        r == sub_spec(a, b, carry_in),
{
    let c: u16 = if carry_in { 1 } else { 0 };
    let value = ((a as u16 + 512 - b as u16 - c) % 256) as u8;
    let half = ((a % 16) as u16) < (b % 16) as u16 + c;
    let borrow = (a as u16) < b as u16 + c;
    AluResult {
        value,
        flags: Flags { zero: value == 0, subtract: true, half_carry: half, carry: borrow },
    }
}

pub open spec fn increment_spec(v: u8, carry: bool) -> AluResult {
    let value = ((v + 1) % 256) as u8;
    AluResult {
        value,
        flags: Flags { zero: value == 0, subtract: false, half_carry: v % 16 == 15, carry },
    }
}

pub open spec fn decrement_spec(v: u8, carry: bool) -> AluResult {
    let value = ((v + 255) % 256) as u8;
    AluResult {
        value,
        flags: Flags { zero: value == 0, subtract: true, half_carry: v % 16 == 0, carry },
    }
}

/// `v + 1` modulo 256; the Carry flag passed in is kept.
pub fn increment8(v: u8, carry: bool) -> (r: AluResult)
    ensures
        r == increment_spec(v, carry),
{
    let value = v.wrapping_add(1);
    AluResult {
        value,
        flags: Flags { zero: value == 0, subtract: false, half_carry: v % 16 == 15, carry },
    }
}

/// `v - 1` modulo 256; the Carry flag passed in is kept.
pub fn decrement8(v: u8, carry: bool) -> (r: AluResult)
    ensures
        r == decrement_spec(v, carry),
{
    let value = v.wrapping_sub(1);
    AluResult {
        value,
        flags: Flags { zero: value == 0, subtract: true, half_carry: v % 16 == 0, carry },
    }
}

/// The flags after AND (`half_carry` true) or after OR and XOR (`half_carry` false).
pub open spec fn logic_spec(value: u8, half_carry: bool) -> AluResult {
    AluResult {
        value,
        flags: Flags { zero: value == 0, subtract: false, half_carry, carry: false },
    }
}

pub fn and8(a: u8, b: u8) -> (r: AluResult)
    ensures
        r == logic_spec(a & b, true),
{
    let value = a & b;
    AluResult {
        value,
        flags: Flags { zero: value == 0, subtract: false, half_carry: true, carry: false },
    }
}

pub fn or8(a: u8, b: u8) -> (r: AluResult)
    ensures
        r == logic_spec(a | b, false),
{
    let value = a | b;
    AluResult {
        value,
        flags: Flags { zero: value == 0, subtract: false, half_carry: false, carry: false },
    }
}

pub fn xor8(a: u8, b: u8) -> (r: AluResult)
    ensures
        r == logic_spec(a ^ b, false),
{
    let value = a ^ b;
    AluResult {
        value,
        flags: Flags { zero: value == 0, subtract: false, half_carry: false, carry: false },
    }
}

/// A rotate or shift result: Zero from the value, Subtract and Half-Carry cleared, Carry the
/// bit shifted out.
pub open spec fn shifted(value: int, carry: bool) -> AluResult {
    AluResult {
        value: value as u8,
        flags: Flags { zero: value == 0, subtract: false, half_carry: false, carry },
    }
}

pub open spec fn rlc_spec(v: u8) -> AluResult {
    shifted((v % 128) * 2 + v / 128, v >= 128)
}

pub open spec fn rl_spec(v: u8, carry_in: bool) -> AluResult {
    shifted((v % 128) * 2 + (if carry_in { 1int } else { 0 }), v >= 128)
}

pub open spec fn rrc_spec(v: u8) -> AluResult {
    shifted(v / 2 + (v % 2) * 128, v % 2 == 1)
}

pub open spec fn rr_spec(v: u8, carry_in: bool) -> AluResult {
    shifted(v / 2 + (if carry_in { 128int } else { 0 }), v % 2 == 1)
}

pub open spec fn sla_spec(v: u8) -> AluResult {
    shifted((v % 128) * 2, v >= 128)
}

pub open spec fn sra_spec(v: u8) -> AluResult {
    shifted(v / 2 + (v / 128) * 128, v % 2 == 1)
}

pub open spec fn srl_spec(v: u8) -> AluResult {
    shifted(v as int / 2, v % 2 == 1)
}

/// The nibbles of `v` exchanged.
pub open spec fn swap_nibbles(v: u8) -> u8 {
    ((v % 16) * 16 + v / 16) as u8
}

pub open spec fn swap_spec(v: u8) -> AluResult {
    shifted(swap_nibbles(v) as int, false)
}

/// Rotate left; bit 7 goes to Carry and to bit 0.
pub fn rlc(v: u8) -> (r: AluResult)
    ensures
        r == rlc_spec(v),
{
    let value = (v % 128) * 2 + v / 128;
    AluResult {
        value,
        flags: Flags { zero: value == 0, subtract: false, half_carry: false, carry: v >= 128 },
    }
}

/// Rotate left through Carry; bit 7 goes to Carry, the old Carry to bit 0.
pub fn rl(v: u8, carry_in: bool) -> (r: AluResult)
    ensures
        r == rl_spec(v, carry_in),
{
    let value = (v % 128) * 2 + if carry_in { 1 } else { 0 };
    AluResult {
        value,
        flags: Flags { zero: value == 0, subtract: false, half_carry: false, carry: v >= 128 },
    }
}

/// Rotate right; bit 0 goes to Carry and to bit 7.
pub fn rrc(v: u8) -> (r: AluResult)
    ensures
        r == rrc_spec(v),
{
    let value = v / 2 + (v % 2) * 128;
    AluResult {
        value,
        flags: Flags { zero: value == 0, subtract: false, half_carry: false, carry: v % 2 == 1 },
    }
}

/// Rotate right through Carry; bit 0 goes to Carry, the old Carry to bit 7.
pub fn rr(v: u8, carry_in: bool) -> (r: AluResult)
    ensures
        r == rr_spec(v, carry_in),
{
    let value = v / 2 + if carry_in { 128 } else { 0 };
    AluResult {
        value,
        flags: Flags { zero: value == 0, subtract: false, half_carry: false, carry: v % 2 == 1 },
    }
}

/// Shift left; bit 7 goes to Carry, bit 0 becomes zero.
pub fn sla(v: u8) -> (r: AluResult)
    ensures
        r == sla_spec(v),
{
    let value = (v % 128) * 2;
    AluResult {
        value,
        flags: Flags { zero: value == 0, subtract: false, half_carry: false, carry: v >= 128 },
    }
}

/// Arithmetic shift right; bit 0 goes to Carry, bit 7 is kept.
pub fn sra(v: u8) -> (r: AluResult)
    ensures
        r == sra_spec(v),
{
    let value = v / 2 + (v / 128) * 128;
    AluResult {
        value,
        flags: Flags { zero: value == 0, subtract: false, half_carry: false, carry: v % 2 == 1 },
    }
}

/// Logical shift right; bit 0 goes to Carry, bit 7 becomes zero.
pub fn srl(v: u8) -> (r: AluResult)
    ensures
        r == srl_spec(v),
{
    let value = v / 2;
    AluResult {
        value,
        flags: Flags { zero: value == 0, subtract: false, half_carry: false, carry: v % 2 == 1 },
    }
}

/// Exchange the high and low nibbles; all flags but Zero cleared.
pub fn swap(v: u8) -> (r: AluResult)
    ensures
        r == swap_spec(v),
{
    let value = (v % 16) * 16 + v / 16;
    AluResult {
        value,
        flags: Flags { zero: value == 0, subtract: false, half_carry: false, carry: false },
    }
}

/// Swapping the nibbles twice gives the byte back.
pub proof fn lemma_swap_involution(v: u8)
    ensures
        swap_nibbles(swap_nibbles(v)) == v,
        swap_spec(swap_spec(v).value).value == v,
{
    assert(((((v % 16) * 16 + v / 16) as u8) % 16) * 16 + (((v % 16) * 16 + v / 16) as u8) / 16
        == v) by (bit_vector);
}

/// The decimal correction of `a` after an addition or a subtraction, as an integer that may
/// leave the byte range.
pub open spec fn daa_corrected(a: u8, f: Flags) -> int {
    if !f.subtract {
        let t: int = if f.half_carry || a % 16 > 9 {
            a + 6
        } else {
            a as int
        };
        if f.carry || t > 0x9F {
            t + 0x60
        } else {
            t
        }
    } else {
        let t: int = if f.half_carry {
            a - 6
        } else {
            a as int
        };
        if f.carry {
            t - 0x60
        } else {
            t
        }
    }
}

pub open spec fn daa_spec(a: u8, f: Flags) -> AluResult {
    let t = daa_corrected(a, f);
    let value = ((t + 256) % 256) as u8;
    AluResult {
        value,
        flags: Flags {
            zero: value == 0,
            subtract: f.subtract,
            half_carry: false,
            carry: t < 0 || t > 0xFF,
        },
    }
}

/// Decimal adjust of `a` after an addition or subtraction, as the flags `f` record it.
pub fn daa(a: u8, f: Flags) -> (r: AluResult)
    ensures
        r == daa_spec(a, f),
{
    let mut t: i16 = a as i16;
    if !f.subtract {
        if f.half_carry || a % 16 > 9 {
            t = t + 6;
        }
        if f.carry || t > 0x9F {
            t = t + 0x60;
        }
    } else {
        if f.half_carry {
            t = t - 6;
        }
        if f.carry {
            t = t - 0x60;
        }
    }
    let value: u8 = if t < 0 {
        (t + 256) as u8
    } else if t > 0xFF {
        (t - 256) as u8
    } else {
        t as u8
    };
    AluResult {
        value,
        flags: Flags {
            zero: value == 0,
            subtract: f.subtract,
            half_carry: false,
            carry: t < 0 || t > 0xFF,
        },
    }
}

/// `hl + v` modulo 0x10000 as ADD HL,rr computes it: Carry and Half-Carry from bit 15 and
/// bit 11, Subtract cleared, Zero kept.
pub open spec fn add16_spec(hl: u16, v: u16, zero: bool) -> (u16, Flags) {
    (
        ((hl + v) % 0x10000) as u16,
        Flags {
            zero,
            subtract: false,
            half_carry: hl % 0x1000 + v % 0x1000 >= 0x1000,
            carry: hl + v >= 0x10000,
        },
    )
}

pub fn add16(hl: u16, v: u16, zero: bool) -> (r: (u16, Flags))
    ensures
        r == add16_spec(hl, v, zero),
{
    let value = hl.wrapping_add(v);
    let half = (hl % 0x1000) as u32 + (v % 0x1000) as u32 >= 0x1000;
    let carry = hl as u32 + v as u32 >= 0x10000;
    (value, Flags { zero, subtract: false, half_carry: half, carry })
}

/// `sp` moved by the signed displacement `e`, as ADD SP,e and LD HL,SP+e compute it: Zero and
/// Subtract cleared, Carry and Half-Carry from the unsigned addition of `e` to the low byte.
pub open spec fn offset_sp_spec(sp: u16, e: u8) -> (u16, Flags) {
    (
        ((sp + signed_offset(e) + 0x10000) % 0x10000) as u16,
        Flags {
            zero: false,
            subtract: false,
            half_carry: sp % 16 + e % 16 >= 16,
            carry: sp % 256 + e >= 256,
        },
    )
}

pub fn offset_sp(sp: u16, e: u8) -> (r: (u16, Flags))
    ensures
        r == offset_sp_spec(sp, e),
{
    let value = if e < 128 {
        sp.wrapping_add(e as u16)
    } else {
        sp.wrapping_sub(256 - e as u16)
    };
    let half = (sp % 16) as u16 + (e % 16) as u16 >= 16;
    let carry = (sp % 256) as u16 + e as u16 >= 256;
    (value, Flags { zero: false, subtract: false, half_carry: half, carry })
}

/// `pc` moved by the signed displacement `e`, wrapping, as JR computes it.
pub open spec fn relative_target(pc: u16, e: u8) -> u16 {
    ((pc + signed_offset(e) + 0x10000) % 0x10000) as u16
}

} // verus!
