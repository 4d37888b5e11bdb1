use vstd::prelude::*;

verus! {

/// Bit of the flags register that records a zero result (bit 7).
pub const FLAG_ZERO: u8 = 0b1000_0000;
/// Bit of the flags register that records a subtraction (bit 6).
pub const FLAG_SUBTRACT: u8 = 0b0100_0000;
/// Bit of the flags register that records a half-carry (bit 5).
pub const FLAG_HALF_CARRY: u8 = 0b0010_0000;
/// Bit of the flags register that records a carry (bit 4).
pub const FLAG_CARRY: u8 = 0b0001_0000;

/// High byte of a 16-bit value.
pub open spec fn high_byte(v: u16) -> u8 {
    (v / 256) as u8
}

/// Low byte of a 16-bit value.
pub open spec fn low_byte(v: u16) -> u8 {
    (v % 256) as u8
}

/// The 16-bit value formed from a high and a low byte.
pub open spec fn pair_value(hi: u8, lo: u8) -> u16 {
    (hi * 256 + lo) as u16
}

/// Composing a pair with `<<` and `|` agrees with the arithmetic model.
proof fn lemma_compose(hi: u8, lo: u8)
    ensures
        (((hi as u16) << 8) | (lo as u16)) == pair_value(hi, lo),
{
    assert((((hi as u16) << 8) | (lo as u16)) == hi * 256 + lo) by (bit_vector);
}

/// Decomposing with `>> 8` and a truncating cast agrees with the
/// arithmetic model.
proof fn lemma_decompose(v: u16)
    ensures
        (v >> 8) as u8 == high_byte(v),
        v as u8 == low_byte(v),
{
    assert((v >> 8) as u8 == v / 256) by (bit_vector);
    assert(v as u8 == v % 256) by (bit_vector);
}

/// Splitting a 16-bit value into its two bytes and composing them again
/// yields the value back: every pair write/read round trip is exact.
pub proof fn lemma_pair_round_trip(v: u16)
    ensures
        pair_value(high_byte(v), low_byte(v)) == v,
{
    assert(((v / 256) as u8) * 256 + ((v % 256) as u8) == v) by (bit_vector);
}

/// Writing a 16-bit value to the AF pair forces the low nibble of the
/// flags byte to zero, so reading the pair back yields the value with
/// bits 0 through 3 cleared.
pub proof fn lemma_af_round_trip(v: u16)
    ensures
        pair_value(high_byte(v), low_byte(v) & 0xF0) == (v & 0xFF00) | (v & 0x00F0),
{
    assert(((v / 256) as u8) * 256 + (((v % 256) as u8) & 0xF0) == (v & 0xFF00) | (v & 0x00F0))
        by (bit_vector);
}

/// Masking a byte to its upper nibble leaves the lower nibble zero.
proof fn lemma_upper_nibble(lo: u8)
    ensures
        (lo & 0xF0) & 0x0F == 0,
{
    assert((lo & 0xF0) & 0x0F == 0) by (bit_vector);
}

/// Whether the flag bit of `mask` is set in the flags byte `f`.
pub open spec fn flag_set(f: u8, mask: u8) -> bool {
    f & mask != 0
}

/// The flags byte `f` with the flag bit of `mask` set or cleared
/// according to `value`.
pub open spec fn with_flag(f: u8, mask: u8, value: bool) -> u8 {
    if value {
        f | mask
    } else {
        f & !mask
    }
}

/// Writing a flag drives exactly that flag: after setting or clearing a
/// flag, reading the same flag yields the value that was written.
pub proof fn lemma_flag_written(f: u8, mask: u8, value: bool)
    requires
        mask != 0,
    ensures
        flag_set(with_flag(f, mask, value), mask) == value,
{
    if value {
        assert(mask != 0 ==> (f | mask) & mask != 0) by (bit_vector);
    } else {
        assert((f & !mask) & mask == 0) by (bit_vector);
    }
}

/// Flag independence: writing one flag never changes any bit outside its
/// mask, so every flag on a disjoint mask keeps its value.
pub proof fn lemma_flag_independence(f: u8, mask: u8, other: u8, value: bool)
    requires
        mask & other == 0,
    ensures
        with_flag(f, mask, value) & other == f & other,
        flag_set(with_flag(f, mask, value), other) == flag_set(f, other),
{
    if value {
        assert(mask & other == 0 ==> ((f | mask) & other) == f & other) by (bit_vector);
    } else {
        assert(mask & other == 0 ==> ((f & !mask) & other) == f & other) by (bit_vector);
    }
}

/// The four flag masks are nonzero single bits of the upper nibble,
/// pairwise disjoint and disjoint from the lower nibble.
proof fn lemma_flag_masks()
    ensures
        FLAG_ZERO != 0,
        FLAG_SUBTRACT != 0,
        FLAG_HALF_CARRY != 0,
        FLAG_CARRY != 0,
        FLAG_ZERO & FLAG_SUBTRACT == 0,
        FLAG_ZERO & FLAG_HALF_CARRY == 0,
        FLAG_ZERO & FLAG_CARRY == 0,
        FLAG_ZERO & 0x0F == 0,
        FLAG_SUBTRACT & FLAG_ZERO == 0,
        FLAG_SUBTRACT & FLAG_HALF_CARRY == 0,
        FLAG_SUBTRACT & FLAG_CARRY == 0,
        FLAG_SUBTRACT & 0x0F == 0,
        FLAG_HALF_CARRY & FLAG_ZERO == 0,
        FLAG_HALF_CARRY & FLAG_SUBTRACT == 0,
        FLAG_HALF_CARRY & FLAG_CARRY == 0,
        FLAG_HALF_CARRY & 0x0F == 0,
        FLAG_CARRY & FLAG_ZERO == 0,
        FLAG_CARRY & FLAG_SUBTRACT == 0,
        FLAG_CARRY & FLAG_HALF_CARRY == 0,
        FLAG_CARRY & 0x0F == 0,
{
    assert(0x80u8 & 0x40u8 == 0 && 0x80u8 & 0x20u8 == 0 && 0x80u8 & 0x10u8 == 0
        && 0x80u8 & 0x0Fu8 == 0 && 0x40u8 & 0x80u8 == 0 && 0x40u8 & 0x20u8 == 0
        && 0x40u8 & 0x10u8 == 0 && 0x40u8 & 0x0Fu8 == 0 && 0x20u8 & 0x80u8 == 0
        && 0x20u8 & 0x40u8 == 0 && 0x20u8 & 0x10u8 == 0 && 0x20u8 & 0x0Fu8 == 0
        && 0x10u8 & 0x80u8 == 0 && 0x10u8 & 0x40u8 == 0 && 0x10u8 & 0x20u8 == 0
        && 0x10u8 & 0x0Fu8 == 0) by (bit_vector);
}

/// All-flags round trip: on a flags byte whose lower nibble is zero,
/// setting all four flags in turn yields exactly `0b1111_0000`, and
/// clearing all four yields exactly zero.
pub proof fn lemma_all_flags_round_trip(f: u8)
    requires
        f & 0x0F == 0,
    ensures
        with_flag(
            with_flag(with_flag(with_flag(f, FLAG_ZERO, true), FLAG_SUBTRACT, true), FLAG_HALF_CARRY, true),
            FLAG_CARRY,
            true,
        ) == 0xF0,
        with_flag(
            with_flag(
                with_flag(with_flag(f, FLAG_ZERO, false), FLAG_SUBTRACT, false),
                FLAG_HALF_CARRY,
                false,
            ),
            FLAG_CARRY,
            false,
        ) == 0,
{
    assert(f & 0x0F == 0 ==> ((((f | 0x80) | 0x40) | 0x20) | 0x10) == 0xF0) by (bit_vector);
    assert(f & 0x0F == 0 ==> ((((f & !0x80u8) & !0x40) & !0x20) & !0x10) == 0) by (bit_vector);
}

/// The CPU registers of a simple 8-bit architecture: eight 8-bit
/// registers, of which `(a, f)`, `(b, c)`, `(d, e)` and `(h, l)` form
/// 16-bit pairs with the first-named byte high, plus a 16-bit stack
/// pointer and program counter.
#[derive(Debug, Clone, Copy, PartialEq, Eq, Structural)]
pub struct Registers {
    /// Accumulator: the primary register for arithmetic and logic.
    pub a: u8,
    /// Flags: status bits in the upper nibble; the lower nibble is
    /// always zero.
    pub f: u8,
    /// High byte of the BC pair.
    pub b: u8,
    /// Low byte of the BC pair.
    pub c: u8,
    /// High byte of the DE pair.
    pub d: u8,
    /// Low byte of the DE pair.
    pub e: u8,
    /// High byte of the HL pair.
    pub h: u8,
    /// Low byte of the HL pair.
    pub l: u8,
    /// Stack pointer.
    pub sp: u16,
    /// Program counter.
    pub pc: u16,
}

impl Registers {
    /// The power-on state: every register is zero.
    pub fn new() -> (r: Registers)
        ensures
            r == (Registers { a: 0, f: 0, b: 0, c: 0, d: 0, e: 0, h: 0, l: 0, sp: 0, pc: 0 }),
    {
        Registers { a: 0, f: 0, b: 0, c: 0, d: 0, e: 0, h: 0, l: 0, sp: 0, pc: 0 }
    }

    /// Reads the AF pair: `a` is the high byte, `f` the low byte.
    pub fn af(&self) -> (r: u16)
        ensures
            r == pair_value(self.a, self.f),
    {
        proof {
            lemma_compose(self.a, self.f);
        }
        ((self.a as u16) << 8) | (self.f as u16)
    }

    /// Writes the AF pair: the high byte of `value` goes to `a`, and the
    /// low byte goes to `f` with its lower nibble forced to zero, keeping
    /// the flags invariant; nothing else changes. Reading the pair back
    /// therefore yields `value` with bits 0 through 3 cleared.
    pub fn set_af(&mut self, value: u16)
        ensures
            *final(self) == (Registers {
                a: high_byte(value),
                f: low_byte(value) & 0xF0,
                ..*old(self)
            }),
            final(self).f & 0x0F == 0,
            pair_value(final(self).a, final(self).f) == (value & 0xFF00) | (value & 0x00F0),
    {
        proof {
            lemma_decompose(value);
            lemma_af_round_trip(value);
            lemma_upper_nibble(low_byte(value));
        }
        self.a = (value >> 8) as u8;
        self.f = (value as u8) & 0xF0;
    }

    /// Reads the BC pair: `b` is the high byte, `c` the low byte.
    pub fn bc(&self) -> (r: u16)
        ensures
            r == pair_value(self.b, self.c),
    {
        proof {
            lemma_compose(self.b, self.c);
        }
        ((self.b as u16) << 8) | (self.c as u16)
    }

    /// Writes the BC pair: the high byte of `value` goes to `b`, the low
    /// byte to `c`; nothing else changes.
    pub fn set_bc(&mut self, value: u16)
        ensures
            *final(self) == (Registers { b: high_byte(value), c: low_byte(value), ..*old(self) }),
            pair_value(final(self).b, final(self).c) == value,
    {
        proof {
            lemma_decompose(value);
            lemma_pair_round_trip(value);
        }
        self.b = (value >> 8) as u8;
        self.c = value as u8;
    }

    /// Reads the DE pair: `d` is the high byte, `e` the low byte.
    pub fn de(&self) -> (r: u16)
        ensures
            r == pair_value(self.d, self.e),
    {
        proof {
            lemma_compose(self.d, self.e);
        }
        ((self.d as u16) << 8) | (self.e as u16)
    }

    /// Writes the DE pair: the high byte of `value` goes to `d`, the low
    /// byte to `e`; nothing else changes.
    pub fn set_de(&mut self, value: u16)
        ensures
            *final(self) == (Registers { d: high_byte(value), e: low_byte(value), ..*old(self) }),
            pair_value(final(self).d, final(self).e) == value,
    {
        proof {
            lemma_decompose(value);
            lemma_pair_round_trip(value);
        }
        self.d = (value >> 8) as u8;
        self.e = value as u8;
    }

    /// Reads the HL pair: `h` is the high byte, `l` the low byte.
    pub fn hl(&self) -> (r: u16)
        ensures
            r == pair_value(self.h, self.l),
    {
        proof {
            lemma_compose(self.h, self.l);
        }
        ((self.h as u16) << 8) | (self.l as u16)
    }

    /// Writes the HL pair: the high byte of `value` goes to `h`, the low
    /// byte to `l`; nothing else changes.
    pub fn set_hl(&mut self, value: u16)
        ensures
            *final(self) == (Registers { h: high_byte(value), l: low_byte(value), ..*old(self) }),
            pair_value(final(self).h, final(self).l) == value,
    {
        proof {
            lemma_decompose(value);
            lemma_pair_round_trip(value);
        }
        self.h = (value >> 8) as u8;
        self.l = value as u8;
    }

    /// Reads the zero flag (bit 7 of `f`).
    pub fn zero(&self) -> (r: bool)
        ensures
            r == flag_set(self.f, FLAG_ZERO),
    {
        (self.f & FLAG_ZERO) != 0
    }

    /// Writes the zero flag: bit 7 of `f` becomes `value`; the other
    /// three flags, the lower nibble of `f`, and every other register
    /// keep their values.
    pub fn set_zero(&mut self, value: bool)
        ensures
            *final(self) == (Registers { f: with_flag(old(self).f, FLAG_ZERO, value), ..*old(self) }),
            flag_set(final(self).f, FLAG_ZERO) == value,
            flag_set(final(self).f, FLAG_SUBTRACT) == flag_set(old(self).f, FLAG_SUBTRACT),
            flag_set(final(self).f, FLAG_HALF_CARRY) == flag_set(old(self).f, FLAG_HALF_CARRY),
            flag_set(final(self).f, FLAG_CARRY) == flag_set(old(self).f, FLAG_CARRY),
            final(self).f & 0x0F == old(self).f & 0x0F,
    {
        proof {
            lemma_flag_masks();
            lemma_flag_written(self.f, FLAG_ZERO, value);
            lemma_flag_independence(self.f, FLAG_ZERO, FLAG_SUBTRACT, value);
            lemma_flag_independence(self.f, FLAG_ZERO, FLAG_HALF_CARRY, value);
            lemma_flag_independence(self.f, FLAG_ZERO, FLAG_CARRY, value);
            lemma_flag_independence(self.f, FLAG_ZERO, 0x0F, value);
        }
        if value {
            self.f = self.f | FLAG_ZERO;
        } else {
            self.f = self.f & !FLAG_ZERO;
        }
    }

    /// Reads the subtract flag (bit 6 of `f`).
    pub fn subtract(&self) -> (r: bool)
        ensures
            r == flag_set(self.f, FLAG_SUBTRACT),
    {
        (self.f & FLAG_SUBTRACT) != 0
    }

    /// Writes the subtract flag: bit 6 of `f` becomes `value`; the other
    /// three flags, the lower nibble of `f`, and every other register
    /// keep their values.
    pub fn set_subtract(&mut self, value: bool)
        ensures
            *final(self) == (Registers {
                f: with_flag(old(self).f, FLAG_SUBTRACT, value),
                ..*old(self)
            }),
            flag_set(final(self).f, FLAG_SUBTRACT) == value,
            flag_set(final(self).f, FLAG_ZERO) == flag_set(old(self).f, FLAG_ZERO),
            flag_set(final(self).f, FLAG_HALF_CARRY) == flag_set(old(self).f, FLAG_HALF_CARRY),
            flag_set(final(self).f, FLAG_CARRY) == flag_set(old(self).f, FLAG_CARRY),
            final(self).f & 0x0F == old(self).f & 0x0F,
    {
        proof {
            lemma_flag_masks();
            lemma_flag_written(self.f, FLAG_SUBTRACT, value);
            lemma_flag_independence(self.f, FLAG_SUBTRACT, FLAG_ZERO, value);
            lemma_flag_independence(self.f, FLAG_SUBTRACT, FLAG_HALF_CARRY, value);
            lemma_flag_independence(self.f, FLAG_SUBTRACT, FLAG_CARRY, value);
            lemma_flag_independence(self.f, FLAG_SUBTRACT, 0x0F, value);
        }
        if value {
            self.f = self.f | FLAG_SUBTRACT;
        } else {
            self.f = self.f & !FLAG_SUBTRACT;
        }
    }

    /// Reads the half-carry flag (bit 5 of `f`).
    pub fn half_carry(&self) -> (r: bool)
        ensures
            r == flag_set(self.f, FLAG_HALF_CARRY),
    {
        (self.f & FLAG_HALF_CARRY) != 0
    }

    /// Writes the half-carry flag: bit 5 of `f` becomes `value`; the
    /// other three flags, the lower nibble of `f`, and every other
    /// register keep their values.
    pub fn set_half_carry(&mut self, value: bool)
        ensures
            *final(self) == (Registers {
                f: with_flag(old(self).f, FLAG_HALF_CARRY, value),
                ..*old(self)
            }),
            flag_set(final(self).f, FLAG_HALF_CARRY) == value,
            flag_set(final(self).f, FLAG_ZERO) == flag_set(old(self).f, FLAG_ZERO),
            flag_set(final(self).f, FLAG_SUBTRACT) == flag_set(old(self).f, FLAG_SUBTRACT),
            flag_set(final(self).f, FLAG_CARRY) == flag_set(old(self).f, FLAG_CARRY),
            final(self).f & 0x0F == old(self).f & 0x0F,
    {
        proof {
            lemma_flag_masks();
            lemma_flag_written(self.f, FLAG_HALF_CARRY, value);
            lemma_flag_independence(self.f, FLAG_HALF_CARRY, FLAG_ZERO, value);
            lemma_flag_independence(self.f, FLAG_HALF_CARRY, FLAG_SUBTRACT, value);
            lemma_flag_independence(self.f, FLAG_HALF_CARRY, FLAG_CARRY, value);
            lemma_flag_independence(self.f, FLAG_HALF_CARRY, 0x0F, value);
        }
        if value {
            self.f = self.f | FLAG_HALF_CARRY;
        } else {
            self.f = self.f & !FLAG_HALF_CARRY;
        }
    }

    /// Reads the carry flag (bit 4 of `f`).
    pub fn carry(&self) -> (r: bool)
        ensures
            r == flag_set(self.f, FLAG_CARRY),
    {
        (self.f & FLAG_CARRY) != 0
    }

    /// Writes the carry flag: bit 4 of `f` becomes `value`; the other
    /// three flags, the lower nibble of `f`, and every other register
    /// keep their values.
    pub fn set_carry(&mut self, value: bool)
        ensures
            *final(self) == (Registers {
                f: with_flag(old(self).f, FLAG_CARRY, value),
                ..*old(self)
            }),
            flag_set(final(self).f, FLAG_CARRY) == value,
            flag_set(final(self).f, FLAG_ZERO) == flag_set(old(self).f, FLAG_ZERO),
            flag_set(final(self).f, FLAG_SUBTRACT) == flag_set(old(self).f, FLAG_SUBTRACT),
            flag_set(final(self).f, FLAG_HALF_CARRY) == flag_set(old(self).f, FLAG_HALF_CARRY),
            final(self).f & 0x0F == old(self).f & 0x0F,
    {
        proof {
            lemma_flag_masks();
            lemma_flag_written(self.f, FLAG_CARRY, value);
            lemma_flag_independence(self.f, FLAG_CARRY, FLAG_ZERO, value);
            lemma_flag_independence(self.f, FLAG_CARRY, FLAG_SUBTRACT, value);
            lemma_flag_independence(self.f, FLAG_CARRY, FLAG_HALF_CARRY, value);
            lemma_flag_independence(self.f, FLAG_CARRY, 0x0F, value);
        }
        if value {
            self.f = self.f | FLAG_CARRY;
        } else {
            self.f = self.f & !FLAG_CARRY;
        }
    }
}

} // verus!
