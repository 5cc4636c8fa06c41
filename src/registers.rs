use vstd::prelude::*;
use crate::flags_register::{
    byte_of_flags,
    flags_of_byte,
    lemma_byte_flags_round_trip,
    FlagsRegister,
};

verus! {

/// The 16-bit value of the pair whose high byte is `high` and low byte `low`.
pub open spec fn pair_value(high: u8, low: u8) -> u16 {
    (high as u16) << 8 | (low as u16)
}

/// The high byte of the 16-bit value `v`.
pub open spec fn high_byte(v: u16) -> u8 {
    (v >> 8) as u8
}

/// The low byte of the 16-bit value `v`.
pub open spec fn low_byte(v: u16) -> u8 {
    (v & 0xFF) as u8
}

/// The eight-bit registers and the flags register of the CPU.
pub struct Registers {
    pub a: u8,
    pub b: u8,
    pub c: u8,
    pub d: u8,
    pub e: u8,
    pub f: FlagsRegister,
    pub h: u8,
    pub l: u8,
}

impl Registers {
    /// Every register zero, every flag clear.
    pub fn new() -> (r: Self)
        ensures
            r.a == 0 && r.b == 0 && r.c == 0 && r.d == 0 && r.e == 0 && r.h == 0 && r.l == 0,
            r.f == (FlagsRegister { zero: false, subtract: false, half_carry: false, carry: false }),
    {
        Registers { a: 0, b: 0, c: 0, d: 0, e: 0, f: FlagsRegister::new(), h: 0, l: 0 }
    }

    fn combine(high: u8, low: u8) -> (r: u16)
        ensures
            r == pair_value(high, low),
    {
        (high as u16) << 8 | low as u16
    }

    fn split(value: u16) -> (r: (u8, u8))
        ensures
            r.0 == high_byte(value),
            r.1 == low_byte(value),
    {
        assert(((value & 0xFF00) >> 8) == value >> 8) by (bit_vector);
        (((value & 0xFF00) >> 8) as u8, (value & 0xFF) as u8)
    }

    /// `A` as the high byte and the status byte as the low byte.
    pub fn get_af(&self) -> (r: u16)
        ensures
            r == pair_value(self.a, byte_of_flags(self.f)),
    {
        Self::combine(self.a, self.f.into())
    }

    /// Writes the high byte of `value` to `A` and decodes its low byte into
    /// the flags; the low nibble is lost.
    pub fn set_af(&mut self, value: u16)
        ensures
            *final(self) == (Registers {
                a: high_byte(value),
                f: flags_of_byte(low_byte(value)),
                ..*old(self)
            }),
    {
        let (high, low) = Self::split(value);
        self.a = high;
        self.f = low.into();
    }

    /// `B` as the high byte and `C` as the low byte.
    pub fn get_bc(&self) -> (r: u16)
        ensures
            r == pair_value(self.b, self.c),
    {
        Self::combine(self.b, self.c)
    }

    /// Writes the high byte of `value` to `B` and its low byte to `C`.
    pub fn set_bc(&mut self, value: u16)
        ensures
            *final(self) == (Registers { b: high_byte(value), c: low_byte(value), ..*old(self) }),
    {
        let (high, low) = Self::split(value);
        self.b = high;
        self.c = low;
    }

    /// `D` as the high byte and `E` as the low byte.
    pub fn get_de(&self) -> (r: u16)
        ensures
            r == pair_value(self.d, self.e),
    {
        Self::combine(self.d, self.e)
    }

    /// Writes the high byte of `value` to `D` and its low byte to `E`.
    pub fn set_de(&mut self, value: u16)
        ensures
            *final(self) == (Registers { d: high_byte(value), e: low_byte(value), ..*old(self) }),
    {
        let (high, low) = Self::split(value);
        self.d = high;
        self.e = low;
    }

    /// `H` as the high byte and `L` as the low byte.
    pub fn get_hl(&self) -> (r: u16)
        ensures
            r == pair_value(self.h, self.l),
    {
        Self::combine(self.h, self.l)
    }

    /// Writes the high byte of `value` to `H` and its low byte to `L`.
    pub fn set_hl(&mut self, value: u16)
        ensures
            *final(self) == (Registers { h: high_byte(value), l: low_byte(value), ..*old(self) }),
    {
        let (high, low) = Self::split(value);
        self.h = high;
        self.l = low;
    }
}

/// Splitting a 16-bit value into its bytes and joining them again gives the
/// value back: the pairs `BC`, `DE` and `HL` lose nothing.
pub proof fn lemma_pair_round_trip(v: u16)
    ensures
        pair_value(high_byte(v), low_byte(v)) == v,
{
    assert((((v >> 8) as u8) as u16) << 8 | (((v & 0xFF) as u8) as u16) == v) by (bit_vector);
}

/// Writing `v` to `AF` and reading it back clears the low nibble: the flags
/// register keeps only the four flag bits.
pub proof fn lemma_af_round_trip(v: u16)
    ensures
        pair_value(high_byte(v), byte_of_flags(flags_of_byte(low_byte(v)))) == v & 0xFFF0,
{
    lemma_byte_flags_round_trip(low_byte(v));
    assert((((v >> 8) as u8) as u16) << 8 | ((((v & 0xFF) as u8) & 0xF0) as u16) == v & 0xFFF0)
        by (bit_vector);
}

} // verus!
