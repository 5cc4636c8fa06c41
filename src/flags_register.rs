use vstd::prelude::*;

verus! {

/// Bit of the status byte that holds the zero flag.
pub const ZERO_FLAG_BYTE_POSITION: u8 = 7;

/// Bit of the status byte that holds the subtract flag.
pub const SUBTRACT_FLAG_BYTE_POSITION: u8 = 6;

/// Bit of the status byte that holds the half-carry flag.
pub const HALF_CARRY_FLAG_BYTE_POSITION: u8 = 5;

/// Bit of the status byte that holds the carry flag.
pub const CARRY_FLAG_BYTE_POSITION: u8 = 4;

/// The four condition flags, packed into the status byte `F`.
#[derive(Copy, Clone, Debug, PartialEq, Eq, Structural)]
pub struct FlagsRegister {
    /// Set when the result of the last operation was zero.
    pub zero: bool,
    /// Set when the last operation was a subtraction.
    pub subtract: bool,
    /// Set when the last operation carried out of the lower nibble.
    pub half_carry: bool,
    /// Set when the last operation carried out of the byte.
    pub carry: bool,
}

/// The status byte of `f`: bit 7 zero, bit 6 subtract, bit 5 half-carry,
/// bit 4 carry, bits 3 to 0 clear.
pub open spec fn byte_of_flags(f: FlagsRegister) -> u8 {
    (if f.zero { 0x80u8 } else { 0u8 }) | (if f.subtract { 0x40u8 } else { 0u8 }) | (if f.half_carry {
        0x20u8
    } else {
        0u8
    }) | (if f.carry { 0x10u8 } else { 0u8 })
}

/// The flags that status byte `b` holds; its low nibble is ignored.
pub open spec fn flags_of_byte(b: u8) -> FlagsRegister {
    FlagsRegister {
        zero: b & 0x80 != 0,
        subtract: b & 0x40 != 0,
        half_carry: b & 0x20 != 0,
        carry: b & 0x10 != 0,
    }
}

impl FlagsRegister {
    /// All four flags clear.
    pub fn new() -> (r: Self)
        ensures
            r == (FlagsRegister { zero: false, subtract: false, half_carry: false, carry: false }),
    {
        FlagsRegister { zero: false, subtract: false, half_carry: false, carry: false }
    }
}

/// Decoding a status byte that was encoded from flags gives those flags back.
pub proof fn lemma_flags_byte_round_trip(f: FlagsRegister)
    ensures
        flags_of_byte(byte_of_flags(f)) == f,
{
    let b = byte_of_flags(f);
    let (z, s, h, c) = (f.zero, f.subtract, f.half_carry, f.carry);
    assert(b == (if z { 0x80u8 } else { 0u8 }) | (if s { 0x40u8 } else { 0u8 }) | (if h {
        0x20u8
    } else {
        0u8
    }) | (if c { 0x10u8 } else { 0u8 }));
    assert(((b & 0x80 != 0) == z) && ((b & 0x40 != 0) == s) && ((b & 0x20 != 0) == h) && ((b
        & 0x10 != 0) == c)) by (bit_vector)
        requires
            b == (if z { 0x80u8 } else { 0u8 }) | (if s { 0x40u8 } else { 0u8 }) | (if h {
                0x20u8
            } else {
                0u8
            }) | (if c { 0x10u8 } else { 0u8 }),
    ;
}

/// Encoding the flags decoded from a status byte keeps its high nibble and
/// clears its low nibble.
pub proof fn lemma_byte_flags_round_trip(b: u8)
    ensures
        byte_of_flags(flags_of_byte(b)) == b & 0xF0,
{
    assert((if b & 0x80 != 0 { 0x80u8 } else { 0u8 }) | (if b & 0x40 != 0 { 0x40u8 } else { 0u8 })
        | (if b & 0x20 != 0 { 0x20u8 } else { 0u8 }) | (if b & 0x10 != 0 { 0x10u8 } else { 0u8 })
        == b & 0xF0) by (bit_vector);
}

/// The bit at `position` set when `flag` is, every other bit clear.
fn flag_bit(flag: bool, position: u8) -> (r: u8)
    requires
        position < 8,
    ensures
        r == (if flag { 1u8 << position } else { 0u8 }),
{
    if flag {
        1u8 << position
    } else {
        0
    }
}

/// Whether the bit at `position` of `byte` is set.
fn bit_is_set(byte: u8, position: u8) -> (r: bool)
    requires
        position < 8,
    ensures
        r == ((byte >> position) & 1 != 0),
{
    ((byte >> position) & 0b1) != 0
}

impl From<FlagsRegister> for u8 {
    fn from(flag: FlagsRegister) -> (r: u8) {
        let r = flag_bit(flag.zero, ZERO_FLAG_BYTE_POSITION) | flag_bit(
            flag.subtract,
            SUBTRACT_FLAG_BYTE_POSITION,
        ) | flag_bit(flag.half_carry, HALF_CARRY_FLAG_BYTE_POSITION) | flag_bit(
            flag.carry,
            CARRY_FLAG_BYTE_POSITION,
        );
        assert(1u8 << 7u8 == 0x80u8 && 1u8 << 6u8 == 0x40u8 && 1u8 << 5u8 == 0x20u8 && 1u8 << 4u8
            == 0x10u8) by (bit_vector);
        r
    }
}

impl vstd::std_specs::convert::FromSpecImpl<FlagsRegister> for u8 {
    open spec fn obeys_from_spec() -> bool {
        true
    }

    open spec fn from_spec(v: FlagsRegister) -> u8 {
        byte_of_flags(v)
    }
}

impl From<u8> for FlagsRegister {
    fn from(byte: u8) -> (r: Self) {
        let zero = bit_is_set(byte, ZERO_FLAG_BYTE_POSITION);
        let subtract = bit_is_set(byte, SUBTRACT_FLAG_BYTE_POSITION);
        let half_carry = bit_is_set(byte, HALF_CARRY_FLAG_BYTE_POSITION);
        let carry = bit_is_set(byte, CARRY_FLAG_BYTE_POSITION);
        assert(((byte >> 7u8) & 1 != 0) == (byte & 0x80 != 0) && ((byte >> 6u8) & 1 != 0) == (byte
            & 0x40 != 0) && ((byte >> 5u8) & 1 != 0) == (byte & 0x20 != 0) && ((byte >> 4u8) & 1
            != 0) == (byte & 0x10 != 0)) by (bit_vector);
        FlagsRegister { zero, subtract, half_carry, carry }
    }
}

impl vstd::std_specs::convert::FromSpecImpl<u8> for FlagsRegister {
    open spec fn obeys_from_spec() -> bool {
        true
    }

    open spec fn from_spec(v: u8) -> FlagsRegister {
        flags_of_byte(v)
    }
}

} // verus!
