use vstd::prelude::*;

verus! {

/// The 16-bit value whose high byte is `hi` and low byte is `lo`.
pub open spec fn join(hi: u8, lo: u8) -> u16 {
    (hi as nat * 256 + lo as nat) as u16
}

/// The high byte of `v`.
pub open spec fn high_byte(v: u16) -> u8 {
    (v / 256) as u8
}

/// The low byte of `v`.
pub open spec fn low_byte(v: u16) -> u8 {
    (v % 256) as u8
}

/// The four condition flags of the processor.
#[derive(Debug, Clone, Copy, PartialEq, Eq, Structural)]
pub struct FlagRegister {
    pub zero: bool,
    pub subtract: bool,
    pub half_carry: bool,
    pub carry: bool,
}

/// The flag byte of `f`: zero, subtract, half-carry and carry in bits 7 to 4,
/// the low nibble clear.
pub open spec fn flag_byte(f: FlagRegister) -> u8 {
    ((if f.zero { 0x80nat } else { 0 }) + (if f.subtract { 0x40nat } else { 0 }) + (if f.half_carry {
        0x20nat
    } else {
        0
    }) + (if f.carry { 0x10nat } else { 0 })) as u8
}

/// The flags that bits 7 to 4 of `b` hold; the low nibble is ignored.
pub open spec fn flags_of(b: u8) -> FlagRegister {
    FlagRegister {
        zero: b & 0x80 != 0,
        subtract: b & 0x40 != 0,
        half_carry: b & 0x20 != 0,
        carry: b & 0x10 != 0,
    }
}

impl From<FlagRegister> for u8 {
    fn from(flag: FlagRegister) -> (r: u8)
        ensures
            r == flag_byte(flag),
    {
        let z: u8 = if flag.zero { 1 } else { 0 };
        let n: u8 = if flag.subtract { 1 } else { 0 };
        let h: u8 = if flag.half_carry { 1 } else { 0 };
        let c: u8 = if flag.carry { 1 } else { 0 };
        let r = z << 7u8 | n << 6u8 | h << 5u8 | c << 4u8;
        assert(r as nat == z as nat * 0x80 + n as nat * 0x40 + h as nat * 0x20 + c as nat * 0x10)
            by (bit_vector)
            requires
                z <= 1 && n <= 1 && h <= 1 && c <= 1,
                r == z << 7u8 | n << 6u8 | h << 5u8 | c << 4u8,
        ;
        r
    }
}

impl vstd::std_specs::convert::FromSpecImpl<FlagRegister> for u8 {
    open spec fn obeys_from_spec() -> bool {
        true
    }

    open spec fn from_spec(v: FlagRegister) -> u8 {
        flag_byte(v)
    }
}

impl From<u8> for FlagRegister {
    fn from(byte: u8) -> (r: FlagRegister)
        ensures
            r == flags_of(byte),
    {
        let zero = byte & 0x80 != 0;
        let subtract = byte & 0x40 != 0;
        let half_carry = byte & 0x20 != 0;
        let carry = byte & 0x10 != 0;
        FlagRegister { zero, subtract, half_carry, carry }
    }
}

impl vstd::std_specs::convert::FromSpecImpl<u8> for FlagRegister {
    open spec fn obeys_from_spec() -> bool {
        true
    }

    open spec fn from_spec(v: u8) -> FlagRegister {
        flags_of(v)
    }
}

/// Decoding the top nibble of a byte into flags and encoding them again gives
/// back that byte with its low nibble forced to zero.
pub proof fn lemma_flag_round_trip(b: u8)
    ensures
        flag_byte(flags_of(b)) == b & 0xF0,
{
    let f = flags_of(b);
    let z: u8 = if f.zero { 1 } else { 0 };
    let n: u8 = if f.subtract { 1 } else { 0 };
    let h: u8 = if f.half_carry { 1 } else { 0 };
    let c: u8 = if f.carry { 1 } else { 0 };
    assert(z as nat * 0x80 + n as nat * 0x40 + h as nat * 0x20 + c as nat * 0x10 == (b & 0xF0) as nat)
        by (bit_vector)
        requires
            z == (if b & 0x80 != 0 { 1u8 } else { 0u8 }),
            n == (if b & 0x40 != 0 { 1u8 } else { 0u8 }),
            h == (if b & 0x20 != 0 { 1u8 } else { 0u8 }),
            c == (if b & 0x10 != 0 { 1u8 } else { 0u8 }),
    ;
}

/// Encoding flags into a byte and decoding that byte gives back the flags.
pub proof fn lemma_flags_survive_encoding(f: FlagRegister)
    ensures
        flags_of(flag_byte(f)) == f,
{
    let z: u8 = if f.zero { 1 } else { 0 };
    let n: u8 = if f.subtract { 1 } else { 0 };
    let h: u8 = if f.half_carry { 1 } else { 0 };
    let c: u8 = if f.carry { 1 } else { 0 };
    let b = flag_byte(f);
    assert(b as nat == z as nat * 0x80 + n as nat * 0x40 + h as nat * 0x20 + c as nat * 0x10);
    assert((b & 0x80 != 0) == (z == 1) && (b & 0x40 != 0) == (n == 1) && (b & 0x20 != 0) == (h
        == 1) && (b & 0x10 != 0) == (c == 1)) by (bit_vector)
        requires
            z <= 1 && n <= 1 && h <= 1 && c <= 1,
            b as nat == z as nat * 0x80 + n as nat * 0x40 + h as nat * 0x20 + c as nat * 0x10,
    ;
}

/// Joining the two bytes of a value gives the value back.
proof fn lemma_split_join(v: u16)
    ensures
        join(high_byte(v), low_byte(v)) == v,
{
}

/// The bit-level pair composition equals the arithmetic one.
proof fn lemma_join_bits(hi: u8, lo: u8)
    ensures
        (hi as u16) << 8u16 | lo as u16 == join(hi, lo),
{
    assert((hi as u16) << 8u16 | lo as u16 == hi as u16 * 256 + lo as u16) by (bit_vector);
}

/// The bit-level pair split equals the arithmetic one.
pub(crate) proof fn lemma_split_bits(v: u16)
    ensures
        (v >> 8u16) as u8 == high_byte(v),
        (v & 0xFF) as u8 == low_byte(v),
        (v & 0xF0) as u8 == low_byte(v) & 0xF0,
{
    assert((v >> 8u16) as u8 == (v / 256) as u8 && (v & 0xFF) as u8 == (v % 256) as u8 && (v
        & 0xF0) as u8 == ((v % 256) as u8) & 0xF0) by (bit_vector);
}

/// The register file: seven 8-bit registers and the flag register.
#[derive(Debug, Clone, Copy, PartialEq, Eq, Structural)]
pub struct Registers {
    pub a: u8,
    pub b: u8,
    pub c: u8,
    pub d: u8,
    pub e: u8,
    pub f: FlagRegister,
    pub h: u8,
    pub l: u8,
}

impl Registers {
    /// The value of the AF pair: A high, the flag byte low.
    pub open spec fn af_value(self) -> u16 {
        join(self.a, flag_byte(self.f))
    }

    pub open spec fn bc_value(self) -> u16 {
        join(self.b, self.c)
    }

    pub open spec fn de_value(self) -> u16 {
        join(self.d, self.e)
    }

    pub open spec fn hl_value(self) -> u16 {
        join(self.h, self.l)
    }

    /// The registers after writing `v` into AF: the high byte goes to A, the
    /// flag nibble of the low byte to F.
    pub open spec fn with_af(self, v: u16) -> Registers {
        Registers { a: high_byte(v), f: flags_of(low_byte(v)), ..self }
    }

    pub open spec fn with_bc(self, v: u16) -> Registers {
        Registers { b: high_byte(v), c: low_byte(v), ..self }
    }

    pub open spec fn with_de(self, v: u16) -> Registers {
        Registers { d: high_byte(v), e: low_byte(v), ..self }
    }

    pub open spec fn with_hl(self, v: u16) -> Registers {
        Registers { h: high_byte(v), l: low_byte(v), ..self }
    }

    /// All registers zero, all flags clear.
    pub open spec fn new_spec() -> Registers {
        let f = FlagRegister { zero: false, subtract: false, half_carry: false, carry: false };
        Registers { a: 0, b: 0, c: 0, d: 0, e: 0, f, h: 0, l: 0 }
    }

    /// All registers zero, all flags clear.
    pub fn new() -> (r: Registers)
        ensures
            r == Registers::new_spec(),
    {
        assert(0u8 & 0x80 == 0 && 0u8 & 0x40 == 0 && 0u8 & 0x20 == 0 && 0u8 & 0x10 == 0)
            by (bit_vector);
        Registers { a: 0, b: 0, c: 0, d: 0, e: 0, f: FlagRegister::from(0u8), h: 0, l: 0 }
    }

    pub fn af(&self) -> (r: u16)
        ensures
            r == self.af_value(),
    {
        let f = u8::from(self.f);
        proof {
            lemma_join_bits(self.a, f);
        }
        (self.a as u16) << 8u16 | f as u16
    }

    pub fn write_af(&mut self, value: u16)
        ensures
            *final(self) == old(self).with_af(value),
    {
        proof {
            lemma_split_bits(value);
            let lo = low_byte(value);
            assert((lo & 0xF0) & 0x80 == lo & 0x80 && (lo & 0xF0) & 0x40 == lo & 0x40 && (lo
                & 0xF0) & 0x20 == lo & 0x20 && (lo & 0xF0) & 0x10 == lo & 0x10) by (bit_vector);
        }
        self.a = (value >> 8u16) as u8;
        self.f = FlagRegister::from((value & 0xF0) as u8);
    }

    pub fn bc(&self) -> (r: u16)
        ensures
            r == self.bc_value(),
    {
        proof {
            lemma_join_bits(self.b, self.c);
        }
        (self.b as u16) << 8u16 | self.c as u16
    }

    pub fn write_bc(&mut self, value: u16)
        ensures
            *final(self) == old(self).with_bc(value),
    {
        proof {
            lemma_split_bits(value);
        }
        self.b = (value >> 8u16) as u8;
        self.c = (value & 0xFF) as u8;
    }

    pub fn de(&self) -> (r: u16)
        ensures
            r == self.de_value(),
    {
        proof {
            lemma_join_bits(self.d, self.e);
        }
        (self.d as u16) << 8u16 | self.e as u16
    }

    pub fn write_de(&mut self, value: u16)
        ensures
            *final(self) == old(self).with_de(value),
    {
        proof {
            lemma_split_bits(value);
        }
        self.d = (value >> 8u16) as u8;
        self.e = (value & 0xFF) as u8;
    }

    pub fn hl(&self) -> (r: u16)
        ensures
            r == self.hl_value(),
    {
        proof {
            lemma_join_bits(self.h, self.l);
        }
        (self.h as u16) << 8u16 | self.l as u16
    }

    pub fn write_hl(&mut self, value: u16)
        ensures
            *final(self) == old(self).with_hl(value),
    {
        proof {
            lemma_split_bits(value);
        }
        self.h = (value >> 8u16) as u8;
        self.l = (value & 0xFF) as u8;
    }
}

/// Writing any 16-bit value into a register pair and reading the pair back
/// yields that value; for AF the low nibble comes back cleared.
pub proof fn lemma_pair_round_trip(r: Registers, v: u16)
    ensures
        r.with_bc(v).bc_value() == v,
        r.with_de(v).de_value() == v,
        r.with_hl(v).hl_value() == v,
        r.with_af(v).af_value() == v & 0xFFF0,
{
    lemma_split_join(v);
    lemma_flag_round_trip(low_byte(v));
    assert(join(high_byte(v), low_byte(v) & 0xF0) == v & 0xFFF0) by (bit_vector);
}

} // verus!
