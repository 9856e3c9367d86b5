//! The register file: eight 8-bit cells, addressable as four 16-bit pairs.
//!
//! A pair is a view over two cells, not storage of its own: reading a pair
//! composes the word from the two bytes, writing one replaces exactly those
//! two bytes.

use vstd::prelude::*;
use crate::word::{
    high_byte, lemma_high_byte_is_shift, lemma_low_byte_is_mask, lemma_split_of_word,
    lemma_word_is_shift_or, lemma_word_of_split, low_byte, word,
};

verus! {

/// The eight 8-bit registers. Every combination of byte values is a valid
/// state; `f` holds raw bits, whatever the flags codec would make of them.
#[derive(Clone, Copy, Debug, PartialEq, Eq, Structural)]
pub struct Registers {
    pub a: u8,
    pub b: u8,
    pub c: u8,
    pub d: u8,
    pub e: u8,
    pub f: u8,
    pub h: u8,
    pub l: u8,
}

/// The four 16-bit register pairs, each named high register first.
#[derive(Clone, Copy, Debug, PartialEq, Eq, Structural)]
pub enum RegisterPair {
    AF,
    BC,
    DE,
    HL,
}

impl Registers {
    /// The register that holds bits 15 to 8 of `pair`.
    pub open spec fn high(self, pair: RegisterPair) -> u8 {
        match pair {
            RegisterPair::AF => self.a,
            RegisterPair::BC => self.b,
            RegisterPair::DE => self.d,
            RegisterPair::HL => self.h,
        }
    }

    /// The register that holds bits 7 to 0 of `pair`.
    pub open spec fn low(self, pair: RegisterPair) -> u8 {
        match pair {
            RegisterPair::AF => self.f,
            RegisterPair::BC => self.c,
            RegisterPair::DE => self.e,
            RegisterPair::HL => self.l,
        }
    }

    /// The 16-bit value of `pair`.
    pub open spec fn pair(self, pair: RegisterPair) -> u16 {
        word(self.high(pair), self.low(pair))
    }

    /// The register file after `value` was written to `pair`: the pair's two
    /// registers hold the two bytes of `value`, the other six are untouched.
    pub open spec fn with_pair(self, pair: RegisterPair, value: u16) -> Registers {
        match pair {
            RegisterPair::AF => Registers { a: high_byte(value), f: low_byte(value), ..self },
            RegisterPair::BC => Registers { b: high_byte(value), c: low_byte(value), ..self },
            RegisterPair::DE => Registers { d: high_byte(value), e: low_byte(value), ..self },
            RegisterPair::HL => Registers { h: high_byte(value), l: low_byte(value), ..self },
        }
    }

    /// A register file with every register zero.
    pub fn new() -> (registers: Registers)
        ensures
            registers == (Registers { a: 0, b: 0, c: 0, d: 0, e: 0, f: 0, h: 0, l: 0 }),
    {
        Registers { a: 0, b: 0, c: 0, d: 0, e: 0, f: 0, h: 0, l: 0 }
    }

    /// Reads the pair AF: `a` is the high byte, `f` the low one.
    pub fn get_af(&self) -> (value: u16)
        ensures
            value == self.pair(RegisterPair::AF),
    {
        proof {
            lemma_word_is_shift_or(self.a, self.f);
        }
        (self.a as u16) << 8 | (self.f as u16)
    }

    /// Writes the pair AF: the high byte of `value` to `a`, the low one to `f`.
    pub fn set_af(&mut self, value: u16)
        ensures
            *final(self) == old(self).with_pair(RegisterPair::AF, value),
    {
        proof {
            lemma_high_byte_is_shift(value);
            lemma_low_byte_is_mask(value);
        }
        self.a = ((value & 0xFF00) >> 8) as u8;
        self.f = (value & 0xFF) as u8;
    }

    /// Reads the pair BC: `b` is the high byte, `c` the low one.
    pub fn get_bc(&self) -> (value: u16)
        ensures
            value == self.pair(RegisterPair::BC),
    {
        proof {
            lemma_word_is_shift_or(self.b, self.c);
        }
        (self.b as u16) << 8 | (self.c as u16)
    }

    /// Writes the pair BC: the high byte of `value` to `b`, the low one to `c`.
    pub fn set_bc(&mut self, value: u16)
        ensures
            *final(self) == old(self).with_pair(RegisterPair::BC, value),
    {
        proof {
            lemma_high_byte_is_shift(value);
            lemma_low_byte_is_mask(value);
        }
        self.b = ((value & 0xFF00) >> 8) as u8;
        self.c = (value & 0xFF) as u8;
    }

    /// Reads the pair DE: `d` is the high byte, `e` the low one.
    pub fn get_de(&self) -> (value: u16)
        ensures
            value == self.pair(RegisterPair::DE),
    {
        proof {
            lemma_word_is_shift_or(self.d, self.e);
        }
        (self.d as u16) << 8 | (self.e as u16)
    }

    /// Writes the pair DE: the high byte of `value` to `d`, the low one to `e`.
    pub fn set_de(&mut self, value: u16)
        ensures
            *final(self) == old(self).with_pair(RegisterPair::DE, value),
    {
        proof {
            lemma_high_byte_is_shift(value);
            lemma_low_byte_is_mask(value);
        }
        self.d = ((value & 0xFF00) >> 8) as u8;
        self.e = (value & 0xFF) as u8;
    }

    /// Reads the pair HL: `h` is the high byte, `l` the low one.
    pub fn get_hl(&self) -> (value: u16)
        ensures
            value == self.pair(RegisterPair::HL),
    {
        proof {
            lemma_word_is_shift_or(self.h, self.l);
        }
        (self.h as u16) << 8 | (self.l as u16)
    }

    /// Writes the pair HL: the high byte of `value` to `h`, the low one to `l`.
    pub fn set_hl(&mut self, value: u16)
        ensures
            *final(self) == old(self).with_pair(RegisterPair::HL, value),
    {
        proof {
            lemma_high_byte_is_shift(value);
            lemma_low_byte_is_mask(value);
        }
        self.h = ((value & 0xFF00) >> 8) as u8;
        self.l = (value & 0xFF) as u8;
    }

    /// Reads `pair` as one 16-bit value.
    pub fn get_pair(&self, pair: RegisterPair) -> (value: u16)
        ensures
            value == self.pair(pair),
    {
        match pair {
            RegisterPair::AF => self.get_af(),
            RegisterPair::BC => self.get_bc(),
            RegisterPair::DE => self.get_de(),
            RegisterPair::HL => self.get_hl(),
        }
    }

    /// Writes `value` to `pair`, replacing both of its registers and no other.
    pub fn set_pair(&mut self, pair: RegisterPair, value: u16)
        ensures
            *final(self) == old(self).with_pair(pair, value),
    {
        match pair {
            RegisterPair::AF => self.set_af(value),
            RegisterPair::BC => self.set_bc(value),
            RegisterPair::DE => self.set_de(value),
            RegisterPair::HL => self.set_hl(value),
        }
    }
}

/// A pair that was written reads back as the value written.
pub proof fn lemma_set_then_get(registers: Registers, pair: RegisterPair, value: u16)
    ensures
        registers.with_pair(pair, value).pair(pair) == value,
{
    lemma_word_of_split(value);
}

/// After a pair was written with the word composed of `high` and `low`, the
/// pair reads back as that word, its high register holds `high` and its low
/// register holds `low`.
pub proof fn lemma_set_composed(registers: Registers, pair: RegisterPair, high: u8, low: u8)
    ensures
        ({
            let value = ((high as u16) << 8) | (low as u16);
            let written = registers.with_pair(pair, value);
            &&& written.pair(pair) == value
            &&& written.high(pair) == high
            &&& written.low(pair) == low
        }),
{
    lemma_word_is_shift_or(high, low);
    lemma_split_of_word(high, low);
}

/// Writing one pair leaves the three other pairs as they were.
pub proof fn lemma_set_leaves_others(
    registers: Registers,
    pair: RegisterPair,
    value: u16,
    other: RegisterPair,
)
    requires
        other != pair,
    ensures
        registers.with_pair(pair, value).pair(other) == registers.pair(other),
        registers.with_pair(pair, value).high(other) == registers.high(other),
        registers.with_pair(pair, value).low(other) == registers.low(other),
{
}

} // verus!
