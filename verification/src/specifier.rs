//! The specifier registry: one width tag for each field width in 1..=64,
//! each carrying the narrowest unsigned carrier type that holds it, with
//! the conversions between the carrier and the raw bits of a field range.
//! A boolean is a one-bit specifier whose carrier is `bool` itself.

use vstd::prelude::*;
use vstd::arithmetic::power2::{lemma2_to64, lemma2_to64_rest, pow2};
use crate::schema::{spec_kind_width, FieldSpec, SpecifierKind};

verus! {

/// A type that can describe a bitfield member: it fixes the member's bit
/// width and converts between the raw bits of the member's range and the
/// logical carrier value.
pub trait Specifier {
    /// The carrier type staged through get and set operations.
    type Bytes;

    /// The number of bits a member of this specifier occupies.
    spec fn spec_bits() -> nat;

    /// The raw bit pattern of a carrier value, widened to 64 bits.
    spec fn spec_encoded(v: Self::Bytes) -> u64;

    /// The number of bits, as a runtime value.
    fn bits() -> (r: usize)
        ensures
            r as nat == Self::spec_bits(),
            1 <= r <= 64,
    ;

    /// Decode the raw bits read from a member's range. The accessor engine
    /// only ever produces width-bit values, so the raw value always fits.
    fn from_u64(val: u64) -> (r: Self::Bytes)
        requires
            (val as nat) < pow2(Self::spec_bits()),
        ensures
            Self::spec_encoded(r) == val,
    ;

    /// Encode a carrier value as the raw bits of a member's range.
    fn into_u64(val: Self::Bytes) -> (r: u64)
        ensures
            r == Self::spec_encoded(val),
    ;

    /// The schema value this specifier stands for.
    spec fn spec_kind() -> SpecifierKind;

    /// This specifier as a schema value, for the layout planner.
    fn specifier_kind() -> (k: SpecifierKind)
        ensures
            k == Self::spec_kind(),
            spec_kind_width(k) == Self::spec_bits(),
    ;
}

/// A field over the specifier `S`, with no author-asserted width.
pub fn field_of<S: Specifier>(name: String) -> (r: FieldSpec)
    ensures
        r.name == name,
        r.kind == S::spec_kind(),
        spec_kind_width(r.kind) == S::spec_bits(),
        r.declared_bits is None,
{
    FieldSpec { name, kind: S::specifier_kind(), declared_bits: None }
}

impl Specifier for bool {
    type Bytes = bool;

    open spec fn spec_bits() -> nat {
        1
    }

    open spec fn spec_encoded(v: bool) -> u64 {
        if v {
            1u64
        } else {
            0u64
        }
    }

    fn bits() -> (r: usize) {
        1
    }

    fn from_u64(val: u64) -> (r: bool) {
        proof {
            lemma2_to64();
        }
        val != 0
    }

    fn into_u64(val: bool) -> (r: u64) {
        if val {
            1
        } else {
            0
        }
    }

    open spec fn spec_kind() -> SpecifierKind {
        SpecifierKind::Boolean
    }

    fn specifier_kind() -> (k: SpecifierKind) {
        SpecifierKind::Boolean
    }
}

/// The 1-bit width tag.
pub enum B1 {
    Marker,
}

/// The 2-bit width tag.
pub enum B2 {
    Marker,
}

/// The 3-bit width tag.
pub enum B3 {
    Marker,
}

/// The 4-bit width tag.
pub enum B4 {
    Marker,
}

/// The 5-bit width tag.
pub enum B5 {
    Marker,
}

/// The 6-bit width tag.
pub enum B6 {
    Marker,
}

/// The 7-bit width tag.
pub enum B7 {
    Marker,
}

/// The 8-bit width tag.
pub enum B8 {
    Marker,
}

/// The 9-bit width tag.
pub enum B9 {
    Marker,
}

/// The 10-bit width tag.
pub enum B10 {
    Marker,
}

/// The 11-bit width tag.
pub enum B11 {
    Marker,
}

/// The 12-bit width tag.
pub enum B12 {
    Marker,
}

/// The 13-bit width tag.
pub enum B13 {
    Marker,
}

/// The 14-bit width tag.
pub enum B14 {
    Marker,
}

/// The 15-bit width tag.
pub enum B15 {
    Marker,
}

/// The 16-bit width tag.
pub enum B16 {
    Marker,
}

/// The 17-bit width tag.
pub enum B17 {
    Marker,
}

/// The 18-bit width tag.
pub enum B18 {
    Marker,
}

/// The 19-bit width tag.
pub enum B19 {
    Marker,
}

/// The 20-bit width tag.
pub enum B20 {
    Marker,
}

/// The 21-bit width tag.
pub enum B21 {
    Marker,
}

/// The 22-bit width tag.
pub enum B22 {
    Marker,
}

/// The 23-bit width tag.
pub enum B23 {
    Marker,
}

/// The 24-bit width tag.
pub enum B24 {
    Marker,
}

/// The 25-bit width tag.
pub enum B25 {
    Marker,
}

/// The 26-bit width tag.
pub enum B26 {
    Marker,
}

/// The 27-bit width tag.
pub enum B27 {
    Marker,
}

/// The 28-bit width tag.
pub enum B28 {
    Marker,
}

/// The 29-bit width tag.
pub enum B29 {
    Marker,
}

/// The 30-bit width tag.
pub enum B30 {
    Marker,
}

/// The 31-bit width tag.
pub enum B31 {
    Marker,
}

/// The 32-bit width tag.
pub enum B32 {
    Marker,
}

/// The 33-bit width tag.
pub enum B33 {
    Marker,
}

/// The 34-bit width tag.
pub enum B34 {
    Marker,
}

/// The 35-bit width tag.
pub enum B35 {
    Marker,
}

/// The 36-bit width tag.
pub enum B36 {
    Marker,
}

/// The 37-bit width tag.
pub enum B37 {
    Marker,
}

/// The 38-bit width tag.
pub enum B38 {
    Marker,
}

/// The 39-bit width tag.
pub enum B39 {
    Marker,
}

/// The 40-bit width tag.
pub enum B40 {
    Marker,
}

/// The 41-bit width tag.
pub enum B41 {
    Marker,
}

/// The 42-bit width tag.
pub enum B42 {
    Marker,
}

/// The 43-bit width tag.
pub enum B43 {
    Marker,
}

/// The 44-bit width tag.
pub enum B44 {
    Marker,
}

/// The 45-bit width tag.
pub enum B45 {
    Marker,
}

/// The 46-bit width tag.
pub enum B46 {
    Marker,
}

/// The 47-bit width tag.
pub enum B47 {
    Marker,
}

/// The 48-bit width tag.
pub enum B48 {
    Marker,
}

/// The 49-bit width tag.
pub enum B49 {
    Marker,
}

/// The 50-bit width tag.
pub enum B50 {
    Marker,
}

/// The 51-bit width tag.
pub enum B51 {
    Marker,
}

/// The 52-bit width tag.
pub enum B52 {
    Marker,
}

/// The 53-bit width tag.
pub enum B53 {
    Marker,
}

/// The 54-bit width tag.
pub enum B54 {
    Marker,
}

/// The 55-bit width tag.
pub enum B55 {
    Marker,
}

/// The 56-bit width tag.
pub enum B56 {
    Marker,
}

/// The 57-bit width tag.
pub enum B57 {
    Marker,
}

/// The 58-bit width tag.
pub enum B58 {
    Marker,
}

/// The 59-bit width tag.
pub enum B59 {
    Marker,
}

/// The 60-bit width tag.
pub enum B60 {
    Marker,
}

/// The 61-bit width tag.
pub enum B61 {
    Marker,
}

/// The 62-bit width tag.
pub enum B62 {
    Marker,
}

/// The 63-bit width tag.
pub enum B63 {
    Marker,
}

/// The 64-bit width tag.
pub enum B64 {
    Marker,
}

impl Specifier for B1 {
    type Bytes = u8;

    open spec fn spec_bits() -> nat {
        1
    }

    open spec fn spec_encoded(v: u8) -> u64 {
        v as u64
    }

    fn bits() -> (r: usize) {
        1
    }

    fn from_u64(val: u64) -> (r: u8) {
        proof {
            lemma2_to64();
        }
        val as u8
    }

    fn into_u64(val: u8) -> (r: u64) {
        val as u64
    }

    open spec fn spec_kind() -> SpecifierKind {
        SpecifierKind::Unsigned { bits: 1 }
    }

    fn specifier_kind() -> (k: SpecifierKind) {
        SpecifierKind::Unsigned { bits: 1 }
    }
}

impl Specifier for B2 {
    type Bytes = u8;

    open spec fn spec_bits() -> nat {
        2
    }

    open spec fn spec_encoded(v: u8) -> u64 {
        v as u64
    }

    fn bits() -> (r: usize) {
        2
    }

    fn from_u64(val: u64) -> (r: u8) {
        proof {
            lemma2_to64();
        }
        val as u8
    }

    fn into_u64(val: u8) -> (r: u64) {
        val as u64
    }

    open spec fn spec_kind() -> SpecifierKind {
        SpecifierKind::Unsigned { bits: 2 }
    }

    fn specifier_kind() -> (k: SpecifierKind) {
        SpecifierKind::Unsigned { bits: 2 }
    }
}

impl Specifier for B3 {
    type Bytes = u8;

    open spec fn spec_bits() -> nat {
        3
    }

    open spec fn spec_encoded(v: u8) -> u64 {
        v as u64
    }

    fn bits() -> (r: usize) {
        3
    }

    fn from_u64(val: u64) -> (r: u8) {
        proof {
            lemma2_to64();
        }
        val as u8
    }

    fn into_u64(val: u8) -> (r: u64) {
        val as u64
    }

    open spec fn spec_kind() -> SpecifierKind {
        SpecifierKind::Unsigned { bits: 3 }
    }

    fn specifier_kind() -> (k: SpecifierKind) {
        SpecifierKind::Unsigned { bits: 3 }
    }
}

impl Specifier for B4 {
    type Bytes = u8;

    open spec fn spec_bits() -> nat {
        4
    }

    open spec fn spec_encoded(v: u8) -> u64 {
        v as u64
    }

    fn bits() -> (r: usize) {
        4
    }

    fn from_u64(val: u64) -> (r: u8) {
        proof {
            lemma2_to64();
        }
        val as u8
    }

    fn into_u64(val: u8) -> (r: u64) {
        val as u64
    }

    open spec fn spec_kind() -> SpecifierKind {
        SpecifierKind::Unsigned { bits: 4 }
    }

    fn specifier_kind() -> (k: SpecifierKind) {
        SpecifierKind::Unsigned { bits: 4 }
    }
}

impl Specifier for B5 {
    type Bytes = u8;

    open spec fn spec_bits() -> nat {
        5
    }

    open spec fn spec_encoded(v: u8) -> u64 {
        v as u64
    }

    fn bits() -> (r: usize) {
        5
    }

    fn from_u64(val: u64) -> (r: u8) {
        proof {
            lemma2_to64();
        }
        val as u8
    }

    fn into_u64(val: u8) -> (r: u64) {
        val as u64
    }

    open spec fn spec_kind() -> SpecifierKind {
        SpecifierKind::Unsigned { bits: 5 }
    }

    fn specifier_kind() -> (k: SpecifierKind) {
        SpecifierKind::Unsigned { bits: 5 }
    }
}

impl Specifier for B6 {
    type Bytes = u8;

    open spec fn spec_bits() -> nat {
        6
    }

    open spec fn spec_encoded(v: u8) -> u64 {
        v as u64
    }

    fn bits() -> (r: usize) {
        6
    }

    fn from_u64(val: u64) -> (r: u8) {
        proof {
            lemma2_to64();
        }
        val as u8
    }

    fn into_u64(val: u8) -> (r: u64) {
        val as u64
    }

    open spec fn spec_kind() -> SpecifierKind {
        SpecifierKind::Unsigned { bits: 6 }
    }

    fn specifier_kind() -> (k: SpecifierKind) {
        SpecifierKind::Unsigned { bits: 6 }
    }
}

impl Specifier for B7 {
    type Bytes = u8;

    open spec fn spec_bits() -> nat {
        7
    }

    open spec fn spec_encoded(v: u8) -> u64 {
        v as u64
    }

    fn bits() -> (r: usize) {
        7
    }

    fn from_u64(val: u64) -> (r: u8) {
        proof {
            lemma2_to64();
        }
        val as u8
    }

    fn into_u64(val: u8) -> (r: u64) {
        val as u64
    }

    open spec fn spec_kind() -> SpecifierKind {
        SpecifierKind::Unsigned { bits: 7 }
    }

    fn specifier_kind() -> (k: SpecifierKind) {
        SpecifierKind::Unsigned { bits: 7 }
    }
}

impl Specifier for B8 {
    type Bytes = u8;

    open spec fn spec_bits() -> nat {
        8
    }

    open spec fn spec_encoded(v: u8) -> u64 {
        v as u64
    }

    fn bits() -> (r: usize) {
        8
    }

    fn from_u64(val: u64) -> (r: u8) {
        proof {
            lemma2_to64();
        }
        val as u8
    }

    fn into_u64(val: u8) -> (r: u64) {
        val as u64
    }

    open spec fn spec_kind() -> SpecifierKind {
        SpecifierKind::Unsigned { bits: 8 }
    }

    fn specifier_kind() -> (k: SpecifierKind) {
        SpecifierKind::Unsigned { bits: 8 }
    }
}

impl Specifier for B9 {
    type Bytes = u16;

    open spec fn spec_bits() -> nat {
        9
    }

    open spec fn spec_encoded(v: u16) -> u64 {
        v as u64
    }

    fn bits() -> (r: usize) {
        9
    }

    fn from_u64(val: u64) -> (r: u16) {
        proof {
            lemma2_to64();
        }
        val as u16
    }

    fn into_u64(val: u16) -> (r: u64) {
        val as u64
    }

    open spec fn spec_kind() -> SpecifierKind {
        SpecifierKind::Unsigned { bits: 9 }
    }

    fn specifier_kind() -> (k: SpecifierKind) {
        SpecifierKind::Unsigned { bits: 9 }
    }
}

impl Specifier for B10 {
    type Bytes = u16;

    open spec fn spec_bits() -> nat {
        10
    }

    open spec fn spec_encoded(v: u16) -> u64 {
        v as u64
    }

    fn bits() -> (r: usize) {
        10
    }

    fn from_u64(val: u64) -> (r: u16) {
        proof {
            lemma2_to64();
        }
        val as u16
    }

    fn into_u64(val: u16) -> (r: u64) {
        val as u64
    }

    open spec fn spec_kind() -> SpecifierKind {
        SpecifierKind::Unsigned { bits: 10 }
    }

    fn specifier_kind() -> (k: SpecifierKind) {
        SpecifierKind::Unsigned { bits: 10 }
    }
}

impl Specifier for B11 {
    type Bytes = u16;

    open spec fn spec_bits() -> nat {
        11
    }

    open spec fn spec_encoded(v: u16) -> u64 {
        v as u64
    }

    fn bits() -> (r: usize) {
        11
    }

    fn from_u64(val: u64) -> (r: u16) {
        proof {
            lemma2_to64();
        }
        val as u16
    }

    fn into_u64(val: u16) -> (r: u64) {
        val as u64
    }

    open spec fn spec_kind() -> SpecifierKind {
        SpecifierKind::Unsigned { bits: 11 }
    }

    fn specifier_kind() -> (k: SpecifierKind) {
        SpecifierKind::Unsigned { bits: 11 }
    }
}

impl Specifier for B12 {
    type Bytes = u16;

    open spec fn spec_bits() -> nat {
        12
    }

    open spec fn spec_encoded(v: u16) -> u64 {
        v as u64
    }

    fn bits() -> (r: usize) {
        12
    }

    fn from_u64(val: u64) -> (r: u16) {
        proof {
            lemma2_to64();
        }
        val as u16
    }

    fn into_u64(val: u16) -> (r: u64) {
        val as u64
    }

    open spec fn spec_kind() -> SpecifierKind {
        SpecifierKind::Unsigned { bits: 12 }
    }

    fn specifier_kind() -> (k: SpecifierKind) {
        SpecifierKind::Unsigned { bits: 12 }
    }
}

impl Specifier for B13 {
    type Bytes = u16;

    open spec fn spec_bits() -> nat {
        13
    }

    open spec fn spec_encoded(v: u16) -> u64 {
        v as u64
    }

    fn bits() -> (r: usize) {
        13
    }

    fn from_u64(val: u64) -> (r: u16) {
        proof {
            lemma2_to64();
        }
        val as u16
    }

    fn into_u64(val: u16) -> (r: u64) {
        val as u64
    }

    open spec fn spec_kind() -> SpecifierKind {
        SpecifierKind::Unsigned { bits: 13 }
    }

    fn specifier_kind() -> (k: SpecifierKind) {
        SpecifierKind::Unsigned { bits: 13 }
    }
}

impl Specifier for B14 {
    type Bytes = u16;

    open spec fn spec_bits() -> nat {
        14
    }

    open spec fn spec_encoded(v: u16) -> u64 {
        v as u64
    }

    fn bits() -> (r: usize) {
        14
    }

    fn from_u64(val: u64) -> (r: u16) {
        proof {
            lemma2_to64();
        }
        val as u16
    }

    fn into_u64(val: u16) -> (r: u64) {
        val as u64
    }

    open spec fn spec_kind() -> SpecifierKind {
        SpecifierKind::Unsigned { bits: 14 }
    }

    fn specifier_kind() -> (k: SpecifierKind) {
        SpecifierKind::Unsigned { bits: 14 }
    }
}

impl Specifier for B15 {
    type Bytes = u16;

    open spec fn spec_bits() -> nat {
        15
    }

    open spec fn spec_encoded(v: u16) -> u64 {
        v as u64
    }

    fn bits() -> (r: usize) {
        15
    }

    fn from_u64(val: u64) -> (r: u16) {
        proof {
            lemma2_to64();
        }
        val as u16
    }

    fn into_u64(val: u16) -> (r: u64) {
        val as u64
    }

    open spec fn spec_kind() -> SpecifierKind {
        SpecifierKind::Unsigned { bits: 15 }
    }

    fn specifier_kind() -> (k: SpecifierKind) {
        SpecifierKind::Unsigned { bits: 15 }
    }
}

impl Specifier for B16 {
    type Bytes = u16;

    open spec fn spec_bits() -> nat {
        16
    }

    open spec fn spec_encoded(v: u16) -> u64 {
        v as u64
    }

    fn bits() -> (r: usize) {
        16
    }

    fn from_u64(val: u64) -> (r: u16) {
        proof {
            lemma2_to64();
        }
        val as u16
    }

    fn into_u64(val: u16) -> (r: u64) {
        val as u64
    }

    open spec fn spec_kind() -> SpecifierKind {
        SpecifierKind::Unsigned { bits: 16 }
    }

    fn specifier_kind() -> (k: SpecifierKind) {
        SpecifierKind::Unsigned { bits: 16 }
    }
}

impl Specifier for B17 {
    type Bytes = u32;

    open spec fn spec_bits() -> nat {
        17
    }

    open spec fn spec_encoded(v: u32) -> u64 {
        v as u64
    }

    fn bits() -> (r: usize) {
        17
    }

    fn from_u64(val: u64) -> (r: u32) {
        proof {
            lemma2_to64();
        }
        val as u32
    }

    fn into_u64(val: u32) -> (r: u64) {
        val as u64
    }

    open spec fn spec_kind() -> SpecifierKind {
        SpecifierKind::Unsigned { bits: 17 }
    }

    fn specifier_kind() -> (k: SpecifierKind) {
        SpecifierKind::Unsigned { bits: 17 }
    }
}

impl Specifier for B18 {
    type Bytes = u32;

    open spec fn spec_bits() -> nat {
        18
    }

    open spec fn spec_encoded(v: u32) -> u64 {
        v as u64
    }

    fn bits() -> (r: usize) {
        18
    }

    fn from_u64(val: u64) -> (r: u32) {
        proof {
            lemma2_to64();
        }
        val as u32
    }

    fn into_u64(val: u32) -> (r: u64) {
        val as u64
    }

    open spec fn spec_kind() -> SpecifierKind {
        SpecifierKind::Unsigned { bits: 18 }
    }

    fn specifier_kind() -> (k: SpecifierKind) {
        SpecifierKind::Unsigned { bits: 18 }
    }
}

impl Specifier for B19 {
    type Bytes = u32;

    open spec fn spec_bits() -> nat {
        19
    }

    open spec fn spec_encoded(v: u32) -> u64 {
        v as u64
    }

    fn bits() -> (r: usize) {
        19
    }

    fn from_u64(val: u64) -> (r: u32) {
        proof {
            lemma2_to64();
        }
        val as u32
    }

    fn into_u64(val: u32) -> (r: u64) {
        val as u64
    }

    open spec fn spec_kind() -> SpecifierKind {
        SpecifierKind::Unsigned { bits: 19 }
    }

    fn specifier_kind() -> (k: SpecifierKind) {
        SpecifierKind::Unsigned { bits: 19 }
    }
}

impl Specifier for B20 {
    type Bytes = u32;

    open spec fn spec_bits() -> nat {
        20
    }

    open spec fn spec_encoded(v: u32) -> u64 {
        v as u64
    }

    fn bits() -> (r: usize) {
        20
    }

    fn from_u64(val: u64) -> (r: u32) {
        proof {
            lemma2_to64();
        }
        val as u32
    }

    fn into_u64(val: u32) -> (r: u64) {
        val as u64
    }

    open spec fn spec_kind() -> SpecifierKind {
        SpecifierKind::Unsigned { bits: 20 }
    }

    fn specifier_kind() -> (k: SpecifierKind) {
        SpecifierKind::Unsigned { bits: 20 }
    }
}

impl Specifier for B21 {
    type Bytes = u32;

    open spec fn spec_bits() -> nat {
        21
    }

    open spec fn spec_encoded(v: u32) -> u64 {
        v as u64
    }

    fn bits() -> (r: usize) {
        21
    }

    fn from_u64(val: u64) -> (r: u32) {
        proof {
            lemma2_to64();
        }
        val as u32
    }

    fn into_u64(val: u32) -> (r: u64) {
        val as u64
    }

    open spec fn spec_kind() -> SpecifierKind {
        SpecifierKind::Unsigned { bits: 21 }
    }

    fn specifier_kind() -> (k: SpecifierKind) {
        SpecifierKind::Unsigned { bits: 21 }
    }
}

impl Specifier for B22 {
    type Bytes = u32;

    open spec fn spec_bits() -> nat {
        22
    }

    open spec fn spec_encoded(v: u32) -> u64 {
        v as u64
    }

    fn bits() -> (r: usize) {
        22
    }

    fn from_u64(val: u64) -> (r: u32) {
        proof {
            lemma2_to64();
        }
        val as u32
    }

    fn into_u64(val: u32) -> (r: u64) {
        val as u64
    }

    open spec fn spec_kind() -> SpecifierKind {
        SpecifierKind::Unsigned { bits: 22 }
    }

    fn specifier_kind() -> (k: SpecifierKind) {
        SpecifierKind::Unsigned { bits: 22 }
    }
}

impl Specifier for B23 {
    type Bytes = u32;

    open spec fn spec_bits() -> nat {
        23
    }

    open spec fn spec_encoded(v: u32) -> u64 {
        v as u64
    }

    fn bits() -> (r: usize) {
        23
    }

    fn from_u64(val: u64) -> (r: u32) {
        proof {
            lemma2_to64();
        }
        val as u32
    }

    fn into_u64(val: u32) -> (r: u64) {
        val as u64
    }

    open spec fn spec_kind() -> SpecifierKind {
        SpecifierKind::Unsigned { bits: 23 }
    }

    fn specifier_kind() -> (k: SpecifierKind) {
        SpecifierKind::Unsigned { bits: 23 }
    }
}

impl Specifier for B24 {
    type Bytes = u32;

    open spec fn spec_bits() -> nat {
        24
    }

    open spec fn spec_encoded(v: u32) -> u64 {
        v as u64
    }

    fn bits() -> (r: usize) {
        24
    }

    fn from_u64(val: u64) -> (r: u32) {
        proof {
            lemma2_to64();
        }
        val as u32
    }

    fn into_u64(val: u32) -> (r: u64) {
        val as u64
    }

    open spec fn spec_kind() -> SpecifierKind {
        SpecifierKind::Unsigned { bits: 24 }
    }

    fn specifier_kind() -> (k: SpecifierKind) {
        SpecifierKind::Unsigned { bits: 24 }
    }
}

impl Specifier for B25 {
    type Bytes = u32;

    open spec fn spec_bits() -> nat {
        25
    }

    open spec fn spec_encoded(v: u32) -> u64 {
        v as u64
    }

    fn bits() -> (r: usize) {
        25
    }

    fn from_u64(val: u64) -> (r: u32) {
        proof {
            lemma2_to64();
        }
        val as u32
    }

    fn into_u64(val: u32) -> (r: u64) {
        val as u64
    }

    open spec fn spec_kind() -> SpecifierKind {
        SpecifierKind::Unsigned { bits: 25 }
    }

    fn specifier_kind() -> (k: SpecifierKind) {
        SpecifierKind::Unsigned { bits: 25 }
    }
}

impl Specifier for B26 {
    type Bytes = u32;

    open spec fn spec_bits() -> nat {
        26
    }

    open spec fn spec_encoded(v: u32) -> u64 {
        v as u64
    }

    fn bits() -> (r: usize) {
        26
    }

    fn from_u64(val: u64) -> (r: u32) {
        proof {
            lemma2_to64();
        }
        val as u32
    }

    fn into_u64(val: u32) -> (r: u64) {
        val as u64
    }

    open spec fn spec_kind() -> SpecifierKind {
        SpecifierKind::Unsigned { bits: 26 }
    }

    fn specifier_kind() -> (k: SpecifierKind) {
        SpecifierKind::Unsigned { bits: 26 }
    }
}

impl Specifier for B27 {
    type Bytes = u32;

    open spec fn spec_bits() -> nat {
        27
    }

    open spec fn spec_encoded(v: u32) -> u64 {
        v as u64
    }

    fn bits() -> (r: usize) {
        27
    }

    fn from_u64(val: u64) -> (r: u32) {
        proof {
            lemma2_to64();
        }
        val as u32
    }

    fn into_u64(val: u32) -> (r: u64) {
        val as u64
    }

    open spec fn spec_kind() -> SpecifierKind {
        SpecifierKind::Unsigned { bits: 27 }
    }

    fn specifier_kind() -> (k: SpecifierKind) {
        SpecifierKind::Unsigned { bits: 27 }
    }
}

impl Specifier for B28 {
    type Bytes = u32;

    open spec fn spec_bits() -> nat {
        28
    }

    open spec fn spec_encoded(v: u32) -> u64 {
        v as u64
    }

    fn bits() -> (r: usize) {
        28
    }

    fn from_u64(val: u64) -> (r: u32) {
        proof {
            lemma2_to64();
        }
        val as u32
    }

    fn into_u64(val: u32) -> (r: u64) {
        val as u64
    }

    open spec fn spec_kind() -> SpecifierKind {
        SpecifierKind::Unsigned { bits: 28 }
    }

    fn specifier_kind() -> (k: SpecifierKind) {
        SpecifierKind::Unsigned { bits: 28 }
    }
}

impl Specifier for B29 {
    type Bytes = u32;

    open spec fn spec_bits() -> nat {
        29
    }

    open spec fn spec_encoded(v: u32) -> u64 {
        v as u64
    }

    fn bits() -> (r: usize) {
        29
    }

    fn from_u64(val: u64) -> (r: u32) {
        proof {
            lemma2_to64();
        }
        val as u32
    }

    fn into_u64(val: u32) -> (r: u64) {
        val as u64
    }

    open spec fn spec_kind() -> SpecifierKind {
        SpecifierKind::Unsigned { bits: 29 }
    }

    fn specifier_kind() -> (k: SpecifierKind) {
        SpecifierKind::Unsigned { bits: 29 }
    }
}

impl Specifier for B30 {
    type Bytes = u32;

    open spec fn spec_bits() -> nat {
        30
    }

    open spec fn spec_encoded(v: u32) -> u64 {
        v as u64
    }

    fn bits() -> (r: usize) {
        30
    }

    fn from_u64(val: u64) -> (r: u32) {
        proof {
            lemma2_to64();
        }
        val as u32
    }

    fn into_u64(val: u32) -> (r: u64) {
        val as u64
    }

    open spec fn spec_kind() -> SpecifierKind {
        SpecifierKind::Unsigned { bits: 30 }
    }

    fn specifier_kind() -> (k: SpecifierKind) {
        SpecifierKind::Unsigned { bits: 30 }
    }
}

impl Specifier for B31 {
    type Bytes = u32;

    open spec fn spec_bits() -> nat {
        31
    }

    open spec fn spec_encoded(v: u32) -> u64 {
        v as u64
    }

    fn bits() -> (r: usize) {
        31
    }

    fn from_u64(val: u64) -> (r: u32) {
        proof {
            lemma2_to64();
        }
        val as u32
    }

    fn into_u64(val: u32) -> (r: u64) {
        val as u64
    }

    open spec fn spec_kind() -> SpecifierKind {
        SpecifierKind::Unsigned { bits: 31 }
    }

    fn specifier_kind() -> (k: SpecifierKind) {
        SpecifierKind::Unsigned { bits: 31 }
    }
}

impl Specifier for B32 {
    type Bytes = u32;

    open spec fn spec_bits() -> nat {
        32
    }

    open spec fn spec_encoded(v: u32) -> u64 {
        v as u64
    }

    fn bits() -> (r: usize) {
        32
    }

    fn from_u64(val: u64) -> (r: u32) {
        proof {
            lemma2_to64();
        }
        val as u32
    }

    fn into_u64(val: u32) -> (r: u64) {
        val as u64
    }

    open spec fn spec_kind() -> SpecifierKind {
        SpecifierKind::Unsigned { bits: 32 }
    }

    fn specifier_kind() -> (k: SpecifierKind) {
        SpecifierKind::Unsigned { bits: 32 }
    }
}

impl Specifier for B33 {
    type Bytes = u64;

    open spec fn spec_bits() -> nat {
        33
    }

    open spec fn spec_encoded(v: u64) -> u64 {
        v as u64
    }

    fn bits() -> (r: usize) {
        33
    }

    fn from_u64(val: u64) -> (r: u64) {
        val
    }

    fn into_u64(val: u64) -> (r: u64) {
        val as u64
    }

    open spec fn spec_kind() -> SpecifierKind {
        SpecifierKind::Unsigned { bits: 33 }
    }

    fn specifier_kind() -> (k: SpecifierKind) {
        SpecifierKind::Unsigned { bits: 33 }
    }
}

impl Specifier for B34 {
    type Bytes = u64;

    open spec fn spec_bits() -> nat {
        34
    }

    open spec fn spec_encoded(v: u64) -> u64 {
        v as u64
    }

    fn bits() -> (r: usize) {
        34
    }

    fn from_u64(val: u64) -> (r: u64) {
        val
    }

    fn into_u64(val: u64) -> (r: u64) {
        val as u64
    }

    open spec fn spec_kind() -> SpecifierKind {
        SpecifierKind::Unsigned { bits: 34 }
    }

    fn specifier_kind() -> (k: SpecifierKind) {
        SpecifierKind::Unsigned { bits: 34 }
    }
}

impl Specifier for B35 {
    type Bytes = u64;

    open spec fn spec_bits() -> nat {
        35
    }

    open spec fn spec_encoded(v: u64) -> u64 {
        v as u64
    }

    fn bits() -> (r: usize) {
        35
    }

    fn from_u64(val: u64) -> (r: u64) {
        val
    }

    fn into_u64(val: u64) -> (r: u64) {
        val as u64
    }

    open spec fn spec_kind() -> SpecifierKind {
        SpecifierKind::Unsigned { bits: 35 }
    }

    fn specifier_kind() -> (k: SpecifierKind) {
        SpecifierKind::Unsigned { bits: 35 }
    }
}

impl Specifier for B36 {
    type Bytes = u64;

    open spec fn spec_bits() -> nat {
        36
    }

    open spec fn spec_encoded(v: u64) -> u64 {
        v as u64
    }

    fn bits() -> (r: usize) {
        36
    }

    fn from_u64(val: u64) -> (r: u64) {
        val
    }

    fn into_u64(val: u64) -> (r: u64) {
        val as u64
    }

    open spec fn spec_kind() -> SpecifierKind {
        SpecifierKind::Unsigned { bits: 36 }
    }

    fn specifier_kind() -> (k: SpecifierKind) {
        SpecifierKind::Unsigned { bits: 36 }
    }
}

impl Specifier for B37 {
    type Bytes = u64;

    open spec fn spec_bits() -> nat {
        37
    }

    open spec fn spec_encoded(v: u64) -> u64 {
        v as u64
    }

    fn bits() -> (r: usize) {
        37
    }

    fn from_u64(val: u64) -> (r: u64) {
        val
    }

    fn into_u64(val: u64) -> (r: u64) {
        val as u64
    }

    open spec fn spec_kind() -> SpecifierKind {
        SpecifierKind::Unsigned { bits: 37 }
    }

    fn specifier_kind() -> (k: SpecifierKind) {
        SpecifierKind::Unsigned { bits: 37 }
    }
}

impl Specifier for B38 {
    type Bytes = u64;

    open spec fn spec_bits() -> nat {
        38
    }

    open spec fn spec_encoded(v: u64) -> u64 {
        v as u64
    }

    fn bits() -> (r: usize) {
        38
    }

    fn from_u64(val: u64) -> (r: u64) {
        val
    }

    fn into_u64(val: u64) -> (r: u64) {
        val as u64
    }

    open spec fn spec_kind() -> SpecifierKind {
        SpecifierKind::Unsigned { bits: 38 }
    }

    fn specifier_kind() -> (k: SpecifierKind) {
        SpecifierKind::Unsigned { bits: 38 }
    }
}

impl Specifier for B39 {
    type Bytes = u64;

    open spec fn spec_bits() -> nat {
        39
    }

    open spec fn spec_encoded(v: u64) -> u64 {
        v as u64
    }

    fn bits() -> (r: usize) {
        39
    }

    fn from_u64(val: u64) -> (r: u64) {
        val
    }

    fn into_u64(val: u64) -> (r: u64) {
        val as u64
    }

    open spec fn spec_kind() -> SpecifierKind {
        SpecifierKind::Unsigned { bits: 39 }
    }

    fn specifier_kind() -> (k: SpecifierKind) {
        SpecifierKind::Unsigned { bits: 39 }
    }
}

impl Specifier for B40 {
    type Bytes = u64;

    open spec fn spec_bits() -> nat {
        40
    }

    open spec fn spec_encoded(v: u64) -> u64 {
        v as u64
    }

    fn bits() -> (r: usize) {
        40
    }

    fn from_u64(val: u64) -> (r: u64) {
        val
    }

    fn into_u64(val: u64) -> (r: u64) {
        val as u64
    }

    open spec fn spec_kind() -> SpecifierKind {
        SpecifierKind::Unsigned { bits: 40 }
    }

    fn specifier_kind() -> (k: SpecifierKind) {
        SpecifierKind::Unsigned { bits: 40 }
    }
}

impl Specifier for B41 {
    type Bytes = u64;

    open spec fn spec_bits() -> nat {
        41
    }

    open spec fn spec_encoded(v: u64) -> u64 {
        v as u64
    }

    fn bits() -> (r: usize) {
        41
    }

    fn from_u64(val: u64) -> (r: u64) {
        val
    }

    fn into_u64(val: u64) -> (r: u64) {
        val as u64
    }

    open spec fn spec_kind() -> SpecifierKind {
        SpecifierKind::Unsigned { bits: 41 }
    }

    fn specifier_kind() -> (k: SpecifierKind) {
        SpecifierKind::Unsigned { bits: 41 }
    }
}

impl Specifier for B42 {
    type Bytes = u64;

    open spec fn spec_bits() -> nat {
        42
    }

    open spec fn spec_encoded(v: u64) -> u64 {
        v as u64
    }

    fn bits() -> (r: usize) {
        42
    }

    fn from_u64(val: u64) -> (r: u64) {
        val
    }

    fn into_u64(val: u64) -> (r: u64) {
        val as u64
    }

    open spec fn spec_kind() -> SpecifierKind {
        SpecifierKind::Unsigned { bits: 42 }
    }

    fn specifier_kind() -> (k: SpecifierKind) {
        SpecifierKind::Unsigned { bits: 42 }
    }
}

impl Specifier for B43 {
    type Bytes = u64;

    open spec fn spec_bits() -> nat {
        43
    }

    open spec fn spec_encoded(v: u64) -> u64 {
        v as u64
    }

    fn bits() -> (r: usize) {
        43
    }

    fn from_u64(val: u64) -> (r: u64) {
        val
    }

    fn into_u64(val: u64) -> (r: u64) {
        val as u64
    }

    open spec fn spec_kind() -> SpecifierKind {
        SpecifierKind::Unsigned { bits: 43 }
    }

    fn specifier_kind() -> (k: SpecifierKind) {
        SpecifierKind::Unsigned { bits: 43 }
    }
}

impl Specifier for B44 {
    type Bytes = u64;

    open spec fn spec_bits() -> nat {
        44
    }

    open spec fn spec_encoded(v: u64) -> u64 {
        v as u64
    }

    fn bits() -> (r: usize) {
        44
    }

    fn from_u64(val: u64) -> (r: u64) {
        val
    }

    fn into_u64(val: u64) -> (r: u64) {
        val as u64
    }

    open spec fn spec_kind() -> SpecifierKind {
        SpecifierKind::Unsigned { bits: 44 }
    }

    fn specifier_kind() -> (k: SpecifierKind) {
        SpecifierKind::Unsigned { bits: 44 }
    }
}

impl Specifier for B45 {
    type Bytes = u64;

    open spec fn spec_bits() -> nat {
        45
    }

    open spec fn spec_encoded(v: u64) -> u64 {
        v as u64
    }

    fn bits() -> (r: usize) {
        45
    }

    fn from_u64(val: u64) -> (r: u64) {
        val
    }

    fn into_u64(val: u64) -> (r: u64) {
        val as u64
    }

    open spec fn spec_kind() -> SpecifierKind {
        SpecifierKind::Unsigned { bits: 45 }
    }

    fn specifier_kind() -> (k: SpecifierKind) {
        SpecifierKind::Unsigned { bits: 45 }
    }
}

impl Specifier for B46 {
    type Bytes = u64;

    open spec fn spec_bits() -> nat {
        46
    }

    open spec fn spec_encoded(v: u64) -> u64 {
        v as u64
    }

    fn bits() -> (r: usize) {
        46
    }

    fn from_u64(val: u64) -> (r: u64) {
        val
    }

    fn into_u64(val: u64) -> (r: u64) {
        val as u64
    }

    open spec fn spec_kind() -> SpecifierKind {
        SpecifierKind::Unsigned { bits: 46 }
    }

    fn specifier_kind() -> (k: SpecifierKind) {
        SpecifierKind::Unsigned { bits: 46 }
    }
}

impl Specifier for B47 {
    type Bytes = u64;

    open spec fn spec_bits() -> nat {
        47
    }

    open spec fn spec_encoded(v: u64) -> u64 {
        v as u64
    }

    fn bits() -> (r: usize) {
        47
    }

    fn from_u64(val: u64) -> (r: u64) {
        val
    }

    fn into_u64(val: u64) -> (r: u64) {
        val as u64
    }

    open spec fn spec_kind() -> SpecifierKind {
        SpecifierKind::Unsigned { bits: 47 }
    }

    fn specifier_kind() -> (k: SpecifierKind) {
        SpecifierKind::Unsigned { bits: 47 }
    }
}

impl Specifier for B48 {
    type Bytes = u64;

    open spec fn spec_bits() -> nat {
        48
    }

    open spec fn spec_encoded(v: u64) -> u64 {
        v as u64
    }

    fn bits() -> (r: usize) {
        48
    }

    fn from_u64(val: u64) -> (r: u64) {
        val
    }

    fn into_u64(val: u64) -> (r: u64) {
        val as u64
    }

    open spec fn spec_kind() -> SpecifierKind {
        SpecifierKind::Unsigned { bits: 48 }
    }

    fn specifier_kind() -> (k: SpecifierKind) {
        SpecifierKind::Unsigned { bits: 48 }
    }
}

impl Specifier for B49 {
    type Bytes = u64;

    open spec fn spec_bits() -> nat {
        49
    }

    open spec fn spec_encoded(v: u64) -> u64 {
        v as u64
    }

    fn bits() -> (r: usize) {
        49
    }

    fn from_u64(val: u64) -> (r: u64) {
        val
    }

    fn into_u64(val: u64) -> (r: u64) {
        val as u64
    }

    open spec fn spec_kind() -> SpecifierKind {
        SpecifierKind::Unsigned { bits: 49 }
    }

    fn specifier_kind() -> (k: SpecifierKind) {
        SpecifierKind::Unsigned { bits: 49 }
    }
}

impl Specifier for B50 {
    type Bytes = u64;

    open spec fn spec_bits() -> nat {
        50
    }

    open spec fn spec_encoded(v: u64) -> u64 {
        v as u64
    }

    fn bits() -> (r: usize) {
        50
    }

    fn from_u64(val: u64) -> (r: u64) {
        val
    }

    fn into_u64(val: u64) -> (r: u64) {
        val as u64
    }

    open spec fn spec_kind() -> SpecifierKind {
        SpecifierKind::Unsigned { bits: 50 }
    }

    fn specifier_kind() -> (k: SpecifierKind) {
        SpecifierKind::Unsigned { bits: 50 }
    }
}

impl Specifier for B51 {
    type Bytes = u64;

    open spec fn spec_bits() -> nat {
        51
    }

    open spec fn spec_encoded(v: u64) -> u64 {
        v as u64
    }

    fn bits() -> (r: usize) {
        51
    }

    fn from_u64(val: u64) -> (r: u64) {
        val
    }

    fn into_u64(val: u64) -> (r: u64) {
        val as u64
    }

    open spec fn spec_kind() -> SpecifierKind {
        SpecifierKind::Unsigned { bits: 51 }
    }

    fn specifier_kind() -> (k: SpecifierKind) {
        SpecifierKind::Unsigned { bits: 51 }
    }
}

impl Specifier for B52 {
    type Bytes = u64;

    open spec fn spec_bits() -> nat {
        52
    }

    open spec fn spec_encoded(v: u64) -> u64 {
        v as u64
    }

    fn bits() -> (r: usize) {
        52
    }

    fn from_u64(val: u64) -> (r: u64) {
        val
    }

    fn into_u64(val: u64) -> (r: u64) {
        val as u64
    }

    open spec fn spec_kind() -> SpecifierKind {
        SpecifierKind::Unsigned { bits: 52 }
    }

    fn specifier_kind() -> (k: SpecifierKind) {
        SpecifierKind::Unsigned { bits: 52 }
    }
}

impl Specifier for B53 {
    type Bytes = u64;

    open spec fn spec_bits() -> nat {
        53
    }

    open spec fn spec_encoded(v: u64) -> u64 {
        v as u64
    }

    fn bits() -> (r: usize) {
        53
    }

    fn from_u64(val: u64) -> (r: u64) {
        val
    }

    fn into_u64(val: u64) -> (r: u64) {
        val as u64
    }

    open spec fn spec_kind() -> SpecifierKind {
        SpecifierKind::Unsigned { bits: 53 }
    }

    fn specifier_kind() -> (k: SpecifierKind) {
        SpecifierKind::Unsigned { bits: 53 }
    }
}

impl Specifier for B54 {
    type Bytes = u64;

    open spec fn spec_bits() -> nat {
        54
    }

    open spec fn spec_encoded(v: u64) -> u64 {
        v as u64
    }

    fn bits() -> (r: usize) {
        54
    }

    fn from_u64(val: u64) -> (r: u64) {
        val
    }

    fn into_u64(val: u64) -> (r: u64) {
        val as u64
    }

    open spec fn spec_kind() -> SpecifierKind {
        SpecifierKind::Unsigned { bits: 54 }
    }

    fn specifier_kind() -> (k: SpecifierKind) {
        SpecifierKind::Unsigned { bits: 54 }
    }
}

impl Specifier for B55 {
    type Bytes = u64;

    open spec fn spec_bits() -> nat {
        55
    }

    open spec fn spec_encoded(v: u64) -> u64 {
        v as u64
    }

    fn bits() -> (r: usize) {
        55
    }

    fn from_u64(val: u64) -> (r: u64) {
        val
    }

    fn into_u64(val: u64) -> (r: u64) {
        val as u64
    }

    open spec fn spec_kind() -> SpecifierKind {
        SpecifierKind::Unsigned { bits: 55 }
    }

    fn specifier_kind() -> (k: SpecifierKind) {
        SpecifierKind::Unsigned { bits: 55 }
    }
}

impl Specifier for B56 {
    type Bytes = u64;

    open spec fn spec_bits() -> nat {
        56
    }

    open spec fn spec_encoded(v: u64) -> u64 {
        v as u64
    }

    fn bits() -> (r: usize) {
        56
    }

    fn from_u64(val: u64) -> (r: u64) {
        val
    }

    fn into_u64(val: u64) -> (r: u64) {
        val as u64
    }

    open spec fn spec_kind() -> SpecifierKind {
        SpecifierKind::Unsigned { bits: 56 }
    }

    fn specifier_kind() -> (k: SpecifierKind) {
        SpecifierKind::Unsigned { bits: 56 }
    }
}

impl Specifier for B57 {
    type Bytes = u64;

    open spec fn spec_bits() -> nat {
        57
    }

    open spec fn spec_encoded(v: u64) -> u64 {
        v as u64
    }

    fn bits() -> (r: usize) {
        57
    }

    fn from_u64(val: u64) -> (r: u64) {
        val
    }

    fn into_u64(val: u64) -> (r: u64) {
        val as u64
    }

    open spec fn spec_kind() -> SpecifierKind {
        SpecifierKind::Unsigned { bits: 57 }
    }

    fn specifier_kind() -> (k: SpecifierKind) {
        SpecifierKind::Unsigned { bits: 57 }
    }
}

impl Specifier for B58 {
    type Bytes = u64;

    open spec fn spec_bits() -> nat {
        58
    }

    open spec fn spec_encoded(v: u64) -> u64 {
        v as u64
    }

    fn bits() -> (r: usize) {
        58
    }

    fn from_u64(val: u64) -> (r: u64) {
        val
    }

    fn into_u64(val: u64) -> (r: u64) {
        val as u64
    }

    open spec fn spec_kind() -> SpecifierKind {
        SpecifierKind::Unsigned { bits: 58 }
    }

    fn specifier_kind() -> (k: SpecifierKind) {
        SpecifierKind::Unsigned { bits: 58 }
    }
}

impl Specifier for B59 {
    type Bytes = u64;

    open spec fn spec_bits() -> nat {
        59
    }

    open spec fn spec_encoded(v: u64) -> u64 {
        v as u64
    }

    fn bits() -> (r: usize) {
        59
    }

    fn from_u64(val: u64) -> (r: u64) {
        val
    }

    fn into_u64(val: u64) -> (r: u64) {
        val as u64
    }

    open spec fn spec_kind() -> SpecifierKind {
        SpecifierKind::Unsigned { bits: 59 }
    }

    fn specifier_kind() -> (k: SpecifierKind) {
        SpecifierKind::Unsigned { bits: 59 }
    }
}

impl Specifier for B60 {
    type Bytes = u64;

    open spec fn spec_bits() -> nat {
        60
    }

    open spec fn spec_encoded(v: u64) -> u64 {
        v as u64
    }

    fn bits() -> (r: usize) {
        60
    }

    fn from_u64(val: u64) -> (r: u64) {
        val
    }

    fn into_u64(val: u64) -> (r: u64) {
        val as u64
    }

    open spec fn spec_kind() -> SpecifierKind {
        SpecifierKind::Unsigned { bits: 60 }
    }

    fn specifier_kind() -> (k: SpecifierKind) {
        SpecifierKind::Unsigned { bits: 60 }
    }
}

impl Specifier for B61 {
    type Bytes = u64;

    open spec fn spec_bits() -> nat {
        61
    }

    open spec fn spec_encoded(v: u64) -> u64 {
        v as u64
    }

    fn bits() -> (r: usize) {
        61
    }

    fn from_u64(val: u64) -> (r: u64) {
        val
    }

    fn into_u64(val: u64) -> (r: u64) {
        val as u64
    }

    open spec fn spec_kind() -> SpecifierKind {
        SpecifierKind::Unsigned { bits: 61 }
    }

    fn specifier_kind() -> (k: SpecifierKind) {
        SpecifierKind::Unsigned { bits: 61 }
    }
}

impl Specifier for B62 {
    type Bytes = u64;

    open spec fn spec_bits() -> nat {
        62
    }

    open spec fn spec_encoded(v: u64) -> u64 {
        v as u64
    }

    fn bits() -> (r: usize) {
        62
    }

    fn from_u64(val: u64) -> (r: u64) {
        val
    }

    fn into_u64(val: u64) -> (r: u64) {
        val as u64
    }

    open spec fn spec_kind() -> SpecifierKind {
        SpecifierKind::Unsigned { bits: 62 }
    }

    fn specifier_kind() -> (k: SpecifierKind) {
        SpecifierKind::Unsigned { bits: 62 }
    }
}

impl Specifier for B63 {
    type Bytes = u64;

    open spec fn spec_bits() -> nat {
        63
    }

    open spec fn spec_encoded(v: u64) -> u64 {
        v as u64
    }

    fn bits() -> (r: usize) {
        63
    }

    fn from_u64(val: u64) -> (r: u64) {
        val
    }

    fn into_u64(val: u64) -> (r: u64) {
        val as u64
    }

    open spec fn spec_kind() -> SpecifierKind {
        SpecifierKind::Unsigned { bits: 63 }
    }

    fn specifier_kind() -> (k: SpecifierKind) {
        SpecifierKind::Unsigned { bits: 63 }
    }
}

impl Specifier for B64 {
    type Bytes = u64;

    open spec fn spec_bits() -> nat {
        64
    }

    open spec fn spec_encoded(v: u64) -> u64 {
        v as u64
    }

    fn bits() -> (r: usize) {
        64
    }

    fn from_u64(val: u64) -> (r: u64) {
        val
    }

    fn into_u64(val: u64) -> (r: u64) {
        val as u64
    }

    open spec fn spec_kind() -> SpecifierKind {
        SpecifierKind::Unsigned { bits: 64 }
    }

    fn specifier_kind() -> (k: SpecifierKind) {
        SpecifierKind::Unsigned { bits: 64 }
    }
}

} // verus!
