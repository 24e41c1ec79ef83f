//! Schemas: the ordered list of typed fields that fixes a record's binary
//! layout, the static checks that gate it, and the layout planner that
//! assigns every field its bit offset.

use vstd::prelude::*;
use vstd::arithmetic::power2::{is_pow2, lemma_pow2_strictly_increases, lemma_pow2_unfold, lemma2_to64, pow2};
use crate::bitmath::lemma_u64_shl_one;

verus! {

/// One variant of an enumeration-backed field: its name and the integer
/// discriminant used as its encoded bit pattern.
#[derive(Clone, Debug)]
pub struct VariantDef {
    pub name: String,
    pub discriminant: u64,
}

/// How a field's logical value maps to bits: a built-in unsigned width,
/// a single-bit boolean, or a user enumeration described by its variants.
#[derive(Clone, Debug)]
pub enum SpecifierKind {
    Unsigned { bits: usize },
    Boolean,
    Enumeration { variants: Vec<VariantDef> },
}

/// One declared field: a name, a specifier, and an optional author-asserted
/// bit width that is checked against the specifier's actual width.
#[derive(Clone, Debug)]
pub struct FieldSpec {
    pub name: String,
    pub kind: SpecifierKind,
    pub declared_bits: Option<usize>,
}

/// A schema defect; every variant names the offending input, and no record
/// can be constructed over a schema that has one.
#[derive(Clone, Copy, Debug, PartialEq, Eq, Structural)]
pub enum SchemaError {
    /// An unsigned field's width lies outside 1..=64.
    WidthOutOfRange { field: usize },
    /// An enumeration field's variant count is not a power of two.
    InvalidVariantCount { field: usize, count: usize },
    /// A variant's discriminant does not fit the enumeration's bit width.
    DiscriminantOutOfRange { field: usize, variant: usize },
    /// The author-asserted width differs from the specifier's actual width.
    DeclaredBitsMismatch { field: usize, declared: usize, actual: usize },
    /// The widths sum to a total that is not a multiple of eight.
    TotalSizeNotMultipleOfEight { total_bits: usize },
    /// The widths sum past the machine's addressable size.
    SchemaTooLarge,
}

/// The floor of the base-two logarithm.
pub open spec fn spec_log2(n: nat) -> nat
    decreases n,
{
    if n <= 1 {
        0
    } else {
        1 + spec_log2(n / 2)
    }
}

/// The bit width a specifier occupies: the declared width for an unsigned
/// field, one bit for a boolean, `log2(variant_count)` for an enumeration.
pub open spec fn spec_kind_width(k: SpecifierKind) -> nat {
    match k {
        SpecifierKind::Unsigned { bits } => bits as nat,
        SpecifierKind::Boolean => 1,
        SpecifierKind::Enumeration { variants } => spec_log2(variants@.len()),
    }
}

/// The bit width of a field.
pub open spec fn spec_field_width(f: FieldSpec) -> nat {
    spec_kind_width(f.kind)
}

/// The lowest variant index at or after `j` whose discriminant does not fit
/// in `bits` bits, if any.
pub open spec fn spec_first_bad_variant(variants: Seq<VariantDef>, bits: nat, j: nat) -> Option<int>
    decreases variants.len() - j,
{
    if j >= variants.len() {
        None
    } else if (variants[j as int].discriminant as nat) >= pow2(bits) {
        Some(j as int)
    } else {
        spec_first_bad_variant(variants, bits, j + 1)
    }
}

/// The check of a field's author-asserted width against its actual width.
pub open spec fn spec_declared_bits_error(f: FieldSpec, i: usize) -> Option<SchemaError> {
    match f.declared_bits {
        Some(d) => if d as nat != spec_field_width(f) {
            Some(
                SchemaError::DeclaredBitsMismatch {
                    field: i,
                    declared: d,
                    actual: spec_field_width(f) as usize,
                },
            )
        } else {
            None
        },
        None => None,
    }
}

/// The first defect of field `i` taken alone: its specifier's own checks in
/// order, then the author-asserted width.
pub open spec fn spec_field_error(f: FieldSpec, i: usize) -> Option<SchemaError> {
    match f.kind {
        SpecifierKind::Unsigned { bits } => if bits < 1 || bits > 64 {
            Some(SchemaError::WidthOutOfRange { field: i })
        } else {
            spec_declared_bits_error(f, i)
        },
        SpecifierKind::Boolean => spec_declared_bits_error(f, i),
        SpecifierKind::Enumeration { variants } => if !is_pow2(variants@.len() as int) {
            Some(SchemaError::InvalidVariantCount { field: i, count: variants@.len() as usize })
        } else {
            match spec_first_bad_variant(variants@, spec_log2(variants@.len()), 0) {
                Some(j) => Some(SchemaError::DiscriminantOutOfRange { field: i, variant: j as usize }),
                None => spec_declared_bits_error(f, i),
            }
        },
    }
}

/// The first per-field defect at or after field `i`, if any.
pub open spec fn spec_first_field_error(fields: Seq<FieldSpec>, i: nat) -> Option<SchemaError>
    decreases fields.len() - i,
{
    if i >= fields.len() {
        None
    } else if spec_field_error(fields[i as int], i as usize) is Some {
        spec_field_error(fields[i as int], i as usize)
    } else {
        spec_first_field_error(fields, i + 1)
    }
}

/// The record's total bit width: the sum of all field widths.
pub open spec fn spec_total_bits(fields: Seq<FieldSpec>) -> nat
    decreases fields.len(),
{
    if fields.len() == 0 {
        0
    } else {
        spec_total_bits(fields.drop_last()) + spec_field_width(fields.last())
    }
}

/// The bit offset of field `i`: the sum of the widths of the fields before
/// it, so the first field starts at offset 0 and order is layout.
pub open spec fn spec_offset(fields: Seq<FieldSpec>, i: int) -> nat {
    spec_total_bits(fields.take(i))
}

/// The first defect of a whole schema: the per-field checks left to right,
/// then the machine-size bound, then the total-size alignment check.
pub open spec fn spec_schema_error(fields: Seq<FieldSpec>) -> Option<SchemaError> {
    if spec_first_field_error(fields, 0) is Some {
        spec_first_field_error(fields, 0)
    } else if spec_total_bits(fields) > usize::MAX {
        Some(SchemaError::SchemaTooLarge)
    } else if spec_total_bits(fields) % 8 != 0 {
        Some(
            SchemaError::TotalSizeNotMultipleOfEight {
                total_bits: spec_total_bits(fields) as usize,
            },
        )
    } else {
        None
    }
}

/// A schema with no defect.
pub open spec fn spec_schema_ok(fields: Seq<FieldSpec>) -> bool {
    spec_schema_error(fields) is None
}

proof fn lemma_is_pow2_step(n: int)
    requires
        n > 1,
        n % 2 == 0,
    ensures
        is_pow2(n) == is_pow2(n / 2),
{
    reveal(is_pow2);
}

proof fn lemma_is_pow2_small(n: int)
    requires
        n <= 1 || n % 2 != 0,
    ensures
        is_pow2(n) == (n == 1),
{
    reveal(is_pow2);
}

/// A power of two is exactly `2^log2` of itself.
pub proof fn lemma_pow2_log2(n: nat)
    requires
        is_pow2(n as int),
    ensures
        pow2(spec_log2(n)) == n,
    decreases n,
{
    reveal(is_pow2);
    if n <= 1 {
        lemma2_to64();
    } else {
        lemma_pow2_log2(n / 2);
        lemma_pow2_unfold(spec_log2(n));
    }
}

/// The machine word cannot hold `2^64`, so a power of two that fits in it
/// has a logarithm below 64.
proof fn lemma_log2_below_64(n: nat)
    requires
        is_pow2(n as int),
        n <= usize::MAX,
    ensures
        spec_log2(n) < 64,
{
    lemma_pow2_log2(n);
    if spec_log2(n) >= 64 {
        lemma2_to64();
        if spec_log2(n) > 64 {
            lemma_pow2_strictly_increases(64, spec_log2(n));
        }
        assert(pow2(spec_log2(n)) >= 0x10000000000000000);
    }
}

/// Whether `n` is a power of two, by repeated halving.
pub fn is_power_of_two(n: usize) -> (r: bool)
    ensures
        r == is_pow2(n as int),
{
    if n == 0 {
        proof {
            reveal(is_pow2);
        }
        return false;
    }
    let mut m: usize = n;
    while m > 1 && m % 2 == 0
        invariant
            m >= 1,
            is_pow2(n as int) == is_pow2(m as int),
        decreases m,
    {
        proof {
            lemma_is_pow2_step(m as int);
        }
        m = m / 2;
    }
    proof {
        lemma_is_pow2_small(m as int);
    }
    m == 1
}

/// The floor of the base-two logarithm, by repeated halving.
pub fn log2_floor(n: usize) -> (r: usize)
    ensures
        r as nat == spec_log2(n as nat),
        r < 64,
{
    let mut m: usize = n;
    let mut r: usize = 0;
    proof {
        lemma2_to64();
    }
    while m > 1
        invariant
            spec_log2(n as nat) == r + spec_log2(m as nat),
            r < 64,
            m > 1 ==> pow2(r as nat) * m <= n,
        decreases m,
    {
        proof {
            lemma2_to64();
            assert(pow2(r as nat) * 2 <= pow2(r as nat) * m) by (nonlinear_arith)
                requires
                    m >= 2,
                    pow2(r as nat) >= 0,
            ;
            lemma_pow2_unfold((r + 1) as nat);
            assert(usize::MAX < pow2(64));
            if r + 1 >= 64 {
                if r + 1 > 64 {
                    lemma_pow2_strictly_increases(64, (r + 1) as nat);
                }
                assert(false);
            }
            if m / 2 > 1 {
                assert(pow2((r + 1) as nat) * (m / 2) <= pow2(r as nat) * m) by (nonlinear_arith)
                    requires
                        pow2((r + 1) as nat) == 2 * pow2(r as nat),
                        m > 1,
                        pow2(r as nat) >= 0,
                ;
            }
        }
        m = m / 2;
        r = r + 1;
    }
    r
}

/// The bit width a specifier occupies.
pub fn kind_width(k: &SpecifierKind) -> (r: usize)
    ensures
        r as nat == spec_kind_width(*k),
{
    match k {
        SpecifierKind::Unsigned { bits } => *bits,
        SpecifierKind::Boolean => 1,
        SpecifierKind::Enumeration { variants } => log2_floor(variants.len()),
    }
}

/// The width table of the specifier registry: the narrowest unsigned
/// carrier of 8, 16, 32 or 64 bits that holds a `width`-bit value.
pub open spec fn spec_carrier_bits(w: nat) -> nat {
    if w <= 8 {
        8
    } else if w <= 16 {
        16
    } else if w <= 32 {
        32
    } else {
        64
    }
}

/// A schema whose fields pass their checks from `j` on has no defect at any
/// single later field.
pub proof fn lemma_first_field_error_skip(fields: Seq<FieldSpec>, j: nat, i: int)
    requires
        spec_first_field_error(fields, j) is None,
        j <= i < fields.len(),
    ensures
        spec_field_error(fields[i], i as usize) is None,
    decreases i - j,
{
    if j < i {
        lemma_first_field_error_skip(fields, j + 1, i);
    }
}

/// A field that passes its checks is at most 64 bits wide, and an unsigned
/// field at least 1.
pub proof fn lemma_ok_field_width(f: FieldSpec, i: usize)
    requires
        spec_field_error(f, i) is None,
    ensures
        spec_field_width(f) <= 64,
        f.kind matches SpecifierKind::Unsigned { .. } ==> spec_field_width(f) >= 1,
{
    match f.kind {
        SpecifierKind::Unsigned { bits } => {},
        SpecifierKind::Boolean => {},
        SpecifierKind::Enumeration { variants } => {
            broadcast use vstd::std_specs::vec::axiom_spec_len;

            assert(vstd::std_specs::vec::spec_vec_len(&variants) == variants@.len());
            lemma_log2_below_64(variants@.len());
        },
    }
}

/// In a schema with no defect, every field passes its checks and is at most
/// 64 bits wide.
pub proof fn lemma_schema_ok_field(fields: Seq<FieldSpec>, i: int)
    requires
        spec_schema_ok(fields),
        0 <= i < fields.len(),
    ensures
        spec_field_error(fields[i], i as usize) is None,
        spec_field_width(fields[i]) <= 64,
{
    lemma_first_field_error_skip(fields, 0, i);
    lemma_ok_field_width(fields[i], i as usize);
}

/// Where the variant scan reports no defect, every discriminant from `j` on
/// fits in `bits` bits.
pub proof fn lemma_no_bad_variant(variants: Seq<VariantDef>, bits: nat, j: nat, i: int)
    requires
        spec_first_bad_variant(variants, bits, j) is None,
        j <= i < variants.len(),
    ensures
        (variants[i].discriminant as nat) < pow2(bits),
    decreases i - j,
{
    if j < i {
        lemma_no_bad_variant(variants, bits, j + 1, i);
    }
}

/// No prefix of the fields is wider than the whole record.
pub proof fn lemma_total_bits_prefix_le(fields: Seq<FieldSpec>, i: int)
    requires
        0 <= i <= fields.len(),
    ensures
        spec_total_bits(fields.take(i)) <= spec_total_bits(fields),
    decreases fields.len(),
{
    if i == fields.len() {
        assert(fields.take(i) =~= fields);
    } else {
        assert(fields.drop_last().take(i) =~= fields.take(i));
        lemma_total_bits_prefix_le(fields.drop_last(), i);
    }
}

/// Each field starts exactly where the one before it ends.
pub proof fn lemma_offset_step(fields: Seq<FieldSpec>, i: int)
    requires
        0 <= i < fields.len(),
    ensures
        spec_offset(fields, i + 1) == spec_offset(fields, i) + spec_field_width(fields[i]),
{
    assert(fields.take(i + 1).drop_last() =~= fields.take(i));
    assert(fields.take(i + 1).last() == fields[i]);
}

/// Offsets increase with field order.
pub proof fn lemma_offset_monotone(fields: Seq<FieldSpec>, a: int, b: int)
    requires
        0 <= a <= b <= fields.len(),
    ensures
        spec_offset(fields, a) <= spec_offset(fields, b),
    decreases b - a,
{
    if a < b {
        lemma_offset_step(fields, a);
        lemma_offset_monotone(fields, a + 1, b);
    }
}

/// Non-interference of the layout: two distinct fields occupy disjoint bit
/// ranges, the earlier one ending at or before the later one starts.
pub proof fn lemma_layout_disjoint(fields: Seq<FieldSpec>, i: int, j: int)
    requires
        0 <= i < j < fields.len(),
    ensures
        spec_offset(fields, i) + spec_field_width(fields[i]) <= spec_offset(fields, j),
{
    lemma_offset_step(fields, i);
    lemma_offset_monotone(fields, i + 1, j);
}

/// Every field's bit range lies inside the record.
pub proof fn lemma_field_end_le_total(fields: Seq<FieldSpec>, i: int)
    requires
        0 <= i < fields.len(),
    ensures
        spec_offset(fields, i) + spec_field_width(fields[i]) <= spec_total_bits(fields),
{
    lemma_offset_step(fields, i);
    lemma_offset_monotone(fields, i + 1, fields.len() as int);
    assert(fields.take(fields.len() as int) =~= fields);
}

/// The lowest variant index whose discriminant does not fit in `bits` bits.
fn first_bad_variant(variants: &Vec<VariantDef>, bits: usize) -> (r: Option<usize>)
    requires
        bits < 64,
    ensures
        match r {
            Some(j) => spec_first_bad_variant(variants@, bits as nat, 0) == Some(j as int),
            None => spec_first_bad_variant(variants@, bits as nat, 0) is None,
        },
{
    let threshold: u64 = 1u64 << (bits as u64);
    proof {
        lemma_u64_shl_one(bits as u64);
    }
    let nv: usize = variants.len();
    let mut j: usize = 0;
    while j < nv
        invariant
            j <= nv,
            nv == variants@.len(),
            bits < 64,
            threshold as nat == pow2(bits as nat),
            spec_first_bad_variant(variants@, bits as nat, 0) == spec_first_bad_variant(
                variants@,
                bits as nat,
                j as nat,
            ),
        decreases nv - j,
    {
        if variants[j].discriminant >= threshold {
            return Some(j);
        }
        j = j + 1;
    }
    None
}

/// The first defect of field `i` taken alone, as `spec_field_error` states it.
pub fn check_field(f: &FieldSpec, i: usize) -> (r: Option<SchemaError>)
    ensures
        r == spec_field_error(*f, i),
{
    match &f.kind {
        SpecifierKind::Unsigned { bits } => {
            if *bits < 1 || *bits > 64 {
                return Some(SchemaError::WidthOutOfRange { field: i });
            }
        },
        SpecifierKind::Boolean => {},
        SpecifierKind::Enumeration { variants } => {
            if !is_power_of_two(variants.len()) {
                return Some(
                    SchemaError::InvalidVariantCount { field: i, count: variants.len() },
                );
            }
            let bits: usize = log2_floor(variants.len());
            match first_bad_variant(variants, bits) {
                Some(j) => {
                    return Some(SchemaError::DiscriminantOutOfRange { field: i, variant: j });
                },
                None => {},
            }
        },
    }
    match f.declared_bits {
        Some(d) => {
            let w: usize = kind_width(&f.kind);
            if d != w {
                return Some(SchemaError::DeclaredBitsMismatch { field: i, declared: d, actual: w });
            }
        },
        None => {},
    }
    None
}

/// Validate a whole schema, returning its first defect: the per-field
/// checks left to right, then the machine-size bound, then the requirement
/// that the total bit width be a multiple of eight. `Ok` exactly when the
/// schema has no defect.
pub fn validate_schema(fields: &Vec<FieldSpec>) -> (r: Result<(), SchemaError>)
    ensures
        match r {
            Ok(_) => spec_schema_ok(fields@),
            Err(e) => spec_schema_error(fields@) == Some(e),
        },
{
    let n: usize = fields.len();
    let mut i: usize = 0;
    while i < n
        invariant
            i <= n,
            n == fields@.len(),
            spec_first_field_error(fields@, 0) == spec_first_field_error(fields@, i as nat),
        decreases n - i,
    {
        match check_field(&fields[i], i) {
            Some(e) => {
                return Err(e);
            },
            None => {},
        }
        i = i + 1;
    }
    let mut k: usize = 0;
    let mut total: usize = 0;
    while k < n
        invariant
            k <= n,
            n == fields@.len(),
            total as nat == spec_total_bits(fields@.take(k as int)),
            spec_first_field_error(fields@, 0) is None,
        decreases n - k,
    {
        let w: usize = kind_width(&fields[k].kind);
        proof {
            assert(fields@.take(k + 1).drop_last() =~= fields@.take(k as int));
            assert(fields@.take(k + 1).last() == fields@[k as int]);
            lemma_total_bits_prefix_le(fields@, k + 1);
        }
        if w > usize::MAX - total {
            return Err(SchemaError::SchemaTooLarge);
        }
        total = total + w;
        k = k + 1;
    }
    proof {
        assert(fields@.take(n as int) =~= fields@);
    }
    if total % 8 != 0 {
        return Err(SchemaError::TotalSizeNotMultipleOfEight { total_bits: total });
    }
    Ok(())
}

/// The layout planner: one left-to-right fold over the fields, handing each
/// its bit offset and returning the record's total bit width.
pub fn plan_layout(fields: &Vec<FieldSpec>) -> (r: (Vec<usize>, usize))
    requires
        spec_total_bits(fields@) <= usize::MAX,
    ensures
        r.0@.len() == fields@.len(),
        forall|i: int| 0 <= i < fields@.len() ==> r.0@[i] as nat == spec_offset(fields@, i),
        r.1 as nat == spec_total_bits(fields@),
{
    let n: usize = fields.len();
    let mut offsets: Vec<usize> = Vec::new();
    let mut total: usize = 0;
    let mut i: usize = 0;
    while i < n
        invariant
            i <= n,
            n == fields@.len(),
            offsets@.len() == i,
            forall|k: int| 0 <= k < i ==> offsets@[k] as nat == spec_offset(fields@, k),
            total as nat == spec_total_bits(fields@.take(i as int)),
            spec_total_bits(fields@) <= usize::MAX,
        decreases n - i,
    {
        offsets.push(total);
        let w: usize = kind_width(&fields[i].kind);
        proof {
            assert(fields@.take(i + 1).drop_last() =~= fields@.take(i as int));
            assert(fields@.take(i + 1).last() == fields@[i as int]);
            lemma_total_bits_prefix_le(fields@, i + 1);
        }
        total = total + w;
        i = i + 1;
    }
    proof {
        assert(fields@.take(n as int) =~= fields@);
    }
    (offsets, total)
}

/// The carrier width for a field width in 1..=64: wide enough for the
/// field, and minimal among 8, 16, 32 and 64.
pub fn carrier_bits(width: usize) -> (r: usize)
    requires
        1 <= width <= 64,
    ensures
        r as nat == spec_carrier_bits(width as nat),
        width <= r,
        r == 8 || r == 16 || r == 32 || r == 64,
        r != 8 ==> width > r / 2,
{
    if width <= 8 {
        8
    } else if width <= 16 {
        16
    } else if width <= 32 {
        32
    } else {
        64
    }
}

} // verus!
