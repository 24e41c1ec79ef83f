//! Records: one packed byte buffer per validated schema, with per-field
//! accessors built from the planned layout. Field `i` occupies the bit
//! range `[offset_i, offset_i + width_i)` of the buffer, and no record
//! exists over a schema that fails validation.

use vstd::prelude::*;
use vstd::arithmetic::power2::pow2;
use crate::bitmath::{byte_bit, lemma_bits_nat_bit, lemma_bits_nat_zero, u64_bit};
use crate::schema::{
    lemma_field_end_le_total, lemma_layout_disjoint, lemma_no_bad_variant, lemma_schema_ok_field,
    plan_layout, spec_field_error, spec_field_width, spec_log2, spec_offset, spec_schema_error,
    spec_schema_ok, spec_total_bits, validate_schema, kind_width, FieldSpec, SchemaError,
    SpecifierKind, VariantDef,
};
use crate::storage::PackedStorage;

verus! {

/// A field's logical value: the carrier of an unsigned field, a boolean,
/// or the index of an enumeration variant in its declared order.
#[derive(Clone, Copy, Debug, PartialEq, Eq, Structural)]
pub enum FieldValue {
    Unsigned(u64),
    Boolean(bool),
    Variant(usize),
}

/// A fault of a single accessor call; the schema itself is sound.
#[derive(Clone, Copy, Debug, PartialEq, Eq, Structural)]
pub enum AccessError {
    /// The value handed to a setter is of another kind than the field.
    KindMismatch,
    /// The variant index handed to a setter is not one of the variants.
    UnknownVariant,
    /// The stored bit pattern equals no variant's discriminant.
    UnmappedPattern,
}

/// The lowest variant index at or after `j` whose discriminant is `d`.
pub open spec fn spec_find_variant(variants: Seq<VariantDef>, d: u64, j: nat) -> Option<int>
    decreases variants.len() - j,
{
    if j >= variants.len() {
        None
    } else if variants[j as int].discriminant == d {
        Some(j as int)
    } else {
        spec_find_variant(variants, d, j + 1)
    }
}

/// What a getter returns for the raw bit pattern `raw` of a field of kind
/// `k`: the pattern itself, its truth value, or the first variant whose
/// discriminant matches it — an unmapped pattern is a typed fault.
pub open spec fn spec_decode(k: SpecifierKind, raw: u64) -> Result<FieldValue, AccessError> {
    match k {
        SpecifierKind::Unsigned { .. } => Ok(FieldValue::Unsigned(raw)),
        SpecifierKind::Boolean => Ok(FieldValue::Boolean(raw != 0)),
        SpecifierKind::Enumeration { variants } => match spec_find_variant(variants@, raw, 0) {
            Some(j) => Ok(FieldValue::Variant(j as usize)),
            None => Err(AccessError::UnmappedPattern),
        },
    }
}

/// The raw bit pattern a setter writes for the value `v` into a field of
/// kind `k`; a value of the wrong kind or an unknown variant is a fault.
pub open spec fn spec_encode(k: SpecifierKind, v: FieldValue) -> Result<u64, AccessError> {
    match k {
        SpecifierKind::Unsigned { .. } => match v {
            FieldValue::Unsigned(x) => Ok(x),
            _ => Err(AccessError::KindMismatch),
        },
        SpecifierKind::Boolean => match v {
            FieldValue::Boolean(b) => Ok(
                if b {
                    1u64
                } else {
                    0u64
                },
            ),
            _ => Err(AccessError::KindMismatch),
        },
        SpecifierKind::Enumeration { variants } => match v {
            FieldValue::Variant(j) => if j < variants@.len() {
                Ok(variants@[j as int].discriminant)
            } else {
                Err(AccessError::UnknownVariant)
            },
            _ => Err(AccessError::KindMismatch),
        },
    }
}

/// A variant found by the scan carries the discriminant looked for, and a
/// failed scan means no variant carries it.
pub proof fn lemma_find_variant_correct(variants: Seq<VariantDef>, d: u64, j: nat)
    ensures
        match spec_find_variant(variants, d, j) {
            Some(k) => j <= k < variants.len() && variants[k].discriminant == d,
            None => forall|k: int| j <= k < variants.len() ==> variants[k].discriminant != d,
        },
    decreases variants.len() - j,
{
    if j < variants.len() && variants[j as int].discriminant != d {
        lemma_find_variant_correct(variants, d, j + 1);
    }
}

/// The first variant index at or after `j` whose discriminant is `d`.
fn find_variant(variants: &Vec<VariantDef>, d: u64) -> (r: Option<usize>)
    ensures
        match r {
            Some(j) => spec_find_variant(variants@, d, 0) == Some(j as int),
            None => spec_find_variant(variants@, d, 0) is None,
        },
{
    let nv: usize = variants.len();
    let mut j: usize = 0;
    while j < nv
        invariant
            j <= nv,
            nv == variants@.len(),
            spec_find_variant(variants@, d, 0) == spec_find_variant(variants@, d, j as nat),
        decreases nv - j,
    {
        if variants[j].discriminant == d {
            return Some(j);
        }
        j = j + 1;
    }
    None
}

/// Decode a raw bit pattern under a specifier, as `spec_decode` states it.
pub fn decode_value(k: &SpecifierKind, raw: u64) -> (r: Result<FieldValue, AccessError>)
    ensures
        r == spec_decode(*k, raw),
{
    match k {
        SpecifierKind::Unsigned { .. } => Ok(FieldValue::Unsigned(raw)),
        SpecifierKind::Boolean => Ok(FieldValue::Boolean(raw != 0)),
        SpecifierKind::Enumeration { variants } => match find_variant(variants, raw) {
            Some(j) => Ok(FieldValue::Variant(j)),
            None => Err(AccessError::UnmappedPattern),
        },
    }
}

/// Encode a logical value under a specifier, as `spec_encode` states it.
pub fn encode_value(k: &SpecifierKind, v: &FieldValue) -> (r: Result<u64, AccessError>)
    ensures
        r == spec_encode(*k, *v),
{
    match k {
        SpecifierKind::Unsigned { .. } => match v {
            FieldValue::Unsigned(x) => Ok(*x),
            _ => Err(AccessError::KindMismatch),
        },
        SpecifierKind::Boolean => match v {
            FieldValue::Boolean(b) => Ok(
                if *b {
                    1u64
                } else {
                    0u64
                },
            ),
            _ => Err(AccessError::KindMismatch),
        },
        SpecifierKind::Enumeration { variants } => match v {
            FieldValue::Variant(j) => if *j < variants.len() {
                Ok(variants[*j].discriminant)
            } else {
                Err(AccessError::UnknownVariant)
            },
            _ => Err(AccessError::KindMismatch),
        },
    }
}

/// One bit-packed record: a validated schema, the layout planned from it,
/// and the zero-initialized packed storage the accessors work on.
pub struct Record {
    fields: Vec<FieldSpec>,
    offsets: Vec<usize>,
    widths: Vec<usize>,
    total_bits: usize,
    storage: PackedStorage,
}

impl Record {
    /// The schema this record was built over.
    pub closed spec fn spec_fields(&self) -> Seq<FieldSpec> {
        self.fields@
    }

    /// The number of fields.
    pub open spec fn spec_num_fields(&self) -> nat {
        self.spec_fields().len()
    }

    /// The specifier of field `i`.
    pub open spec fn spec_kind(&self, i: int) -> SpecifierKind {
        self.spec_fields()[i].kind
    }

    /// The bit width of field `i`.
    pub open spec fn spec_width(&self, i: int) -> nat {
        spec_field_width(self.spec_fields()[i])
    }

    /// Byte `i` of the packed storage.
    pub closed spec fn spec_byte(&self, i: int) -> u8 {
        self.storage@[i]
    }

    /// Well-formedness: the schema passed validation, the offsets and
    /// widths are the planned layout, and the storage holds exactly the
    /// record's bytes.
    pub closed spec fn wf(&self) -> bool {
        &&& spec_schema_ok(self.fields@)
        &&& self.offsets@.len() == self.fields@.len()
        &&& (forall|i: int|
            0 <= i < self.fields@.len() ==> self.offsets@[i] as nat == spec_offset(self.fields@, i))
        &&& self.widths@.len() == self.fields@.len()
        &&& (forall|i: int|
            0 <= i < self.fields@.len() ==> self.widths@[i] as nat == spec_field_width(
                self.fields@[i],
            ))
        &&& self.total_bits as nat == spec_total_bits(self.fields@)
        &&& self.storage@.len() == self.total_bits / 8
    }

    /// The raw bits of field `i`, read from its planned range.
    pub closed spec fn field_raw(&self, i: int) -> nat {
        self.storage.range_value(
            spec_offset(self.fields@, i) as int,
            spec_field_width(self.fields@[i]),
        )
    }

    /// Build a record over `fields`: validation gates construction — the
    /// result is a record exactly when the schema has no defect, and every
    /// bit of its storage starts out clear, so every field reads zero.
    pub fn new(fields: Vec<FieldSpec>) -> (r: Result<Record, SchemaError>)
        ensures
            match r {
                Ok(rec) => {
                    &&& spec_schema_ok(fields@)
                    &&& rec.wf()
                    &&& rec.spec_fields() == fields@
                    &&& forall|i: int| 0 <= i < fields@.len() ==> rec.field_raw(i) == 0
                },
                Err(e) => spec_schema_error(fields@) == Some(e),
            },
    {
        match validate_schema(&fields) {
            Err(e) => {
                return Err(e);
            },
            Ok(_) => {},
        }
        let (offsets, total_bits) = plan_layout(&fields);
        let n: usize = fields.len();
        let mut widths: Vec<usize> = Vec::new();
        let mut i: usize = 0;
        while i < n
            invariant
                i <= n,
                n == fields@.len(),
                widths@.len() == i,
                forall|k: int|
                    0 <= k < i ==> widths@[k] as nat == spec_field_width(fields@[k]),
            decreases n - i,
        {
            widths.push(kind_width(&fields[i].kind));
            i = i + 1;
        }
        let storage = PackedStorage::new(total_bits / 8);
        let rec = Record { fields, offsets, widths, total_bits, storage };
        proof {
            assert(8 * ((rec.total_bits / 8) as int) == rec.total_bits as int);
            assert forall|k: int| 0 <= k < rec.fields@.len() implies rec.field_raw(k) == 0 by {
                lemma_field_end_le_total(rec.fields@, k);
                lemma_bits_nat_zero(
                    rec.storage.range_bits(
                        spec_offset(rec.fields@, k) as int,
                        spec_field_width(rec.fields@[k]),
                    ),
                );
            }
        }
        Ok(rec)
    }

    /// The number of fields.
    pub fn num_fields(&self) -> (r: usize)
        ensures
            r == self.spec_num_fields(),
    {
        self.fields.len()
    }

    /// The record's fixed byte size: its total bit width over eight.
    pub fn byte_size(&self) -> (r: usize)
        requires
            self.wf(),
        ensures
            8 * (r as nat) == spec_total_bits(self.spec_fields()),
    {
        self.storage.num_bytes()
    }

    /// Byte `i` of the record's storage, the wire form itself.
    pub fn byte_at(&self, i: usize) -> (r: u8)
        requires
            self.wf(),
            8 * (i as nat) < spec_total_bits(self.spec_fields()),
        ensures
            r == self.spec_byte(i as int),
    {
        self.storage.byte_at(i)
    }

    /// The raw bits of field `i`, right-aligned.
    pub fn get_raw(&self, i: usize) -> (r: u64)
        requires
            self.wf(),
            i < self.spec_num_fields(),
        ensures
            r as nat == self.field_raw(i as int),
            (r as nat) < pow2(self.spec_width(i as int)),
    {
        proof {
            lemma_schema_ok_field(self.fields@, i as int);
            lemma_field_end_le_total(self.fields@, i as int);
        }
        let off: usize = self.offsets[i];
        let w: usize = self.widths[i];
        self.storage.get_bits(off, w)
    }

    /// Write the low bits of `value` as the raw bits of field `i`. The
    /// field afterwards holds `value` reduced modulo `2^width`, and —
    /// non-interference — every other field holds exactly what it held
    /// before, whatever the write order.
    pub fn set_raw(&mut self, i: usize, value: u64)
        requires
            old(self).wf(),
            i < old(self).spec_num_fields(),
        ensures
            final(self).wf(),
            final(self).spec_fields() == old(self).spec_fields(),
            final(self).field_raw(i as int) == (value as nat) % pow2(old(self).spec_width(i as int)),
            forall|j: int|
                0 <= j < old(self).spec_num_fields() && j != i
                    ==> final(self).field_raw(j) == old(self).field_raw(j),
    {
        proof {
            lemma_schema_ok_field(self.fields@, i as int);
            lemma_field_end_le_total(self.fields@, i as int);
        }
        let off: usize = self.offsets[i];
        let w: usize = self.widths[i];
        self.storage.set_bits(off, w, value);
        proof {
            let fields = self.fields@;
            assert forall|j: int|
                0 <= j < fields.len() && j != i implies self.field_raw(j) == old(self).field_raw(
                j,
            ) by {
                lemma_schema_ok_field(fields, j);
                lemma_field_end_le_total(fields, j);
                if j < i {
                    lemma_layout_disjoint(fields, j, i as int);
                } else {
                    lemma_layout_disjoint(fields, i as int, j);
                }
                assert(self.storage.range_bits(
                    spec_offset(fields, j) as int,
                    spec_field_width(fields[j]),
                ) =~= old(self).storage.range_bits(
                    spec_offset(fields, j) as int,
                    spec_field_width(fields[j]),
                ));
            }
        }
    }

    /// Field `i` decoded to its logical value, as `spec_decode` states it
    /// for the field's stored bits.
    pub fn get_value(&self, i: usize) -> (r: Result<FieldValue, AccessError>)
        requires
            self.wf(),
            i < self.spec_num_fields(),
        ensures
            r == spec_decode(self.spec_kind(i as int), self.field_raw(i as int) as u64),
    {
        let raw: u64 = self.get_raw(i);
        decode_value(&self.fields[i].kind, raw)
    }

    /// Set field `i` to the logical value `v`: the encoded bits are written
    /// exactly when `spec_encode` accepts the value, no other field moves,
    /// and a rejected value leaves the record untouched.
    pub fn set_value(&mut self, i: usize, v: &FieldValue) -> (r: Result<(), AccessError>)
        requires
            old(self).wf(),
            i < old(self).spec_num_fields(),
        ensures
            final(self).wf(),
            final(self).spec_fields() == old(self).spec_fields(),
            match spec_encode(old(self).spec_kind(i as int), *v) {
                Ok(raw) => {
                    &&& r == Ok::<(), AccessError>(())
                    &&& final(self).field_raw(i as int) == (raw as nat) % pow2(
                        old(self).spec_width(i as int),
                    )
                    &&& forall|j: int|
                        0 <= j < old(self).spec_num_fields() && j != i
                            ==> final(self).field_raw(j) == old(self).field_raw(j)
                },
                Err(e) => r == Err::<(), AccessError>(e) && *final(self) == *old(self),
            },
    {
        let raw: u64 = match encode_value(&self.fields[i].kind, v) {
            Ok(x) => x,
            Err(e) => {
                return Err(e);
            },
        };
        self.set_raw(i, raw);
        Ok(())
    }
}

/// The raw pattern of an accepted enumeration value fits the field, so it
/// is stored without reduction: what `set_value` writes for a valid
/// variant, `get_raw` returns as that variant's exact discriminant.
pub proof fn lemma_valid_variant_fits(f: FieldSpec, i: usize, j: int)
    requires
        spec_field_error(f, i) is None,
        f.kind matches SpecifierKind::Enumeration { variants } && 0 <= j < variants@.len(),
    ensures
        match f.kind {
            SpecifierKind::Enumeration { variants } => (variants@[j].discriminant as nat) < pow2(
                spec_field_width(f),
            ),
            _ => true,
        },
{
    match f.kind {
        SpecifierKind::Enumeration { variants } => {
            lemma_no_bad_variant(variants@, spec_log2(variants@.len()), 0, j);
        },
        _ => {},
    }
}

/// Law, the wire format: bit `j` of field `i`'s raw value is bit
/// `(offset_i + j) % 8` of byte `(offset_i + j) / 8` of the record's
/// storage — fields are packed low-to-high starting at the first declared
/// field, least significant bit first within each byte.
pub proof fn lemma_wire_format(rec: Record, i: int, j: u64)
    requires
        rec.wf(),
        0 <= i < rec.spec_num_fields(),
        j < rec.spec_width(i),
    ensures
        u64_bit(rec.field_raw(i) as u64, j) == byte_bit(
            rec.spec_byte(((spec_offset(rec.spec_fields(), i) + j) / 8) as int),
            ((spec_offset(rec.spec_fields(), i) + j) % 8) as u8,
        ),
{
    lemma_schema_ok_field(rec.spec_fields(), i);
    let off = spec_offset(rec.spec_fields(), i) as int;
    let w = rec.spec_width(i);
    let s = rec.storage.range_bits(off, w);
    lemma_bits_nat_bit(s, j);
}

/// Law: a value that fits its field round-trips unchanged — after
/// `set_raw(i, v)` with `v` below `2^width`, the field holds `v` reduced
/// modulo `2^width`, which is `v` itself, so `get_raw(i)` returns exactly
/// what was set.
pub proof fn lemma_set_get_roundtrip(rec: Record, i: int, v: u64)
    requires
        rec.field_raw(i) == (v as nat) % pow2(rec.spec_width(i)),
        (v as nat) < pow2(rec.spec_width(i)),
    ensures
        rec.field_raw(i) == v,
{
    vstd::arithmetic::power2::lemma_pow2_pos(rec.spec_width(i));
    vstd::arithmetic::div_mod::lemma_small_mod(v as nat, pow2(rec.spec_width(i)));
}

/// Law: before any setter runs, every field getter of a fresh record
/// returns the zero value of its type — zero, `false`, or the variant
/// whose discriminant is zero (an enumeration without one has no value for
/// the zero pattern).
pub proof fn lemma_zero_decodes_default(k: SpecifierKind)
    ensures
        match k {
            SpecifierKind::Unsigned { .. } => spec_decode(k, 0) == Ok::<
                FieldValue,
                AccessError,
            >(FieldValue::Unsigned(0)),
            SpecifierKind::Boolean => spec_decode(k, 0) == Ok::<FieldValue, AccessError>(
                FieldValue::Boolean(false),
            ),
            SpecifierKind::Enumeration { variants } => match spec_find_variant(variants@, 0, 0) {
                Some(j) => spec_decode(k, 0) == Ok::<FieldValue, AccessError>(
                    FieldValue::Variant(j as usize),
                ) && variants@[j].discriminant == 0,
                None => spec_decode(k, 0) == Err::<FieldValue, AccessError>(
                    AccessError::UnmappedPattern,
                ),
            },
        },
{
    match k {
        SpecifierKind::Enumeration { variants } => {
            lemma_find_variant_correct(variants@, 0, 0);
        },
        _ => {},
    }
}

} // verus!
