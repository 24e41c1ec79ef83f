//! Records over small schemas: the documented layout, non-interference
//! between fields, and the zero-initialized defaults.

use bitfield::record::{AccessError, FieldValue, Record};
use bitfield::schema::{FieldSpec, SpecifierKind, VariantDef};

fn unsigned(name: &str, bits: usize) -> FieldSpec {
    FieldSpec { name: name.to_string(), kind: SpecifierKind::Unsigned { bits }, declared_bits: None }
}

fn boolean(name: &str) -> FieldSpec {
    FieldSpec { name: name.to_string(), kind: SpecifierKind::Boolean, declared_bits: None }
}

fn enumeration(name: &str, discriminants: &[u64]) -> FieldSpec {
    let variants: Vec<VariantDef> = discriminants
        .iter()
        .enumerate()
        .map(|(i, d)| VariantDef { name: format!("V{}", i), discriminant: *d })
        .collect();
    FieldSpec {
        name: name.to_string(),
        kind: SpecifierKind::Enumeration { variants },
        declared_bits: None,
    }
}

#[test]
fn layout_three_five_eight() {
    // Fields of widths [3, 5, 8]: field 0 occupies bits 0..3, field 1
    // bits 3..8, field 2 bits 8..16, LSB first.
    let mut rec =
        Record::new(vec![unsigned("a", 3), unsigned("b", 5), unsigned("c", 8)]).unwrap();
    assert_eq!(rec.byte_size(), 2);
    rec.set_raw(0, 0b101);
    rec.set_raw(1, 0b10110);
    rec.set_raw(2, 0xAB);
    assert_eq!(rec.get_raw(0), 0b101);
    assert_eq!(rec.get_raw(1), 0b10110);
    assert_eq!(rec.get_raw(2), 0xAB);
    assert_eq!(rec.byte_at(0), 0b10110101);
    assert_eq!(rec.byte_at(1), 0xAB);
}

#[test]
fn setters_do_not_interfere() {
    // Writing one field never moves another, in either write order.
    let mut rec =
        Record::new(vec![unsigned("a", 3), unsigned("b", 5), unsigned("c", 8)]).unwrap();
    rec.set_raw(0, 0b111);
    rec.set_raw(2, 0x55);
    rec.set_raw(1, 0b00011);
    assert_eq!(rec.get_raw(0), 0b111);
    assert_eq!(rec.get_raw(1), 0b00011);
    assert_eq!(rec.get_raw(2), 0x55);
    rec.set_raw(0, 0);
    assert_eq!(rec.get_raw(1), 0b00011);
    assert_eq!(rec.get_raw(2), 0x55);
}

#[test]
fn zero_record_reads_default_values() {
    let rec = Record::new(vec![
        unsigned("n", 6),
        boolean("flag"),
        enumeration("mode", &[0, 1]),
    ])
    .unwrap();
    assert_eq!(rec.num_fields(), 3);
    assert_eq!(rec.get_value(0), Ok(FieldValue::Unsigned(0)));
    assert_eq!(rec.get_value(1), Ok(FieldValue::Boolean(false)));
    assert_eq!(rec.get_value(2), Ok(FieldValue::Variant(0)));
}

#[test]
fn typed_roundtrip() {
    let mut rec = Record::new(vec![
        unsigned("n", 6),
        boolean("flag"),
        enumeration("mode", &[0, 1]),
    ])
    .unwrap();
    assert_eq!(rec.set_value(0, &FieldValue::Unsigned(42)), Ok(()));
    assert_eq!(rec.set_value(1, &FieldValue::Boolean(true)), Ok(()));
    assert_eq!(rec.set_value(2, &FieldValue::Variant(1)), Ok(()));
    assert_eq!(rec.get_value(0), Ok(FieldValue::Unsigned(42)));
    assert_eq!(rec.get_value(1), Ok(FieldValue::Boolean(true)));
    assert_eq!(rec.get_value(2), Ok(FieldValue::Variant(1)));
}

#[test]
fn enum_field_stores_discriminant() {
    // A sparse enumeration: the variant's discriminant, not its index, is
    // the stored bit pattern.
    let mut rec = Record::new(vec![enumeration("mode", &[0, 3, 2, 1]), unsigned("pad", 6)])
        .unwrap();
    assert_eq!(rec.set_value(0, &FieldValue::Variant(1)), Ok(()));
    assert_eq!(rec.get_raw(0), 3);
    assert_eq!(rec.get_value(0), Ok(FieldValue::Variant(1)));
}

#[test]
fn unmapped_pattern_is_a_typed_fault() {
    // Duplicate discriminants leave the pattern 3 unmapped even though
    // every discriminant is in range.
    let mut rec = Record::new(vec![enumeration("mode", &[0, 1, 2, 2]), unsigned("pad", 6)])
        .unwrap();
    rec.set_raw(0, 3);
    assert_eq!(rec.get_value(0), Err(AccessError::UnmappedPattern));
}

#[test]
fn setter_rejects_wrong_kind_and_unknown_variant() {
    let mut rec = Record::new(vec![unsigned("n", 7), enumeration("mode", &[0, 1])]).unwrap();
    rec.set_raw(0, 9);
    assert_eq!(rec.set_value(0, &FieldValue::Boolean(true)), Err(AccessError::KindMismatch));
    assert_eq!(rec.set_value(1, &FieldValue::Variant(7)), Err(AccessError::UnknownVariant));
    // A rejected value leaves the record untouched.
    assert_eq!(rec.get_raw(0), 9);
    assert_eq!(rec.get_value(1), Ok(FieldValue::Variant(0)));
}

#[test]
fn full_width_field_spans_eight_bytes() {
    let mut rec = Record::new(vec![unsigned("wide", 64)]).unwrap();
    assert_eq!(rec.byte_size(), 8);
    rec.set_raw(0, u64::MAX);
    assert_eq!(rec.get_raw(0), u64::MAX);
    for i in 0..8 {
        assert_eq!(rec.byte_at(i), 0xFF);
    }
    rec.set_raw(0, 0x0123_4567_89AB_CDEF);
    assert_eq!(rec.byte_at(0), 0xEF);
    assert_eq!(rec.byte_at(7), 0x01);
}

#[test]
fn raw_setter_masks_to_field_width() {
    let mut rec = Record::new(vec![unsigned("a", 3), unsigned("b", 13)]).unwrap();
    rec.set_raw(0, 0xFF);
    assert_eq!(rec.get_raw(0), 0b111);
    assert_eq!(rec.get_raw(1), 0);
}
