//! Schema validation: every defect is reported with the input that caused
//! it, and only defect-free schemas yield a record.

use bitfield::record::Record;
use bitfield::schema::{
    validate_schema, FieldSpec, SchemaError, SpecifierKind, VariantDef,
};

fn unsigned(name: &str, bits: usize) -> FieldSpec {
    FieldSpec { name: name.to_string(), kind: SpecifierKind::Unsigned { bits }, declared_bits: None }
}

fn enumeration(name: &str, discriminants: &[u64]) -> FieldSpec {
    let variants: Vec<VariantDef> = discriminants
        .iter()
        .enumerate()
        .map(|(i, d)| VariantDef { name: format!("V{}", i), discriminant: *d })
        .collect();
    FieldSpec {
        name: name.to_string(),
        kind: SpecifierKind::Enumeration { variants },
        declared_bits: None,
    }
}

#[test]
fn total_of_seventeen_bits_fails() {
    let fields = vec![unsigned("a", 8), unsigned("b", 9)];
    assert_eq!(
        validate_schema(&fields),
        Err(SchemaError::TotalSizeNotMultipleOfEight { total_bits: 17 })
    );
    assert!(Record::new(fields).is_err());
}

#[test]
fn byte_multiple_totals_succeed() {
    assert_eq!(validate_schema(&vec![unsigned("a", 8)]), Ok(()));
    assert_eq!(validate_schema(&vec![unsigned("a", 7), unsigned("b", 9)]), Ok(()));
    assert_eq!(
        validate_schema(&vec![unsigned("a", 3), unsigned("b", 5), unsigned("c", 16)]),
        Ok(())
    );
    assert!(Record::new(vec![unsigned("a", 24)]).is_ok());
}

#[test]
fn empty_schema_is_valid() {
    let rec = Record::new(Vec::new()).unwrap();
    assert_eq!(rec.num_fields(), 0);
    assert_eq!(rec.byte_size(), 0);
}

#[test]
fn three_variants_fail_validation() {
    let fields = vec![enumeration("mode", &[0, 1, 2])];
    assert_eq!(
        validate_schema(&fields),
        Err(SchemaError::InvalidVariantCount { field: 0, count: 3 })
    );
}

#[test]
fn discriminant_out_of_range_fails_validation() {
    // Four variants need two bits, so the discriminant 7 does not fit;
    // the error names the offending variant.
    let fields = vec![enumeration("mode", &[0, 1, 7, 3])];
    assert_eq!(
        validate_schema(&fields),
        Err(SchemaError::DiscriminantOutOfRange { field: 0, variant: 2 })
    );
}

#[test]
fn four_variants_in_range_succeed() {
    // Discriminants {0,1,2,3} over two bits, padded to a whole byte.
    let fields = vec![enumeration("mode", &[0, 1, 2, 3]), unsigned("pad", 6)];
    assert_eq!(validate_schema(&fields), Ok(()));
    assert!(Record::new(fields).is_ok());
}

#[test]
fn single_variant_occupies_no_bits() {
    // One variant is a power of two; its field is zero bits wide.
    let fields = vec![enumeration("unit", &[0]), unsigned("n", 8)];
    assert_eq!(validate_schema(&fields), Ok(()));
    let rec = Record::new(fields).unwrap();
    assert_eq!(rec.byte_size(), 1);
}

#[test]
fn zero_variants_fail_validation() {
    let fields = vec![enumeration("mode", &[])];
    assert_eq!(
        validate_schema(&fields),
        Err(SchemaError::InvalidVariantCount { field: 0, count: 0 })
    );
}

#[test]
fn width_out_of_range_fails_validation() {
    assert_eq!(
        validate_schema(&vec![unsigned("a", 0)]),
        Err(SchemaError::WidthOutOfRange { field: 0 })
    );
    assert_eq!(
        validate_schema(&vec![unsigned("a", 65)]),
        Err(SchemaError::WidthOutOfRange { field: 0 })
    );
}

#[test]
fn declared_bits_must_match() {
    let field = FieldSpec {
        name: "a".to_string(),
        kind: SpecifierKind::Unsigned { bits: 3 },
        declared_bits: Some(4),
    };
    assert_eq!(
        validate_schema(&vec![field]),
        Err(SchemaError::DeclaredBitsMismatch { field: 0, declared: 4, actual: 3 })
    );
    let ok = FieldSpec {
        name: "a".to_string(),
        kind: SpecifierKind::Unsigned { bits: 8 },
        declared_bits: Some(8),
    };
    assert_eq!(validate_schema(&vec![ok]), Ok(()));
}

#[test]
fn first_defective_field_is_reported() {
    let fields = vec![unsigned("ok", 8), unsigned("bad", 0), enumeration("worse", &[0, 1, 2])];
    assert_eq!(validate_schema(&fields), Err(SchemaError::WidthOutOfRange { field: 1 }));
}
