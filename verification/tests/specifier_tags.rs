//! The specifier registry: width tags, the carrier width table, and the
//! power-of-two helpers.

use bitfield::record::{FieldValue, Record};
use bitfield::schema::{carrier_bits, is_power_of_two, log2_floor};
use bitfield::specifier::{field_of, Specifier, B1, B16, B17, B3, B32, B33, B5, B64, B7, B8, B9};

#[test]
fn width_tags_report_their_widths() {
    assert_eq!(B1::bits(), 1);
    assert_eq!(B3::bits(), 3);
    assert_eq!(B8::bits(), 8);
    assert_eq!(B9::bits(), 9);
    assert_eq!(B16::bits(), 16);
    assert_eq!(B17::bits(), 17);
    assert_eq!(B32::bits(), 32);
    assert_eq!(B33::bits(), 33);
    assert_eq!(B64::bits(), 64);
    assert_eq!(<bool as Specifier>::bits(), 1);
}

#[test]
fn tag_conversions_roundtrip() {
    assert_eq!(B3::from_u64(5), 5u8);
    assert_eq!(B3::into_u64(5), 5);
    assert_eq!(B9::from_u64(300), 300u16);
    assert_eq!(B9::into_u64(300), 300);
    assert_eq!(B17::from_u64(70_000), 70_000u32);
    assert_eq!(B33::from_u64(5_000_000_000), 5_000_000_000u64);
    assert_eq!(B64::from_u64(u64::MAX), u64::MAX);
    assert_eq!(B64::into_u64(u64::MAX), u64::MAX);
}

#[test]
fn bool_specifier_conversions() {
    assert!(<bool as Specifier>::from_u64(1));
    assert!(!<bool as Specifier>::from_u64(0));
    assert_eq!(<bool as Specifier>::into_u64(true), 1);
    assert_eq!(<bool as Specifier>::into_u64(false), 0);
}

#[test]
fn carrier_width_table() {
    // The narrowest carrier of 8, 16, 32 or 64 bits that holds the width.
    for w in 1..=8usize {
        assert_eq!(carrier_bits(w), 8);
    }
    for w in 9..=16usize {
        assert_eq!(carrier_bits(w), 16);
    }
    for w in 17..=32usize {
        assert_eq!(carrier_bits(w), 32);
    }
    for w in 33..=64usize {
        assert_eq!(carrier_bits(w), 64);
    }
}

#[test]
fn power_of_two_check() {
    assert!(!is_power_of_two(0));
    assert!(is_power_of_two(1));
    assert!(is_power_of_two(2));
    assert!(!is_power_of_two(3));
    assert!(is_power_of_two(4));
    assert!(!is_power_of_two(6));
    assert!(is_power_of_two(1024));
    assert!(!is_power_of_two(1023));
}

#[test]
fn tags_describe_schema_fields() {
    // Width tags hand the layout planner their widths.
    let mut rec = Record::new(vec![
        field_of::<B3>("a".to_string()),
        field_of::<B5>("b".to_string()),
        field_of::<B8>("c".to_string()),
    ])
    .unwrap();
    assert_eq!(rec.byte_size(), 2);
    rec.set_raw(1, B5::into_u64(B5::from_u64(0b10110)));
    assert_eq!(rec.get_raw(1), 0b10110);
}

#[test]
fn bool_tag_describes_a_boolean_field() {
    let mut rec = Record::new(vec![
        field_of::<bool>("flag".to_string()),
        field_of::<B7>("rest".to_string()),
    ])
    .unwrap();
    assert_eq!(rec.set_value(0, &FieldValue::Boolean(true)), Ok(()));
    assert_eq!(rec.get_value(0), Ok(FieldValue::Boolean(true)));
    assert_eq!(rec.get_raw(0), 1);
}

#[test]
fn log2_of_powers_of_two() {
    assert_eq!(log2_floor(1), 0);
    assert_eq!(log2_floor(2), 1);
    assert_eq!(log2_floor(4), 2);
    assert_eq!(log2_floor(256), 8);
    assert_eq!(log2_floor(1024), 10);
}
