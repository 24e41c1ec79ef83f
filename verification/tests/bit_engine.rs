//! The bit accessor engine on raw storage: round trips, masking, byte
//! straddling, and the zero-initialized state.

use bitfield::storage::PackedStorage;

#[test]
fn fresh_storage_is_all_zero() {
    let s = PackedStorage::new(4);
    assert_eq!(s.num_bytes(), 4);
    for i in 0..4 {
        assert_eq!(s.byte_at(i), 0);
    }
    assert_eq!(s.get_bits(0, 32), 0);
    assert_eq!(s.get_bits(5, 13), 0);
}

#[test]
fn roundtrip_every_width() {
    // For each width w, the largest w-bit value comes back unchanged.
    let mut s = PackedStorage::new(8);
    for w in 1..=64usize {
        let v: u64 = if w == 64 { u64::MAX } else { (1u64 << w) - 1 };
        s.set_bits(0, w, v);
        assert_eq!(s.get_bits(0, w), v);
    }
}

#[test]
fn roundtrip_sample_values() {
    let mut s = PackedStorage::new(8);
    let cases: [(usize, u64); 6] =
        [(1, 1), (3, 0b101), (5, 0b10110), (8, 0xAB), (13, 0x1234), (64, 0xDEAD_BEEF_CAFE_F00D)];
    for (w, v) in cases {
        s.set_bits(0, w, v);
        assert_eq!(s.get_bits(0, w), v);
    }
}

#[test]
fn set_bits_masks_high_bits() {
    // Only the low `count` bits of the value are written.
    let mut s = PackedStorage::new(2);
    s.set_bits(0, 3, 0xFF);
    assert_eq!(s.get_bits(0, 3), 0b111);
    assert_eq!(s.get_bits(3, 13), 0);
}

#[test]
fn range_straddles_byte_boundary() {
    let mut s = PackedStorage::new(3);
    // A 10-bit value written at bit 5 spans three bytes' worth of offsets.
    s.set_bits(5, 10, 0b10_1100_1101);
    assert_eq!(s.get_bits(5, 10), 0b10_1100_1101);
    // Bits outside the range stay clear.
    assert_eq!(s.get_bits(0, 5), 0);
    assert_eq!(s.get_bits(15, 9), 0);
}

#[test]
fn overwrite_clears_stale_bits() {
    let mut s = PackedStorage::new(1);
    s.set_bits(2, 4, 0b1111);
    s.set_bits(2, 4, 0b0101);
    assert_eq!(s.get_bits(2, 4), 0b0101);
    assert_eq!(s.byte_at(0), 0b0001_0100);
}

#[test]
fn disjoint_ranges_do_not_interfere() {
    let mut s = PackedStorage::new(2);
    s.set_bits(0, 7, 0b1010101);
    s.set_bits(7, 9, 0b1_1001_1001);
    assert_eq!(s.get_bits(0, 7), 0b1010101);
    assert_eq!(s.get_bits(7, 9), 0b1_1001_1001);
    s.set_bits(0, 7, 0);
    assert_eq!(s.get_bits(7, 9), 0b1_1001_1001);
}
