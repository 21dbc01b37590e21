use x86_xref::AbsoluteFinder;
use x86_xref::AddressWidth;
use x86_xref::Endianness;
use x86_xref::RelativeAndAbsoluteFinder;
use x86_xref::RelativeFinder;
use x86_xref::XRefFinder;

#[test]
fn check_find_xref() {
    let bytes = [0x00u8, 0x01, 0x23, 0x45, 0x67];
    let searcher = RelativeAndAbsoluteFinder::new(0, 4, 0x67452301 + 5, Endianness::Little);

    assert_eq!(searcher.next(&bytes), Some(1));
    assert_eq!(searcher.prev(&bytes), Some(3));
    assert_eq!(searcher.all(&bytes), [1]);
}

#[test]
fn check_find_xref_rel() {
    let bytes = [0x00u8, 0x01, 0x23, 0x45, 0x67];
    let searcher = RelativeFinder::new(0, 4, 0x67452301 + 5, Endianness::Little);

    assert_eq!(searcher.next(&bytes), Some(1));
    assert_eq!(searcher.prev(&bytes), Some(3));
    assert_eq!(searcher.all(&bytes), [1]);
}

#[test]
fn check_find_xref_abs() {
    let bytes = [0x00u8, 0x01, 0x23, 0x45, 0x67, 0x89, 0xAB, 0xCD, 0xEF];
    let searcher = AbsoluteFinder::new(0xEFCDAB8967452301, Endianness::Little, AddressWidth::W64);

    assert_eq!(searcher.next(&bytes), Some(1));
    assert_eq!(searcher.prev(&bytes), Some(7));
    assert_eq!(searcher.all(&bytes), [1]);
}

#[test]
fn check_find_xref_abs_32_bit() {
    let bytes = [0x00u8, 0x01, 0x23, 0x45, 0x67];
    let searcher = AbsoluteFinder::new(0x67452301, Endianness::Little, AddressWidth::W32);

    assert_eq!(searcher.next(&bytes), Some(1));
    assert_eq!(searcher.prev(&bytes), Some(3));
    assert_eq!(searcher.all(&bytes), [1]);
}

#[test]
fn absolute_no_match_in_zero_buffer() {
    let bytes = [0u8; 32];
    let searcher = AbsoluteFinder::new(0xDEADBEEF, Endianness::Little, AddressWidth::W64);

    assert_eq!(searcher.next(&bytes), None);
    assert_eq!(searcher.prev(&bytes), None);
    assert_eq!(searcher.last_match(&bytes), None);
    assert!(searcher.all(&bytes).is_empty());
}

#[test]
fn relative_no_match_in_zero_buffer() {
    let bytes = [0u8; 32];
    let searcher = RelativeFinder::new(0x1000, 4, 0xDEADBEEF, Endianness::Little);

    assert_eq!(searcher.next(&bytes), None);
    assert!(searcher.all(&bytes).is_empty());
}

#[test]
fn combined_no_match_in_zero_buffer() {
    let bytes = [0u8; 32];
    let searcher = RelativeAndAbsoluteFinder::new(0x1000, 4, 0xDEADBEEF, Endianness::Little);

    assert_eq!(searcher.next(&bytes), None);
    assert!(searcher.all(&bytes).is_empty());
}

#[test]
fn absolute_big_endian_64() {
    let bytes = [0x12u8, 0x34, 0x56, 0x78, 0x9A, 0xBC, 0xDE, 0xF0];
    let searcher = AbsoluteFinder::new(0x123456789ABCDEF0, Endianness::Big, AddressWidth::W64);

    assert_eq!(searcher.next(&bytes), Some(0));
    assert_eq!(searcher.all(&bytes), [0]);

    let little = AbsoluteFinder::new(0x123456789ABCDEF0, Endianness::Little, AddressWidth::W64);
    assert_eq!(little.next(&bytes), None);
}

#[test]
fn absolute_big_endian_32() {
    let bytes = [0xCCu8, 0xDE, 0xAD, 0xBE, 0xEF];
    let searcher = AbsoluteFinder::new(0xDEADBEEF, Endianness::Big, AddressWidth::W32);

    assert_eq!(searcher.next(&bytes), Some(1));
    assert_eq!(searcher.all(&bytes), [1]);
}

#[test]
fn absolute_multiple_matches() {
    // every window of a zero buffer encodes zero
    let bytes = [0u8; 12];
    let searcher = AbsoluteFinder::new(0, Endianness::Little, AddressWidth::W64);

    assert_eq!(searcher.next(&bytes), Some(0));
    assert_eq!(searcher.last_match(&bytes), Some(4));
    assert_eq!(searcher.prev(&bytes), Some(12 - 4 - 1));
    assert_eq!(searcher.all(&bytes), [0, 1, 2, 3, 4]);
}

#[test]
fn relative_negative_displacement() {
    // -4, little endian
    let bytes = [0xFCu8, 0xFF, 0xFF, 0xFF];
    let searcher = RelativeFinder::new(0x1000, 4, 0x1000, Endianness::Little);

    assert_eq!(searcher.next(&bytes), Some(0));
}

#[test]
fn relative_negative_displacement_big_endian() {
    // -4, big endian
    let bytes = [0xFFu8, 0xFF, 0xFF, 0xFC];
    let searcher = RelativeFinder::new(0x1000, 4, 0x1000, Endianness::Big);

    assert_eq!(searcher.next(&bytes), Some(0));
}

#[test]
fn relative_most_negative_displacement() {
    // i32::MIN as displacement must not overflow
    let bytes = [0x00u8, 0x00, 0x00, 0x80];
    let searcher = RelativeFinder::new(0, 0, 0xFFFF_FFFF_8000_0000, Endianness::Little);

    assert_eq!(searcher.next(&bytes), Some(0));
}

#[test]
fn relative_address_wraps_around() {
    // base + instruction length pass the top of the address space
    let bytes = [0x00u8, 0x00, 0x00, 0x00];
    let searcher = RelativeFinder::new(u64::MAX - 2, 4, 1, Endianness::Little);

    assert_eq!(searcher.next(&bytes), Some(0));
}

#[test]
fn relative_instruction_length_offsets_target() {
    let bytes = [0x00u8, 0x01, 0x23, 0x45, 0x67];
    // one trailing operand byte after the displacement
    let searcher = RelativeFinder::new(0, 5, 0x67452301 + 6, Endianness::Little);

    assert_eq!(searcher.next(&bytes), Some(1));
}

#[test]
fn combined_finds_absolute_interpretation() {
    let bytes = [0x00u8, 0x01, 0x23, 0x45, 0x67, 0x89, 0xAB, 0xCD, 0xEF];
    let searcher = RelativeAndAbsoluteFinder::new(0, 4, 0xEFCDAB8967452301, Endianness::Little);

    assert_eq!(searcher.next(&bytes), Some(1));
    assert_eq!(searcher.all(&bytes), [1]);
}

#[test]
fn combined_union_of_both() {
    // offset 0 matches relatively (displacement 0xFFC resolves to 0x1000),
    // offset 8 absolutely (its window encodes 0x1000)
    let bytes = [
        0xFCu8, 0x0F, 0x00, 0x00, 0xAA, 0xBB, 0xCC, 0xDD, 0x00, 0x10, 0x00, 0x00, 0x00, 0x00,
        0x00, 0x00,
    ];
    let searcher = RelativeAndAbsoluteFinder::new(0, 4, 0x1000, Endianness::Little);

    let relative = RelativeFinder::new(0, 4, 0x1000, Endianness::Little);
    let absolute = AbsoluteFinder::new(0x1000, Endianness::Little, AddressWidth::W64);
    let mut union: Vec<usize> = Vec::new();
    for offset in 0..=bytes.len() {
        if relative.does_match(&bytes, offset) || absolute.does_match(&bytes, offset) {
            union.push(offset);
        }
    }
    assert_eq!(searcher.all(&bytes), union);
    assert_eq!(searcher.all(&bytes), [0, 8]);
    assert_eq!(searcher.next(&bytes), Some(0));
    assert_eq!(searcher.last_match(&bytes), Some(8));
    assert_eq!(searcher.prev(&bytes), Some(16 - 8 - 1));
}

#[test]
fn does_match_is_bounds_safe() {
    let bytes = [0u8; 8];
    let absolute = AbsoluteFinder::new(0, Endianness::Little, AddressWidth::W64);
    let relative = RelativeFinder::new(0, 4, 4, Endianness::Little);
    let combined = RelativeAndAbsoluteFinder::new(0, 4, 4, Endianness::Little);

    // a full window remains at offset 0 only
    assert!(absolute.does_match(&bytes, 0));
    for offset in 1..=bytes.len() {
        assert!(!absolute.does_match(&bytes, offset));
    }
    // relative windows fit up to offset 4; only offset 0 resolves to 4
    assert!(relative.does_match(&bytes, 0));
    for offset in 1..=bytes.len() {
        assert!(!relative.does_match(&bytes, offset));
    }
    assert!(combined.does_match(&bytes, 0));
    // far past the end of the buffer
    assert!(!absolute.does_match(&bytes, usize::MAX));
    assert!(!relative.does_match(&bytes, usize::MAX));
    assert!(!combined.does_match(&bytes, usize::MAX));
}

#[test]
fn all_matches_is_idempotent() {
    let bytes = [0u8; 12];
    let searcher = AbsoluteFinder::new(0, Endianness::Little, AddressWidth::W64);

    let first = searcher.all(&bytes);
    let second = searcher.all(&bytes);
    assert_eq!(first, second);
}

#[test]
fn empty_buffer_never_matches() {
    let bytes: [u8; 0] = [];
    let absolute = AbsoluteFinder::new(0, Endianness::Little, AddressWidth::W64);
    let relative = RelativeFinder::new(0, 4, 0, Endianness::Little);

    assert_eq!(absolute.next(&bytes), None);
    assert_eq!(relative.next(&bytes), None);
    assert!(absolute.all(&bytes).is_empty());
}
