use hadron_boot::privilege::PrivilegeLevel;
use hadron_boot::selector::{SegmentSelector, SELECTOR_INDEX_LIMIT};

#[test]
fn ring_numbers() {
    assert_eq!(PrivilegeLevel::Ring0.bits(), 0);
    assert_eq!(PrivilegeLevel::Ring1.bits(), 1);
    assert_eq!(PrivilegeLevel::Ring2.bits(), 2);
    assert_eq!(PrivilegeLevel::Ring3.bits(), 3);
}

#[test]
fn ring_from_low_bits_ignores_higher_bits() {
    assert_eq!(PrivilegeLevel::from_low_bits(0), PrivilegeLevel::Ring0);
    assert_eq!(PrivilegeLevel::from_low_bits(1), PrivilegeLevel::Ring1);
    assert_eq!(PrivilegeLevel::from_low_bits(2), PrivilegeLevel::Ring2);
    assert_eq!(PrivilegeLevel::from_low_bits(3), PrivilegeLevel::Ring3);
    assert_eq!(PrivilegeLevel::from_low_bits(4), PrivilegeLevel::Ring0);
    assert_eq!(PrivilegeLevel::from_low_bits(0xffff), PrivilegeLevel::Ring3);
    assert_eq!(PrivilegeLevel::from_low_bits(0x0012), PrivilegeLevel::Ring2);
}

#[test]
fn ring_round_trip() {
    for ring in [
        PrivilegeLevel::Ring0,
        PrivilegeLevel::Ring1,
        PrivilegeLevel::Ring2,
        PrivilegeLevel::Ring3,
    ] {
        assert_eq!(PrivilegeLevel::from_low_bits(ring.bits()), ring);
    }
}

#[test]
fn selector_is_index_times_eight_plus_ring() {
    assert_eq!(SegmentSelector::new(0, PrivilegeLevel::Ring0).0, 0);
    assert_eq!(SegmentSelector::new(1, PrivilegeLevel::Ring0).0, 8);
    assert_eq!(SegmentSelector::new(2, PrivilegeLevel::Ring0).0, 16);
    assert_eq!(SegmentSelector::new(2, PrivilegeLevel::Ring3).0, 19);
    assert_eq!(SegmentSelector::new(5, PrivilegeLevel::Ring1).0, 41);
    assert_eq!(SegmentSelector::new(8191, PrivilegeLevel::Ring3).0, 0xfffb);
}

#[test]
fn selector_drops_index_bits_that_do_not_fit() {
    assert_eq!(SELECTOR_INDEX_LIMIT, 8192);
    assert_eq!(SegmentSelector::new(8192, PrivilegeLevel::Ring1).0, 1);
    assert_eq!(SegmentSelector::new(8193, PrivilegeLevel::Ring0).0, 8);
    assert_eq!(SegmentSelector::new(0xffff, PrivilegeLevel::Ring2).0, 0xfffa);
}

#[test]
fn selector_reads_back_index_and_ring() {
    for index in [0u16, 1, 2, 7, 100, 8191] {
        for ring in [
            PrivilegeLevel::Ring0,
            PrivilegeLevel::Ring1,
            PrivilegeLevel::Ring2,
            PrivilegeLevel::Ring3,
        ] {
            let selector = SegmentSelector::new(index, ring);
            assert_eq!(selector.index(), index);
            assert_eq!(selector.rpl(), ring);
        }
    }
}

#[test]
fn selector_fields_of_raw_values() {
    assert_eq!(SegmentSelector(0x10).index(), 2);
    assert_eq!(SegmentSelector(0x10).rpl(), PrivilegeLevel::Ring0);
    assert_eq!(SegmentSelector(0x2b).index(), 5);
    assert_eq!(SegmentSelector(0x2b).rpl(), PrivilegeLevel::Ring3);
    // Bit 2 belongs to neither field.
    assert_eq!(SegmentSelector(0x0c).index(), 1);
    assert_eq!(SegmentSelector(0x0c).rpl(), PrivilegeLevel::Ring0);
}
