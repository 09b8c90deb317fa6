use os_core::memory::{MemorySet, PERM_R, PERM_U, PERM_W};

#[test]
fn allocate_then_deallocate_restores_regions() {
    let mut m = MemorySet::new_bare();
    assert_eq!(m.allocate_new_space(0x8000, 0x1000, 1), 0);
    assert_eq!(m.allocate_new_space(0x1000, 0x2000, 3), 0);
    assert_eq!(m.areas.len(), 2);
    assert_eq!(m.deallocate_space(0x1000, 0x2000), 0);
    assert_eq!(m.areas.len(), 1);
    assert_eq!(m.areas[0].start, 0x8000);
    assert_eq!(m.areas[0].end, 0x9000);
}

#[test]
fn allocate_round_trip_from_empty() {
    let mut m = MemorySet::new_bare();
    assert_eq!(m.allocate_new_space(0x1000, 0x2000, 3), 0);
    assert_eq!(m.deallocate_space(0x1000, 0x2000), 0);
    assert!(m.areas.is_empty());
}

#[test]
fn allocate_overlapping_is_rejected() {
    let mut m = MemorySet::new_bare();
    assert_eq!(m.allocate_new_space(0x1000, 0x1000, 1), 0);
    assert_eq!(m.allocate_new_space(0x1000, 0x1000, 1), -1);
    assert_eq!(m.allocate_new_space(0x0, 0x2000, 2), -1);
    assert_eq!(m.areas.len(), 1);
    assert_eq!(m.areas[0].start, 0x1000);
    assert_eq!(m.areas[0].end, 0x2000);
    assert_eq!(m.areas[0].perm, PERM_R | PERM_U);
}

#[test]
fn allocate_misaligned_is_rejected() {
    for port in 0..16usize {
        let mut m = MemorySet::new_bare();
        assert_eq!(m.allocate_new_space(0x1001, 0x1000, port), -1);
        assert!(m.areas.is_empty());
    }
}

#[test]
fn allocate_bad_permission_word_is_rejected() {
    let mut m = MemorySet::new_bare();
    assert_eq!(m.allocate_new_space(0x1000, 0x1000, 0), -1);
    assert_eq!(m.allocate_new_space(0x1000, 0x1000, 8), -1);
    assert_eq!(m.allocate_new_space(0x1000, 0x1000, 9), -1);
    assert!(m.areas.is_empty());
}

#[test]
fn allocate_zero_length_maps_nothing() {
    let mut m = MemorySet::new_bare();
    assert_eq!(m.allocate_new_space(0x1000, 0, 1), 0);
    assert!(m.areas.is_empty());
    assert_eq!(m.allocate_new_space(0x1000, 0x1000, 1), 0);
    assert_eq!(m.allocate_new_space(0x1000, 0, 3), 0);
    assert_eq!(m.allocate_new_space(0x1001, 0, 3), -1);
    assert_eq!(m.allocate_new_space(0x1000, 0, 0), -1);
    assert_eq!(m.areas.len(), 1);
}

#[test]
fn allocate_overflowing_range_is_rejected() {
    let mut m = MemorySet::new_bare();
    let top = usize::MAX - 0xfff;
    assert_eq!(m.allocate_new_space(top, 0x2000, 1), -1);
    assert!(m.areas.is_empty());
}

#[test]
fn allocate_rounds_length_up_to_pages() {
    let mut m = MemorySet::new_bare();
    assert_eq!(m.allocate_new_space(0x4000, 1, 3), 0);
    assert_eq!(m.areas[0].end, 0x5000);
    assert_eq!(m.areas[0].data.len(), 0x1000);
    assert_eq!(m.areas[0].perm, PERM_R | PERM_W | PERM_U);
    assert!(m.areas[0].data.iter().all(|b| *b == 0));
    assert_eq!(m.allocate_new_space(0x5000, 0x1001, 7), 0);
    assert_eq!(m.areas[1].end, 0x7000);
    assert_eq!(m.areas[1].perm, 30);
}

#[test]
fn deallocate_part_of_a_region_is_rejected() {
    let mut m = MemorySet::new_bare();
    assert_eq!(m.allocate_new_space(0x1000, 0x2000, 3), 0);
    assert_eq!(m.deallocate_space(0x1000, 0x1000), -1);
    assert_eq!(m.deallocate_space(0x2000, 0x1000), -1);
    assert_eq!(m.deallocate_space(0x1000, 0x1800), -1);
    assert_eq!(m.deallocate_space(0x1000, 0x2001), -1);
    assert_eq!(m.areas.len(), 1);
}

#[test]
fn deallocate_does_not_round_length() {
    let mut m = MemorySet::new_bare();
    assert_eq!(m.allocate_new_space(0x1000, 0x1000, 3), 0);
    assert_eq!(m.deallocate_space(0x1000, 0x800), -1);
    assert_eq!(m.areas.len(), 1);
    assert_eq!(m.deallocate_space(0x1000, 0x1000), 0);
    assert!(m.areas.is_empty());
}

#[test]
fn deallocate_unmapped_range_is_rejected() {
    let mut m = MemorySet::new_bare();
    assert_eq!(m.allocate_new_space(0x1000, 0x1000, 3), 0);
    assert_eq!(m.deallocate_space(0x1000, 0x2000), -1);
    assert_eq!(m.deallocate_space(0x5000, 0x1000), -1);
    assert_eq!(m.deallocate_space(0x1001, 0x1000), -1);
    assert_eq!(m.deallocate_space(0x1000, 0), -1);
    assert_eq!(m.areas.len(), 1);
}

#[test]
fn deallocate_spans_adjacent_regions() {
    let mut m = MemorySet::new_bare();
    assert_eq!(m.allocate_new_space(0x3000, 0x1000, 1), 0);
    assert_eq!(m.allocate_new_space(0x9000, 0x1000, 1), 0);
    assert_eq!(m.allocate_new_space(0x2000, 0x1000, 1), 0);
    assert_eq!(m.deallocate_space(0x2000, 0x2000), 0);
    assert_eq!(m.areas.len(), 1);
    assert_eq!(m.areas[0].start, 0x9000);
}

#[test]
fn read_and_write_bytes() {
    let mut m = MemorySet::new_bare();
    assert_eq!(m.allocate_new_space(0x3000, 0x1000, 3), 0);
    assert_eq!(m.read_byte(0x3004), Some(0));
    assert!(m.write_byte(0x3004, 42));
    assert_eq!(m.read_byte(0x3004), Some(42));
    assert_eq!(m.read_byte(0x4000), None);
    assert!(!m.write_byte(0x4000, 1));
}

#[test]
fn duplicate_is_independent() {
    let mut m = MemorySet::new_bare();
    assert_eq!(m.allocate_new_space(0x3000, 0x1000, 3), 0);
    assert!(m.write_byte(0x3000, 5));
    let mut c = m.duplicate();
    assert_eq!(c.read_byte(0x3000), Some(5));
    assert!(c.write_byte(0x3000, 9));
    assert_eq!(c.read_byte(0x3000), Some(9));
    assert_eq!(m.read_byte(0x3000), Some(5));
}
