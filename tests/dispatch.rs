use sph_fluid::dispatch::workgroup_count;

#[test]
fn window_side_is_covered_by_whole_groups() {
    assert_eq!(workgroup_count(800, 16), 50);
}

#[test]
fn a_partial_group_is_rounded_up() {
    assert_eq!(workgroup_count(801, 16), 51);
    assert_eq!(workgroup_count(15, 16), 1);
}

#[test]
fn an_empty_extent_needs_no_group() {
    assert_eq!(workgroup_count(0, 16), 0);
}

#[test]
fn the_largest_extent_does_not_overflow() {
    assert_eq!(workgroup_count(u32::MAX, 16), 268_435_456);
    assert_eq!(workgroup_count(u32::MAX, 1), u32::MAX);
}
