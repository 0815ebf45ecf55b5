use blkpg::geometry::{extent_length, sector_offset};

#[test]
fn offset_is_sector_times_size() {
    assert_eq!(sector_offset(100, 512), 51200);
    assert_eq!(sector_offset(2048, 4096), 8_388_608);
    assert_eq!(sector_offset(0, 512), 0);
    assert_eq!(sector_offset(7, 1), 7);
}

#[test]
fn length_is_sector_count_times_size() {
    assert_eq!(extent_length(100, 200, 512), 51200);
    assert_eq!(extent_length(2048, 1_050_624, 512), 536_870_912);
    assert_eq!(extent_length(34, 35, 4096), 4096);
}

#[test]
fn empty_extent_has_length_zero() {
    assert_eq!(extent_length(100, 100, 512), 0);
}

#[test]
fn reversed_extent_gives_negative_length() {
    assert_eq!(extent_length(200, 100, 512), -51200);
}

#[test]
fn negative_geometry_passes_through() {
    assert_eq!(sector_offset(-3, 512), -1536);
    assert_eq!(sector_offset(3, -512), -1536);
    assert_eq!(sector_offset(100, 0), 0);
}

#[test]
fn largest_products_that_fit_are_exact() {
    assert_eq!(sector_offset(i64::MAX, 1), i64::MAX);
    assert_eq!(sector_offset(i64::MIN, 1), i64::MIN);
    assert_eq!(sector_offset(1 << 31, 1 << 31), 1 << 62);
    assert_eq!(extent_length(0, i64::MAX, 1), i64::MAX);
}

#[test]
fn offset_that_overflows_wraps() {
    assert_eq!(sector_offset(1 << 62, 4), 0);
    assert_eq!(sector_offset(1 << 62, 2), i64::MIN);
    assert_eq!(sector_offset(i64::MAX, 2), -2);
    assert_eq!(sector_offset(i64::MIN, -1), i64::MIN);
}

#[test]
fn length_that_overflows_wraps() {
    assert_eq!(extent_length(i64::MIN, i64::MAX, 1), -1);
    assert_eq!(extent_length(i64::MIN, i64::MAX, 512), -512);
    assert_eq!(extent_length(0, 1 << 62, 4), 0);
    assert_eq!(extent_length(1, i64::MIN, 1), i64::MAX);
}
