use clamav_rs::fmap::{pread_result, split_offset, Fmap, MapError, ERROR_HANDLE_EOF};

#[test]
fn null_mapping_is_a_map_error() {
    let opened = Fmap::from_native(0);
    assert!(opened.is_err());
    assert_eq!(opened.unwrap_err(), MapError::new());
}

#[test]
fn open_mapping_keeps_its_address() {
    let map = Fmap::from_native(0x7f00_dead_b000).expect("a mapping");
    assert_eq!(map.raw(), 0x7f00_dead_b000);
    assert_eq!(Fmap::from_native(1).unwrap().raw(), 1);
    assert_eq!(Fmap::from_native(usize::MAX).unwrap().raw(), usize::MAX);
}

#[test]
fn map_error_text() {
    assert_eq!(MapError::new().to_string(), "Failed to open mapping");
    assert_eq!(MapError::new(), MapError);
}

#[test]
fn read_that_succeeded_reports_its_count() {
    assert_eq!(pread_result(false, 0, 0), 0);
    assert_eq!(pread_result(false, 0, 4096), 4096);
    assert_eq!(pread_result(false, 5, 17), 17);
    assert_eq!(pread_result(false, ERROR_HANDLE_EOF, 17), 17);
    assert_eq!(pread_result(false, 0, i32::MAX as u32), i32::MAX);
}

#[test]
fn read_at_the_end_of_the_file_is_a_read_of_nothing() {
    assert_eq!(ERROR_HANDLE_EOF, 38);
    assert_eq!(pread_result(true, ERROR_HANDLE_EOF, 0), 0);
}

#[test]
fn read_that_failed_reports_minus_one() {
    assert_eq!(pread_result(true, 5, 0), -1);
    assert_eq!(pread_result(true, 6, 100), -1);
    assert_eq!(pread_result(true, 0, 0), -1);
    assert_eq!(pread_result(true, 37, 0), -1);
    assert_eq!(pread_result(true, 39, 0), -1);
}

#[test]
fn offset_is_split_into_two_halves() {
    assert_eq!(split_offset(0), (0, 0));
    assert_eq!(split_offset(0xffff_ffff), (0xffff_ffff, 0));
    assert_eq!(split_offset(0x1_0000_0000), (0, 1));
    assert_eq!(split_offset(0x1234_5678_9abc_def0), (0x9abc_def0, 0x1234_5678));
    assert_eq!(split_offset(u64::MAX), (0xffff_ffff, 0xffff_ffff));
}
