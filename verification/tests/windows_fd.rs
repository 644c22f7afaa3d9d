use clamav_rs::windows_fd::{FdError, NativeOpen, WindowsFd};

#[test]
fn converted_handle_is_a_descriptor() {
    let fd = WindowsFd::new(NativeOpen::Converted { fd: 3 }).expect("a descriptor");
    assert_eq!(fd.raw(), 3);
    assert_eq!(WindowsFd::new(NativeOpen::Converted { fd: 0 }).unwrap().raw(), 0);
    assert_eq!(WindowsFd::new(NativeOpen::Converted { fd: i32::MAX }).unwrap().raw(), i32::MAX);
    assert_eq!(WindowsFd::new(NativeOpen::Converted { fd: -2 }).unwrap().raw(), -2);
}

#[test]
fn failed_conversion_is_invalid_input() {
    let outcome = WindowsFd::new(NativeOpen::Converted { fd: -1 });
    assert_eq!(outcome.unwrap_err(), FdError::InvalidInput);
}

#[test]
fn failed_duplication_is_the_error_of_the_system() {
    let outcome = WindowsFd::new(NativeOpen::DuplicateFailed { os_error: 6 });
    assert_eq!(outcome.unwrap_err(), FdError::Os { os_error: 6 });
    let outcome = WindowsFd::new(NativeOpen::DuplicateFailed { os_error: 5 });
    assert_eq!(outcome.unwrap_err(), FdError::Os { os_error: 5 });
}
