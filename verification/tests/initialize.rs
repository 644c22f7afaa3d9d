use clamav_rs::ffi::cl_error;
use clamav_rs::{db, initialize, version, ClamError};

#[test]
fn initialize_success() {
    assert!(initialize(cl_error::CL_SUCCESS).is_ok(), "initialize should succeed");
}

#[test]
fn failed_initialisation_is_reported_to_every_caller() {
    let first = initialize(cl_error::CL_EMEM);
    let second = initialize(cl_error::CL_EMEM);
    let third = initialize(cl_error::CL_EMEM);
    assert_eq!(first, Err(ClamError::new(cl_error::CL_EMEM)));
    assert_eq!(first, second);
    assert_eq!(second, third);
    assert_eq!(first.unwrap_err().code(), 20);
}

#[test]
fn initialisation_answers_are_the_same_for_every_caller() {
    for code in 0..=33 {
        let status = cl_error::from_code(code).unwrap();
        let answers: Vec<Result<(), ClamError>> = (0..8).map(|_| initialize(status)).collect();
        for answer in &answers {
            assert_eq!(*answer, answers[0]);
            assert_eq!(answer.is_ok(), code == 0);
        }
    }
}

#[test]
fn version_success() {
    assert!(version::version(b"0.103.2").len() > 0, "expected a version");
    assert_eq!(version::version(b"0.103.2"), "0.103.2");
}

#[test]
fn default_directory_success() {
    assert!(
        db::default_directory(b"/var/lib/clamav").len() > 0,
        "should have a default db dir"
    );
    assert_eq!(db::default_directory(b"/var/lib/clamav"), "/var/lib/clamav");
}

#[test]
fn lenient_version_of_no_text_is_empty() {
    assert_eq!(version(None), "");
}

#[test]
fn lenient_version_reads_text() {
    assert_eq!(version(Some(b"0.103.2")), "0.103.2");
    assert_eq!(version(Some(b"")), "");
}

#[test]
fn lenient_version_replaces_malformed_bytes() {
    assert_eq!(version(Some(&[b'1', b'.', 0xff, b'0'])), "1.\u{fffd}0");
    assert_eq!(version(Some(&[0xc3])), "\u{fffd}");
}
