use clamav_rs::ffi::cl_error;
use clamav_rs::ClamError;

#[test]
fn error_as_string_success() {
    let err = ClamError::new(cl_error::CL_EFORMAT);
    let err_string = err.to_string("CL_EFORMAT: Bad format or broken data");
    assert!(
        err_string.contains("CL_EFORMAT"),
        "error description should contain string error"
    );
}

#[test]
fn error_text_has_code_and_description() {
    let err = ClamError::new(cl_error::CL_EFORMAT);
    assert_eq!(
        err.to_string("CL_EFORMAT: Bad format or broken data"),
        "cl_error 26: CL_EFORMAT: Bad format or broken data"
    );
    assert_eq!(ClamError::new(cl_error::CL_EMEM).to_string("Can't allocate memory"),
        "cl_error 20: Can't allocate memory");
    assert_eq!(ClamError::new(cl_error::CL_EARG).to_string(""), "cl_error 3: ");
    assert_eq!(ClamError::new(cl_error::CL_SUCCESS).to_string("No viruses detected"),
        "cl_error 0: No viruses detected");
}

#[test]
fn error_code_is_the_native_code() {
    assert_eq!(ClamError::new(cl_error::CL_SUCCESS).code(), 0);
    assert_eq!(ClamError::new(cl_error::CL_VIRUS).code(), 1);
    assert_eq!(ClamError::new(cl_error::CL_ENULLARG).code(), 2);
    assert_eq!(ClamError::new(cl_error::CL_EARG).code(), 3);
    assert_eq!(ClamError::new(cl_error::CL_EOPEN).code(), 8);
    assert_eq!(ClamError::new(cl_error::CL_EMAP).code(), 19);
    assert_eq!(ClamError::new(cl_error::CL_ETIMEOUT).code(), 21);
    assert_eq!(ClamError::new(cl_error::CL_BREAK).code(), 22);
    assert_eq!(ClamError::new(cl_error::CL_EFORMAT).code(), 26);
    assert_eq!(ClamError::new(cl_error::CL_ESTATE).code(), 32);
    assert_eq!(ClamError::new(cl_error::CL_ELAST_ERROR).code(), 33);
}

#[test]
fn errors_are_equal_by_status() {
    assert_eq!(ClamError::new(cl_error::CL_EMEM), ClamError::new(cl_error::CL_EMEM));
    assert_ne!(ClamError::new(cl_error::CL_EMEM), ClamError::new(cl_error::CL_EMAP));
    let err = ClamError::new(cl_error::CL_EOPEN);
    assert_eq!(err.clone(), err);
}

#[test]
fn check_passes_success_only() {
    assert_eq!(ClamError::check(cl_error::CL_SUCCESS), Ok(()));
    assert_eq!(ClamError::check(cl_error::CL_CLEAN), Ok(()));
    assert_eq!(ClamError::check(cl_error::CL_VIRUS), Err(ClamError::new(cl_error::CL_VIRUS)));
    assert_eq!(ClamError::check(cl_error::CL_BREAK), Err(ClamError::new(cl_error::CL_BREAK)));
    assert_eq!(ClamError::check(cl_error::CL_EMALFDB).unwrap_err().code(), 4);
}

#[test]
fn status_codes_round_trip() {
    for code in 0..=33 {
        let status = cl_error::from_code(code).expect("a code of the table");
        assert_eq!(status.code(), code);
    }
    assert_eq!(cl_error::from_code(-1), None);
    assert_eq!(cl_error::from_code(34), None);
    assert_eq!(cl_error::from_code(i32::MAX), None);
    assert_eq!(cl_error::from_code(i32::MIN), None);
    assert_eq!(cl_error::from_code(0), Some(cl_error::CL_SUCCESS));
    assert_eq!(cl_error::from_code(1), Some(cl_error::CL_VIRUS));
    assert_eq!(cl_error::from_code(22), Some(cl_error::CL_BREAK));
    assert_eq!(cl_error::from_code(33), Some(cl_error::CL_ELAST_ERROR));
    assert_eq!(cl_error::CL_CLEAN, cl_error::CL_SUCCESS);
}

#[test]
fn database_options_are_the_recommended_ones() {
    assert_eq!(clamav_rs::ffi::CL_DB_STDOPT, 0x2 | 0x8 | 0x2000);
    assert_eq!(
        clamav_rs::ffi::CL_DB_STDOPT,
        clamav_rs::ffi::CL_DB_PHISHING
            | clamav_rs::ffi::CL_DB_PHISHING_URLS
            | clamav_rs::ffi::CL_DB_BYTECODE
    );
    assert_eq!(clamav_rs::ffi::CL_INIT_DEFAULT, 0);
}
