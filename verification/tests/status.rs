use slang::{
    is_c_string, result_from_blob, result_from_ffi, succeeded, Blob, Error, E_FAIL,
    E_INVALIDARG, E_NOINTERFACE, S_OK,
};

#[test]
fn status_constants_have_the_native_bit_patterns() {
    assert_eq!(S_OK, 0);
    assert_eq!(E_INVALIDARG as u32, 0x8007_0057);
    assert_eq!(E_NOINTERFACE as u32, 0x8000_4002);
    assert_eq!(E_FAIL as u32, 0x8000_4005);
    assert_eq!(E_INVALIDARG, -2147024809);
    assert_eq!(E_NOINTERFACE, -2147467262);
    assert_eq!(E_FAIL, -2147467259);
}

#[test]
fn succeeded_is_not_negative() {
    assert!(succeeded(0));
    assert!(succeeded(1));
    assert!(succeeded(i32::MAX));
    assert!(!succeeded(-1));
    assert!(!succeeded(i32::MIN));
    assert!(!succeeded(E_INVALIDARG));
    assert!(!succeeded(E_NOINTERFACE));
}

#[test]
fn result_from_ffi_keeps_the_status_of_a_failure() {
    assert!(result_from_ffi(0).is_ok());
    assert!(result_from_ffi(7).is_ok());
    match result_from_ffi(-1) {
        Err(Error::Result(code)) => assert_eq!(code, -1),
        other => panic!("unexpected outcome: {:?}", other),
    }
    match result_from_ffi(E_INVALIDARG) {
        Err(Error::Result(code)) => assert_eq!(code, E_INVALIDARG),
        other => panic!("unexpected outcome: {:?}", other),
    }
    match result_from_ffi(i32::MIN) {
        Err(Error::Result(code)) => assert_eq!(code, i32::MIN),
        other => panic!("unexpected outcome: {:?}", other),
    }
}

#[test]
fn result_from_blob_keeps_the_diagnostics_of_a_failure() {
    let text = Blob::from_native(b"shader.slang(3): error 30015".to_vec());
    match result_from_blob(-1, text) {
        Err(Error::Blob(code, blob)) => {
            assert_eq!(code, -1);
            assert_eq!(blob.as_str(), Ok("shader.slang(3): error 30015"));
        }
        other => panic!("unexpected outcome: {:?}", other),
    }
    match result_from_blob(i32::MIN, Blob::from_native(vec![0xff])) {
        Err(error) => {
            assert_eq!(error.code(), i32::MIN);
            assert_eq!(error.diagnostics().map(|blob| blob.as_slice().to_vec()), Some(vec![0xff]));
        }
        Ok(()) => panic!("a negative status is a failure"),
    }
    let warning = Blob::from_native(b"warning".to_vec());
    assert!(result_from_blob(0, warning).is_ok());
    assert!(result_from_blob(3, Blob::null()).is_ok());
}

#[test]
fn failure_without_diagnostics_carries_a_null_blob() {
    match result_from_blob(E_INVALIDARG, Blob::null()) {
        Err(error) => {
            assert!(error.diagnostics().is_none());
            assert_eq!(error.code(), E_INVALIDARG);
            match error {
                Error::Blob(code, blob) => {
                    assert_eq!(code, E_INVALIDARG);
                    assert!(blob.is_null());
                    assert_eq!(blob.as_slice().len(), 0);
                }
                other => panic!("unexpected error: {:?}", other),
            }
        }
        Ok(()) => panic!("a negative status is a failure"),
    }
}

#[test]
fn status_polarity_on_sample_statuses() {
    for status in [i32::MIN, E_NOINTERFACE, E_INVALIDARG, -2, -1, 0, 1, 2, i32::MAX] {
        assert_eq!(succeeded(status), status >= 0);
        assert_eq!(result_from_ffi(status).is_err(), status < 0);
        assert_eq!(result_from_blob(status, Blob::null()).is_err(), status < 0);
    }
}

#[test]
fn default_error_is_invalid_argument() {
    match Error::default() {
        Error::Result(code) => assert_eq!(code, E_INVALIDARG),
        other => panic!("unexpected error: {:?}", other),
    }
}

#[test]
fn error_accessors() {
    let bare = Error::Result(-5);
    assert_eq!(bare.code(), -5);
    assert!(bare.diagnostics().is_none());
    let rich = Error::Blob(-7, Blob::from("error"));
    assert_eq!(rich.code(), -7);
    assert_eq!(rich.diagnostics().map(|blob| blob.as_slice().to_vec()), Some(b"error".to_vec()));
}

#[test]
fn error_clone_keeps_status_and_text() {
    match Error::Result(-9).clone() {
        Error::Result(code) => assert_eq!(code, -9),
        other => panic!("unexpected error: {:?}", other),
    }
    let first = Error::Blob(-3, Blob::from(vec![b'x', b'y']));
    let copy = first.clone();
    drop(first);
    match copy {
        Error::Blob(code, blob) => {
            assert_eq!(code, -3);
            assert_eq!(blob.as_slice(), b"xy");
        }
        other => panic!("unexpected error: {:?}", other),
    }
}

#[test]
fn c_strings_hold_no_zero_byte() {
    assert!(is_c_string(""));
    assert!(is_c_string("shaders"));
    assert!(is_c_string("h\u{e9}llo \u{20ac}"));
    assert!(!is_c_string("\0"));
    assert!(!is_c_string("a\0b"));
    assert!(!is_c_string("trailing\0"));
}
