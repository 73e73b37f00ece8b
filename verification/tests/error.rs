use uhd_usrp::error::{check_status, UHD_ERROR_INDEX, UHD_ERROR_NONE};
use uhd_usrp::UhdError;

const ALL: [(u32, UhdError); 18] = [
    (1, UhdError::InvalidDevice),
    (10, UhdError::Index),
    (11, UhdError::Key),
    (20, UhdError::NotImplemented),
    (21, UhdError::Usb),
    (30, UhdError::Io),
    (31, UhdError::Os),
    (40, UhdError::Assertion),
    (41, UhdError::Lookup),
    (42, UhdError::Type),
    (43, UhdError::Value),
    (44, UhdError::Runtime),
    (45, UhdError::Environment),
    (46, UhdError::System),
    (47, UhdError::Except),
    (60, UhdError::BoostExcept),
    (70, UhdError::StdExcept),
    (100, UhdError::Unknown),
];

#[test]
fn index_code_is_the_index_kind() {
    assert_eq!(UhdError::from_sys(UHD_ERROR_INDEX), Some(UhdError::Index));
    assert_eq!(UhdError::from_sys(10), Some(UhdError::Index));
    for code in 0..=255u32 {
        if code != 10 {
            assert_ne!(UhdError::from_sys(code), Some(UhdError::Index));
        }
    }
}

#[test]
fn success_code_is_no_error() {
    assert_eq!(UhdError::from_sys(UHD_ERROR_NONE), None);
    assert_eq!(UhdError::from_sys(0), None);
    assert_eq!(check_status(0), Ok(()));
}

#[test]
fn every_kind_has_its_code() {
    for (code, kind) in ALL {
        assert_eq!(UhdError::from_sys(code), Some(kind));
        assert_eq!(kind.code(), code);
        assert_eq!(check_status(code), Err(kind));
    }
}

#[test]
fn other_codes_are_unknown() {
    for code in [2u32, 9, 12, 48, 59, 99, 101, 1000, u32::MAX] {
        assert_eq!(UhdError::from_sys(code), Some(UhdError::Unknown));
        assert_eq!(check_status(code), Err(UhdError::Unknown));
    }
}

#[test]
fn messages_describe_the_kind() {
    assert_eq!(UhdError::InvalidDevice.message(), "invalid device arguments");
    assert_eq!(UhdError::Index.message(), "index out of range");
    assert_eq!(UhdError::Key.message(), "invalid key");
    assert_eq!(UhdError::NotImplemented.message(), "function is not yet implemented");
    assert_eq!(UhdError::Usb.message(), "error occurred during USB transaction");
    assert_eq!(UhdError::Io.message(), "error occurred during I/O");
    assert_eq!(UhdError::Os.message(), "system-related error");
    assert_eq!(UhdError::Assertion.message(), "assertion failed");
    assert_eq!(UhdError::Lookup.message(), "key or index is invalid");
    assert_eq!(UhdError::Type.message(), "function called with incorrect types");
    assert_eq!(UhdError::Value.message(), "function called with incorrect values");
    assert_eq!(UhdError::Runtime.message(), "runtime error");
    assert_eq!(UhdError::Environment.message(), "external error");
    assert_eq!(UhdError::System.message(), "system error");
    assert_eq!(UhdError::Except.message(), "uhd exception thrown");
    assert_eq!(UhdError::BoostExcept.message(), "boost::exception thrown");
    assert_eq!(UhdError::StdExcept.message(), "std::exception thrown");
    assert_eq!(UhdError::Unknown.message(), "unknown error occurred");
}
