use esp_openthread::{check_status, Error, OtError};

#[test]
fn status_zero_is_ok() {
    assert_eq!(check_status(0), Ok(()));
}

#[test]
fn nonzero_status_is_internal_error() {
    assert_eq!(check_status(7), Err(Error::InternalError(7)));
    assert_eq!(check_status(u32::MAX), Err(Error::InternalError(u32::MAX)));
}

#[test]
fn known_codes_map_to_variants() {
    assert_eq!(OtError::from(0), OtError::NoError);
    assert_eq!(OtError::from(1), OtError::Failed);
    assert_eq!(OtError::from(11), OtError::Abort);
    assert_eq!(OtError::from(17), OtError::FcsCheckFailure);
    assert_eq!(OtError::from(21), OtError::AddressFiltered);
    assert_eq!(OtError::from(22), OtError::DestinationAddressFiltered);
    assert_eq!(OtError::from(27), OtError::NotCapable);
    assert_eq!(OtError::from(37), OtError::Rejected);
    assert_eq!(OtError::from(255), OtError::Generic);
}

#[test]
fn undefined_codes_are_kept() {
    assert_eq!(OtError::from(25), OtError::Unknown(25));
    assert_eq!(OtError::from(33), OtError::Unknown(33));
    assert_eq!(OtError::from(38), OtError::Unknown(38));
    assert_eq!(OtError::from(1000), OtError::Unknown(1000));
}

#[test]
fn code_roundtrip() {
    for c in 0u32..300 {
        assert_eq!(OtError::from_code(c).code(), c);
    }
    assert_eq!(OtError::from_code(u32::MAX).code(), u32::MAX);
}
