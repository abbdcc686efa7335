use rfnm::{check_code, RfnmApiError, WrappedThrownError};

#[test]
fn ok_code_is_success() {
    assert!(check_code(0).is_ok());
}

#[test]
fn known_codes_map_to_their_kinds() {
    assert!(matches!(check_code(1), Err(RfnmApiError::ProbeFail)));
    assert!(matches!(check_code(2), Err(RfnmApiError::TuneFail)));
    assert!(matches!(check_code(3), Err(RfnmApiError::GainFail)));
    assert!(matches!(check_code(4), Err(RfnmApiError::Timeout)));
    assert!(matches!(check_code(5), Err(RfnmApiError::UsbFail)));
    assert!(matches!(check_code(6), Err(RfnmApiError::DqbufOverflow)));
    assert!(matches!(check_code(7), Err(RfnmApiError::NotSupported)));
    assert!(matches!(check_code(8), Err(RfnmApiError::SoftwareUpgradeRequred)));
    assert!(matches!(check_code(9), Err(RfnmApiError::DqbufNoData)));
    assert!(matches!(check_code(10), Err(RfnmApiError::MinQbufCountNotSatisfied)));
    assert!(matches!(check_code(11), Err(RfnmApiError::MinQbufQueueFull)));
}

#[test]
fn unknown_code_keeps_raw_value() {
    assert!(matches!(check_code(99), Err(RfnmApiError::Unknown(99))));
    assert!(matches!(check_code(u32::MAX), Err(RfnmApiError::Unknown(u32::MAX))));
}

#[test]
fn empty_payload_is_all_zero() {
    let payload = WrappedThrownError::empty();
    assert_eq!(payload.message, [0u8; 256]);
}

#[test]
fn empty_payload_decodes_to_empty_exception() {
    let payload = WrappedThrownError::empty();
    match payload.to_api_error() {
        RfnmApiError::ApiException(text) => assert_eq!(text, ""),
        other => panic!("expected ApiException, got {:?}", other),
    }
}

#[test]
fn payload_text_stops_at_first_zero_byte() {
    let mut payload = WrappedThrownError::empty();
    payload.message[..4].copy_from_slice(b"boom");
    payload.message[5..9].copy_from_slice(b"junk");
    match payload.to_api_error() {
        RfnmApiError::ApiException(text) => assert_eq!(text, "boom"),
        other => panic!("expected ApiException, got {:?}", other),
    }
}

#[test]
fn invalid_bytes_decode_lossily() {
    let mut payload = WrappedThrownError::empty();
    payload.message[0] = 0xff;
    payload.message[1] = 0xfe;
    match payload.to_api_error() {
        RfnmApiError::ApiException(text) => assert_eq!(text, "\u{FFFD}\u{FFFD}"),
        other => panic!("expected ApiException, got {:?}", other),
    }
}
