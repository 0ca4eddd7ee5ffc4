use libwdi::raw::{
    WDI_ERROR_ACCESS, WDI_ERROR_BUSY, WDI_ERROR_INVALID_PARAM, WDI_ERROR_NOT_FOUND,
    WDI_ERROR_NO_DEVICE, WDI_ERROR_RESOURCE, WDI_SUCCESS, WDI_LIBUSB0, WDI_LIBUSBK, WDI_USER,
    WDI_WINUSB,
};
use libwdi::{status_result, CallFailure, DriverType, DriverTypeConversionError, Error};

#[test]
fn status_codes_have_their_foreign_values() {
    assert_eq!(WDI_SUCCESS, 0);
    assert_eq!(WDI_ERROR_INVALID_PARAM, -2);
    assert_eq!(WDI_ERROR_ACCESS, -3);
    assert_eq!(WDI_ERROR_NO_DEVICE, -4);
    assert_eq!(WDI_ERROR_NOT_FOUND, -5);
    assert_eq!(WDI_ERROR_BUSY, -6);
    assert_eq!(WDI_ERROR_RESOURCE, -11);
}

#[test]
fn each_defined_status_code_maps_to_its_error() {
    assert_eq!(Error::from_error_code(-2), Some(Error::InvalidParam));
    assert_eq!(Error::from_error_code(-3), Some(Error::Access));
    assert_eq!(Error::from_error_code(-11), Some(Error::Resource));
    assert_eq!(Error::from_error_code(-5), Some(Error::NotFound));
    assert_eq!(Error::from_error_code(-4), Some(Error::NoDevice));
    assert_eq!(Error::from_error_code(-6), Some(Error::Busy));
}

#[test]
fn success_and_undefined_codes_map_to_no_error() {
    assert_eq!(Error::from_error_code(0), None);
    for code in [-1, -7, -8, -9, -10, -12, -13, -99, 1, 2, 3, 11, i32::MAX, i32::MIN] {
        assert_eq!(Error::from_error_code(code), None, "code {}", code);
    }
}

#[test]
fn error_code_is_the_inverse_of_from_error_code() {
    for error in [
        Error::InvalidParam,
        Error::Access,
        Error::Resource,
        Error::NotFound,
        Error::NoDevice,
        Error::Busy,
    ] {
        assert_eq!(Error::from_error_code(error.code()), Some(error));
    }
    for code in -200..200 {
        if let Some(error) = Error::from_error_code(code) {
            assert_eq!(error.code(), code);
        }
    }
}

#[test]
fn undefined_nonzero_code_is_never_success() {
    for code in [-1, -7, -12, -99, 1, 42, i32::MAX, i32::MIN] {
        assert_eq!(Error::from_error_code(code), None);
        assert_eq!(status_result(code), Err(CallFailure::Unrecognized(code)));
        assert_eq!(CallFailure::from_status(code), Some(CallFailure::Unrecognized(code)));
    }
}

#[test]
fn status_result_is_ok_for_zero_only() {
    assert_eq!(status_result(0), Ok(()));
    for code in -300..300 {
        assert_eq!(status_result(code).is_ok(), code == 0, "code {}", code);
    }
}

#[test]
fn status_result_gives_known_failures() {
    assert_eq!(status_result(-2), Err(CallFailure::Known(Error::InvalidParam)));
    assert_eq!(status_result(-3), Err(CallFailure::Known(Error::Access)));
    assert_eq!(status_result(-4), Err(CallFailure::Known(Error::NoDevice)));
    assert_eq!(status_result(-5), Err(CallFailure::Known(Error::NotFound)));
    assert_eq!(status_result(-6), Err(CallFailure::Known(Error::Busy)));
    assert_eq!(status_result(-11), Err(CallFailure::Known(Error::Resource)));
}

#[test]
fn call_failure_keeps_its_status() {
    assert_eq!(CallFailure::from_status(0), None);
    assert_eq!(CallFailure::Known(Error::Busy).status(), -6);
    assert_eq!(CallFailure::Unrecognized(-99).status(), -99);
    for code in -50..50 {
        if let Some(failure) = CallFailure::from_status(code) {
            assert_eq!(failure.status(), code);
        }
    }
}

#[test]
fn error_messages() {
    assert_eq!(Error::InvalidParam.to_string(), "Invalid parameter");
    assert_eq!(Error::Access.to_string(), "Access denied (insufficient permissions)");
    assert_eq!(Error::NoDevice.to_string(), "No such device (it may have been disconnected)");
    assert_eq!(Error::NotFound.to_string(), "Entity not found");
    assert_eq!(Error::Busy.to_string(), "Resource busy, or API call already running");
    assert_eq!(
        Error::Resource.to_string(),
        "Could not acquire resource (insufficient memory, etc)"
    );
}

#[test]
fn call_failure_messages() {
    assert_eq!(CallFailure::Known(Error::NotFound).to_string(), "Entity not found");
    assert_eq!(CallFailure::Unrecognized(-1).to_string(), "Unrecognized status code -1");
    assert_eq!(CallFailure::Unrecognized(17).to_string(), "Unrecognized status code 17");
    assert_eq!(
        CallFailure::Unrecognized(i32::MIN).to_string(),
        "Unrecognized status code -2147483648"
    );
}

#[test]
fn driver_codes_have_their_foreign_values() {
    assert_eq!(WDI_WINUSB, 0);
    assert_eq!(WDI_LIBUSB0, 1);
    assert_eq!(WDI_LIBUSBK, 2);
    assert_eq!(WDI_USER, 3);
}

#[test]
fn each_driver_code_round_trips() {
    assert_eq!(DriverType::from_raw(0), Ok(DriverType::WinUsb));
    assert_eq!(DriverType::from_raw(1), Ok(DriverType::Libusb0));
    assert_eq!(DriverType::from_raw(2), Ok(DriverType::LibusbK));
    assert_eq!(DriverType::from_raw(3), Ok(DriverType::User));
    for code in 0..4 {
        assert_eq!(DriverType::from_raw(code).unwrap().to_raw(), code);
    }
    for driver_type in
        [DriverType::WinUsb, DriverType::Libusb0, DriverType::LibusbK, DriverType::User]
    {
        assert_eq!(DriverType::from_raw(driver_type.to_raw()), Ok(driver_type));
    }
}

#[test]
fn invalid_driver_codes_give_the_conversion_error() {
    for code in [-1, 4, 5, 100, -100, i32::MAX, i32::MIN] {
        assert_eq!(DriverType::from_raw(code), Err(DriverTypeConversionError), "code {}", code);
    }
}

#[test]
fn try_from_agrees_with_from_raw() {
    for code in -10..10 {
        assert_eq!(DriverType::try_from(code), DriverType::from_raw(code));
    }
    let converted: Result<DriverType, DriverTypeConversionError> = 2.try_into();
    assert_eq!(converted, Ok(DriverType::LibusbK));
}

#[test]
fn driver_type_defaults_to_winusb() {
    assert_eq!(DriverType::default(), DriverType::WinUsb);
}

#[test]
fn conversion_error_message_and_default() {
    assert_eq!(
        DriverTypeConversionError.to_string(),
        "attempted to convert an invalid WDI driver type value to DriverType"
    );
    assert_eq!(DriverTypeConversionError::default(), DriverTypeConversionError);
}
