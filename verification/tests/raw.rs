use libwdi::raw::{flag_from_raw, flag_to_raw, pointer_is_readable, pointer_to, read_pointer};
use libwdi::{CStrBuf, DeviceInfo, PrepareDriverOptions};

#[test]
fn flags_are_one_and_zero() {
    assert_eq!(flag_to_raw(true), 1);
    assert_eq!(flag_to_raw(false), 0);
}

#[test]
fn every_nonzero_integer_is_a_set_flag() {
    assert!(!flag_from_raw(0));
    for raw in [1, 2, -1, 255, i32::MAX, i32::MIN] {
        assert!(flag_from_raw(raw));
    }
}

#[test]
fn null_pointers_and_c_strings_are_readable() {
    assert!(pointer_is_readable(None));
    assert!(pointer_is_readable(Some(b"\0")));
    assert!(pointer_is_readable(Some(b"text\0more")));
    assert!(!pointer_is_readable(Some(b"")));
    assert!(!pointer_is_readable(Some(b"text")));
}

#[test]
fn read_pointer_copies_the_c_string() {
    assert_eq!(read_pointer(None), None);
    assert_eq!(read_pointer(Some(b"\0")), Some(vec![0]));
    assert_eq!(read_pointer(Some(b"text\0more\0")), Some(b"text\0".to_vec()));
}

#[test]
fn pointer_to_leads_to_the_whole_buffer() {
    assert_eq!(pointer_to(&None), None);
    let buffer = Some(b"a\0b".to_vec());
    assert_eq!(pointer_to(&buffer), Some(&b"a\0b"[..]));
    assert_eq!(pointer_to(&buffer).unwrap().as_ptr(), buffer.as_ref().unwrap().as_ptr());
}

#[test]
fn device_as_raw_points_into_the_buffers_of_the_record() {
    let mut device = DeviceInfo {
        vid: 1,
        pid: 2,
        is_composite: false,
        mi: 0,
        desc: b"desc\0".to_vec(),
        driver: Some(b"driver\0".to_vec()),
        device_id: None,
        hardware_id: Some(b"hardware\0".to_vec()),
        compatible_id: None,
        upper_filter: None,
        driver_version: 0,
    };
    let desc = device.desc.as_ptr();
    let driver = device.driver.as_ref().unwrap().as_ptr();
    let hardware_id = device.hardware_id.as_ref().unwrap().as_ptr();
    let raw = device.as_raw();
    assert_eq!(raw.desc.unwrap().as_ptr(), desc);
    assert_eq!(raw.driver.unwrap().as_ptr(), driver);
    assert_eq!(raw.hardware_id.unwrap().as_ptr(), hardware_id);
    assert!(raw.device_id.is_none());
    assert!(raw.compatible_id.is_none());
    assert!(raw.upper_filter.is_none());
}

#[test]
fn clone_from_raw_keeps_nothing_of_the_memory_it_read() {
    let memory = b"desc\0".to_vec();
    let mut device = DeviceInfo {
        vid: 1,
        pid: 2,
        is_composite: false,
        mi: 0,
        desc: memory,
        driver: None,
        device_id: None,
        hardware_id: None,
        compatible_id: None,
        upper_filter: None,
        driver_version: 0,
    };
    let copy = DeviceInfo::clone_from_raw(&device.as_raw());
    assert_ne!(copy.desc.as_ptr(), device.desc.as_ptr());
    drop(device);
    assert_eq!(copy.desc, b"desc\0".to_vec());
}

#[test]
fn prepare_options_as_raw_points_into_the_strings_of_the_record() {
    let mut options = PrepareDriverOptions::default()
        .vendor_name(Some(CStrBuf::from_str("vendor").unwrap()))
        .cert_subject(Some(CStrBuf::from_str("CN=subject").unwrap()));
    let vendor_name = options.get_vendor_name().unwrap().as_bytes_with_nul().as_ptr();
    let cert_subject = options.get_cert_subject().unwrap().as_bytes_with_nul().as_ptr();
    let raw = options.as_raw();
    assert_eq!(raw.vendor_name.unwrap().as_ptr(), vendor_name);
    assert_eq!(raw.cert_subject.unwrap().as_ptr(), cert_subject);
    assert!(raw.device_guid.is_none());
}
