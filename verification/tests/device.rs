use libwdi::{DeviceInfo, RawDeviceInfo};

fn test_device() -> DeviceInfo {
    DeviceInfo {
        vid: 0x1234,
        pid: 0x5678,
        is_composite: false,
        mi: 0,
        desc: b"Test Device\0".to_vec(),
        driver: None,
        device_id: None,
        hardware_id: None,
        compatible_id: None,
        upper_filter: None,
        driver_version: 0,
    }
}

fn full_device() -> DeviceInfo {
    DeviceInfo {
        vid: 0x1d50,
        pid: 0x6018,
        is_composite: true,
        mi: 2,
        desc: b"Black Magic Probe\0".to_vec(),
        driver: Some(b"WinUSB\0".to_vec()),
        device_id: Some(b"USB\\VID_1D50&PID_6018&MI_02\\6&1A2B3C4D\0".to_vec()),
        hardware_id: Some(b"USB\\VID_1D50&PID_6018&REV_0100&MI_02\0".to_vec()),
        compatible_id: Some(b"USB\\Class_FF\0".to_vec()),
        upper_filter: Some(b"\0".to_vec()),
        driver_version: 0x0006_0001_1db0_4001,
    }
}

fn raw_node(desc: Option<&[u8]>) -> RawDeviceInfo<'_> {
    RawDeviceInfo {
        next: None,
        vid: 1,
        pid: 2,
        is_composite: 0,
        mi: 3,
        desc,
        driver: None,
        device_id: None,
        hardware_id: None,
        compatible_id: None,
        upper_filter: None,
        driver_version: 4,
    }
}

#[test]
fn device_with_only_a_description_round_trips() {
    let mut device = test_device();
    let raw = device.as_raw();
    assert!(raw.driver.is_none());
    assert!(raw.desc.is_some());
    assert_eq!(raw.desc, Some(&b"Test Device\0"[..]));
    assert!(raw.next.is_none());
    let back = DeviceInfo::clone_from_raw(&raw);
    assert!(back == test_device());
    assert!(device == test_device());
}

#[test]
fn as_raw_lays_out_every_field() {
    let mut device = full_device();
    let raw = device.as_raw();
    assert_eq!(
        raw,
        RawDeviceInfo {
            next: None,
            vid: 0x1d50,
            pid: 0x6018,
            is_composite: 1,
            mi: 2,
            desc: Some(b"Black Magic Probe\0"),
            driver: Some(b"WinUSB\0"),
            device_id: Some(b"USB\\VID_1D50&PID_6018&MI_02\\6&1A2B3C4D\0"),
            hardware_id: Some(b"USB\\VID_1D50&PID_6018&REV_0100&MI_02\0"),
            compatible_id: Some(b"USB\\Class_FF\0"),
            upper_filter: Some(b"\0"),
            driver_version: 0x0006_0001_1db0_4001,
        }
    );
    assert!(device == full_device());
}

#[test]
fn round_trip_for_every_presence_of_optional_strings() {
    for mask in 0u8..32 {
        let pick = |bit: u8, bytes: &[u8]| {
            if mask & (1 << bit) != 0 {
                Some(bytes.to_vec())
            } else {
                None
            }
        };
        let mut device = DeviceInfo {
            vid: 0xffff,
            pid: 0,
            is_composite: mask % 2 == 0,
            mi: 255,
            desc: b"d\0".to_vec(),
            driver: pick(0, b"driver\0"),
            device_id: pick(1, b"device\0"),
            hardware_id: pick(2, b"hardware\0"),
            compatible_id: pick(3, b"compatible\0"),
            upper_filter: pick(4, b"filter\0"),
            driver_version: u64::MAX,
        };
        assert!(device.is_well_formed());
        let before = device.clone();
        let raw = device.as_raw();
        assert!(raw.next.is_none());
        assert!(raw.is_readable());
        let back = DeviceInfo::clone_from_raw(&raw);
        assert!(back == before, "mask {}", mask);
    }
}

#[test]
fn clone_from_raw_reads_each_string_to_its_first_nul() {
    let raw = RawDeviceInfo {
        next: None,
        vid: 0xabcd,
        pid: 0x0001,
        is_composite: 7,
        mi: 9,
        desc: Some(b"Gadget\0left over"),
        driver: Some(b"libusbK\0\0\0"),
        device_id: None,
        hardware_id: Some(b"\0"),
        compatible_id: None,
        upper_filter: Some(b"up\0per\0"),
        driver_version: 77,
    };
    let device = DeviceInfo::clone_from_raw(&raw);
    assert_eq!(device.vid, 0xabcd);
    assert_eq!(device.pid, 0x0001);
    assert!(device.is_composite);
    assert_eq!(device.mi, 9);
    assert_eq!(device.desc, b"Gadget\0".to_vec());
    assert_eq!(device.driver, Some(b"libusbK\0".to_vec()));
    assert_eq!(device.device_id, None);
    assert_eq!(device.hardware_id, Some(b"\0".to_vec()));
    assert_eq!(device.compatible_id, None);
    assert_eq!(device.upper_filter, Some(b"up\0".to_vec()));
    assert_eq!(device.driver_version, 77);
    assert!(device.is_well_formed());
}

#[test]
fn clone_from_raw_reads_the_composite_flag_from_any_integer() {
    for (raw_flag, flag) in [(0, false), (1, true), (2, true), (-1, true), (i32::MIN, true)] {
        let mut raw = raw_node(Some(b"x\0"));
        raw.is_composite = raw_flag;
        assert_eq!(DeviceInfo::clone_from_raw(&raw).is_composite, flag);
    }
}

#[test]
fn clone_from_raw_does_not_follow_the_link() {
    let mut first = raw_node(Some(b"first\0"));
    first.next = Some(Box::new(raw_node(Some(b"second\0"))));
    let device = DeviceInfo::clone_from_raw(&first);
    assert_eq!(device.desc, b"first\0".to_vec());
}

#[test]
fn raw_node_is_readable_only_with_a_description_and_c_strings() {
    assert!(raw_node(Some(b"x\0")).is_readable());
    assert!(raw_node(Some(b"x\0y")).is_readable());
    assert!(!raw_node(None).is_readable());
    assert!(!raw_node(Some(b"no terminator")).is_readable());
    let mut raw = raw_node(Some(b"x\0"));
    raw.upper_filter = Some(b"open");
    assert!(!raw.is_readable());
    raw.upper_filter = Some(b"closed\0");
    assert!(raw.is_readable());
}

#[test]
fn well_formed_wants_every_string_to_be_one_c_string() {
    assert!(test_device().is_well_formed());
    assert!(full_device().is_well_formed());
    let mut device = test_device();
    device.desc = b"Test Device".to_vec();
    assert!(!device.is_well_formed());
    let mut device = test_device();
    device.driver = Some(b"a\0b\0".to_vec());
    assert!(!device.is_well_formed());
    let mut device = test_device();
    device.compatible_id = Some(Vec::new());
    assert!(!device.is_well_formed());
}

#[test]
fn a_buffer_with_bytes_behind_its_nul_comes_back_cut() {
    let mut device = test_device();
    device.desc = b"Test\0Device\0".to_vec();
    assert!(!device.is_well_formed());
    let raw = device.as_raw();
    assert_eq!(raw.desc, Some(&b"Test\0Device\0"[..]));
    let back = DeviceInfo::clone_from_raw(&raw);
    assert_eq!(back.desc, b"Test\0".to_vec());
}

#[test]
fn device_clone_is_equal() {
    let device = full_device();
    let copy = device.clone();
    assert!(copy == device);
    assert!(copy != test_device());
}

#[test]
fn raw_node_clone_copies_the_whole_list() {
    let mut first = raw_node(Some(b"first\0"));
    let mut second = raw_node(Some(b"second\0"));
    second.next = Some(Box::new(raw_node(Some(b"third\0"))));
    first.next = Some(Box::new(second));
    let copy = first.clone();
    assert_eq!(copy, first);
    assert_eq!(copy.next.as_ref().unwrap().next.as_ref().unwrap().desc, Some(&b"third\0"[..]));
}

#[test]
fn debug_string_of_a_device_with_only_a_description() {
    assert_eq!(
        test_device().debug_string(),
        "DisplayInfo { vid: \"0x1234\", pid: \"0x5678\", is_composite: false, mi: 0, \
         desc: \"Test Device\\0\", driver: None, device_id: None, hardware_id: None, \
         compatible_id: None, upper_filter: None, driver_version: 0 }"
    );
}

#[test]
fn debug_string_of_a_device_with_every_field() {
    let mut device = full_device();
    device.vid = 0x00af;
    device.upper_filter = Some(vec![b'f', 0xff, b'\n', 0]);
    device.driver_version = u64::MAX;
    device.mi = 255;
    assert_eq!(
        device.debug_string(),
        "DisplayInfo { vid: \"0x00af\", pid: \"0x6018\", is_composite: true, mi: 255, \
         desc: \"Black Magic Probe\\0\", driver: Some(\"WinUSB\\0\"), \
         device_id: Some(\"USB\\\\VID_1D50&PID_6018&MI_02\\\\6&1A2B3C4D\\0\"), \
         hardware_id: Some(\"USB\\\\VID_1D50&PID_6018&REV_0100&MI_02\\0\"), \
         compatible_id: Some(\"USB\\\\Class_FF\\0\"), upper_filter: Some(\"f\\xff\\n\\0\"), \
         driver_version: 18446744073709551615 }"
    );
}
