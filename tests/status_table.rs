use std::path::PathBuf;
use vhci::controller::{attached_only, find_free_port};
use vhci::{
    DeviceAttributes, DevicePortStatus, ImportedDevice, UsbDevice, UsbSpeed, VhciError,
};

fn no_attributes() -> DeviceAttributes {
    DeviceAttributes {
        speed: None,
        devnum: None,
        id_vendor: None,
        id_product: None,
        bcd_device: None,
        b_device_class: None,
        b_device_sub_class: None,
        b_device_protocol: None,
        b_configuration_value: None,
        b_num_configurations: None,
        b_num_interfaces: None,
    }
}

fn some_device(busid: &str) -> UsbDevice {
    UsbDevice::from_attributes(
        PathBuf::from("/sys/devices/usb2/2-3"),
        busid.to_string(),
        &no_attributes(),
    )
}

#[test]
fn initializing_port_line() {
    let l = ImportedDevice::parse_status_line("hs 0 4 480 00010002 3 1-1").unwrap();
    assert_eq!(l.device.hub, UsbSpeed::High);
    assert_eq!(l.device.port, 0);
    assert_eq!(l.device.status, DevicePortStatus::PortNotAssigned);
    assert_eq!(l.device.devid, 0x0001_0002);
    assert_eq!(l.device.busnum, 1);
    assert_eq!(l.device.devnum, 2);
    assert!(l.device.udev.is_none());
    assert_eq!(l.busid, "1-1");
    assert!(!l.device.status.has_device());
    let d = l.device.with_device(Some(some_device("1-1")));
    assert!(d.udev.is_none());
}

#[test]
fn used_port_line() {
    let l = ImportedDevice::parse_status_line("ss 3 5 5000 00020001 7 2-3").unwrap();
    assert_eq!(l.device.hub, UsbSpeed::Super);
    assert_eq!(l.device.port, 3);
    assert_eq!(l.device.status, DevicePortStatus::PortUsed);
    assert_eq!(l.device.busnum, 2);
    assert_eq!(l.device.devnum, 1);
    assert_eq!(l.busid, "2-3");
    assert!(l.device.status.has_device());
    let d = l.device.with_device(Some(some_device("2-3")));
    assert_eq!(d.udev.unwrap().busid, "2-3");
    assert_eq!(d.port, 3);
    assert_eq!(d.status, DevicePortStatus::PortUsed);
}

#[test]
fn kernel_header_line_and_padding() {
    let l = ImportedDevice::parse_status_line("  hs  0001 004 000 00000000 000000 0-0  \r").unwrap();
    assert_eq!(l.device.port, 1);
    assert_eq!(l.device.status, DevicePortStatus::PortNotAssigned);
    assert_eq!(l.busid, "0-0");
    assert_eq!(
        ImportedDevice::parse_status_line("hub port sta spd dev      sockfd local_busid").err(),
        Some(VhciError::InvalidPort)
    );
}

#[test]
fn malformed_lines_name_their_field() {
    let cases = [
        ("hs 0 4 480 00010002 3", VhciError::InvalidFormat),
        ("hs 0 4 480 00010002 3 1-1 extra", VhciError::InvalidFormat),
        ("", VhciError::InvalidFormat),
        ("hs x 4 480 00010002 3 1-1", VhciError::InvalidPort),
        ("hs 256 4 480 00010002 3 1-1", VhciError::InvalidPort),
        ("hs -1 4 480 00010002 3 1-1", VhciError::InvalidPort),
        ("hs 0 four 480 00010002 3 1-1", VhciError::InvalidStatus),
        ("hs 0 7 480 00010002 3 1-1", VhciError::InvalidStatusCode),
        ("hs 0 4 fast 00010002 3 1-1", VhciError::InvalidSpeed),
        ("hs 0 4 480 0001000g 3 1-1", VhciError::InvalidDeviceId),
        ("hs 0 4 480 10000000000000000 3 1-1", VhciError::InvalidDeviceId),
        ("hs 0 4 480 00010002 -3 1-1", VhciError::InvalidSocket),
    ];
    for (line, e) in cases {
        assert_eq!(ImportedDevice::parse_status_line(line).err(), Some(e), "{}", line);
    }
}

#[test]
fn plus_signs_and_wide_ids() {
    let l = ImportedDevice::parse_status_line("HS +2 +4 480 +ffff0003 0 1-2").unwrap();
    assert_eq!(l.device.port, 2);
    assert_eq!(l.device.devid, 0xffff_0003);
    assert_eq!(l.device.busnum, 0xffff);
    assert_eq!(l.device.devnum, 3);
    assert_eq!(l.device.hub, UsbSpeed::High);
    assert_eq!(
        ImportedDevice::parse_status_line("HS +2 +4 480 +1ffff0003 0 1-2").err(),
        Some(VhciError::InvalidDeviceId)
    );
    assert_eq!(
        ImportedDevice::parse_status_line("hs 0 4 480 100000000 3 1-1").err(),
        Some(VhciError::InvalidDeviceId)
    );
    let l = ImportedDevice::parse_status_line("hs 0 4 480 ffffffff 3 1-1").unwrap();
    assert_eq!(l.device.devid, u32::MAX);
}

#[test]
fn device_id_text_round_trip() {
    for (b, d) in [(0u32, 0u32), (1, 2), (0xffff, 0xffff), (0x1234, 0xabcd), (7, 0)] {
        let line = format!("hs 0 4 480 {:08x} 0 0-0", (b << 16) | d);
        let l = ImportedDevice::parse_status_line(&line).unwrap();
        assert_eq!(l.device.devid, (b << 16) | d);
        assert_eq!(l.device.busnum, b);
        assert_eq!(l.device.devnum, d);
    }
}

#[test]
fn hub_tokens_fold_unicode_case() {
    let l = ImportedDevice::parse_status_line("\u{17f}s 9 4 0 0 0 0-0").unwrap();
    assert_eq!(l.device.hub, UsbSpeed::Super);
    let l = ImportedDevice::parse_status_line("\u{df} 9 4 0 0 0 0-0").unwrap();
    assert_eq!(l.device.hub, UsbSpeed::Super);
    let l = ImportedDevice::parse_status_line("Hs 1 4 0 0 0 0-0").unwrap();
    assert_eq!(l.device.hub, UsbSpeed::High);
}

#[test]
fn table_skips_bad_lines() {
    let text = "hub port sta spd dev      sockfd local_busid\n\
                hs  0000 004 000 00000000 000000 0-0\n\
                hs  0001 oops 000 00000000 000000 0-0\n\
                ss  0008 005 5000 00020001 000007 2-3\n";
    let t = vhci::imported_device::parse_status_table(text);
    assert_eq!(t.len(), 2);
    assert_eq!(t[0].device.port, 0);
    assert_eq!(t[0].device.hub, UsbSpeed::High);
    assert_eq!(t[1].device.port, 8);
    assert_eq!(t[1].device.status, DevicePortStatus::PortUsed);
    assert_eq!(t[1].busid, "2-3");
    assert!(vhci::imported_device::parse_status_table("").is_empty());
}

fn table() -> Vec<ImportedDevice> {
    let text = "hs 0 5 480 00010002 3 1-1\n\
                hs 1 4 0 0 0 0-0\n\
                hs 2 4 0 0 0 0-0\n\
                ss 8 5 5000 00020001 7 2-3\n\
                ss 9 3 0 0 0 0-0\n\
                ss 10 4 0 0 0 0-0\n";
    vhci::imported_device::parse_status_table(text)
        .into_iter()
        .map(|l| l.device)
        .collect()
}

#[test]
fn free_port_matches_hub_class() {
    let t = table();
    assert_eq!(find_free_port(&t, UsbSpeed::Super), Ok(10));
    assert_eq!(find_free_port(&t, UsbSpeed::High), Ok(1));
    assert_eq!(find_free_port(&t, UsbSpeed::Low), Ok(1));
    assert_eq!(find_free_port(&t, UsbSpeed::SuperPlus), Ok(1));
    for s in [UsbSpeed::Super, UsbSpeed::High, UsbSpeed::Full] {
        let p = find_free_port(&t, s).unwrap();
        let slot = t.iter().find(|d| d.port == p).unwrap();
        let want = if s == UsbSpeed::Super { UsbSpeed::Super } else { UsbSpeed::High };
        assert_eq!(slot.hub, want);
    }
}

#[test]
fn no_free_port() {
    let t: Vec<ImportedDevice> = table().into_iter().filter(|d| d.hub == UsbSpeed::High).collect();
    assert_eq!(find_free_port(&t, UsbSpeed::Super), Err(VhciError::NoFreePort));
    assert_eq!(find_free_port(&Vec::new(), UsbSpeed::High), Err(VhciError::NoFreePort));
}

#[test]
fn attached_keeps_slots_with_descriptors() {
    let t: Vec<ImportedDevice> = table()
        .into_iter()
        .map(|d| d.with_device(Some(some_device("2-3"))))
        .collect();
    let a = attached_only(t);
    let ports: Vec<u8> = a.iter().map(|d| d.port).collect();
    assert_eq!(ports, vec![0, 8]);
    let none: Vec<ImportedDevice> = table();
    assert!(attached_only(none).is_empty());
}
