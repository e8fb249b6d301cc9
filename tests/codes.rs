use vhci::{DevicePortStatus, UsbSpeed, VhciError};

#[test]
fn speed_codes_round_trip() {
    for c in 0u64..=6 {
        let s = UsbSpeed::from_code(c).unwrap();
        assert_eq!(s.code() as u64, c);
    }
    let all = [
        UsbSpeed::Unknown,
        UsbSpeed::Low,
        UsbSpeed::Full,
        UsbSpeed::High,
        UsbSpeed::Wireless,
        UsbSpeed::Super,
        UsbSpeed::SuperPlus,
    ];
    for s in all {
        assert_eq!(UsbSpeed::from_code(s.code() as u64), Ok(s));
    }
}

#[test]
fn speed_codes_above_six_are_refused() {
    assert_eq!(UsbSpeed::from_code(7), Err(VhciError::InvalidSpeedCode));
    assert_eq!(UsbSpeed::from_code(255), Err(VhciError::InvalidSpeedCode));
    assert_eq!(UsbSpeed::from_code(u64::MAX), Err(VhciError::InvalidSpeedCode));
}

#[test]
fn status_codes_round_trip() {
    for c in 0u64..=6 {
        let s = DevicePortStatus::from_code(c).unwrap();
        assert_eq!(s.code() as u64, c);
    }
    assert_eq!(DevicePortStatus::from_code(3), Ok(DevicePortStatus::PortNull));
    assert_eq!(DevicePortStatus::from_code(4), Ok(DevicePortStatus::PortNotAssigned));
    assert_eq!(DevicePortStatus::from_code(5), Ok(DevicePortStatus::PortUsed));
}

#[test]
fn status_codes_above_six_are_refused() {
    assert_eq!(DevicePortStatus::from_code(7), Err(VhciError::InvalidStatusCode));
    assert_eq!(DevicePortStatus::from_code(1000), Err(VhciError::InvalidStatusCode));
}

#[test]
fn status_descriptions() {
    assert_eq!(DevicePortStatus::DevAvailable.description(), "Device Available");
    assert_eq!(DevicePortStatus::DevUsed.description(), "Device in Use");
    assert_eq!(DevicePortStatus::DevError.description(), "Device Error");
    assert_eq!(DevicePortStatus::PortNull.description(), "Port Available");
    assert_eq!(DevicePortStatus::PortNotAssigned.description(), "Port Initializing");
    assert_eq!(DevicePortStatus::PortUsed.description(), "Port in Use");
    assert_eq!(DevicePortStatus::PortError.description(), "Port Error");
}

#[test]
fn free_and_occupied_statuses() {
    assert!(DevicePortStatus::PortNotAssigned.is_free());
    assert!(!DevicePortStatus::PortNull.is_free());
    assert!(!DevicePortStatus::PortUsed.is_free());
    assert!(!DevicePortStatus::PortNull.has_device());
    assert!(!DevicePortStatus::PortNotAssigned.has_device());
    assert!(DevicePortStatus::PortUsed.has_device());
    assert!(DevicePortStatus::DevAvailable.has_device());
}

#[test]
fn speed_texts() {
    assert_eq!(UsbSpeed::Unknown.speed(), "unknown");
    assert_eq!(UsbSpeed::Low.speed(), "1.5");
    assert_eq!(UsbSpeed::Full.speed(), "12");
    assert_eq!(UsbSpeed::High.speed(), "480");
    assert_eq!(UsbSpeed::Wireless.speed(), "53.3-480");
    assert_eq!(UsbSpeed::Super.speed(), "5000");
    assert_eq!(UsbSpeed::SuperPlus.speed(), "10000");
    assert_eq!(UsbSpeed::High.description(), "High Speed(480Mbps)");
    assert_eq!(UsbSpeed::SuperPlus.description(), "Super Speed(10000Mbps)");
    assert_eq!(UsbSpeed::Unknown.description(), "Unknown Speed");
    assert_eq!(UsbSpeed::Wireless.description(), "Wireless");
}

#[test]
fn speed_texts_parse_back() {
    let all = [
        UsbSpeed::Low,
        UsbSpeed::Full,
        UsbSpeed::High,
        UsbSpeed::Wireless,
        UsbSpeed::Super,
        UsbSpeed::SuperPlus,
    ];
    for s in all {
        assert_eq!(UsbSpeed::from_udev_speed(s.speed()), s);
    }
    assert_eq!(UsbSpeed::from_udev_speed("unknown".to_string()), UsbSpeed::Unknown);
}

#[test]
fn attribute_speed_is_trimmed() {
    assert_eq!(UsbSpeed::from_udev_speed("480\n".to_string()), UsbSpeed::High);
    assert_eq!(UsbSpeed::from_udev_speed("  5000\t".to_string()), UsbSpeed::Super);
    assert_eq!(UsbSpeed::from_udev_speed("48 0".to_string()), UsbSpeed::Unknown);
    assert_eq!(UsbSpeed::from_udev_speed("".to_string()), UsbSpeed::Unknown);
    assert_eq!(UsbSpeed::from_udev_speed("1.50".to_string()), UsbSpeed::Unknown);
}

#[test]
fn status_tokens_ignore_case() {
    assert_eq!(UsbSpeed::from_vhci_status("hs".to_string()), UsbSpeed::High);
    assert_eq!(UsbSpeed::from_vhci_status("HS".to_string()), UsbSpeed::High);
    assert_eq!(UsbSpeed::from_vhci_status("sS".to_string()), UsbSpeed::Super);
    assert_eq!(UsbSpeed::from_vhci_status("ls".to_string()), UsbSpeed::Unknown);
    assert_eq!(UsbSpeed::from_vhci_status("hss".to_string()), UsbSpeed::Unknown);
    assert_eq!(UsbSpeed::from_vhci_status("".to_string()), UsbSpeed::Unknown);
    assert_eq!(UsbSpeed::from_vhci_status("\u{17f}s".to_string()), UsbSpeed::Super);
    assert_eq!(UsbSpeed::from_vhci_status("\u{df}".to_string()), UsbSpeed::Super);
    assert_eq!(UsbSpeed::from_vhci_status("h\u{17f}".to_string()), UsbSpeed::High);
}

#[test]
fn upper_case_tokens() {
    assert_eq!(vhci::usb_speed::speed_of_upper("HS"), UsbSpeed::High);
    assert_eq!(vhci::usb_speed::speed_of_upper("SS"), UsbSpeed::Super);
    assert_eq!(vhci::usb_speed::speed_of_upper("hs"), UsbSpeed::Unknown);
    assert_eq!(vhci::usb_speed::speed_of_upper("HSS"), UsbSpeed::Unknown);
    assert_eq!(vhci::usb_speed::speed_of_hub_token("ss"), UsbSpeed::Super);
}

#[test]
fn integer_conversions() {
    assert_eq!(UsbSpeed::try_from(5u8), Ok(UsbSpeed::Super));
    assert_eq!(UsbSpeed::try_from(6u16), Ok(UsbSpeed::SuperPlus));
    assert_eq!(UsbSpeed::try_from(1u32), Ok(UsbSpeed::Low));
    assert_eq!(UsbSpeed::try_from(0usize), Ok(UsbSpeed::Unknown));
    assert_eq!(UsbSpeed::try_from(3u64), Ok(UsbSpeed::High));
    assert_eq!(UsbSpeed::try_from(7u8), Err(VhciError::InvalidSpeedCode));
    assert_eq!(UsbSpeed::try_from(70000u32), Err(VhciError::InvalidSpeedCode));
    assert_eq!(u8::from(UsbSpeed::Super), 5);
    let c: u64 = UsbSpeed::Wireless.into();
    assert_eq!(c, 4);
    let c: usize = UsbSpeed::Full.into();
    assert_eq!(c, 2);

    assert_eq!(DevicePortStatus::try_from(4u8), Ok(DevicePortStatus::PortNotAssigned));
    assert_eq!(DevicePortStatus::try_from(6u16), Ok(DevicePortStatus::PortError));
    assert_eq!(DevicePortStatus::try_from(0u32), Ok(DevicePortStatus::DevAvailable));
    assert_eq!(DevicePortStatus::try_from(2u64), Ok(DevicePortStatus::DevError));
    assert_eq!(DevicePortStatus::try_from(9u32), Err(VhciError::InvalidStatusCode));
    assert_eq!(u8::from(DevicePortStatus::PortUsed), 5);
    let c: u32 = DevicePortStatus::DevUsed.into();
    assert_eq!(c, 1);
    let c: u16 = DevicePortStatus::PortNull.into();
    assert_eq!(c, 3);
}
