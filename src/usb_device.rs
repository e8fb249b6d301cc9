//! A snapshot of one USB device's identity and capabilities, built from the
//! attribute values that the device enumeration reports for it.
use crate::text::{
    chars_of, parse_unsigned, parse_unsigned_spec, pieces, split_at_char, split_on, trim,
};
use crate::usb_speed::{speed_of_attribute, UsbSpeed};
use crate::{BusNum, DevNum};
use std::path::PathBuf;
use vstd::prelude::*;

verus! {

/// std's `PathBuf`, carried through as an opaque value.
#[verifier::external_type_specification]
#[verifier::external_body]
pub struct ExPathBuf(PathBuf);

/// Relies on `PathBuf::clone`, which copies the path; nothing about the copy is used.
pub assume_specification[ <PathBuf as Clone>::clone ](p: &PathBuf) -> PathBuf;

#[derive(Debug, Clone)]
pub struct UsbDevice {
    pub path: PathBuf,
    pub busid: String,
    pub busnum: BusNum,
    pub devnum: DevNum,
    pub speed: UsbSpeed,
    pub id_vendor: u16,
    pub id_product: u16,
    pub bcd_device: u16,
    pub b_device_class: u8,
    pub b_device_sub_class: u8,
    pub b_device_protocol: u8,
    pub b_configuration_value: u8,
    pub b_num_configurations: u8,
    pub b_num_interfaces: u8,
}

/// The raw attribute values of a device, as text, each absent where the device
/// has no such attribute or its value is not text.
#[derive(Debug, Clone)]
pub struct DeviceAttributes {
    pub speed: Option<String>,
    pub devnum: Option<String>,
    pub id_vendor: Option<String>,
    pub id_product: Option<String>,
    pub bcd_device: Option<String>,
    pub b_device_class: Option<String>,
    pub b_device_sub_class: Option<String>,
    pub b_device_protocol: Option<String>,
    pub b_configuration_value: Option<String>,
    pub b_num_configurations: Option<String>,
    pub b_num_interfaces: Option<String>,
}

/// The value of the first of `segs` that is an unsigned 32-bit decimal, if any.
pub open spec fn first_number(segs: Seq<Seq<char>>) -> Option<nat>
    decreases segs.len(),
{
    if segs.len() == 0 {
        None
    } else if parse_unsigned_spec(segs[0], 10, u32::MAX as nat) is Some {
        parse_unsigned_spec(segs[0], 10, u32::MAX as nat)
    } else {
        first_number(segs.drop_first())
    }
}

/// The bus number of a bus id such as `1-1.2`: the first of its `-`-separated parts
/// that is a number, or 0 where none is.
pub open spec fn busnum_of_busid(busid: Seq<char>) -> nat {
    match first_number(split_on(busid, '-')) {
        Some(n) => n,
        None => 0,
    }
}

/// The number that an attribute value holds in hexadecimal, or `default` where the
/// value is absent or not such a number.
pub open spec fn attribute_number_spec(value: Option<String>, default: u64) -> u64 {
    match value {
        Some(s) => match parse_unsigned_spec(s@, 16, u64::MAX as nat) {
            Some(n) => n as u64,
            None => default,
        },
        None => default,
    }
}

/// The speed that a `speed` attribute value names; unknown where it is absent.
pub open spec fn attribute_speed_spec(value: Option<String>) -> UsbSpeed {
    match value {
        Some(s) => speed_of_attribute(trim(s@)),
        None => UsbSpeed::Unknown,
    }
}

/// The bus number of a bus id: the first `-`-separated part that is an unsigned
/// 32-bit decimal, or 0.
pub fn busnum_from_busid(busid: &str) -> (r: u32)
    ensures
        r == busnum_of_busid(busid@),
{
    let s = chars_of(busid);
    let parts = split_at_char(&s, 0, s.len(), '-');
    assert(s@.subrange(0, s@.len() as int) =~= s@);
    let ghost segs = pieces(s@, parts@);
    let mut k: usize = 0;
    assert(segs.skip(0) =~= segs);
    while k < parts.len()
        invariant
            0 <= k <= parts.len(),
            segs == pieces(s@, parts@),
            segs == split_on(busid@, '-'),
            s@ == busid@,
            forall|j: int| 0 <= j < parts.len() ==> 0 <= #[trigger] parts@[j].0 <= parts@[j].1 <= s.len(),
            first_number(segs) == first_number(segs.skip(k as int)),
        decreases parts.len() - k,
    {
        let (a, b) = parts[k];
        assert(segs[k as int] == s@.subrange(a as int, b as int));
        assert(segs.skip(k as int).drop_first() =~= segs.skip(k + 1));
        assert(segs.skip(k as int)[0] == segs[k as int]);
        match parse_unsigned(&s, a, b, 10, u32::MAX as u64) {
            Some(n) => {
                return n as u32;
            },
            None => {},
        }
        k = k + 1;
    }
    assert(segs.skip(k as int) =~= Seq::<Seq<char>>::empty());
    0
}

/// The number that an attribute value holds in hexadecimal, or `default`.
pub fn attribute_number(value: &Option<String>, default: u64) -> (r: u64)
    ensures
        r == attribute_number_spec(*value, default),
{
    match value {
        Some(text) => {
            let s = chars_of(text.as_str());
            assert(s@.subrange(0, s@.len() as int) =~= s@);
            match parse_unsigned(&s, 0, s.len(), 16, u64::MAX) {
                Some(n) => n,
                None => default,
            }
        },
        None => default,
    }
}

/// The speed that a `speed` attribute value names.
pub fn attribute_speed(value: &Option<String>) -> (r: UsbSpeed)
    ensures
        r == attribute_speed_spec(*value),
{
    match value {
        Some(text) => UsbSpeed::from_udev_speed(text.clone()),
        None => UsbSpeed::Unknown,
    }
}

impl UsbDevice {
    /// Builds the snapshot of the device at `path` named `busid` from its attribute
    /// values. Numeric attributes are hexadecimal, 0 where absent or unreadable, and
    /// cut to the width of their field.
    pub fn from_attributes(path: PathBuf, busid: String, attrs: &DeviceAttributes) -> (r: UsbDevice)
        ensures
            r.path == path,
            r.busid@ == busid@,
            r.busnum == busnum_of_busid(busid@),
            r.devnum == attribute_number_spec(attrs.devnum, 0) as u32,
            r.speed == attribute_speed_spec(attrs.speed),
            r.id_vendor == attribute_number_spec(attrs.id_vendor, 0) as u16,
            r.id_product == attribute_number_spec(attrs.id_product, 0) as u16,
            r.bcd_device == attribute_number_spec(attrs.bcd_device, 0) as u16,
            r.b_device_class == attribute_number_spec(attrs.b_device_class, 0) as u8,
            r.b_device_sub_class == attribute_number_spec(attrs.b_device_sub_class, 0) as u8,
            r.b_device_protocol == attribute_number_spec(attrs.b_device_protocol, 0) as u8,
            r.b_configuration_value == attribute_number_spec(attrs.b_configuration_value, 0) as u8,
            r.b_num_configurations == attribute_number_spec(attrs.b_num_configurations, 0) as u8,
            r.b_num_interfaces == attribute_number_spec(attrs.b_num_interfaces, 0) as u8,
    {
        let busnum = busnum_from_busid(busid.as_str());
        UsbDevice {
            path,
            busid,
            busnum,
            devnum: attribute_number(&attrs.devnum, 0) as u32,
            speed: attribute_speed(&attrs.speed),
            id_vendor: attribute_number(&attrs.id_vendor, 0) as u16,
            id_product: attribute_number(&attrs.id_product, 0) as u16,
            bcd_device: attribute_number(&attrs.bcd_device, 0) as u16,
            b_device_class: attribute_number(&attrs.b_device_class, 0) as u8,
            b_device_sub_class: attribute_number(&attrs.b_device_sub_class, 0) as u8,
            b_device_protocol: attribute_number(&attrs.b_device_protocol, 0) as u8,
            b_configuration_value: attribute_number(&attrs.b_configuration_value, 0) as u8,
            b_num_configurations: attribute_number(&attrs.b_num_configurations, 0) as u8,
            b_num_interfaces: attribute_number(&attrs.b_num_interfaces, 0) as u8,
        }
    }
}

} // verus!
