//! The decisions of the controller: which port a device goes to, which slots
//! hold attached devices, and the text of the `attach` and `detach` requests.
//! Reading and writing the kernel attributes happens around these functions.
use crate::error::VhciError;
use crate::imported_device::ImportedDevice;
use crate::text::{
    chars_of, decimal, parse_unsigned, parse_unsigned_spec, push_decimal, push_signed_decimal,
    range_is, signed_decimal,
};
use crate::usb_speed::UsbSpeed;
use crate::{BusNum, DevId, DevNum, Port};
use vstd::prelude::*;

verus! {

/// The subsystem of the controller's kernel object.
pub const USBIP_VHCI_BUS_TYPE: &'static str = "platform";

/// The name of the first controller's kernel object.
pub const USBIP_VHCI_DEVICE_NAME: &'static str = "vhci_hcd.0";

/// What the names of all controllers' kernel objects contain.
pub const USBIP_VHCI_DEVICE_NAME_PREFIX: &'static str = "vhci_hcd.";

/// The hub class that a device of `speed` needs: super speed devices go to the
/// super speed hub, all others to the high speed hub.
pub open spec fn hub_class_spec(speed: UsbSpeed) -> UsbSpeed {
    if speed == UsbSpeed::Super {
        UsbSpeed::Super
    } else {
        UsbSpeed::High
    }
}

/// Whether the slot `d` can take a device of `speed`.
pub open spec fn fits(d: ImportedDevice, speed: UsbSpeed) -> bool {
    d.status.is_free_spec() && d.hub == hub_class_spec(speed)
}

/// The composite id of a device: the bus number shifted into the high half, or-ed
/// with the device number.
pub open spec fn device_id_spec(busnum: u32, devnum: u32) -> u32 {
    (busnum << 16) | devnum
}

/// The request that attaches the device `devid` of speed code `speed`, reached over
/// `socket`, to `port`.
pub open spec fn attach_command_spec(port: u8, socket: i32, devid: u32, speed: u8) -> Seq<char> {
    decimal(port as nat) + seq![' '] + signed_decimal(socket as int) + seq![' '] + decimal(
        devid as nat,
    ) + seq![' '] + decimal(speed as nat)
}

/// Whether `s` begins with `pat`.
pub open spec fn has_prefix(s: Seq<char>, pat: Seq<char>) -> bool {
    pat.len() <= s.len() && s.subrange(0, pat.len() as int) == pat
}

/// How many of `names` begin with `pat`.
pub open spec fn count_with_prefix(names: Seq<String>, pat: Seq<char>) -> nat
    decreases names.len(),
{
    if names.len() == 0 {
        0
    } else {
        count_with_prefix(names.drop_last(), pat) + if has_prefix(names.last()@, pat) {
            1nat
        } else {
            0nat
        }
    }
}

/// The port count that an `nports` value gives: a decimal that fits a `usize` and is
/// not zero.
pub open spec fn port_count_spec(value: Option<String>) -> Option<nat> {
    match value {
        Some(s) => match parse_unsigned_spec(s@, 10, usize::MAX as nat) {
            Some(n) => if n > 0 {
                Some(n)
            } else {
                None
            },
            None => None,
        },
        None => None,
    }
}

pub fn hub_class(speed: UsbSpeed) -> (r: UsbSpeed)
    ensures
        r == hub_class_spec(speed),
{
    match speed {
        UsbSpeed::Super => UsbSpeed::Super,
        _ => UsbSpeed::High,
    }
}

/// The port of the first slot, in table order, that is free and on the hub class
/// that a device of `speed` needs.
pub fn find_free_port(devices: &Vec<ImportedDevice>, speed: UsbSpeed) -> (r: Result<Port, VhciError>)
    ensures
        r is Err <==> forall|i: int| 0 <= i < devices.len() ==> !fits(#[trigger] devices@[i], speed),
        r is Err ==> r == Err::<Port, VhciError>(VhciError::NoFreePort),
        r matches Ok(p) ==> exists|i: int|
            0 <= i < devices.len() && fits(#[trigger] devices@[i], speed) && devices@[i].port == p
                && forall|j: int| 0 <= j < i ==> !fits(#[trigger] devices@[j], speed),
        r matches Ok(p) ==> exists|i: int|
            0 <= i < devices.len() && #[trigger] devices@[i].port == p && devices@[i].hub == (
            if speed == UsbSpeed::Super {
                UsbSpeed::Super
            } else {
                UsbSpeed::High
            }),
{
    let hub = hub_class(speed);
    let mut i: usize = 0;
    while i < devices.len()
        invariant
            i <= devices.len(),
            hub == hub_class_spec(speed),
            forall|j: int| 0 <= j < i ==> !fits(#[trigger] devices@[j], speed),
        decreases devices.len() - i,
    {
        let d = &devices[i];
        if d.status.is_free() && d.hub == hub {
            assert(fits(devices@[i as int], speed));
            return Ok(d.port);
        }
        i = i + 1;
    }
    Err(VhciError::NoFreePort)
}

/// The records that carry a device descriptor, in order.
pub fn attached_only(devices: Vec<ImportedDevice>) -> (r: Vec<ImportedDevice>)
    ensures
        r@ == devices@.filter(|d: ImportedDevice| d.udev is Some),
{
    let ghost all = devices@;
    let n = devices.len();
    let mut rest = devices;
    let mut out: Vec<ImportedDevice> = Vec::new();
    let mut k: usize = 0;
    assert(all.take(0) =~= Seq::<ImportedDevice>::empty());
    assert(all.skip(0) =~= all);
    while rest.len() > 0
        invariant
            k <= all.len(),
            k + rest.len() == all.len(),
            all.len() == n,
            rest@ == all.skip(k as int),
            out@ == all.take(k as int).filter(|d: ImportedDevice| d.udev is Some),
        decreases rest.len(),
    {
        let d = rest.remove(0);
        assert(all.take(k + 1).drop_last() =~= all.take(k as int));
        assert(all.take(k + 1).last() == d);
        assert(all.skip(k as int).drop_first() =~= all.skip(k + 1));
        let ghost before = out@;
        if d.udev.is_some() {
            out.push(d);
        }
        assert(out@ == all.take(k + 1).filter(|d: ImportedDevice| d.udev is Some)) by {
            reveal_with_fuel(Seq::filter, 1);
        }
        k = k + 1;
    }
    assert(all.take(k as int) =~= all);
    out
}

/// The composite id of bus `busnum`, device `devnum`.
pub fn device_id(busnum: BusNum, devnum: DevNum) -> (r: DevId)
    ensures
        r == device_id_spec(busnum, devnum),
{
    (busnum << 16) | devnum
}

/// The text written to the `attach` attribute to attach device `devnum` of bus
/// `busnum`, reached over `socket`, to `port`.
pub fn attach_command(
    port: Port,
    socket: i32,
    busnum: BusNum,
    devnum: DevNum,
    speed: UsbSpeed,
) -> (r: String)
    ensures
        r@ == attach_command_spec(port, socket, device_id_spec(busnum, devnum), speed.code_spec()),
{
    proof {
        reveal_strlit(" ");
    }
    let mut out = String::new();
    push_decimal(&mut out, port as u64);
    out.append(" ");
    push_signed_decimal(&mut out, socket as i64);
    out.append(" ");
    push_decimal(&mut out, device_id(busnum, devnum) as u64);
    out.append(" ");
    push_decimal(&mut out, speed.code() as u64);
    assert(out@ =~= attach_command_spec(
        port,
        socket,
        device_id_spec(busnum, devnum),
        speed.code_spec(),
    ));
    out
}

/// The text written to the `detach` attribute to free `port`.
pub fn detach_command(port: Port) -> (r: String)
    ensures
        r@ == decimal(port as nat),
{
    let mut out = String::new();
    push_decimal(&mut out, port as u64);
    assert(out@ =~= decimal(port as nat));
    out
}

/// The port count of an `nports` value; a missing, malformed or zero value means
/// the controller has no ports.
pub fn port_count(value: &Option<String>) -> (r: Result<usize, VhciError>)
    ensures
        match port_count_spec(*value) {
            Some(n) => r == Ok::<usize, VhciError>(n as usize),
            None => r == Err::<usize, VhciError>(VhciError::NoPorts),
        },
{
    match value {
        Some(text) => {
            let s = chars_of(text.as_str());
            assert(s@.subrange(0, s@.len() as int) =~= s@);
            match parse_unsigned(&s, 0, s.len(), 10, usize::MAX as u64) {
                Some(n) => {
                    if n > 0 {
                        Ok(n as usize)
                    } else {
                        Err(VhciError::NoPorts)
                    }
                },
                None => Err(VhciError::NoPorts),
            }
        },
        None => Err(VhciError::NoPorts),
    }
}

/// Whether `s` begins with `pat`.
fn starts_with_text(s: &Vec<char>, pat: &str) -> (r: bool)
    ensures
        r == has_prefix(s@, pat@),
{
    let m = pat.unicode_len();
    m <= s.len() && range_is(s, 0, m, pat)
}

/// How many of the names of the entries beside the controller begin with the
/// controllers' name prefix.
pub fn count_controllers(names: &Vec<String>) -> (r: usize)
    ensures
        r == count_with_prefix(names@, USBIP_VHCI_DEVICE_NAME_PREFIX@),
{
    let mut count: usize = 0;
    let mut k: usize = 0;
    while k < names.len()
        invariant
            k <= names.len(),
            count == count_with_prefix(names@.take(k as int), USBIP_VHCI_DEVICE_NAME_PREFIX@),
            count <= k,
        decreases names.len() - k,
    {
        let s = chars_of(names[k].as_str());
        assert(names@.take(k + 1).drop_last() =~= names@.take(k as int));
        if starts_with_text(&s, USBIP_VHCI_DEVICE_NAME_PREFIX) {
            count = count + 1;
        }
        k = k + 1;
    }
    assert(names@.take(k as int) =~= names@);
    count
}

/// A device id keeps the bus and device numbers apart: for numbers below 2^16 the
/// high half gives back the bus number and the low half the device number.
pub proof fn lemma_device_id_round_trip(busnum: u32, devnum: u32)
    requires
        busnum < 0x10000,
        devnum < 0x10000,
    ensures
        device_id_spec(busnum, devnum) >> 16 == busnum,
        device_id_spec(busnum, devnum) & 0xffff == devnum,
{
    assert(((busnum << 16) | devnum) >> 16 == busnum) by (bit_vector)
        requires
            busnum < 0x10000,
            devnum < 0x10000,
    ;
    assert(((busnum << 16) | devnum) & 0xffff == devnum) by (bit_vector)
        requires
            devnum < 0x10000,
    ;
}

} // verus!
