//! One row of the controller's status table, and the parser of the whole table.
//!
//! A row has exactly seven whitespace-separated fields: hub class token, port,
//! status code, speed, device id in hexadecimal, socket, and bus id. Rows that do
//! not parse are skipped by the table parser.
use crate::device_port_status::{status_of_code, DevicePortStatus};
use crate::error::VhciError;
use crate::text::{
    chars_of, fields, lines, parse_unsigned, parse_unsigned_spec, pieces, split_at_char,
    split_fields,
};
use crate::usb_device::UsbDevice;
use crate::usb_speed::{speed_of_hub_token, speed_of_status_token, UsbSpeed};
use crate::{BusNum, DevId, DevNum, Port};
use vstd::prelude::*;

verus! {

#[derive(Debug, Clone)]
pub struct ImportedDevice {
    pub hub: UsbSpeed,
    pub port: Port,
    pub status: DevicePortStatus,
    pub devid: DevId,
    pub busnum: BusNum,
    pub devnum: DevNum,
    /// The descriptor of the device in this slot, where one was found.
    pub udev: Option<UsbDevice>,
}

/// A parsed status row together with the bus id that names its device.
#[derive(Debug, Clone)]
pub struct StatusLine {
    pub device: ImportedDevice,
    pub busid: String,
}

/// What a status row says, as plain values.
pub struct StatusEntry {
    pub hub: UsbSpeed,
    pub port: u8,
    pub status: DevicePortStatus,
    pub devid: u32,
    pub busid: Seq<char>,
}

/// The result of parsing one row: the first field that fails, in field order, or
/// what the row says.
pub open spec fn parse_status_line_spec(line: Seq<char>) -> Result<StatusEntry, VhciError> {
    let f = fields(line);
    if f.len() != 7 {
        Err(VhciError::InvalidFormat)
    } else if parse_unsigned_spec(f[1], 10, 255) is None {
        Err(VhciError::InvalidPort)
    } else if parse_unsigned_spec(f[2], 10, u32::MAX as nat) is None {
        Err(VhciError::InvalidStatus)
    } else if status_of_code(parse_unsigned_spec(f[2], 10, u32::MAX as nat)->0 as int) is None {
        Err(VhciError::InvalidStatusCode)
    } else if parse_unsigned_spec(f[3], 10, u32::MAX as nat) is None {
        Err(VhciError::InvalidSpeed)
    } else if parse_unsigned_spec(f[4], 16, u32::MAX as nat) is None {
        Err(VhciError::InvalidDeviceId)
    } else if parse_unsigned_spec(f[5], 10, u32::MAX as nat) is None {
        Err(VhciError::InvalidSocket)
    } else {
        Ok(
            StatusEntry {
                hub: speed_of_status_token(f[0]),
                port: parse_unsigned_spec(f[1], 10, 255)->0 as u8,
                status: status_of_code(
                    parse_unsigned_spec(f[2], 10, u32::MAX as nat)->0 as int,
                )->0,
                devid: parse_unsigned_spec(f[4], 16, u32::MAX as nat)->0 as u32,
                busid: f[6],
            },
        )
    }
}

/// The rows of a table of `lines` that parse, in order.
pub open spec fn table_entries(ls: Seq<Seq<char>>) -> Seq<StatusEntry>
    decreases ls.len(),
{
    if ls.len() == 0 {
        Seq::<StatusEntry>::empty()
    } else {
        let rest = table_entries(ls.drop_last());
        match parse_status_line_spec(ls.last()) {
            Ok(e) => rest.push(e),
            Err(_) => rest,
        }
    }
}

/// The bus number held in the high half of a device id.
pub open spec fn busnum_of(devid: u32) -> u32 {
    devid >> 16
}

/// The device number held in the low half of a device id.
pub open spec fn devnum_of(devid: u32) -> u32 {
    devid & 0xffff
}

impl ImportedDevice {
    /// Whether this record holds what `e` says, its descriptor aside.
    pub open spec fn matches_entry(self, e: StatusEntry) -> bool {
        &&& self.hub == e.hub
        &&& self.port == e.port
        &&& self.status == e.status
        &&& self.devid == e.devid
        &&& self.busnum == busnum_of(e.devid)
        &&& self.devnum == devnum_of(e.devid)
    }

    /// Whether two records agree on everything but their descriptor.
    pub open spec fn same_slot(self, other: ImportedDevice) -> bool {
        &&& self.hub == other.hub
        &&& self.port == other.port
        &&& self.status == other.status
        &&& self.devid == other.devid
        &&& self.busnum == other.busnum
        &&& self.devnum == other.devnum
    }

    /// Parses one row of the status table. The record has no descriptor; the bus id
    /// that names its device comes with it.
    pub fn parse_status_line(value: &str) -> (r: Result<StatusLine, VhciError>)
        ensures
            match parse_status_line_spec(value@) {
                Ok(e) => r matches Ok(l) && l.device.matches_entry(e) && l.busid@ == e.busid
                    && l.device.udev is None,
                Err(x) => r == Err::<StatusLine, VhciError>(x),
            },
    {
        let s = chars_of(value);
        assert(s@.subrange(0, s@.len() as int) =~= s@);
        parse_line_range(value, &s, 0, s.len())
    }

    /// Keeps `dev` as this record's descriptor where the slot holds a device, and none
    /// where the port is free or initializing.
    pub fn with_device(self, dev: Option<UsbDevice>) -> (r: ImportedDevice)
        ensures
            r.same_slot(self),
            r.udev == (if self.status.has_device_spec() {
                dev
            } else {
                None
            }),
    {
        let keep = self.status.has_device();
        ImportedDevice {
            hub: self.hub,
            port: self.port,
            status: self.status,
            devid: self.devid,
            busnum: self.busnum,
            devnum: self.devnum,
            udev: if keep {
                dev
            } else {
                None
            },
        }
    }
}

/// Parses the row of `text` that lies between `start` and `end`; `s` holds the
/// characters of `text`.
fn parse_line_range(
    text: &str,
    s: &Vec<char>,
    start: usize,
    end: usize,
) -> (r: Result<StatusLine, VhciError>)
    requires
        s@ == text@,
        start <= end <= s.len(),
    ensures
        match parse_status_line_spec(s@.subrange(start as int, end as int)) {
            Ok(e) => r matches Ok(l) && l.device.matches_entry(e) && l.busid@ == e.busid
                && l.device.udev is None,
            Err(x) => r == Err::<StatusLine, VhciError>(x),
        },
{
    let f = split_fields(s, start, end);
    let ghost fs = fields(s@.subrange(start as int, end as int));
    if f.len() != 7 {
        return Err(VhciError::InvalidFormat);
    }
    assert forall|j: int| 0 <= j < 7 implies fs[j] == s@.subrange(
        #[trigger] f@[j].0 as int,
        f@[j].1 as int,
    ) by {}
    let hub = speed_of_hub_token(text.substring_char(f[0].0, f[0].1));
    let port = match parse_unsigned(s, f[1].0, f[1].1, 10, 255) {
        Some(p) => p,
        None => {
            return Err(VhciError::InvalidPort);
        },
    };
    let code = match parse_unsigned(s, f[2].0, f[2].1, 10, u32::MAX as u64) {
        Some(c) => c,
        None => {
            return Err(VhciError::InvalidStatus);
        },
    };
    let status = match DevicePortStatus::from_code(code) {
        Ok(st) => st,
        Err(e) => {
            return Err(e);
        },
    };
    if parse_unsigned(s, f[3].0, f[3].1, 10, u32::MAX as u64).is_none() {
        return Err(VhciError::InvalidSpeed);
    }
    let id = match parse_unsigned(s, f[4].0, f[4].1, 16, u32::MAX as u64) {
        Some(v) => v,
        None => {
            return Err(VhciError::InvalidDeviceId);
        },
    };
    if parse_unsigned(s, f[5].0, f[5].1, 10, u32::MAX as u64).is_none() {
        return Err(VhciError::InvalidSocket);
    }
    let devid = id as u32;
    let busid = String::from_str(text.substring_char(f[6].0, f[6].1));
    let device = ImportedDevice {
        hub,
        port: port as u8,
        status,
        devid,
        busnum: devid >> 16,
        devnum: devid & 0xffff,
        udev: None,
    };
    Ok(StatusLine { device, busid })
}

/// Parses every row of a status table, skipping the rows that do not parse. The
/// records have no descriptors.
pub fn parse_status_table(text: &str) -> (r: Vec<StatusLine>)
    ensures
        r.len() == table_entries(lines(text@)).len(),
        forall|i: int|
            0 <= i < r.len() ==> {
                let e = #[trigger] table_entries(lines(text@))[i];
                &&& r@[i].device.matches_entry(e)
                &&& r@[i].busid@ == e.busid
                &&& r@[i].device.udev is None
            },
{
    let s = chars_of(text);
    let ranges = split_at_char(&s, 0, s.len(), '\n');
    assert(s@.subrange(0, s@.len() as int) =~= s@);
    let ghost ls = pieces(s@, ranges@);
    let mut out: Vec<StatusLine> = Vec::new();
    let mut k: usize = 0;
    while k < ranges.len()
        invariant
            s@ == text@,
            ls == pieces(s@, ranges@),
            ls == lines(text@),
            k <= ranges.len(),
            forall|j: int| 0 <= j < ranges.len() ==> 0 <= #[trigger] ranges@[j].0 <= ranges@[j].1 <= s.len(),
            out.len() == table_entries(ls.take(k as int)).len(),
            forall|i: int|
                0 <= i < out.len() ==> {
                    let e = #[trigger] table_entries(ls.take(k as int))[i];
                    &&& out@[i].device.matches_entry(e)
                    &&& out@[i].busid@ == e.busid
                    &&& out@[i].device.udev is None
                },
        decreases ranges.len() - k,
    {
        let (a, b) = ranges[k];
        let ghost before = ls.take(k as int);
        assert(ls.take(k + 1).drop_last() =~= before);
        assert(ls.take(k + 1).last() == s@.subrange(a as int, b as int));
        match parse_line_range(text, &s, a, b) {
            Ok(l) => {
                out.push(l);
            },
            Err(_) => {},
        }
        k = k + 1;
    }
    assert(ls.take(k as int) =~= ls);
    out
}

/// A table with a row that does not parse gives the same records as the table
/// without that row.
pub proof fn lemma_bad_line_skipped(ls: Seq<Seq<char>>, j: int)
    requires
        0 <= j < ls.len(),
        parse_status_line_spec(ls[j]) is Err,
    ensures
        table_entries(ls) == table_entries(ls.remove(j)),
    decreases ls.len(),
{
    if j == ls.len() - 1 {
        assert(ls.remove(j) =~= ls.drop_last());
    } else {
        lemma_bad_line_skipped(ls.drop_last(), j);
        assert(ls.remove(j).drop_last() =~= ls.drop_last().remove(j));
        assert(ls.remove(j).last() == ls.last());
    }
}

} // verus!
