//! The combined port/device state that the kernel reports for each port slot.
use crate::error::VhciError;
use vstd::prelude::*;

verus! {

#[derive(Debug, Clone, Copy, PartialEq, Eq, Structural)]
pub enum DevicePortStatus {
    DevAvailable,
    DevUsed,
    DevError,
    /// The port has never been given a device.
    PortNull,
    /// The kernel's "no device connected" state (code 4): the state in which a port
    /// can be claimed.
    PortNotAssigned,
    PortUsed,
    PortError,
}

/// The status that a kernel status code stands for, if any.
pub open spec fn status_of_code(c: int) -> Option<DevicePortStatus> {
    if c == 0 {
        Some(DevicePortStatus::DevAvailable)
    } else if c == 1 {
        Some(DevicePortStatus::DevUsed)
    } else if c == 2 {
        Some(DevicePortStatus::DevError)
    } else if c == 3 {
        Some(DevicePortStatus::PortNull)
    } else if c == 4 {
        Some(DevicePortStatus::PortNotAssigned)
    } else if c == 5 {
        Some(DevicePortStatus::PortUsed)
    } else if c == 6 {
        Some(DevicePortStatus::PortError)
    } else {
        None
    }
}

impl DevicePortStatus {
    /// The kernel's integer code of this status.
    pub open spec fn code_spec(self) -> u8 {
        match self {
            DevicePortStatus::DevAvailable => 0,
            DevicePortStatus::DevUsed => 1,
            DevicePortStatus::DevError => 2,
            DevicePortStatus::PortNull => 3,
            DevicePortStatus::PortNotAssigned => 4,
            DevicePortStatus::PortUsed => 5,
            DevicePortStatus::PortError => 6,
        }
    }

    pub open spec fn description_text(self) -> Seq<char> {
        match self {
            DevicePortStatus::DevAvailable => "Device Available"@,
            DevicePortStatus::DevUsed => "Device in Use"@,
            DevicePortStatus::DevError => "Device Error"@,
            DevicePortStatus::PortNull => "Port Available"@,
            DevicePortStatus::PortNotAssigned => "Port Initializing"@,
            DevicePortStatus::PortUsed => "Port in Use"@,
            DevicePortStatus::PortError => "Port Error"@,
        }
    }

    /// Whether a port in this status may be chosen for a new device.
    pub open spec fn is_free_spec(self) -> bool {
        self == DevicePortStatus::PortNotAssigned
    }

    /// Whether a slot in this status holds a device whose descriptor can be looked up:
    /// every status but the two port-free ones.
    pub open spec fn has_device_spec(self) -> bool {
        self != DevicePortStatus::PortNull && self != DevicePortStatus::PortNotAssigned
    }

    /// A human-readable name of this status.
    pub fn description(&self) -> (r: String)
        ensures
            r@ == self.description_text(),
    {
        match self {
            DevicePortStatus::DevAvailable => String::from_str("Device Available"),
            DevicePortStatus::DevUsed => String::from_str("Device in Use"),
            DevicePortStatus::DevError => String::from_str("Device Error"),
            DevicePortStatus::PortNull => String::from_str("Port Available"),
            DevicePortStatus::PortNotAssigned => String::from_str("Port Initializing"),
            DevicePortStatus::PortUsed => String::from_str("Port in Use"),
            DevicePortStatus::PortError => String::from_str("Port Error"),
        }
    }

    /// The one place that decides which status counts as a free port.
    pub fn is_free(&self) -> (r: bool)
        ensures
            r == self.is_free_spec(),
    {
        match self {
            DevicePortStatus::PortNotAssigned => true,
            _ => false,
        }
    }

    pub fn has_device(&self) -> (r: bool)
        ensures
            r == self.has_device_spec(),
    {
        match self {
            DevicePortStatus::PortNull => false,
            DevicePortStatus::PortNotAssigned => false,
            _ => true,
        }
    }

    /// The kernel's integer code of this status, 0 to 6.
    pub fn code(&self) -> (r: u8)
        ensures
            r == self.code_spec(),
            r <= 6,
    {
        match self {
            DevicePortStatus::DevAvailable => 0,
            DevicePortStatus::DevUsed => 1,
            DevicePortStatus::DevError => 2,
            DevicePortStatus::PortNull => 3,
            DevicePortStatus::PortNotAssigned => 4,
            DevicePortStatus::PortUsed => 5,
            DevicePortStatus::PortError => 6,
        }
    }

    /// The status of a kernel status code; codes above 6 are refused.
    pub fn from_code(value: u64) -> (r: Result<DevicePortStatus, VhciError>)
        ensures
            match status_of_code(value as int) {
                Some(s) => r == Ok::<DevicePortStatus, VhciError>(s),
                None => r == Err::<DevicePortStatus, VhciError>(VhciError::InvalidStatusCode),
            },
    {
        match value {
            0 => Ok(DevicePortStatus::DevAvailable),
            1 => Ok(DevicePortStatus::DevUsed),
            2 => Ok(DevicePortStatus::DevError),
            3 => Ok(DevicePortStatus::PortNull),
            4 => Ok(DevicePortStatus::PortNotAssigned),
            5 => Ok(DevicePortStatus::PortUsed),
            6 => Ok(DevicePortStatus::PortError),
            _ => Err(VhciError::InvalidStatusCode),
        }
    }
}

/// What decoding a status code gives.
pub open spec fn status_code_result(c: int) -> Result<DevicePortStatus, VhciError> {
    match status_of_code(c) {
        Some(s) => Ok(s),
        None => Err(VhciError::InvalidStatusCode),
    }
}

impl TryFrom<u64> for DevicePortStatus {
    type Error = VhciError;

    fn try_from(value: u64) -> (r: Result<DevicePortStatus, VhciError>)
        ensures
            r == status_code_result(value as int),
    {
        DevicePortStatus::from_code(value)
    }
}

impl vstd::std_specs::convert::TryFromSpecImpl<u64> for DevicePortStatus {
    open spec fn obeys_try_from_spec() -> bool {
        true
    }

    open spec fn try_from_spec(v: u64) -> Result<DevicePortStatus, VhciError> {
        status_code_result(v as int)
    }
}

impl TryFrom<u32> for DevicePortStatus {
    type Error = VhciError;

    fn try_from(value: u32) -> (r: Result<DevicePortStatus, VhciError>)
        ensures
            r == status_code_result(value as int),
    {
        DevicePortStatus::from_code(value as u64)
    }
}

impl vstd::std_specs::convert::TryFromSpecImpl<u32> for DevicePortStatus {
    open spec fn obeys_try_from_spec() -> bool {
        true
    }

    open spec fn try_from_spec(v: u32) -> Result<DevicePortStatus, VhciError> {
        status_code_result(v as int)
    }
}

impl TryFrom<u16> for DevicePortStatus {
    type Error = VhciError;

    fn try_from(value: u16) -> (r: Result<DevicePortStatus, VhciError>)
        ensures
            r == status_code_result(value as int),
    {
        DevicePortStatus::from_code(value as u64)
    }
}

impl vstd::std_specs::convert::TryFromSpecImpl<u16> for DevicePortStatus {
    open spec fn obeys_try_from_spec() -> bool {
        true
    }

    open spec fn try_from_spec(v: u16) -> Result<DevicePortStatus, VhciError> {
        status_code_result(v as int)
    }
}

impl TryFrom<u8> for DevicePortStatus {
    type Error = VhciError;

    fn try_from(value: u8) -> (r: Result<DevicePortStatus, VhciError>)
        ensures
            r == status_code_result(value as int),
    {
        DevicePortStatus::from_code(value as u64)
    }
}

impl vstd::std_specs::convert::TryFromSpecImpl<u8> for DevicePortStatus {
    open spec fn obeys_try_from_spec() -> bool {
        true
    }

    open spec fn try_from_spec(v: u8) -> Result<DevicePortStatus, VhciError> {
        status_code_result(v as int)
    }
}

impl From<DevicePortStatus> for u8 {
    fn from(s: DevicePortStatus) -> (r: u8)
        ensures
            r == s.code_spec(),
    {
        s.code()
    }
}

impl vstd::std_specs::convert::FromSpecImpl<DevicePortStatus> for u8 {
    open spec fn obeys_from_spec() -> bool {
        true
    }

    open spec fn from_spec(s: DevicePortStatus) -> u8 {
        s.code_spec() as u8
    }
}

impl From<DevicePortStatus> for u64 {
    fn from(s: DevicePortStatus) -> (r: u64)
        ensures
            r == s.code_spec(),
    {
        s.code() as u64
    }
}

impl vstd::std_specs::convert::FromSpecImpl<DevicePortStatus> for u64 {
    open spec fn obeys_from_spec() -> bool {
        true
    }

    open spec fn from_spec(s: DevicePortStatus) -> u64 {
        s.code_spec() as u64
    }
}

impl From<DevicePortStatus> for u32 {
    fn from(s: DevicePortStatus) -> (r: u32)
        ensures
            r == s.code_spec(),
    {
        s.code() as u32
    }
}

impl vstd::std_specs::convert::FromSpecImpl<DevicePortStatus> for u32 {
    open spec fn obeys_from_spec() -> bool {
        true
    }

    open spec fn from_spec(s: DevicePortStatus) -> u32 {
        s.code_spec() as u32
    }
}

impl From<DevicePortStatus> for u16 {
    fn from(s: DevicePortStatus) -> (r: u16)
        ensures
            r == s.code_spec(),
    {
        s.code() as u16
    }
}

impl vstd::std_specs::convert::FromSpecImpl<DevicePortStatus> for u16 {
    open spec fn obeys_from_spec() -> bool {
        true
    }

    open spec fn from_spec(s: DevicePortStatus) -> u16 {
        s.code_spec() as u16
    }
}

/// Decoding a status's code gives the status back, and the codes that decode are exactly 0 to 6.
pub proof fn lemma_status_code_round_trip(s: DevicePortStatus, c: int)
    ensures
        status_of_code(s.code_spec() as int) == Some(s),
        status_of_code(c) is Some <==> 0 <= c <= 6,
        status_of_code(c) matches Some(t) ==> t.code_spec() == c,
{
}

} // verus!
