//! USB signalling speeds and their encodings: the kernel's small integer codes,
//! the two-letter hub classes of the status table, and the Mbps strings of the
//! device attributes.
use crate::error::VhciError;
use crate::text::{chars_of, range_is, trim, trim_bounds};
use vstd::prelude::*;

verus! {

#[derive(Debug, Clone, Copy, PartialEq, Eq, Structural)]
pub enum UsbSpeed {
    Unknown,
    Low,
    Full,
    High,
    Wireless,
    Super,
    SuperPlus,
}

/// What `str::to_uppercase` gives for the characters `s`.
pub uninterp spec fn upper_of(s: Seq<char>) -> Seq<char>;

/// Relies on `str::to_uppercase`: the Unicode upper case of `s`, which depends on its
/// characters alone.
#[verifier::external_body]
fn uppercase(s: &str) -> (r: String)
    ensures
        r@ == upper_of(s@),
{
    s.to_uppercase()
}

/// The hub class that an upper-cased status-table token names: `HS` or `SS`.
pub open spec fn speed_of_upper_token(u: Seq<char>) -> UsbSpeed {
    if u == "HS"@ {
        UsbSpeed::High
    } else if u == "SS"@ {
        UsbSpeed::Super
    } else {
        UsbSpeed::Unknown
    }
}

/// The hub class that a status-table token names, compared without regard to case.
pub open spec fn speed_of_status_token(t: Seq<char>) -> UsbSpeed {
    speed_of_upper_token(upper_of(t))
}

/// The speed that a device's `speed` attribute names, once trimmed.
pub open spec fn speed_of_attribute(t: Seq<char>) -> UsbSpeed {
    if t == "1.5"@ {
        UsbSpeed::Low
    } else if t == "12"@ {
        UsbSpeed::Full
    } else if t == "480"@ {
        UsbSpeed::High
    } else if t == "53.3-480"@ {
        UsbSpeed::Wireless
    } else if t == "5000"@ {
        UsbSpeed::Super
    } else if t == "10000"@ {
        UsbSpeed::SuperPlus
    } else {
        UsbSpeed::Unknown
    }
}

/// The speed that a kernel speed code stands for, if any.
pub open spec fn speed_of_code(c: int) -> Option<UsbSpeed> {
    if c == 0 {
        Some(UsbSpeed::Unknown)
    } else if c == 1 {
        Some(UsbSpeed::Low)
    } else if c == 2 {
        Some(UsbSpeed::Full)
    } else if c == 3 {
        Some(UsbSpeed::High)
    } else if c == 4 {
        Some(UsbSpeed::Wireless)
    } else if c == 5 {
        Some(UsbSpeed::Super)
    } else if c == 6 {
        Some(UsbSpeed::SuperPlus)
    } else {
        None
    }
}

/// The hub class of a token that is already in upper case.
pub fn speed_of_upper(u: &str) -> (r: UsbSpeed)
    ensures
        r == speed_of_upper_token(u@),
{
    let s = chars_of(u);
    if range_is(&s, 0, s.len(), "HS") {
        assert(s@.subrange(0, s@.len() as int) =~= s@);
        UsbSpeed::High
    } else if range_is(&s, 0, s.len(), "SS") {
        assert(s@.subrange(0, s@.len() as int) =~= s@);
        UsbSpeed::Super
    } else {
        assert(s@.subrange(0, s@.len() as int) =~= s@);
        UsbSpeed::Unknown
    }
}

/// The hub class that a status-table token names, compared without regard to case.
pub fn speed_of_hub_token(t: &str) -> (r: UsbSpeed)
    ensures
        r == speed_of_status_token(t@),
{
    let u = uppercase(t);
    speed_of_upper(u.as_str())
}

impl UsbSpeed {
    /// The kernel's integer code of this speed.
    pub open spec fn code_spec(self) -> u8 {
        match self {
            UsbSpeed::Unknown => 0,
            UsbSpeed::Low => 1,
            UsbSpeed::Full => 2,
            UsbSpeed::High => 3,
            UsbSpeed::Wireless => 4,
            UsbSpeed::Super => 5,
            UsbSpeed::SuperPlus => 6,
        }
    }

    /// The Mbps string of this speed, as the device attributes write it.
    pub open spec fn speed_text(self) -> Seq<char> {
        match self {
            UsbSpeed::Unknown => "unknown"@,
            UsbSpeed::Low => "1.5"@,
            UsbSpeed::Full => "12"@,
            UsbSpeed::High => "480"@,
            UsbSpeed::Wireless => "53.3-480"@,
            UsbSpeed::Super => "5000"@,
            UsbSpeed::SuperPlus => "10000"@,
        }
    }

    pub open spec fn description_text(self) -> Seq<char> {
        match self {
            UsbSpeed::Unknown => "Unknown Speed"@,
            UsbSpeed::Low => "Low Speed(1.5Mbps)"@,
            UsbSpeed::Full => "Full Speed(12Mbps)"@,
            UsbSpeed::High => "High Speed(480Mbps)"@,
            UsbSpeed::Wireless => "Wireless"@,
            UsbSpeed::Super => "Super Speed(5000Mbps)"@,
            UsbSpeed::SuperPlus => "Super Speed(10000Mbps)"@,
        }
    }

    /// The hub class of a status-table token: `HS` is high speed, `SS` super speed,
    /// in any case; anything else is unknown.
    pub fn from_vhci_status(val: String) -> (r: UsbSpeed)
        ensures
            r == speed_of_status_token(val@),
    {
        speed_of_hub_token(val.as_str())
    }

    /// The speed that a device's `speed` attribute names, ignoring surrounding whitespace.
    pub fn from_udev_speed(val: String) -> (r: UsbSpeed)
        ensures
            r == speed_of_attribute(trim(val@)),
    {
        let s = chars_of(val.as_str());
        let (a, b) = trim_bounds(&s);
        if range_is(&s, a, b, "1.5") {
            UsbSpeed::Low
        } else if range_is(&s, a, b, "12") {
            UsbSpeed::Full
        } else if range_is(&s, a, b, "480") {
            UsbSpeed::High
        } else if range_is(&s, a, b, "53.3-480") {
            UsbSpeed::Wireless
        } else if range_is(&s, a, b, "5000") {
            UsbSpeed::Super
        } else if range_is(&s, a, b, "10000") {
            UsbSpeed::SuperPlus
        } else {
            UsbSpeed::Unknown
        }
    }

    /// The Mbps string of this speed (`"unknown"` for an unknown one).
    pub fn speed(&self) -> (r: String)
        ensures
            r@ == self.speed_text(),
    {
        match self {
            UsbSpeed::Unknown => String::from_str("unknown"),
            UsbSpeed::Low => String::from_str("1.5"),
            UsbSpeed::Full => String::from_str("12"),
            UsbSpeed::High => String::from_str("480"),
            UsbSpeed::Wireless => String::from_str("53.3-480"),
            UsbSpeed::Super => String::from_str("5000"),
            UsbSpeed::SuperPlus => String::from_str("10000"),
        }
    }

    /// A human-readable name of this speed.
    pub fn description(&self) -> (r: String)
        ensures
            r@ == self.description_text(),
    {
        match self {
            UsbSpeed::Unknown => String::from_str("Unknown Speed"),
            UsbSpeed::Low => String::from_str("Low Speed(1.5Mbps)"),
            UsbSpeed::Full => String::from_str("Full Speed(12Mbps)"),
            UsbSpeed::High => String::from_str("High Speed(480Mbps)"),
            UsbSpeed::Wireless => String::from_str("Wireless"),
            UsbSpeed::Super => String::from_str("Super Speed(5000Mbps)"),
            UsbSpeed::SuperPlus => String::from_str("Super Speed(10000Mbps)"),
        }
    }

    /// The kernel's integer code of this speed, 0 to 6.
    pub fn code(&self) -> (r: u8)
        ensures
            r == self.code_spec(),
            r <= 6,
    {
        match self {
            UsbSpeed::Unknown => 0,
            UsbSpeed::Low => 1,
            UsbSpeed::Full => 2,
            UsbSpeed::High => 3,
            UsbSpeed::Wireless => 4,
            UsbSpeed::Super => 5,
            UsbSpeed::SuperPlus => 6,
        }
    }

    /// The speed of a kernel speed code; codes above 6 are refused.
    pub fn from_code(value: u64) -> (r: Result<UsbSpeed, VhciError>)
        ensures
            match speed_of_code(value as int) {
                Some(s) => r == Ok::<UsbSpeed, VhciError>(s),
                None => r == Err::<UsbSpeed, VhciError>(VhciError::InvalidSpeedCode),
            },
    {
        match value {
            0 => Ok(UsbSpeed::Unknown),
            1 => Ok(UsbSpeed::Low),
            2 => Ok(UsbSpeed::Full),
            3 => Ok(UsbSpeed::High),
            4 => Ok(UsbSpeed::Wireless),
            5 => Ok(UsbSpeed::Super),
            6 => Ok(UsbSpeed::SuperPlus),
            _ => Err(VhciError::InvalidSpeedCode),
        }
    }
}

/// What decoding a speed code gives.
pub open spec fn speed_code_result(c: int) -> Result<UsbSpeed, VhciError> {
    match speed_of_code(c) {
        Some(s) => Ok(s),
        None => Err(VhciError::InvalidSpeedCode),
    }
}

impl TryFrom<u64> for UsbSpeed {
    type Error = VhciError;

    fn try_from(value: u64) -> (r: Result<UsbSpeed, VhciError>)
        ensures
            r == speed_code_result(value as int),
    {
        UsbSpeed::from_code(value)
    }
}

impl vstd::std_specs::convert::TryFromSpecImpl<u64> for UsbSpeed {
    open spec fn obeys_try_from_spec() -> bool {
        true
    }

    open spec fn try_from_spec(v: u64) -> Result<UsbSpeed, VhciError> {
        speed_code_result(v as int)
    }
}

impl From<UsbSpeed> for u8 {
    fn from(s: UsbSpeed) -> (r: u8)
        ensures
            r == s.code_spec(),
    {
        s.code()
    }
}

impl vstd::std_specs::convert::FromSpecImpl<UsbSpeed> for u8 {
    open spec fn obeys_from_spec() -> bool {
        true
    }

    open spec fn from_spec(s: UsbSpeed) -> u8 {
        s.code_spec()
    }
}

impl TryFrom<usize> for UsbSpeed {
    type Error = VhciError;

    fn try_from(value: usize) -> (r: Result<UsbSpeed, VhciError>)
        ensures
            r == speed_code_result(value as int),
    {
        UsbSpeed::from_code(value as u64)
    }
}

impl vstd::std_specs::convert::TryFromSpecImpl<usize> for UsbSpeed {
    open spec fn obeys_try_from_spec() -> bool {
        true
    }

    open spec fn try_from_spec(v: usize) -> Result<UsbSpeed, VhciError> {
        speed_code_result(v as int)
    }
}

impl TryFrom<u32> for UsbSpeed {
    type Error = VhciError;

    fn try_from(value: u32) -> (r: Result<UsbSpeed, VhciError>)
        ensures
            r == speed_code_result(value as int),
    {
        UsbSpeed::from_code(value as u64)
    }
}

impl vstd::std_specs::convert::TryFromSpecImpl<u32> for UsbSpeed {
    open spec fn obeys_try_from_spec() -> bool {
        true
    }

    open spec fn try_from_spec(v: u32) -> Result<UsbSpeed, VhciError> {
        speed_code_result(v as int)
    }
}

impl TryFrom<u16> for UsbSpeed {
    type Error = VhciError;

    fn try_from(value: u16) -> (r: Result<UsbSpeed, VhciError>)
        ensures
            r == speed_code_result(value as int),
    {
        UsbSpeed::from_code(value as u64)
    }
}

impl vstd::std_specs::convert::TryFromSpecImpl<u16> for UsbSpeed {
    open spec fn obeys_try_from_spec() -> bool {
        true
    }

    open spec fn try_from_spec(v: u16) -> Result<UsbSpeed, VhciError> {
        speed_code_result(v as int)
    }
}

impl TryFrom<u8> for UsbSpeed {
    type Error = VhciError;

    fn try_from(value: u8) -> (r: Result<UsbSpeed, VhciError>)
        ensures
            r == speed_code_result(value as int),
    {
        UsbSpeed::from_code(value as u64)
    }
}

impl vstd::std_specs::convert::TryFromSpecImpl<u8> for UsbSpeed {
    open spec fn obeys_try_from_spec() -> bool {
        true
    }

    open spec fn try_from_spec(v: u8) -> Result<UsbSpeed, VhciError> {
        speed_code_result(v as int)
    }
}

impl From<UsbSpeed> for usize {
    fn from(s: UsbSpeed) -> (r: usize)
        ensures
            r == s.code_spec(),
    {
        s.code() as usize
    }
}

impl vstd::std_specs::convert::FromSpecImpl<UsbSpeed> for usize {
    open spec fn obeys_from_spec() -> bool {
        true
    }

    open spec fn from_spec(s: UsbSpeed) -> usize {
        s.code_spec() as usize
    }
}

impl From<UsbSpeed> for u64 {
    fn from(s: UsbSpeed) -> (r: u64)
        ensures
            r == s.code_spec(),
    {
        s.code() as u64
    }
}

impl vstd::std_specs::convert::FromSpecImpl<UsbSpeed> for u64 {
    open spec fn obeys_from_spec() -> bool {
        true
    }

    open spec fn from_spec(s: UsbSpeed) -> u64 {
        s.code_spec() as u64
    }
}

impl From<UsbSpeed> for u32 {
    fn from(s: UsbSpeed) -> (r: u32)
        ensures
            r == s.code_spec(),
    {
        s.code() as u32
    }
}

impl vstd::std_specs::convert::FromSpecImpl<UsbSpeed> for u32 {
    open spec fn obeys_from_spec() -> bool {
        true
    }

    open spec fn from_spec(s: UsbSpeed) -> u32 {
        s.code_spec() as u32
    }
}

impl From<UsbSpeed> for u16 {
    fn from(s: UsbSpeed) -> (r: u16)
        ensures
            r == s.code_spec(),
    {
        s.code() as u16
    }
}

impl vstd::std_specs::convert::FromSpecImpl<UsbSpeed> for u16 {
    open spec fn obeys_from_spec() -> bool {
        true
    }

    open spec fn from_spec(s: UsbSpeed) -> u16 {
        s.code_spec() as u16
    }
}

/// Decoding a speed's code gives the speed back, and the codes that decode are exactly 0 to 6.
pub proof fn lemma_speed_code_round_trip(s: UsbSpeed, c: int)
    ensures
        speed_of_code(s.code_spec() as int) == Some(s),
        speed_of_code(c) is Some <==> 0 <= c <= 6,
        speed_of_code(c) matches Some(t) ==> t.code_spec() == c,
{
}

} // verus!
