//! Subfeature taxonomy and the attribute-name classifier.
//!
//! An attribute file's base name such as `temp3_crit_alarm` decomposes into
//! a feature tag (`temp`), a feature index (`3`) and a subfeature suffix
//! (`crit_alarm`); fixed tables map the tag and suffix to a typed subfeature
//! kind carrying its exact scale and its alarm flag.

use vstd::prelude::*;
use vstd::string::StrSliceExecFns;

use crate::error::{Error, SubfeatureError};
use crate::ratio::Ratio;
use crate::text::{
    dec_seq_val, dec_str, is_dec_digit, parse_dec_u32, push_char, str_eq, str_from,
};

verus! {

// ---------------------------------------------------------------------------
// Per-feature subfeature kinds
// ---------------------------------------------------------------------------

#[allow(non_camel_case_types)]
#[derive(Clone, Copy, Debug, Eq, PartialEq, Ord, PartialOrd, Structural)]
pub enum Fan {
    Input,
    Min,
    Max,
    Div,
    Pulses,
    Target,
    Alarm,
    Min_Alarm,
    Max_Alarm,
    Fault,
    Beep,
}

impl Fan {
    pub open spec fn scale_spec(self) -> Ratio {
        Ratio { numer: 1, denom: 1 }
    }

    pub open spec fn is_alarm_spec(self) -> bool {
        self == Fan::Alarm || self == Fan::Min_Alarm || self == Fan::Max_Alarm
    }

    pub fn scale(self) -> (r: Ratio)
        ensures
            r == self.scale_spec(),
    {
        Ratio::new_raw(1, 1)
    }

    /// Whether the subfeature kind is an alarm.
    pub fn is_alarm(self) -> (r: bool)
        ensures
            r == self.is_alarm_spec(),
    {
        match self {
            Fan::Alarm | Fan::Min_Alarm | Fan::Max_Alarm => true,
            _ => false,
        }
    }
}

#[allow(non_camel_case_types)]
#[derive(Clone, Copy, Debug, Eq, PartialEq, Ord, PartialOrd, Structural)]
pub enum Temperature {
    Input,
    Max,
    Max_Hyst,
    Min,
    Min_Hyst,
    Crit_Max,
    Crit_Max_Hyst,
    Crit_Min,
    Crit_Min_Hyst,
    Emergency,
    Emergency_Hyst,
    Lowest,
    Highest,
    Offset,
    Type,
    Alarm,
    Max_Alarm,
    Min_Alarm,
    Emergency_Alarm,
    Crit_Max_Alarm,
    Crit_Min_Alarm,
    Fault,
    Beep,
}

impl Temperature {
    pub open spec fn scale_spec(self) -> Ratio {
        if self == Temperature::Type || self.is_alarm_spec() || self == Temperature::Fault
            || self == Temperature::Beep {
            Ratio { numer: 1, denom: 1 }
        } else {
            Ratio { numer: 1, denom: 1000 }
        }
    }

    pub open spec fn is_alarm_spec(self) -> bool {
        self == Temperature::Alarm || self == Temperature::Max_Alarm || self
            == Temperature::Min_Alarm || self == Temperature::Emergency_Alarm || self
            == Temperature::Crit_Max_Alarm || self == Temperature::Crit_Min_Alarm
    }

    pub fn scale(self) -> (r: Ratio)
        ensures
            r == self.scale_spec(),
    {
        match self {
            Temperature::Type
            | Temperature::Alarm
            | Temperature::Max_Alarm
            | Temperature::Min_Alarm
            | Temperature::Emergency_Alarm
            | Temperature::Crit_Max_Alarm
            | Temperature::Crit_Min_Alarm
            | Temperature::Fault
            | Temperature::Beep => Ratio::new_raw(1, 1),
            _ => Ratio::new_raw(1, 1000),
        }
    }

    /// Whether the subfeature kind is an alarm.
    pub fn is_alarm(self) -> (r: bool)
        ensures
            r == self.is_alarm_spec(),
    {
        match self {
            Temperature::Alarm
            | Temperature::Max_Alarm
            | Temperature::Min_Alarm
            | Temperature::Emergency_Alarm
            | Temperature::Crit_Max_Alarm
            | Temperature::Crit_Min_Alarm => true,
            _ => false,
        }
    }
}

#[allow(non_camel_case_types)]
#[derive(Clone, Copy, Debug, Eq, PartialEq, Ord, PartialOrd, Structural)]
pub enum Voltage {
    Input,
    Max,
    Min,
    Crit_Max,
    Crit_Min,
    Average,
    Highest,
    Lowest,
    Alarm,
    Max_Alarm,
    Min_Alarm,
    Crit_Max_Alarm,
    Crit_Min_Alarm,
    Beep,
}

impl Voltage {
    pub open spec fn scale_spec(self) -> Ratio {
        if self.is_alarm_spec() || self == Voltage::Beep {
            Ratio { numer: 1, denom: 1 }
        } else {
            Ratio { numer: 1, denom: 1000 }
        }
    }

    pub open spec fn is_alarm_spec(self) -> bool {
        self == Voltage::Alarm || self == Voltage::Max_Alarm || self == Voltage::Min_Alarm || self
            == Voltage::Crit_Max_Alarm || self == Voltage::Crit_Min_Alarm
    }

    pub fn scale(self) -> (r: Ratio)
        ensures
            r == self.scale_spec(),
    {
        match self {
            Voltage::Alarm
            | Voltage::Max_Alarm
            | Voltage::Min_Alarm
            | Voltage::Crit_Max_Alarm
            | Voltage::Crit_Min_Alarm
            | Voltage::Beep => Ratio::new_raw(1, 1),
            _ => Ratio::new_raw(1, 1000),
        }
    }

    /// Whether the subfeature kind is an alarm.
    pub fn is_alarm(self) -> (r: bool)
        ensures
            r == self.is_alarm_spec(),
    {
        match self {
            Voltage::Alarm
            | Voltage::Max_Alarm
            | Voltage::Min_Alarm
            | Voltage::Crit_Max_Alarm
            | Voltage::Crit_Min_Alarm => true,
            _ => false,
        }
    }
}

#[allow(non_camel_case_types)]
#[derive(Clone, Copy, Debug, Eq, PartialEq, Ord, PartialOrd, Structural)]
pub enum Current {
    Input,
    Max,
    Min,
    Crit_Max,
    Crit_Min,
    Average,
    Highest,
    Lowest,
    Alarm,
    Max_Alarm,
    Min_Alarm,
    Crit_Max_Alarm,
    Crit_Min_Alarm,
    Beep,
}

impl Current {
    pub open spec fn scale_spec(self) -> Ratio {
        if self.is_alarm_spec() || self == Current::Beep {
            Ratio { numer: 1, denom: 1 }
        } else {
            Ratio { numer: 1, denom: 1000 }
        }
    }

    pub open spec fn is_alarm_spec(self) -> bool {
        self == Current::Alarm || self == Current::Max_Alarm || self == Current::Min_Alarm || self
            == Current::Crit_Max_Alarm || self == Current::Crit_Min_Alarm
    }

    pub fn scale(self) -> (r: Ratio)
        ensures
            r == self.scale_spec(),
    {
        match self {
            Current::Alarm
            | Current::Max_Alarm
            | Current::Min_Alarm
            | Current::Crit_Max_Alarm
            | Current::Crit_Min_Alarm
            | Current::Beep => Ratio::new_raw(1, 1),
            _ => Ratio::new_raw(1, 1000),
        }
    }

    /// Whether the subfeature kind is an alarm.
    pub fn is_alarm(self) -> (r: bool)
        ensures
            r == self.is_alarm_spec(),
    {
        match self {
            Current::Alarm
            | Current::Max_Alarm
            | Current::Min_Alarm
            | Current::Crit_Max_Alarm
            | Current::Crit_Min_Alarm => true,
            _ => false,
        }
    }
}

#[allow(non_camel_case_types)]
#[derive(Clone, Copy, Debug, Eq, PartialEq, Ord, PartialOrd, Structural)]
pub enum Power {
    Average,
    Average_Highest,
    Average_Lowest,
    Input,
    Input_Highest,
    Input_Lowest,
    Cap,
    Cap_Max,
    Cap_Min,
    Cap_Hyst,
    Max,
    Min,
    Crit_Max,
    Crit_Min,
    Average_Interval,
    Average_Interval_Max,
    Average_Interval_Min,
    Accuracy,
    Alarm,
    Cap_Alarm,
    Max_Alarm,
    Min_Alarm,
    Crit_Max_Alarm,
    Crit_Min_Alarm,
}

impl Power {
    pub open spec fn scale_spec(self) -> Ratio {
        if self == Power::Average_Interval || self == Power::Average_Interval_Max || self
            == Power::Average_Interval_Min {
            Ratio { numer: 1, denom: 1000 }
        } else if self == Power::Accuracy || self.is_alarm_spec() {
            Ratio { numer: 1, denom: 1 }
        } else {
            Ratio { numer: 1, denom: 1000000 }
        }
    }

    pub open spec fn is_alarm_spec(self) -> bool {
        self == Power::Alarm || self == Power::Cap_Alarm || self == Power::Max_Alarm || self
            == Power::Min_Alarm || self == Power::Crit_Max_Alarm || self == Power::Crit_Min_Alarm
    }

    pub fn scale(self) -> (r: Ratio)
        ensures
            r == self.scale_spec(),
    {
        match self {
            Power::Average_Interval | Power::Average_Interval_Max | Power::Average_Interval_Min => {
                Ratio::new_raw(1, 1000)
            },
            Power::Accuracy
            | Power::Alarm
            | Power::Cap_Alarm
            | Power::Max_Alarm
            | Power::Min_Alarm
            | Power::Crit_Max_Alarm
            | Power::Crit_Min_Alarm => Ratio::new_raw(1, 1),
            _ => Ratio::new_raw(1, 1000000),
        }
    }

    /// Whether the subfeature kind is an alarm.
    pub fn is_alarm(self) -> (r: bool)
        ensures
            r == self.is_alarm_spec(),
    {
        match self {
            Power::Alarm
            | Power::Cap_Alarm
            | Power::Max_Alarm
            | Power::Min_Alarm
            | Power::Crit_Max_Alarm
            | Power::Crit_Min_Alarm => true,
            _ => false,
        }
    }
}

#[allow(non_camel_case_types)]
#[derive(Clone, Copy, Debug, Eq, PartialEq, Ord, PartialOrd, Structural)]
pub enum Energy {
    Input,
}

impl Energy {
    pub open spec fn scale_spec(self) -> Ratio {
        Ratio { numer: 1, denom: 1000000 }
    }

    pub open spec fn is_alarm_spec(self) -> bool {
        false
    }

    pub fn scale(self) -> (r: Ratio)
        ensures
            r == self.scale_spec(),
    {
        Ratio::new_raw(1, 1000000)
    }

    /// Whether the subfeature kind is an alarm.
    pub fn is_alarm(self) -> (r: bool)
        ensures
            r == self.is_alarm_spec(),
    {
        false
    }
}

#[allow(non_camel_case_types)]
#[derive(Clone, Copy, Debug, Eq, PartialEq, Ord, PartialOrd, Structural)]
pub enum Humidity {
    Input,
}

impl Humidity {
    pub open spec fn scale_spec(self) -> Ratio {
        Ratio { numer: 1, denom: 1000 }
    }

    pub open spec fn is_alarm_spec(self) -> bool {
        false
    }

    pub fn scale(self) -> (r: Ratio)
        ensures
            r == self.scale_spec(),
    {
        Ratio::new_raw(1, 1000)
    }

    /// Whether the subfeature kind is an alarm.
    pub fn is_alarm(self) -> (r: bool)
        ensures
            r == self.is_alarm_spec(),
    {
        false
    }
}

#[allow(non_camel_case_types)]
#[derive(Clone, Copy, Debug, Eq, PartialEq, Ord, PartialOrd, Structural)]
pub enum Intrusion {
    Alarm,
    Beep,
}

impl Intrusion {
    pub open spec fn scale_spec(self) -> Ratio {
        Ratio { numer: 1, denom: 1000000 }
    }

    pub open spec fn is_alarm_spec(self) -> bool {
        false
    }

    pub fn scale(self) -> (r: Ratio)
        ensures
            r == self.scale_spec(),
    {
        Ratio::new_raw(1, 1000000)
    }

    /// Whether the subfeature kind is an alarm.
    pub fn is_alarm(self) -> (r: bool)
        ensures
            r == self.is_alarm_spec(),
    {
        false
    }
}

// ---------------------------------------------------------------------------
// The union of all subfeature kinds
// ---------------------------------------------------------------------------

/// One concrete subfeature kind, tagged by its feature family.
#[derive(Clone, Copy, Debug, Eq, PartialEq, Ord, PartialOrd, Structural)]
pub enum SubfeatureType {
    Fan(Fan),
    Temperature(Temperature),
    Voltage(Voltage),
    Current(Current),
    Power(Power),
    Energy(Energy),
    Humidity(Humidity),
    Cpu,
    Intrusion(Intrusion),
    BeepEnable,
}

impl SubfeatureType {
    /// The exact scale of the kind: `denom / numer` converts an
    /// engineering-unit value to the raw sysfs reading.
    pub open spec fn scale_spec(self) -> Ratio {
        match self {
            SubfeatureType::Fan(t) => t.scale_spec(),
            SubfeatureType::Temperature(t) => t.scale_spec(),
            SubfeatureType::Voltage(t) => t.scale_spec(),
            SubfeatureType::Current(t) => t.scale_spec(),
            SubfeatureType::Power(t) => t.scale_spec(),
            SubfeatureType::Energy(t) => t.scale_spec(),
            SubfeatureType::Humidity(t) => t.scale_spec(),
            SubfeatureType::Intrusion(t) => t.scale_spec(),
            SubfeatureType::Cpu => Ratio { numer: 1, denom: 1000 },
            SubfeatureType::BeepEnable => Ratio { numer: 1, denom: 1 },
        }
    }

    pub open spec fn is_alarm_spec(self) -> bool {
        match self {
            SubfeatureType::Fan(t) => t.is_alarm_spec(),
            SubfeatureType::Temperature(t) => t.is_alarm_spec(),
            SubfeatureType::Voltage(t) => t.is_alarm_spec(),
            SubfeatureType::Current(t) => t.is_alarm_spec(),
            SubfeatureType::Power(t) => t.is_alarm_spec(),
            SubfeatureType::Energy(t) => t.is_alarm_spec(),
            SubfeatureType::Humidity(t) => t.is_alarm_spec(),
            SubfeatureType::Intrusion(t) => t.is_alarm_spec(),
            SubfeatureType::Cpu => false,
            SubfeatureType::BeepEnable => false,
        }
    }

    /// The exact scale of the kind.
    pub fn scale(self) -> (r: Ratio)
        ensures
            r == self.scale_spec(),
    {
        match self {
            SubfeatureType::Fan(t) => t.scale(),
            SubfeatureType::Temperature(t) => t.scale(),
            SubfeatureType::Voltage(t) => t.scale(),
            SubfeatureType::Current(t) => t.scale(),
            SubfeatureType::Power(t) => t.scale(),
            SubfeatureType::Energy(t) => t.scale(),
            SubfeatureType::Humidity(t) => t.scale(),
            SubfeatureType::Intrusion(t) => t.scale(),
            SubfeatureType::Cpu => Ratio::new_raw(1, 1000),
            SubfeatureType::BeepEnable => Ratio::new_raw(1, 1),
        }
    }

    /// Whether the subfeature kind is an alarm.
    pub fn is_alarm(self) -> (r: bool)
        ensures
            r == self.is_alarm_spec(),
    {
        match self {
            SubfeatureType::Fan(t) => t.is_alarm(),
            SubfeatureType::Temperature(t) => t.is_alarm(),
            SubfeatureType::Voltage(t) => t.is_alarm(),
            SubfeatureType::Current(t) => t.is_alarm(),
            SubfeatureType::Power(t) => t.is_alarm(),
            SubfeatureType::Energy(t) => t.is_alarm(),
            SubfeatureType::Humidity(t) => t.is_alarm(),
            SubfeatureType::Intrusion(t) => t.is_alarm(),
            SubfeatureType::Cpu => false,
            SubfeatureType::BeepEnable => false,
        }
    }
}

// ---------------------------------------------------------------------------
// Suffix tables
// ---------------------------------------------------------------------------

pub open spec fn fan_suffix_spec(s: Seq<char>) -> Option<SubfeatureType> {
    if s == "input"@ { Some(SubfeatureType::Fan(Fan::Input)) }
    else if s == "min"@ { Some(SubfeatureType::Fan(Fan::Min)) }
    else if s == "max"@ { Some(SubfeatureType::Fan(Fan::Max)) }
    else if s == "div"@ { Some(SubfeatureType::Fan(Fan::Div)) }
    else if s == "pulses"@ { Some(SubfeatureType::Fan(Fan::Pulses)) }
    else if s == "target"@ { Some(SubfeatureType::Fan(Fan::Target)) }
    else if s == "alarm"@ { Some(SubfeatureType::Fan(Fan::Alarm)) }
    else if s == "min_alarm"@ { Some(SubfeatureType::Fan(Fan::Min_Alarm)) }
    else if s == "max_alarm"@ { Some(SubfeatureType::Fan(Fan::Max_Alarm)) }
    else if s == "fault"@ { Some(SubfeatureType::Fan(Fan::Fault)) }
    else if s == "beep"@ { Some(SubfeatureType::Fan(Fan::Beep)) }
    else { None }
}

fn fan_suffix(s: &str) -> (r: Option<SubfeatureType>)
    ensures
        r == fan_suffix_spec(s@),
{
    if str_eq(s, "input") { Some(SubfeatureType::Fan(Fan::Input)) }
    else if str_eq(s, "min") { Some(SubfeatureType::Fan(Fan::Min)) }
    else if str_eq(s, "max") { Some(SubfeatureType::Fan(Fan::Max)) }
    else if str_eq(s, "div") { Some(SubfeatureType::Fan(Fan::Div)) }
    else if str_eq(s, "pulses") { Some(SubfeatureType::Fan(Fan::Pulses)) }
    else if str_eq(s, "target") { Some(SubfeatureType::Fan(Fan::Target)) }
    else if str_eq(s, "alarm") { Some(SubfeatureType::Fan(Fan::Alarm)) }
    else if str_eq(s, "min_alarm") { Some(SubfeatureType::Fan(Fan::Min_Alarm)) }
    else if str_eq(s, "max_alarm") { Some(SubfeatureType::Fan(Fan::Max_Alarm)) }
    else if str_eq(s, "fault") { Some(SubfeatureType::Fan(Fan::Fault)) }
    else if str_eq(s, "beep") { Some(SubfeatureType::Fan(Fan::Beep)) }
    else { None }
}

pub open spec fn temperature_suffix_spec(s: Seq<char>) -> Option<SubfeatureType> {
    if s == "input"@ { Some(SubfeatureType::Temperature(Temperature::Input)) }
    else if s == "max"@ { Some(SubfeatureType::Temperature(Temperature::Max)) }
    else if s == "max_hyst"@ { Some(SubfeatureType::Temperature(Temperature::Max_Hyst)) }
    else if s == "min"@ { Some(SubfeatureType::Temperature(Temperature::Min)) }
    else if s == "min_hyst"@ { Some(SubfeatureType::Temperature(Temperature::Min_Hyst)) }
    else if s == "crit"@ { Some(SubfeatureType::Temperature(Temperature::Crit_Max)) }
    else if s == "crit_hyst"@ { Some(SubfeatureType::Temperature(Temperature::Crit_Max_Hyst)) }
    else if s == "lcrit"@ { Some(SubfeatureType::Temperature(Temperature::Crit_Min)) }
    else if s == "lcrit_hyst"@ { Some(SubfeatureType::Temperature(Temperature::Crit_Min_Hyst)) }
    else if s == "emergency"@ { Some(SubfeatureType::Temperature(Temperature::Emergency)) }
    else if s == "emergency_hyst"@ { Some(SubfeatureType::Temperature(Temperature::Emergency_Hyst)) }
    else if s == "lowest"@ { Some(SubfeatureType::Temperature(Temperature::Lowest)) }
    else if s == "highest"@ { Some(SubfeatureType::Temperature(Temperature::Highest)) }
    else if s == "offset"@ { Some(SubfeatureType::Temperature(Temperature::Offset)) }
    else if s == "type"@ { Some(SubfeatureType::Temperature(Temperature::Type)) }
    else if s == "alarm"@ { Some(SubfeatureType::Temperature(Temperature::Alarm)) }
    else if s == "max_alarm"@ { Some(SubfeatureType::Temperature(Temperature::Max_Alarm)) }
    else if s == "min_alarm"@ { Some(SubfeatureType::Temperature(Temperature::Min_Alarm)) }
    else if s == "emergency_alarm"@ { Some(SubfeatureType::Temperature(Temperature::Emergency_Alarm)) }
    else if s == "crit_alarm"@ { Some(SubfeatureType::Temperature(Temperature::Crit_Max_Alarm)) }
    else if s == "lcrit_alarm"@ { Some(SubfeatureType::Temperature(Temperature::Crit_Min_Alarm)) }
    else if s == "fault"@ { Some(SubfeatureType::Temperature(Temperature::Fault)) }
    else if s == "beep"@ { Some(SubfeatureType::Temperature(Temperature::Beep)) }
    else { None }
}

fn temperature_suffix(s: &str) -> (r: Option<SubfeatureType>)
    ensures
        r == temperature_suffix_spec(s@),
{
    if str_eq(s, "input") { Some(SubfeatureType::Temperature(Temperature::Input)) }
    else if str_eq(s, "max") { Some(SubfeatureType::Temperature(Temperature::Max)) }
    else if str_eq(s, "max_hyst") { Some(SubfeatureType::Temperature(Temperature::Max_Hyst)) }
    else if str_eq(s, "min") { Some(SubfeatureType::Temperature(Temperature::Min)) }
    else if str_eq(s, "min_hyst") { Some(SubfeatureType::Temperature(Temperature::Min_Hyst)) }
    else if str_eq(s, "crit") { Some(SubfeatureType::Temperature(Temperature::Crit_Max)) }
    else if str_eq(s, "crit_hyst") { Some(SubfeatureType::Temperature(Temperature::Crit_Max_Hyst)) }
    else if str_eq(s, "lcrit") { Some(SubfeatureType::Temperature(Temperature::Crit_Min)) }
    else if str_eq(s, "lcrit_hyst") { Some(SubfeatureType::Temperature(Temperature::Crit_Min_Hyst)) }
    else if str_eq(s, "emergency") { Some(SubfeatureType::Temperature(Temperature::Emergency)) }
    else if str_eq(s, "emergency_hyst") { Some(SubfeatureType::Temperature(Temperature::Emergency_Hyst)) }
    else if str_eq(s, "lowest") { Some(SubfeatureType::Temperature(Temperature::Lowest)) }
    else if str_eq(s, "highest") { Some(SubfeatureType::Temperature(Temperature::Highest)) }
    else if str_eq(s, "offset") { Some(SubfeatureType::Temperature(Temperature::Offset)) }
    else if str_eq(s, "type") { Some(SubfeatureType::Temperature(Temperature::Type)) }
    else if str_eq(s, "alarm") { Some(SubfeatureType::Temperature(Temperature::Alarm)) }
    else if str_eq(s, "max_alarm") { Some(SubfeatureType::Temperature(Temperature::Max_Alarm)) }
    else if str_eq(s, "min_alarm") { Some(SubfeatureType::Temperature(Temperature::Min_Alarm)) }
    else if str_eq(s, "emergency_alarm") { Some(SubfeatureType::Temperature(Temperature::Emergency_Alarm)) }
    else if str_eq(s, "crit_alarm") { Some(SubfeatureType::Temperature(Temperature::Crit_Max_Alarm)) }
    else if str_eq(s, "lcrit_alarm") { Some(SubfeatureType::Temperature(Temperature::Crit_Min_Alarm)) }
    else if str_eq(s, "fault") { Some(SubfeatureType::Temperature(Temperature::Fault)) }
    else if str_eq(s, "beep") { Some(SubfeatureType::Temperature(Temperature::Beep)) }
    else { None }
}

pub open spec fn voltage_suffix_spec(s: Seq<char>) -> Option<SubfeatureType> {
    if s == "input"@ { Some(SubfeatureType::Voltage(Voltage::Input)) }
    else if s == "max"@ { Some(SubfeatureType::Voltage(Voltage::Max)) }
    else if s == "min"@ { Some(SubfeatureType::Voltage(Voltage::Min)) }
    else if s == "crit"@ { Some(SubfeatureType::Voltage(Voltage::Crit_Max)) }
    else if s == "lcrit"@ { Some(SubfeatureType::Voltage(Voltage::Crit_Min)) }
    else if s == "average"@ { Some(SubfeatureType::Voltage(Voltage::Average)) }
    else if s == "highest"@ { Some(SubfeatureType::Voltage(Voltage::Highest)) }
    else if s == "lowest"@ { Some(SubfeatureType::Voltage(Voltage::Lowest)) }
    else if s == "alarm"@ { Some(SubfeatureType::Voltage(Voltage::Alarm)) }
    else if s == "max_alarm"@ { Some(SubfeatureType::Voltage(Voltage::Max_Alarm)) }
    else if s == "min_alarm"@ { Some(SubfeatureType::Voltage(Voltage::Min_Alarm)) }
    else if s == "crit_alarm"@ { Some(SubfeatureType::Voltage(Voltage::Crit_Max_Alarm)) }
    else if s == "lcrit_alarm"@ { Some(SubfeatureType::Voltage(Voltage::Crit_Min_Alarm)) }
    else if s == "beep"@ { Some(SubfeatureType::Voltage(Voltage::Beep)) }
    else { None }
}

fn voltage_suffix(s: &str) -> (r: Option<SubfeatureType>)
    ensures
        r == voltage_suffix_spec(s@),
{
    if str_eq(s, "input") { Some(SubfeatureType::Voltage(Voltage::Input)) }
    else if str_eq(s, "max") { Some(SubfeatureType::Voltage(Voltage::Max)) }
    else if str_eq(s, "min") { Some(SubfeatureType::Voltage(Voltage::Min)) }
    else if str_eq(s, "crit") { Some(SubfeatureType::Voltage(Voltage::Crit_Max)) }
    else if str_eq(s, "lcrit") { Some(SubfeatureType::Voltage(Voltage::Crit_Min)) }
    else if str_eq(s, "average") { Some(SubfeatureType::Voltage(Voltage::Average)) }
    else if str_eq(s, "highest") { Some(SubfeatureType::Voltage(Voltage::Highest)) }
    else if str_eq(s, "lowest") { Some(SubfeatureType::Voltage(Voltage::Lowest)) }
    else if str_eq(s, "alarm") { Some(SubfeatureType::Voltage(Voltage::Alarm)) }
    else if str_eq(s, "max_alarm") { Some(SubfeatureType::Voltage(Voltage::Max_Alarm)) }
    else if str_eq(s, "min_alarm") { Some(SubfeatureType::Voltage(Voltage::Min_Alarm)) }
    else if str_eq(s, "crit_alarm") { Some(SubfeatureType::Voltage(Voltage::Crit_Max_Alarm)) }
    else if str_eq(s, "lcrit_alarm") { Some(SubfeatureType::Voltage(Voltage::Crit_Min_Alarm)) }
    else if str_eq(s, "beep") { Some(SubfeatureType::Voltage(Voltage::Beep)) }
    else { None }
}

pub open spec fn current_suffix_spec(s: Seq<char>) -> Option<SubfeatureType> {
    if s == "input"@ { Some(SubfeatureType::Current(Current::Input)) }
    else if s == "max"@ { Some(SubfeatureType::Current(Current::Max)) }
    else if s == "min"@ { Some(SubfeatureType::Current(Current::Min)) }
    else if s == "crit"@ { Some(SubfeatureType::Current(Current::Crit_Max)) }
    else if s == "lcrit"@ { Some(SubfeatureType::Current(Current::Crit_Min)) }
    else if s == "average"@ { Some(SubfeatureType::Current(Current::Average)) }
    else if s == "highest"@ { Some(SubfeatureType::Current(Current::Highest)) }
    else if s == "lowest"@ { Some(SubfeatureType::Current(Current::Lowest)) }
    else if s == "alarm"@ { Some(SubfeatureType::Current(Current::Alarm)) }
    else if s == "max_alarm"@ { Some(SubfeatureType::Current(Current::Max_Alarm)) }
    else if s == "min_alarm"@ { Some(SubfeatureType::Current(Current::Min_Alarm)) }
    else if s == "crit_alarm"@ { Some(SubfeatureType::Current(Current::Crit_Max_Alarm)) }
    else if s == "lcrit_alarm"@ { Some(SubfeatureType::Current(Current::Crit_Min_Alarm)) }
    else if s == "beep"@ { Some(SubfeatureType::Current(Current::Beep)) }
    else { None }
}

fn current_suffix(s: &str) -> (r: Option<SubfeatureType>)
    ensures
        r == current_suffix_spec(s@),
{
    if str_eq(s, "input") { Some(SubfeatureType::Current(Current::Input)) }
    else if str_eq(s, "max") { Some(SubfeatureType::Current(Current::Max)) }
    else if str_eq(s, "min") { Some(SubfeatureType::Current(Current::Min)) }
    else if str_eq(s, "crit") { Some(SubfeatureType::Current(Current::Crit_Max)) }
    else if str_eq(s, "lcrit") { Some(SubfeatureType::Current(Current::Crit_Min)) }
    else if str_eq(s, "average") { Some(SubfeatureType::Current(Current::Average)) }
    else if str_eq(s, "highest") { Some(SubfeatureType::Current(Current::Highest)) }
    else if str_eq(s, "lowest") { Some(SubfeatureType::Current(Current::Lowest)) }
    else if str_eq(s, "alarm") { Some(SubfeatureType::Current(Current::Alarm)) }
    else if str_eq(s, "max_alarm") { Some(SubfeatureType::Current(Current::Max_Alarm)) }
    else if str_eq(s, "min_alarm") { Some(SubfeatureType::Current(Current::Min_Alarm)) }
    else if str_eq(s, "crit_alarm") { Some(SubfeatureType::Current(Current::Crit_Max_Alarm)) }
    else if str_eq(s, "lcrit_alarm") { Some(SubfeatureType::Current(Current::Crit_Min_Alarm)) }
    else if str_eq(s, "beep") { Some(SubfeatureType::Current(Current::Beep)) }
    else { None }
}

pub open spec fn power_suffix_spec(s: Seq<char>) -> Option<SubfeatureType> {
    if s == "average"@ { Some(SubfeatureType::Power(Power::Average)) }
    else if s == "average_highest"@ { Some(SubfeatureType::Power(Power::Average_Highest)) }
    else if s == "average_lowest"@ { Some(SubfeatureType::Power(Power::Average_Lowest)) }
    else if s == "input"@ { Some(SubfeatureType::Power(Power::Input)) }
    else if s == "input_highest"@ { Some(SubfeatureType::Power(Power::Input_Highest)) }
    else if s == "input_lowest"@ { Some(SubfeatureType::Power(Power::Input_Lowest)) }
    else if s == "cap"@ { Some(SubfeatureType::Power(Power::Cap)) }
    else if s == "cap_max"@ { Some(SubfeatureType::Power(Power::Cap_Max)) }
    else if s == "cap_min"@ { Some(SubfeatureType::Power(Power::Cap_Min)) }
    else if s == "cap_hyst"@ { Some(SubfeatureType::Power(Power::Cap_Hyst)) }
    else if s == "max"@ { Some(SubfeatureType::Power(Power::Max)) }
    else if s == "min"@ { Some(SubfeatureType::Power(Power::Min)) }
    else if s == "crit"@ { Some(SubfeatureType::Power(Power::Crit_Max)) }
    else if s == "lcrit"@ { Some(SubfeatureType::Power(Power::Crit_Min)) }
    else if s == "average_interval"@ { Some(SubfeatureType::Power(Power::Average_Interval)) }
    else if s == "average_interval_max"@ { Some(SubfeatureType::Power(Power::Average_Interval_Max)) }
    else if s == "average_interval_min"@ { Some(SubfeatureType::Power(Power::Average_Interval_Min)) }
    else if s == "accuracy"@ { Some(SubfeatureType::Power(Power::Accuracy)) }
    else if s == "alarm"@ { Some(SubfeatureType::Power(Power::Alarm)) }
    else if s == "cap_alarm"@ { Some(SubfeatureType::Power(Power::Cap_Alarm)) }
    else if s == "max_alarm"@ { Some(SubfeatureType::Power(Power::Max_Alarm)) }
    else if s == "min_alarm"@ { Some(SubfeatureType::Power(Power::Min_Alarm)) }
    else if s == "crit_alarm"@ { Some(SubfeatureType::Power(Power::Crit_Max_Alarm)) }
    else if s == "lcrit_alarm"@ { Some(SubfeatureType::Power(Power::Crit_Min_Alarm)) }
    else { None }
}

fn power_suffix(s: &str) -> (r: Option<SubfeatureType>)
    ensures
        r == power_suffix_spec(s@),
{
    if str_eq(s, "average") { Some(SubfeatureType::Power(Power::Average)) }
    else if str_eq(s, "average_highest") { Some(SubfeatureType::Power(Power::Average_Highest)) }
    else if str_eq(s, "average_lowest") { Some(SubfeatureType::Power(Power::Average_Lowest)) }
    else if str_eq(s, "input") { Some(SubfeatureType::Power(Power::Input)) }
    else if str_eq(s, "input_highest") { Some(SubfeatureType::Power(Power::Input_Highest)) }
    else if str_eq(s, "input_lowest") { Some(SubfeatureType::Power(Power::Input_Lowest)) }
    else if str_eq(s, "cap") { Some(SubfeatureType::Power(Power::Cap)) }
    else if str_eq(s, "cap_max") { Some(SubfeatureType::Power(Power::Cap_Max)) }
    else if str_eq(s, "cap_min") { Some(SubfeatureType::Power(Power::Cap_Min)) }
    else if str_eq(s, "cap_hyst") { Some(SubfeatureType::Power(Power::Cap_Hyst)) }
    else if str_eq(s, "max") { Some(SubfeatureType::Power(Power::Max)) }
    else if str_eq(s, "min") { Some(SubfeatureType::Power(Power::Min)) }
    else if str_eq(s, "crit") { Some(SubfeatureType::Power(Power::Crit_Max)) }
    else if str_eq(s, "lcrit") { Some(SubfeatureType::Power(Power::Crit_Min)) }
    else if str_eq(s, "average_interval") { Some(SubfeatureType::Power(Power::Average_Interval)) }
    else if str_eq(s, "average_interval_max") { Some(SubfeatureType::Power(Power::Average_Interval_Max)) }
    else if str_eq(s, "average_interval_min") { Some(SubfeatureType::Power(Power::Average_Interval_Min)) }
    else if str_eq(s, "accuracy") { Some(SubfeatureType::Power(Power::Accuracy)) }
    else if str_eq(s, "alarm") { Some(SubfeatureType::Power(Power::Alarm)) }
    else if str_eq(s, "cap_alarm") { Some(SubfeatureType::Power(Power::Cap_Alarm)) }
    else if str_eq(s, "max_alarm") { Some(SubfeatureType::Power(Power::Max_Alarm)) }
    else if str_eq(s, "min_alarm") { Some(SubfeatureType::Power(Power::Min_Alarm)) }
    else if str_eq(s, "crit_alarm") { Some(SubfeatureType::Power(Power::Crit_Max_Alarm)) }
    else if str_eq(s, "lcrit_alarm") { Some(SubfeatureType::Power(Power::Crit_Min_Alarm)) }
    else { None }
}

pub open spec fn energy_suffix_spec(s: Seq<char>) -> Option<SubfeatureType> {
    if s == "input"@ { Some(SubfeatureType::Energy(Energy::Input)) }
    else { None }
}

fn energy_suffix(s: &str) -> (r: Option<SubfeatureType>)
    ensures
        r == energy_suffix_spec(s@),
{
    if str_eq(s, "input") { Some(SubfeatureType::Energy(Energy::Input)) }
    else { None }
}

pub open spec fn humidity_suffix_spec(s: Seq<char>) -> Option<SubfeatureType> {
    if s == "input"@ { Some(SubfeatureType::Humidity(Humidity::Input)) }
    else { None }
}

fn humidity_suffix(s: &str) -> (r: Option<SubfeatureType>)
    ensures
        r == humidity_suffix_spec(s@),
{
    if str_eq(s, "input") { Some(SubfeatureType::Humidity(Humidity::Input)) }
    else { None }
}

pub open spec fn intrusion_suffix_spec(s: Seq<char>) -> Option<SubfeatureType> {
    if s == "alarm"@ { Some(SubfeatureType::Intrusion(Intrusion::Alarm)) }
    else if s == "beep"@ { Some(SubfeatureType::Intrusion(Intrusion::Beep)) }
    else { None }
}

fn intrusion_suffix(s: &str) -> (r: Option<SubfeatureType>)
    ensures
        r == intrusion_suffix_spec(s@),
{
    if str_eq(s, "alarm") { Some(SubfeatureType::Intrusion(Intrusion::Alarm)) }
    else if str_eq(s, "beep") { Some(SubfeatureType::Intrusion(Intrusion::Beep)) }
    else { None }
}

pub open spec fn cpu_suffix_spec(s: Seq<char>) -> Option<SubfeatureType> {
    if s == "vid"@ { Some(SubfeatureType::Cpu) }
    else { None }
}

fn cpu_suffix(s: &str) -> (r: Option<SubfeatureType>)
    ensures
        r == cpu_suffix_spec(s@),
{
    if str_eq(s, "vid") { Some(SubfeatureType::Cpu) }
    else { None }
}

/// The fixed tag table: a feature tag together with a suffix resolves to a
/// subfeature kind, or to nothing when either is unrecognized.
pub open spec fn lookup_spec(tag: Seq<char>, suffix: Seq<char>) -> Option<SubfeatureType> {
    if tag == "temp"@ { temperature_suffix_spec(suffix) }
    else if tag == "in"@ { voltage_suffix_spec(suffix) }
    else if tag == "fan"@ { fan_suffix_spec(suffix) }
    else if tag == "cpu"@ { cpu_suffix_spec(suffix) }
    else if tag == "power"@ { power_suffix_spec(suffix) }
    else if tag == "curr"@ { current_suffix_spec(suffix) }
    else if tag == "energy"@ { energy_suffix_spec(suffix) }
    else if tag == "intrusion"@ { intrusion_suffix_spec(suffix) }
    else if tag == "humidity"@ { humidity_suffix_spec(suffix) }
    else { None }
}

/// Looks a feature tag and subfeature suffix up in the fixed tables.
pub fn lookup(tag: &str, suffix: &str) -> (r: Option<SubfeatureType>)
    ensures
        r == lookup_spec(tag@, suffix@),
{
    if str_eq(tag, "temp") { temperature_suffix(suffix) }
    else if str_eq(tag, "in") { voltage_suffix(suffix) }
    else if str_eq(tag, "fan") { fan_suffix(suffix) }
    else if str_eq(tag, "cpu") { cpu_suffix(suffix) }
    else if str_eq(tag, "power") { power_suffix(suffix) }
    else if str_eq(tag, "curr") { current_suffix(suffix) }
    else if str_eq(tag, "energy") { energy_suffix(suffix) }
    else if str_eq(tag, "intrusion") { intrusion_suffix(suffix) }
    else if str_eq(tag, "humidity") { humidity_suffix(suffix) }
    else { None }
}

// ---------------------------------------------------------------------------
// The name grammar
// ---------------------------------------------------------------------------

/// `s` decomposes as `p` non-digit characters, then `d` digits, then an
/// underscore, then an arbitrary remainder.  At most one `(p, d)` pair can
/// satisfy this.
pub open spec fn shape_decomp(s: Seq<char>, p: int, d: int) -> bool {
    &&& 0 <= p
    &&& 1 <= d
    &&& p + d < s.len()
    &&& (forall|k: int| 0 <= k < p ==> !is_dec_digit(#[trigger] s[k]))
    &&& (forall|k: int| p <= k < p + d ==> is_dec_digit(#[trigger] s[k]))
    &&& s[p + d] == '_'
}

/// `s` matches the `<non-digits><digits>_<rest>` shape.
pub open spec fn matches_shape(s: Seq<char>) -> bool {
    exists|p: int, d: int| shape_decomp(s, p, d)
}

/// The shape decomposition of a name is unique.
pub proof fn lemma_shape_decomp_unique(s: Seq<char>, p1: int, d1: int, p2: int, d2: int)
    requires
        shape_decomp(s, p1, d1),
        shape_decomp(s, p2, d2),
    ensures
        p1 == p2,
        d1 == d2,
{
    assert(is_dec_digit(s[p1]));
    assert(is_dec_digit(s[p2]));
    if d1 < d2 {
        assert(is_dec_digit(s[p1 + d1]));
    }
    if d2 < d1 {
        assert(is_dec_digit(s[p2 + d2]));
    }
}

/// What classifying an attribute file name yields: the literal
/// `beep_enable` is the index-less beep-enable switch; any other name must
/// match the shape (else `Invalid`) and carry a recognized tag, a
/// representable index, and a recognized suffix (else `Unknown`).
pub open spec fn classify_spec(s: Seq<char>) -> Result<(u32, SubfeatureType), SubfeatureError> {
    if s == "beep_enable"@ {
        Ok((0u32, SubfeatureType::BeepEnable))
    } else if matches_shape(s) {
        let (p, d) = choose|p: int, d: int| shape_decomp(s, p, d);
        if dec_seq_val(s.subrange(p, p + d)) > u32::MAX {
            Err(SubfeatureError::Unknown)
        } else {
            match lookup_spec(s.take(p), s.skip(p + d + 1)) {
                Some(t) => Ok((dec_seq_val(s.subrange(p, p + d)) as u32, t)),
                None => Err(SubfeatureError::Unknown),
            }
        }
    } else {
        Err(SubfeatureError::Invalid)
    }
}

fn char_is_dec_digit(c: char) -> (r: bool)
    ensures
        r == is_dec_digit(c),
{
    let u = c as u32;
    48 <= u && u <= 57
}

/// The index of the first decimal digit of `s`, or its length if none.
fn first_digit_index(s: &str) -> (p: usize)
    ensures
        p <= s@.len(),
        forall|k: int| 0 <= k < p ==> !is_dec_digit(#[trigger] s@[k]),
        p < s@.len() ==> is_dec_digit(s@[p as int]),
{
    let len = s.unicode_len();
    let mut p: usize = 0;
    while p < len
        invariant
            p <= len,
            len == s@.len(),
            forall|k: int| 0 <= k < p ==> !is_dec_digit(#[trigger] s@[k]),
        decreases len - p,
    {
        if char_is_dec_digit(s.get_char(p)) {
            return p;
        }
        p = p + 1;
    }
    p
}

/// The index just past the run of decimal digits of `s` that starts at
/// `start`.
fn digit_run_end(s: &str, start: usize) -> (e: usize)
    requires
        start <= s@.len(),
    ensures
        start <= e <= s@.len(),
        forall|k: int| start <= k < e ==> is_dec_digit(#[trigger] s@[k]),
        e < s@.len() ==> !is_dec_digit(s@[e as int]),
    decreases s@.len() - start,
{
    let len = s.unicode_len();
    let mut e: usize = start;
    while e < len
        invariant
            start <= e <= len,
            len == s@.len(),
            forall|k: int| start <= k < e ==> is_dec_digit(#[trigger] s@[k]),
        decreases len - e,
    {
        if !char_is_dec_digit(s.get_char(e)) {
            return e;
        }
        e = e + 1;
    }
    e
}

/// Classifies an attribute file's base name into a feature index and a
/// subfeature kind, or fails with `Invalid` for a name that does not match
/// the grammar and `Unknown` for one whose parts no table recognizes.
pub fn get_properties_from_name(name: &str) -> (r: Result<(u32, SubfeatureType), SubfeatureError>)
    ensures
        r == classify_spec(name@),
{
    if str_eq(name, "beep_enable") {
        return Ok((0, SubfeatureType::BeepEnable));
    }
    let len = name.unicode_len();
    let p = first_digit_index(name);
    if p == len {
        proof {
            assert forall|pp: int, dd: int| !shape_decomp(name@, pp, dd) by {
                if shape_decomp(name@, pp, dd) {
                    assert(is_dec_digit(name@[pp]));
                }
            }
        }
        return Err(SubfeatureError::Invalid);
    }
    let e = digit_run_end(name, p);
    assert(e > p);
    if e == len {
        proof {
            assert forall|pp: int, dd: int| !shape_decomp(name@, pp, dd) by {
                if shape_decomp(name@, pp, dd) {
                    assert(is_dec_digit(name@[pp]));
                    assert(pp == p);
                    assert(name@[pp + dd] == '_');
                    assert(is_dec_digit(name@[pp + dd]));
                }
            }
        }
        return Err(SubfeatureError::Invalid);
    }
    if name.get_char(e) != '_' {
        proof {
            assert forall|pp: int, dd: int| !shape_decomp(name@, pp, dd) by {
                if shape_decomp(name@, pp, dd) {
                    assert(is_dec_digit(name@[pp]));
                    assert(pp == p);
                    if pp + dd < e {
                        assert(is_dec_digit(name@[pp + dd]));
                    } else if pp + dd > e {
                        assert(is_dec_digit(name@[e as int]));
                    }
                }
            }
        }
        return Err(SubfeatureError::Invalid);
    }
    proof {
        assert(shape_decomp(name@, p as int, e - p));
        let (cp, cd) = choose|cp: int, cd: int| shape_decomp(name@, cp, cd);
        lemma_shape_decomp_unique(name@, cp, cd, p as int, e - p);
    }
    let digits = name.substring_char(p, e);
    let tag = name.substring_char(0, p);
    let suffix = name.substring_char(e + 1, len);
    proof {
        assert(digits@ =~= name@.subrange(p as int, e as int));
        assert(tag@ =~= name@.take(p as int));
        assert(suffix@ =~= name@.skip(e as int + 1));
    }
    let number = match parse_dec_u32(digits) {
        Some(n) => n,
        None => {
            return Err(SubfeatureError::Unknown);
        },
    };
    match lookup(tag, suffix) {
        Some(t) => Ok((number, t)),
        None => Err(SubfeatureError::Unknown),
    }
}

// ---------------------------------------------------------------------------
// The subfeature entity
// ---------------------------------------------------------------------------

/// The mathematical value of a subfeature.
pub ghost struct SubfeatureView {
    pub name: Seq<char>,
    pub path: Seq<char>,
    pub subfeature_type: SubfeatureType,
    pub compute_statement: Option<Seq<char>>,
    pub is_readable: bool,
    pub is_writable: bool,
}

/// One attribute of a feature: its sysfs file, its kind, and whether the
/// owner permission bits allow reading and writing it.
#[derive(Clone, Debug)]
pub struct Subfeature {
    name: String,
    path: String,
    subfeature_type: SubfeatureType,
    compute_statement: Option<String>,
    is_readable: bool,
    is_writable: bool,
}

impl View for Subfeature {
    type V = SubfeatureView;

    closed spec fn view(&self) -> SubfeatureView {
        SubfeatureView {
            name: self.name@,
            path: self.path@,
            subfeature_type: self.subfeature_type,
            compute_statement: match self.compute_statement {
                Some(ref c) => Some(c@),
                None => None,
            },
            is_readable: self.is_readable,
            is_writable: self.is_writable,
        }
    }
}

impl Subfeature {
    /// Subfeature name.
    pub fn name(&self) -> (r: &str)
        ensures
            r@ == self@.name,
    {
        self.name.as_str()
    }

    /// The sysfs file path.
    pub fn path(&self) -> (r: &str)
        ensures
            r@ == self@.path,
    {
        self.path.as_str()
    }

    /// The subfeature kind.
    pub fn get_type(&self) -> (r: SubfeatureType)
        ensures
            r == self@.subfeature_type,
    {
        self.subfeature_type
    }

    /// The compute statement from a configuration file, when one was
    /// attached; configuration handling is outside this crate, so discovery
    /// leaves it absent.
    pub fn compute_statement(&self) -> (r: Option<String>)
        ensures
            match r {
                Some(c) => self@.compute_statement == Some(c@),
                None => self@.compute_statement is None,
            },
    {
        match self.compute_statement {
            Some(ref c) => Some(c.clone()),
            None => None,
        }
    }

    /// Whether the subfeature is readable.
    pub fn is_readable(&self) -> (r: bool)
        ensures
            r == self@.is_readable,
    {
        self.is_readable
    }

    /// Whether the subfeature is writable.
    pub fn is_writable(&self) -> (r: bool)
        ensures
            r == self@.is_writable,
    {
        self.is_writable
    }

    /// Gate for a value read: the access error a read must fail with when
    /// the subfeature is not readable.
    pub fn check_readable(&self) -> (r: Result<(), Error>)
        ensures
            r is Ok <==> self@.is_readable,
            r matches Err(e) ==> e matches Error::Access(m) && m@ == "Subfeature not readable"@,
    {
        if self.is_readable {
            Ok(())
        } else {
            Err(Error::Access("Subfeature not readable"))
        }
    }

    /// Gate for a value write: the access error a write must fail with when
    /// the subfeature is not writable.  A permitted write is still
    /// unchecked: nothing validates the value against what the device
    /// accepts, and the caller carries that responsibility.
    pub fn check_writable(&self) -> (r: Result<(), Error>)
        ensures
            r is Ok <==> self@.is_writable,
            r matches Err(e) ==> e matches Error::Access(m) && m@ == "Subfeature not writable"@,
    {
        if self.is_writable {
            Ok(())
        } else {
            Err(Error::Access("Subfeature not writable"))
        }
    }

    /// Classifies the directory entry `file_name` of the chip directory
    /// `dir` whose owner permission bits read `readable` and `writable`,
    /// into the feature index and the subfeature entity.
    pub fn from_path(dir: &str, file_name: &str, readable: bool, writable: bool) -> (r: Result<
        (u32, Subfeature),
        SubfeatureError,
    >)
        ensures
            match r {
                Ok((number, sf)) => classify_spec(file_name@) == Ok::<
                    (u32, SubfeatureType),
                    SubfeatureError,
                >((number, sf@.subfeature_type)) && sf@ == (SubfeatureView {
                    name: file_name@,
                    path: dir@ + "/"@ + file_name@,
                    subfeature_type: sf@.subfeature_type,
                    compute_statement: None,
                    is_readable: readable,
                    is_writable: writable,
                }),
                Err(e) => classify_spec(file_name@) == Err::<(u32, SubfeatureType), _>(e),
            },
    {
        let (number, subfeature_type) = match get_properties_from_name(file_name) {
            Ok(r) => r,
            Err(e) => {
                return Err(e);
            },
        };
        let mut path = str_from(dir);
        push_char(&mut path, '/');
        path.append(file_name);
        proof {
            assert(dir@.push('/') + file_name@ =~= dir@ + "/"@ + file_name@) by {
                reveal_strlit("/");
            }
        }
        Ok(
            (
                number,
                Subfeature {
                    name: str_from(file_name),
                    path,
                    subfeature_type,
                    compute_statement: None,
                    is_readable: readable,
                    is_writable: writable,
                },
            ),
        )
    }
}

// ---------------------------------------------------------------------------
// Classification laws
// ---------------------------------------------------------------------------

/// The feature tags the fixed table recognizes.
pub open spec fn is_known_tag(tag: Seq<char>) -> bool {
    ||| tag == "temp"@
    ||| tag == "in"@
    ||| tag == "fan"@
    ||| tag == "cpu"@
    ||| tag == "power"@
    ||| tag == "curr"@
    ||| tag == "energy"@
    ||| tag == "intrusion"@
    ||| tag == "humidity"@
}

proof fn lemma_known_tag_digit_free(tag: Seq<char>)
    requires
        is_known_tag(tag),
    ensures
        tag.len() >= 1,
        forall|k: int| 0 <= k < tag.len() ==> !is_dec_digit(#[trigger] tag[k]),
{
    reveal_strlit("temp");
    reveal_strlit("in");
    reveal_strlit("fan");
    reveal_strlit("cpu");
    reveal_strlit("power");
    reveal_strlit("curr");
    reveal_strlit("energy");
    reveal_strlit("intrusion");
    reveal_strlit("humidity");
}

proof fn lemma_beep_enable_digit_free()
    ensures
        "beep_enable"@.len() == 11,
        forall|k: int| 0 <= k < 11 ==> !is_dec_digit(#[trigger] "beep_enable"@[k]),
{
    reveal_strlit("beep_enable");
}

/// Classifying the name synthesized from a recognized feature tag, an
/// index, and a suffix its table recognizes yields exactly that index and
/// the kind the tables map the pair to.
pub proof fn lemma_classify_synthesized(tag: Seq<char>, index: u32, suffix: Seq<char>)
    requires
        lookup_spec(tag, suffix) is Some,
    ensures
        classify_spec(tag + dec_str(index as nat) + "_"@ + suffix) == Ok::<
            (u32, SubfeatureType),
            SubfeatureError,
        >((index, lookup_spec(tag, suffix)->Some_0)),
{
    let digits = dec_str(index as nat);
    let s = tag + digits + "_"@ + suffix;
    let p = tag.len() as int;
    let d = digits.len() as int;
    crate::text::lemma_dec_str_digits(index as nat);
    crate::text::lemma_dec_str_val(index as nat);
    lemma_known_tag_digit_free(tag);
    reveal_strlit("_");
    assert(s.len() == p + d + 1 + suffix.len());
    assert forall|k: int| 0 <= k < p implies !is_dec_digit(#[trigger] s[k]) by {
        assert(s[k] == tag[k]);
    }
    assert forall|k: int| p <= k < p + d implies is_dec_digit(#[trigger] s[k]) by {
        assert(s[k] == digits[k - p]);
    }
    assert(s[p + d] == '_');
    assert(shape_decomp(s, p, d));
    assert(matches_shape(s));
    lemma_beep_enable_digit_free();
    if s == "beep_enable"@ {
        assert(is_dec_digit(s[p]));
        assert(false);
    }
    let (cp, cd) = choose|cp: int, cd: int| shape_decomp(s, cp, cd);
    lemma_shape_decomp_unique(s, cp, cd, p, d);
    assert(s.subrange(p, p + d) =~= digits);
    assert(s.take(p) =~= tag);
    assert(s.skip(p + d + 1) =~= suffix);
}

/// A name that matches the `<non-digits><digits>_<rest>` shape, is not the
/// literal `beep_enable`, and whose tag or suffix no table recognizes — or
/// whose index does not fit 32 bits — classifies as `Unknown`.
pub proof fn lemma_classify_shape_unknown(s: Seq<char>, p: int, d: int)
    requires
        shape_decomp(s, p, d),
        s != "beep_enable"@,
        lookup_spec(s.take(p), s.skip(p + d + 1)) is None || dec_seq_val(s.subrange(p, p + d))
            > u32::MAX,
    ensures
        classify_spec(s) == Err::<(u32, SubfeatureType), SubfeatureError>(
            SubfeatureError::Unknown,
        ),
{
    assert(matches_shape(s));
    let (cp, cd) = choose|cp: int, cd: int| shape_decomp(s, cp, cd);
    lemma_shape_decomp_unique(s, cp, cd, p, d);
}

/// A name that is not the literal `beep_enable` and does not match the
/// shape at all classifies as `Invalid`.
pub proof fn lemma_classify_invalid(s: Seq<char>)
    requires
        s != "beep_enable"@,
        !matches_shape(s),
    ensures
        classify_spec(s) == Err::<(u32, SubfeatureType), SubfeatureError>(
            SubfeatureError::Invalid,
        ),
{
}

/// The literal `beep_enable` classifies as the index-less beep-enable
/// switch, before any table is consulted.
pub proof fn lemma_classify_beep_enable()
    ensures
        classify_spec("beep_enable"@) == Ok::<(u32, SubfeatureType), SubfeatureError>(
            (0u32, SubfeatureType::BeepEnable),
        ),
{
}

/// The tables are injective: no two recognized tag-and-suffix pairs map to
/// the same subfeature kind.
pub proof fn lemma_lookup_injective(
    tag1: Seq<char>,
    suffix1: Seq<char>,
    tag2: Seq<char>,
    suffix2: Seq<char>,
)
    requires
        lookup_spec(tag1, suffix1) is Some,
        lookup_spec(tag1, suffix1) == lookup_spec(tag2, suffix2),
    ensures
        tag1 == tag2,
        suffix1 == suffix2,
{
}

/// Every subfeature kind's scale has nonzero components.
pub proof fn lemma_scale_wf(t: SubfeatureType)
    ensures
        t.scale_spec().wf(),
{
}

/// Converting a raw reading through a subfeature kind's scale to its
/// engineering-unit value and that value back to a raw reading, at exact
/// rational precision, returns the original reading.
pub proof fn lemma_subfeature_scale_round_trip(r: int, t: SubfeatureType)
    ensures
        crate::ratio::to_native_rounded(
            crate::ratio::to_unity_frac(r, t.scale_spec()).0,
            crate::ratio::to_unity_frac(r, t.scale_spec()).1,
            t.scale_spec(),
        ) == r,
{
    lemma_scale_wf(t);
    crate::ratio::lemma_scale_round_trip(r, t.scale_spec());
}

} // verus!
