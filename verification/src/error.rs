//! The error taxonomy: access gating, I/O, text that fails to parse, and
//! names or devices that no rule recognizes.

use vstd::prelude::*;

use crate::bus::BusType;
use crate::text::str_from;

verus! {

/// Errors surfaced to callers of the query API.
#[derive(Debug, PartialEq, Eq)]
pub enum Error {
    /// An operation was attempted against a permission the subfeature does
    /// not have.
    Access(&'static str),
    /// An underlying filesystem operation failed.
    Io,
    /// Text that should hold a floating-point number did not parse.
    ParseFloat,
    /// Text that should hold an integer did not parse.
    ParseInt,
    /// A bus class-directory entry name did not follow its convention.
    ParseBusName(BusType),
}

impl Error {
    /// The error's display text.
    pub open spec fn message_spec(self) -> Seq<char> {
        match self {
            Error::Access(what) => "Access error: "@ + what@,
            Error::Io => "IO error"@,
            Error::ParseFloat => "ParseFloat error"@,
            Error::ParseInt => "ParseInt error"@,
            Error::ParseBusName(bus) => "Failed to parse "@ + bus.display_name_spec()
                + " bus name"@,
        }
    }

    /// The error's display text.
    pub fn message(&self) -> (r: String)
        ensures
            r@ == self.message_spec(),
    {
        match *self {
            Error::Access(what) => {
                let mut s = str_from("Access error: ");
                s.append(what);
                s
            },
            Error::Io => str_from("IO error"),
            Error::ParseFloat => str_from("ParseFloat error"),
            Error::ParseInt => str_from("ParseInt error"),
            Error::ParseBusName(bus) => {
                let mut s = str_from("Failed to parse ");
                s.append(bus.display_name());
                s.append(" bus name");
                s
            },
        }
    }
}

/// Errors of resolving one chip; they skip that chip, not the enumeration.
#[derive(Debug, PartialEq, Eq, Structural)]
pub enum ChipError {
    /// An underlying filesystem operation failed.
    Io,
    /// A device name did not follow the convention of its bus family.
    ParseBusInfo(BusType),
    /// A numeric component of a device name did not parse.
    ParseInt,
    /// The device's subsystem is not a known bus family.
    UnknownDevice,
}

impl ChipError {
    /// The error's display text.
    pub open spec fn message_spec(self) -> Seq<char> {
        match self {
            ChipError::Io => "IO error"@,
            ChipError::ParseBusInfo(bus) => "Failed to read "@ + bus.display_name_spec()
                + " bus info"@,
            ChipError::ParseInt => "ParseInt error"@,
            ChipError::UnknownDevice => "Unknown device"@,
        }
    }

    /// The error's display text.
    pub fn message(&self) -> (r: String)
        ensures
            r@ == self.message_spec(),
    {
        match *self {
            ChipError::Io => str_from("IO error"),
            ChipError::ParseBusInfo(bus) => {
                let mut s = str_from("Failed to read ");
                s.append(bus.display_name());
                s.append(" bus info");
                s
            },
            ChipError::ParseInt => str_from("ParseInt error"),
            ChipError::UnknownDevice => str_from("Unknown device"),
        }
    }
}

/// The one defect a feature can report: a subfeature pushed onto a feature
/// of another feature type.  With a correct classifier it never occurs.
#[derive(Debug, PartialEq, Eq, Structural)]
pub enum FeatureError {
    SubfeatureType,
}

impl FeatureError {
    /// The error's display text.
    pub open spec fn message_spec(self) -> Seq<char> {
        "The subfeature type does not match the feature type"@
    }

    /// The error's display text.
    pub fn message(&self) -> (r: String)
        ensures
            r@ == self.message_spec(),
    {
        str_from("The subfeature type does not match the feature type")
    }
}

/// Errors of classifying one attribute file.
#[derive(Debug, PartialEq, Eq, Structural)]
pub enum SubfeatureError {
    /// An underlying filesystem operation failed.
    Io,
    /// The file name does not match the subfeature naming shape at all.
    Invalid,
    /// The name matches the shape but no table recognizes its parts.
    Unknown,
}

impl SubfeatureError {
    /// The error's display text.
    pub open spec fn message_spec(self) -> Seq<char> {
        match self {
            SubfeatureError::Io => "IO error"@,
            SubfeatureError::Invalid => "Invalid subfeature"@,
            SubfeatureError::Unknown => "Unknown subfeature"@,
        }
    }

    /// The error's display text.
    pub fn message(&self) -> (r: String)
        ensures
            r@ == self.message_spec(),
    {
        match *self {
            SubfeatureError::Io => str_from("IO error"),
            SubfeatureError::Invalid => str_from("Invalid subfeature"),
            SubfeatureError::Unknown => str_from("Unknown subfeature"),
        }
    }
}

} // verus!
