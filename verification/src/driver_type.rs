//! The kinds of driver that the foreign library can extract, and their codes.

use vstd::prelude::*;
use vstd::std_specs::convert::TryFromSpecImpl;
use vstd::string::*;

use crate::raw::{WDI_LIBUSB0, WDI_LIBUSBK, WDI_USER, WDI_WINUSB};

verus! {

/// A kind of driver.
#[derive(Debug, Copy, Clone, PartialEq, Eq, Structural)]
pub enum DriverType {
    /// WinUSB.sys.
    WinUsb,
    /// libusb0.sys.
    Libusb0,
    /// libusbK.sys.
    LibusbK,
    /// A custom user driver.
    User,
}

/// What `DriverType::from_raw` answers to an integer that is the code of no
/// kind of driver.
#[derive(Debug, Copy, Clone, PartialEq, Eq, Structural)]
pub struct DriverTypeConversionError;

impl DriverTypeConversionError {
    /// The text that tells a reader of this error.
    pub open spec fn text() -> Seq<char> {
        "attempted to convert an invalid WDI driver type value to DriverType"@
    }

    /// The error as a text for a reader.
    pub fn to_string(&self) -> (s: String)
        ensures
            s@ == DriverTypeConversionError::text(),
    {
        String::from_str("attempted to convert an invalid WDI driver type value to DriverType")
    }
}

impl Default for DriverTypeConversionError {
    fn default() -> (r: Self)
        ensures
            r == DriverTypeConversionError,
    {
        DriverTypeConversionError
    }
}

impl DriverType {
    /// The code of this kind of driver in the foreign library.
    pub open spec fn spec_to_raw(self) -> i32 {
        match self {
            DriverType::WinUsb => WDI_WINUSB,
            DriverType::Libusb0 => WDI_LIBUSB0,
            DriverType::LibusbK => WDI_LIBUSBK,
            DriverType::User => WDI_USER,
        }
    }

    /// The kind of driver that a code of the foreign library stands for, or
    /// the conversion error where it stands for none.
    pub open spec fn spec_from_raw(raw: i32) -> Result<DriverType, DriverTypeConversionError> {
        if raw == WDI_WINUSB {
            Ok(DriverType::WinUsb)
        } else if raw == WDI_LIBUSB0 {
            Ok(DriverType::Libusb0)
        } else if raw == WDI_LIBUSBK {
            Ok(DriverType::LibusbK)
        } else if raw == WDI_USER {
            Ok(DriverType::User)
        } else {
            Err(DriverTypeConversionError)
        }
    }

    /// The code of this kind of driver in the foreign library.
    #[verifier::when_used_as_spec(spec_to_raw)]
    pub fn to_raw(self) -> (raw: i32)
        ensures
            raw == self.spec_to_raw(),
            DriverType::spec_from_raw(raw) == Ok::<DriverType, DriverTypeConversionError>(self),
    {
        match self {
            DriverType::WinUsb => WDI_WINUSB,
            DriverType::Libusb0 => WDI_LIBUSB0,
            DriverType::LibusbK => WDI_LIBUSBK,
            DriverType::User => WDI_USER,
        }
    }

    /// Reads a driver code of the foreign library. Every integer that is
    /// not the code of a kind of driver gives the conversion error.
    pub fn from_raw(raw: i32) -> (r: Result<DriverType, DriverTypeConversionError>)
        ensures
            r == DriverType::spec_from_raw(raw),
            r is Ok <==> WDI_WINUSB <= raw <= WDI_USER,
            r matches Ok(driver_type) ==> driver_type.spec_to_raw() == raw,
    {
        if raw == WDI_WINUSB {
            Ok(DriverType::WinUsb)
        } else if raw == WDI_LIBUSB0 {
            Ok(DriverType::Libusb0)
        } else if raw == WDI_LIBUSBK {
            Ok(DriverType::LibusbK)
        } else if raw == WDI_USER {
            Ok(DriverType::User)
        } else {
            Err(DriverTypeConversionError)
        }
    }
}

impl TryFrom<i32> for DriverType {
    type Error = DriverTypeConversionError;

    /// Reads a driver code of the foreign library, as `from_raw` does.
    fn try_from(other: i32) -> (r: Result<Self, Self::Error>) {
        Self::from_raw(other)
    }
}

impl TryFromSpecImpl<i32> for DriverType {
    open spec fn obeys_try_from_spec() -> bool {
        true
    }

    open spec fn try_from_spec(other: i32) -> Result<Self, Self::Error> {
        DriverType::spec_from_raw(other)
    }
}

impl Default for DriverType {
    /// WinUSB.
    fn default() -> (r: Self)
        ensures
            r == DriverType::WinUsb,
    {
        DriverType::WinUsb
    }
}

/// Each kind of driver is read back from its own code, and an integer that
/// is read as a kind of driver is that kind's code: the kinds and the codes
/// 0 to 3 stand one for one.
pub proof fn lemma_driver_type_round_trip(driver_type: DriverType, raw: i32)
    ensures
        DriverType::spec_from_raw(driver_type.spec_to_raw()) == Ok::<
            DriverType,
            DriverTypeConversionError,
        >(driver_type),
        0 <= driver_type.spec_to_raw() <= 3,
        DriverType::spec_from_raw(raw) matches Ok(read) ==> read.spec_to_raw() == raw,
        DriverType::spec_from_raw(raw) is Ok <==> 0 <= raw <= 3,
        !(0 <= raw <= 3) ==> DriverType::spec_from_raw(raw) == Err::<
            DriverType,
            DriverTypeConversionError,
        >(DriverTypeConversionError),
{
}

} // verus!
