//! The failures that the foreign library reports, and how its status codes are
//! read.

use vstd::prelude::*;
use vstd::string::*;

use crate::raw::{
    WDI_ERROR_ACCESS, WDI_ERROR_BUSY, WDI_ERROR_INVALID_PARAM, WDI_ERROR_NOT_FOUND,
    WDI_ERROR_NO_DEVICE, WDI_ERROR_RESOURCE, WDI_SUCCESS,
};
use crate::text::{decimal, decimal_text};

verus! {

/// A failure that the foreign library reports through a status code of its own.
#[derive(Debug, Copy, Clone, PartialEq, Eq, Structural)]
#[non_exhaustive]
pub enum Error {
    /// A parameter of the call was invalid.
    InvalidParam,
    /// Access was denied: the permissions do not suffice.
    Access,
    /// A resource could not be acquired: memory, for one.
    Resource,
    /// What the call looked for was not found.
    NotFound,
    /// There is no such device: it may have been disconnected.
    NoDevice,
    /// A resource is busy, or a call into the foreign library is running.
    Busy,
}

impl Error {
    /// The status code that stands for this failure.
    pub open spec fn spec_code(self) -> i32 {
        match self {
            Error::InvalidParam => WDI_ERROR_INVALID_PARAM,
            Error::Access => WDI_ERROR_ACCESS,
            Error::Resource => WDI_ERROR_RESOURCE,
            Error::NotFound => WDI_ERROR_NOT_FOUND,
            Error::NoDevice => WDI_ERROR_NO_DEVICE,
            Error::Busy => WDI_ERROR_BUSY,
        }
    }

    /// The failure that a status code stands for, if it stands for one.
    pub open spec fn spec_from_error_code(code: i32) -> Option<Error> {
        if code == WDI_ERROR_INVALID_PARAM {
            Some(Error::InvalidParam)
        } else if code == WDI_ERROR_ACCESS {
            Some(Error::Access)
        } else if code == WDI_ERROR_RESOURCE {
            Some(Error::Resource)
        } else if code == WDI_ERROR_NO_DEVICE {
            Some(Error::NoDevice)
        } else if code == WDI_ERROR_NOT_FOUND {
            Some(Error::NotFound)
        } else if code == WDI_ERROR_BUSY {
            Some(Error::Busy)
        } else {
            None
        }
    }

    /// The status code that stands for this failure.
    #[verifier::when_used_as_spec(spec_code)]
    pub fn code(self) -> (code: i32)
        ensures
            code == self.spec_code(),
    {
        match self {
            Error::InvalidParam => WDI_ERROR_INVALID_PARAM,
            Error::Access => WDI_ERROR_ACCESS,
            Error::Resource => WDI_ERROR_RESOURCE,
            Error::NotFound => WDI_ERROR_NOT_FOUND,
            Error::NoDevice => WDI_ERROR_NO_DEVICE,
            Error::Busy => WDI_ERROR_BUSY,
        }
    }

    /// What this failure tells a reader.
    pub open spec fn text(self) -> Seq<char> {
        match self {
            Error::InvalidParam => "Invalid parameter"@,
            Error::Access => "Access denied (insufficient permissions)"@,
            Error::NoDevice => "No such device (it may have been disconnected)"@,
            Error::NotFound => "Entity not found"@,
            Error::Busy => "Resource busy, or API call already running"@,
            Error::Resource => "Could not acquire resource (insufficient memory, etc)"@,
        }
    }

    /// The failure as a text for a reader.
    pub fn to_string(&self) -> (s: String)
        ensures
            s@ == self.text(),
    {
        match self {
            Error::InvalidParam => String::from_str("Invalid parameter"),
            Error::Access => String::from_str("Access denied (insufficient permissions)"),
            Error::NoDevice => String::from_str("No such device (it may have been disconnected)"),
            Error::NotFound => String::from_str("Entity not found"),
            Error::Busy => String::from_str("Resource busy, or API call already running"),
            Error::Resource => String::from_str(
                "Could not acquire resource (insufficient memory, etc)",
            ),
        }
    }

    /// Reads a status code of the foreign library. Returns `None` for the
    /// success code and for every code that stands for no failure known here.
    pub fn from_error_code(code: i32) -> (r: Option<Error>)
        ensures
            r == Error::spec_from_error_code(code),
            r matches Some(e) ==> e.code() == code,
            code == WDI_SUCCESS ==> r is None,
    {
        if code == WDI_ERROR_INVALID_PARAM {
            Some(Error::InvalidParam)
        } else if code == WDI_ERROR_ACCESS {
            Some(Error::Access)
        } else if code == WDI_ERROR_RESOURCE {
            Some(Error::Resource)
        } else if code == WDI_ERROR_NO_DEVICE {
            Some(Error::NoDevice)
        } else if code == WDI_ERROR_NOT_FOUND {
            Some(Error::NotFound)
        } else if code == WDI_ERROR_BUSY {
            Some(Error::Busy)
        } else {
            None
        }
    }
}

/// Why a foreign call failed, as far as its status code tells.
#[derive(Debug, Copy, Clone, PartialEq, Eq, Structural)]
pub enum CallFailure {
    /// The call returned the status code of this failure.
    Known(Error),
    /// The call returned this status code, which is neither the success code
    /// nor the code of a failure known here.
    Unrecognized(i32),
}

impl CallFailure {
    /// The failure that the status code of a foreign call stands for: none
    /// for the success code, the known failure for its code, and for every
    /// other code the code itself.
    pub open spec fn spec_from_status(status: i32) -> Option<CallFailure> {
        if status == WDI_SUCCESS {
            None
        } else {
            match Error::spec_from_error_code(status) {
                Some(error) => Some(CallFailure::Known(error)),
                None => Some(CallFailure::Unrecognized(status)),
            }
        }
    }

    /// The status code that the failed call returned.
    pub open spec fn spec_status(self) -> i32 {
        match self {
            CallFailure::Known(error) => error.code(),
            CallFailure::Unrecognized(status) => status,
        }
    }

    /// Reads the status code of a foreign call: `None` for the success code
    /// and for no other, the known failure for its code, and for every other
    /// code the code itself.
    pub fn from_status(status: i32) -> (r: Option<CallFailure>)
        ensures
            r == CallFailure::spec_from_status(status),
            r is None <==> status == WDI_SUCCESS,
            r matches Some(failure) ==> failure.spec_status() == status,
    {
        if status == WDI_SUCCESS {
            None
        } else {
            match Error::from_error_code(status) {
                Some(error) => Some(CallFailure::Known(error)),
                None => Some(CallFailure::Unrecognized(status)),
            }
        }
    }

    /// What this failure tells a reader: the text of the known failure, or
    /// the status code that was not recognized.
    pub open spec fn text(self) -> Seq<char> {
        match self {
            CallFailure::Known(error) => error.text(),
            CallFailure::Unrecognized(status) => "Unrecognized status code "@ + decimal_text(
                status as int,
            ),
        }
    }

    /// The failure as a text for a reader.
    pub fn to_string(&self) -> (s: String)
        ensures
            s@ == self.text(),
    {
        match self {
            CallFailure::Known(error) => error.to_string(),
            CallFailure::Unrecognized(status) => {
                let mut s = String::from_str("Unrecognized status code ");
                s.append(decimal(*status as i64).as_str());
                s
            },
        }
    }

    /// The status code that the failed call returned.
    #[verifier::when_used_as_spec(spec_status)]
    pub fn status(self) -> (status: i32)
        ensures
            status == self.spec_status(),
    {
        match self {
            CallFailure::Known(error) => error.code(),
            CallFailure::Unrecognized(status) => status,
        }
    }
}

/// What a foreign call that hands back nothing but its status code gave:
/// success for the success code, and a failure for every other code.
pub open spec fn spec_status_result(status: i32) -> Result<(), CallFailure> {
    match CallFailure::spec_from_status(status) {
        Some(failure) => Err(failure),
        None => Ok(()),
    }
}

/// Reads the status code of a foreign call that hands back nothing else:
/// success for the success code and for no other, else the failure that
/// the code stands for.
pub fn status_result(status: i32) -> (r: Result<(), CallFailure>)
    ensures
        r == spec_status_result(status),
        r is Ok <==> status == WDI_SUCCESS,
{
    match CallFailure::from_status(status) {
        Some(failure) => Err(failure),
        None => Ok(()),
    }
}

/// Each known failure is read back from its own status code, and a status
/// code that is read as a failure is that failure's code: the six failures
/// and their codes stand one for one. The success code, and every other code
/// that is none of the six, is read as no failure.
pub proof fn lemma_error_codes(error: Error, code: i32)
    ensures
        Error::spec_from_error_code(error.code()) == Some(error),
        error.code() != WDI_SUCCESS,
        Error::spec_from_error_code(code) matches Some(read) ==> read.code() == code,
        Error::spec_from_error_code(WDI_SUCCESS) is None,
        Error::spec_from_error_code(code) is None <==> (code != WDI_ERROR_INVALID_PARAM && code
            != WDI_ERROR_ACCESS && code != WDI_ERROR_RESOURCE && code != WDI_ERROR_NOT_FOUND
            && code != WDI_ERROR_NO_DEVICE && code != WDI_ERROR_BUSY),
{
}

/// A status code is read as success only if it is the success code: a code
/// that stands for no known failure is still a failure, and keeps its
/// number.
pub proof fn lemma_unrecognized_status_fails(status: i32)
    requires
        status != WDI_SUCCESS,
        Error::spec_from_error_code(status) is None,
    ensures
        CallFailure::spec_from_status(status) == Some(CallFailure::Unrecognized(status)),
        spec_status_result(status) == Err::<(), CallFailure>(CallFailure::Unrecognized(status)),
{
}

} // verus!
