//! COM bookkeeping for WASAPI: which `CoInitializeEx` results leave COM usable and need
//! undoing, the error kinds that WASAPI's failure codes stand for, and property keys.
use vstd::prelude::*;
use crate::format::{Error, ErrorKind};
use crate::wasapi_format::AUDCLNT_E_DEVICE_INVALIDATED;
use crate::text::{decimal_text, spec_decimal, trim_end, trimmed_end};
use vstd::string::StrSliceExecFns;

verus! {

/// `HRESULT` of a `CoInitializeEx` on a thread already initialized in another mode.
pub const RPC_E_CHANGED_MODE: i32 = -2147417850;

pub const AUDCLNT_E_NOT_INITIALIZED: i32 = -2004287487;

pub const AUDCLNT_E_ALREADY_INITIALIZED: i32 = -2004287486;

pub const AUDCLNT_E_WRONG_ENDPOINT_TYPE: i32 = -2004287485;

pub const AUDCLNT_E_NOT_STOPPED: i32 = -2004287483;

pub const AUDCLNT_E_UNSUPPORTED_FORMAT: i32 = -2004287480;

pub const AUDCLNT_E_DEVICE_IN_USE: i32 = -2004287478;

pub const AUDCLNT_E_EXCLUSIVE_MODE_NOT_ALLOWED: i32 = -2004287474;

pub const AUDCLNT_E_ENDPOINT_CREATE_FAILED: i32 = -2004287473;

pub const AUDCLNT_E_SERVICE_NOT_RUNNING: i32 = -2004287472;

pub const AUDCLNT_E_EXCLUSIVE_MODE_ONLY: i32 = -2004287470;

pub const AUDCLNT_E_BUFFER_SIZE_ERROR: i32 = -2004287466;

pub const AUDCLNT_E_BUFFER_SIZE_NOT_ALIGNED: i32 = -2004287463;

pub const AUDCLNT_E_INVALID_DEVICE_PERIOD: i32 = -2004287456;

pub const AUDCLNT_E_RESOURCES_INVALIDATED: i32 = -2004287450;

/// Proof that COM was initialized on this thread, holding the initializing call's result.
#[derive(Clone, Copy, Debug, PartialEq, Eq, Structural)]
pub struct ComInitialized {
    pub result: i32,
}

/// Whether a `CoInitializeEx` result leaves COM usable on the thread: success, or COM
/// already initialized in the other threading mode.
pub open spec fn spec_com_usable(result: i32) -> bool {
    result >= 0 || result == RPC_E_CHANGED_MODE
}

/// The guard for a thread whose `CoInitializeEx` returned `result`, or `None` when COM
/// failed in a way that leaves it unusable.
pub fn com_initialized(result: i32) -> (g: Option<ComInitialized>)
    ensures
        spec_com_usable(result) <==> g is Some,
        g matches Some(c) ==> c.result == result,
{
    if result >= 0 || result == RPC_E_CHANGED_MODE {
        Some(ComInitialized { result })
    } else {
        None
    }
}

impl ComInitialized {
    /// Whether dropping the guard must undo the initialization: only a call that succeeded
    /// is balanced by `CoUninitialize`.
    pub fn needs_uninitialize(&self) -> (b: bool)
        ensures
            b == (self.result >= 0),
    {
        self.result >= 0
    }
}

/// The broad kind of failure a WASAPI `HRESULT` reports.
pub open spec fn spec_error_kind(hr: i32) -> ErrorKind {
    if hr == AUDCLNT_E_SERVICE_NOT_RUNNING {
        ErrorKind::HostUnavailable
    } else if hr == AUDCLNT_E_DEVICE_INVALIDATED || hr == AUDCLNT_E_ENDPOINT_CREATE_FAILED {
        ErrorKind::DeviceNotAvailable
    } else if hr == AUDCLNT_E_DEVICE_IN_USE {
        ErrorKind::DeviceBusy
    } else if hr == AUDCLNT_E_RESOURCES_INVALIDATED {
        ErrorKind::StreamInvalidated
    } else if hr == AUDCLNT_E_UNSUPPORTED_FORMAT || hr == AUDCLNT_E_BUFFER_SIZE_NOT_ALIGNED || hr
        == AUDCLNT_E_BUFFER_SIZE_ERROR || hr == AUDCLNT_E_INVALID_DEVICE_PERIOD || hr
        == AUDCLNT_E_EXCLUSIVE_MODE_ONLY || hr == AUDCLNT_E_EXCLUSIVE_MODE_NOT_ALLOWED {
        ErrorKind::UnsupportedConfig
    } else if hr == AUDCLNT_E_WRONG_ENDPOINT_TYPE || hr == AUDCLNT_E_ALREADY_INITIALIZED || hr
        == AUDCLNT_E_NOT_INITIALIZED || hr == AUDCLNT_E_NOT_STOPPED {
        ErrorKind::UnsupportedOperation
    } else {
        ErrorKind::BackendError
    }
}

/// The broad kind of failure a WASAPI `HRESULT` reports.
pub fn error_kind(hr: i32) -> (k: ErrorKind)
    ensures
        k == spec_error_kind(hr),
{
    if hr == AUDCLNT_E_SERVICE_NOT_RUNNING {
        ErrorKind::HostUnavailable
    } else if hr == AUDCLNT_E_DEVICE_INVALIDATED || hr == AUDCLNT_E_ENDPOINT_CREATE_FAILED {
        ErrorKind::DeviceNotAvailable
    } else if hr == AUDCLNT_E_DEVICE_IN_USE {
        ErrorKind::DeviceBusy
    } else if hr == AUDCLNT_E_RESOURCES_INVALIDATED {
        ErrorKind::StreamInvalidated
    } else if hr == AUDCLNT_E_UNSUPPORTED_FORMAT || hr == AUDCLNT_E_BUFFER_SIZE_NOT_ALIGNED || hr
        == AUDCLNT_E_BUFFER_SIZE_ERROR || hr == AUDCLNT_E_INVALID_DEVICE_PERIOD || hr
        == AUDCLNT_E_EXCLUSIVE_MODE_ONLY || hr == AUDCLNT_E_EXCLUSIVE_MODE_NOT_ALLOWED {
        ErrorKind::UnsupportedConfig
    } else if hr == AUDCLNT_E_WRONG_ENDPOINT_TYPE || hr == AUDCLNT_E_ALREADY_INITIALIZED || hr
        == AUDCLNT_E_NOT_INITIALIZED || hr == AUDCLNT_E_NOT_STOPPED {
        ErrorKind::UnsupportedOperation
    } else {
        ErrorKind::BackendError
    }
}

/// The library error for a failed WASAPI call: the kind its `HRESULT` reports and the
/// system's description `message`.
pub fn error_from_hresult(hr: i32, message: &str) -> (e: Error)
    ensures
        e.kind == spec_error_kind(hr),
        e.message matches Some(m) && m@ == message@,
{
    Error::with_message(error_kind(hr), message)
}

/// A COM GUID.
#[derive(Clone, Copy, Debug)]
pub struct Guid {
    pub data1: u32,
    pub data2: u16,
    pub data3: u16,
    pub data4: [u8; 8],
}

/// The key of a device property: the property set's GUID and the property's number in it.
#[allow(non_camel_case_types)]
#[derive(Clone, Copy, Debug)]
pub struct PROPERTYKEY {
    pub fmtid: Guid,
    pub pid: u32,
}

/// The decimal text of `n`: its digits, after a minus sign when it is negative.
pub open spec fn spec_signed_decimal(n: int) -> Seq<char> {
    if n < 0 {
        seq!['-'] + spec_decimal((-n) as nat)
    } else {
        spec_decimal(n as nat)
    }
}

/// The decimal text of `n`, as `Display` writes an integer: a minus sign before the digits
/// of a negative number.
fn signed_decimal_text(n: i32) -> (s: String)
    ensures
        s@ == spec_signed_decimal(n as int),
{
    if n < 0 {
        let magnitude: u32 = (0i64 - n as i64) as u32;
        proof {
            reveal_strlit("-");
        }
        let text = "-".to_owned().concat(decimal_text(magnitude).as_str());
        assert("-"@ =~= seq!['-']);
        text
    } else {
        decimal_text(n as u32)
    }
}

/// The details a restricted error object gives: the code it describes, its message and its
/// fallback description.
pub struct RestrictedErrorDetails {
    pub code: i32,
    pub message: String,
    pub fallback: String,
}

/// What the system left behind to describe a failure.
pub enum ErrorReport {
    /// An error object was set for the thread: its restricted details where the object has
    /// them, and its description where it gave one.
    ErrorInfo { restricted: Option<RestrictedErrorDetails>, description: Option<String> },
    /// No error object was set: the system's message for the failure code, where it has one.
    System(Option<String>),
}

/// The text describing failure `e` from `report`: the restricted message, or its fallback
/// when the message is empty, when the restricted details describe `e`; else the error
/// object's description, or nothing; without an error object, the system's message without
/// trailing white space followed by the code in decimal, or the code alone.
pub open spec fn spec_error_message(e: i32, report: ErrorReport) -> Seq<char> {
    match report {
        ErrorReport::ErrorInfo { restricted, description } => match restricted {
            Some(r) if r.code == e => if r.message@.len() == 0 {
                r.fallback@
            } else {
                r.message@
            },
            _ => match description {
                Some(d) => d@,
                None => Seq::empty(),
            },
        },
        ErrorReport::System(text) => match text {
            Some(t) => trim_end(t@) + spec_signed_decimal(e as int),
            None => spec_signed_decimal(e as int),
        },
    }
}

/// The message reported for failure `e`, from what the system left behind.
pub fn error_message(e: i32, report: ErrorReport) -> (s: String)
    ensures
        s@ == spec_error_message(e, report),
{
    match report {
        ErrorReport::ErrorInfo { restricted, description } => {
            match restricted {
                Some(r) => {
                    if r.code == e {
                        if r.message.as_str().unicode_len() == 0 {
                            return r.fallback;
                        } else {
                            return r.message;
                        }
                    }
                },
                None => {},
            }
            match description {
                Some(d) => d,
                None => String::new(),
            }
        },
        ErrorReport::System(text) => match text {
            Some(t) => trimmed_end(t.as_str()).to_owned().concat(signed_decimal_text(e).as_str()),
            None => signed_decimal_text(e),
        },
    }
}

} // verus!
