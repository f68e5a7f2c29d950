//! The browser backends' reading of a rejected microphone request.
use vstd::prelude::*;
use crate::format::{Error, ErrorKind};
use crate::pipewire::text_eq;

verus! {

/// The kind of failure a `getUserMedia()` rejection named `name` reports.
pub open spec fn spec_user_media_error_kind(name: Option<Seq<char>>) -> ErrorKind {
    match name {
        Some(n) => if n == "NotAllowedError"@ || n == "SecurityError"@ {
            ErrorKind::PermissionDenied
        } else if n == "NotFoundError"@ {
            ErrorKind::DeviceNotAvailable
        } else if n == "OverconstrainedError"@ {
            ErrorKind::UnsupportedConfig
        } else if n == "NotReadableError"@ {
            ErrorKind::DeviceBusy
        } else if n == "TypeError"@ {
            ErrorKind::InvalidInput
        } else {
            ErrorKind::BackendError
        },
        None => ErrorKind::BackendError,
    }
}

/// What a rejection says happened: its message when it has a non-empty one, else its
/// name, else that the error is unknown.
pub open spec fn spec_user_media_detail(name: Option<Seq<char>>, message: Option<Seq<char>>) -> Seq<char> {
    match message {
        Some(m) if m.len() > 0 => m,
        _ => match name {
            Some(n) => n,
            None => "unknown error"@,
        },
    }
}

/// The library error for a `getUserMedia()` rejection whose DOMException has `name` and
/// `message`, where the browser gave them.
pub fn get_user_media_error(name: Option<&str>, message: Option<&str>) -> (e: Error)
    ensures
        e.kind == spec_user_media_error_kind(
            match name {
                Some(n) => Some(n@),
                None => None,
            },
        ),
        e.message matches Some(m) && m@ == "getUserMedia() failed: "@ + spec_user_media_detail(
            match name {
                Some(n) => Some(n@),
                None => None,
            },
            match message {
                Some(m) => Some(m@),
                None => None,
            },
        ),
{
    let kind = match name {
        Some(n) => if text_eq(n, "NotAllowedError") || text_eq(n, "SecurityError") {
            ErrorKind::PermissionDenied
        } else if text_eq(n, "NotFoundError") {
            ErrorKind::DeviceNotAvailable
        } else if text_eq(n, "OverconstrainedError") {
            ErrorKind::UnsupportedConfig
        } else if text_eq(n, "NotReadableError") {
            ErrorKind::DeviceBusy
        } else if text_eq(n, "TypeError") {
            ErrorKind::InvalidInput
        } else {
            ErrorKind::BackendError
        },
        None => ErrorKind::BackendError,
    };
    let detail: &str = match message {
        Some(m) if m.unicode_len() > 0 => m,
        _ => match name {
            Some(n) => n,
            None => "unknown error",
        },
    };
    let text = "getUserMedia() failed: ".to_owned().concat(detail);
    Error { kind, message: Some(text) }
}

} // verus!
