//! Error values of the library.

use vstd::prelude::*;

use crate::text::{parse_u32, parse_u32_spec};

verus! {

/// A KuCoin system code, as carried in every response envelope
/// (`200000` means success).
#[derive(Clone, Copy, Debug, PartialEq, Eq, Structural, Hash)]
pub struct SystemCode(pub u32);

/// Why a value could not be read as a system code.
#[derive(Clone, Copy, Debug, PartialEq, Eq, Structural)]
pub enum SystemCodeError {
    /// The text is not an unsigned 32-bit integer.
    NotAnInteger,
    /// The number does not fit in 32 bits.
    OutOfRange,
}

impl SystemCode {
    /// The success code.
    pub fn success() -> (c: SystemCode)
        ensures
            c.0 == 200000,
    {
        SystemCode(200000)
    }

    /// A code given as a number: any value that fits in 32 bits.
    pub fn from_u64(v: u64) -> (r: Result<SystemCode, SystemCodeError>)
        ensures
            v <= u32::MAX ==> r == Ok::<SystemCode, SystemCodeError>(SystemCode(v as u32)),
            v > u32::MAX ==> r == Err::<SystemCode, SystemCodeError>(SystemCodeError::OutOfRange),
    {
        if v > 4294967295u64 {
            Err(SystemCodeError::OutOfRange)
        } else {
            Ok(SystemCode(v as u32))
        }
    }

    /// A code given as text: what `u32::from_str` accepts.
    pub fn from_text(s: &str) -> (r: Result<SystemCode, SystemCodeError>)
        ensures
            match parse_u32_spec(s@) {
                Some(n) => r == Ok::<SystemCode, SystemCodeError>(SystemCode(n)),
                None => r == Err::<SystemCode, SystemCodeError>(SystemCodeError::NotAnInteger),
            },
    {
        match parse_u32(s) {
            Some(n) => Ok(SystemCode(n)),
            None => Err(SystemCodeError::NotAnInteger),
        }
    }
}

/// An error the KuCoin service reported: its code and message.
#[derive(Clone, Debug)]
pub struct SystemError {
    pub code: SystemCode,
    pub msg: String,
}

/// Errors of the library.
///
/// The variants whose cause is an I/O or encoding library carry that cause's
/// message as text.
#[derive(Debug)]
pub enum Error {
    BadRequest { source: SystemError },
    Forbidden { source: SystemError },
    HttpRequest { reason: String },
    IncorrectContentType { source: SystemError },
    InternalServer { source: SystemError },
    JsonEncoding { reason: String },
    MethodNotAllowed { source: SystemError },
    NotFound { source: SystemError },
    Parse { reason: String },
    ResponseDecoding { resp_json: String, reason: String },
    ServiceUnavailable { source: SystemError },
    TooManyRequests { source: SystemError },
    Unauthorized { source: SystemError },
    UnexpectedStatus { status: u16, source: SystemError },
    UrlEncoding { reason: String },
    Websocket { reason: String },
    WebsocketClosed,
    WebsocketMessageDecoding { reason: String },
    WebsocketUnavailable,
}

} // verus!
