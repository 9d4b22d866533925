//! The status of the exchange's service.

use vstd::prelude::*;

verus! {

/// Whether the exchange takes orders.
#[derive(Clone, Copy, Debug, PartialEq, Eq, Structural)]
pub enum Status {
    Open,
    Close,
    CancelOnly,
}

/// The rendering of a status.
pub open spec fn status_text(s: Status) -> Seq<char> {
    match s {
        Status::Open => "OPEN"@,
        Status::Close => "CLOSE"@,
        Status::CancelOnly => "CANCEL ONLY"@,
    }
}

impl Status {
    /// `OPEN`, `CLOSE` or `CANCEL ONLY` (`Display`).
    pub fn to_string(&self) -> (s: String)
        ensures
            s@ == status_text(*self),
    {
        match self {
            Status::Open => String::from_str("OPEN"),
            Status::Close => String::from_str("CLOSE"),
            Status::CancelOnly => String::from_str("CANCEL ONLY"),
        }
    }
}

} // verus!
