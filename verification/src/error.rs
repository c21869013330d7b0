//! The error model: every fallible operation surfaces an engine status code
//! and, when one could be recovered, a human-readable message.

use vstd::prelude::*;

verus! {

/// Engine status reported when a callback asked the engine to abandon a
/// running scan.
pub const STATUS_ABORT: isize = 4;

/// Engine status reported when a required resource is locked by another
/// actor.
pub const STATUS_BUSY: isize = 5;

/// Engine status reported when a lock conflict arises inside a shared cache.
pub const STATUS_LOCKED: isize = 6;

/// Engine status reported when a parameter index lies outside the valid
/// range of a compiled statement.
pub const STATUS_RANGE: isize = 25;

/// An error carrying the engine status code, when one exists, and the
/// diagnostic message recovered at the moment of failure, when one was
/// available.
#[derive(Debug, PartialEq)]
pub struct Error {
    pub code: Option<isize>,
    pub message: Option<String>,
}

/// The message attached to a decode failure caused by a stored value whose
/// runtime type disagrees with the requested host type.
pub open spec fn mismatch_text() -> Seq<char> {
    "the stored value type does not match the requested type"@
}

/// The message attached to a decode failure caused by a column index or name
/// that does not exist.
pub open spec fn no_column_text() -> Seq<char> {
    "the column does not exist"@
}

impl Error {
    /// A bare status-code error, used when no diagnostic message could be
    /// recovered from the engine handle.
    pub fn from_code(code: isize) -> (e: Error)
        ensures
            e == (Error { code: Some(code), message: None }),
    {
        Error { code: Some(code), message: None }
    }

    /// Whether the error reports a lock conflict, so that a caller or a busy
    /// handler can choose to retry.
    pub open spec fn busy_class(self) -> bool {
        self.code == Some(STATUS_BUSY) || self.code == Some(STATUS_LOCKED)
    }

    /// Whether the error is a decode failure over a stored value whose type
    /// disagrees with the requested one.
    pub open spec fn is_type_mismatch(self) -> bool {
        &&& self.code is None
        &&& self.message matches Some(m) && m@ == mismatch_text()
    }

    /// Whether the error is a decode failure over a column that does not
    /// exist under the given index or name.
    pub open spec fn is_no_column(self) -> bool {
        &&& self.code is None
        &&& self.message matches Some(m) && m@ == no_column_text()
    }

    /// Whether the error reports a parameter index outside the statement's
    /// range.
    pub open spec fn is_bind_range(self) -> bool {
        self.code == Some(STATUS_RANGE)
    }

    pub fn is_busy(&self) -> (r: bool)
        ensures
            r == self.busy_class(),
    {
        match self.code {
            Some(code) => code == STATUS_BUSY || code == STATUS_LOCKED,
            None => false,
        }
    }

    /// The decode failure for a type disagreement.
    pub fn type_mismatch() -> (e: Error)
        ensures
            e.is_type_mismatch(),
    {
        Error {
            code: None,
            message: Some(String::from_str(
                "the stored value type does not match the requested type",
            )),
        }
    }

    /// The decode failure for a missing column.
    pub fn no_column() -> (e: Error)
        ensures
            e.is_no_column(),
    {
        Error { code: None, message: Some(String::from_str("the column does not exist")) }
    }

    /// The binding failure for a parameter index outside the valid range.
    pub fn bind_range() -> (e: Error)
        ensures
            e == (Error { code: Some(STATUS_RANGE), message: None }),
            e.is_bind_range(),
    {
        Error { code: Some(STATUS_RANGE), message: None }
    }
}

impl Clone for Error {
    fn clone(&self) -> (r: Self)
        ensures
            r == *self,
    {
        Error {
            code: match self.code {
                Some(code) => Some(code),
                None => None,
            },
            message: match &self.message {
                Some(m) => Some(m.clone()),
                None => None,
            },
        }
    }
}

} // verus!
