//! The closed error model of the boundary.
//!
//! Every boundary-crossing operation reports success as status `0` and failure
//! as a small negative integer naming one of the error kinds below.  When a
//! failure carries a platform error number, that number travels alongside the
//! kind in [`crossterm_stream_error`] so a caller can publish it through an
//! errno-style side channel.

use vstd::prelude::*;

verus! {

/// The closed enumeration of failure kinds.
///
/// The integer value of each kind (see [`crossterm_error::code`]) is part of
/// the stable wire contract: `0` success, `1` undefined, `2` other,
/// `3` OS error, `4` invalid argument.
#[allow(non_camel_case_types)]
#[derive(Debug, Clone, Copy, PartialEq, Eq, Structural)]
pub enum crossterm_error {
    CROSSTERM_SUCCESS,
    CROSSTERM_EUNDEF,
    CROSSTERM_EOTHER,
    CROSSTERM_EOS,
    CROSSTERM_EINVAL,
}

/// The wire integer of an error kind.
pub open spec fn error_code_spec(e: crossterm_error) -> int {
    match e {
        crossterm_error::CROSSTERM_SUCCESS => 0,
        crossterm_error::CROSSTERM_EUNDEF => 1,
        crossterm_error::CROSSTERM_EOTHER => 2,
        crossterm_error::CROSSTERM_EOS => 3,
        crossterm_error::CROSSTERM_EINVAL => 4,
    }
}

impl crossterm_error {
    /// The wire integer of this error kind.
    pub fn code(&self) -> (r: i32)
        ensures
            r == error_code_spec(*self),
    {
        match self {
            crossterm_error::CROSSTERM_SUCCESS => 0,
            crossterm_error::CROSSTERM_EUNDEF => 1,
            crossterm_error::CROSSTERM_EOTHER => 2,
            crossterm_error::CROSSTERM_EOS => 3,
            crossterm_error::CROSSTERM_EINVAL => 4,
        }
    }

    /// The static rendering of this error kind, where one exists.
    ///
    /// The OS-error and invalid-argument kinds defer to the platform's own
    /// error-to-string facility (applied to the published error number and to
    /// the platform's invalid-argument number respectively), so they have no
    /// static rendering here and yield `None`.
    pub fn strerror_static(&self) -> (r: Option<&'static str>)
        ensures
            *self == crossterm_error::CROSSTERM_SUCCESS ==> (r matches Some(s) && s@ == "success"@),
            *self == crossterm_error::CROSSTERM_EOS ==> r is None,
            *self == crossterm_error::CROSSTERM_EINVAL ==> r is None,
            *self == crossterm_error::CROSSTERM_EUNDEF || *self == crossterm_error::CROSSTERM_EOTHER
                ==> (r matches Some(s) && s@ == "undefined error"@),
    {
        match self {
            crossterm_error::CROSSTERM_SUCCESS => Some("success"),
            crossterm_error::CROSSTERM_EOS => None,
            crossterm_error::CROSSTERM_EINVAL => None,
            _ => Some("undefined error"),
        }
    }
}

/// A failure surfaced by an operation: an error kind plus the platform error
/// number to publish, or `0` when the failure publishes none.
#[allow(non_camel_case_types)]
#[derive(Debug, Clone, Copy, PartialEq, Eq, Structural)]
pub struct crossterm_stream_error {
    pub kind: crossterm_error,
    pub errno: i32,
}

/// A failure never carries the success kind, and only the kinds that publish
/// a platform error number carry one.
pub open spec fn stream_error_wf(e: crossterm_stream_error) -> bool {
    &&& e.kind != crossterm_error::CROSSTERM_SUCCESS
    &&& (e.kind == crossterm_error::CROSSTERM_EUNDEF || e.kind == crossterm_error::CROSSTERM_EINVAL
        ==> e.errno == 0)
}

/// What a boundary-crossing operation reports.
pub type CrosstermResult = Result<(), crossterm_stream_error>;

/// The integer status of an operation's outcome: `0` on success, the negated
/// wire integer of the error kind on failure.
pub fn status_of(r: &CrosstermResult) -> (s: i32)
    ensures
        *r is Ok ==> s == 0,
        *r matches Err(e) ==> s == -error_code_spec(e.kind),
{
    match r {
        Ok(()) => 0,
        Err(e) => {
            let c = e.kind.code();
            -c
        },
    }
}

/// What the library reads of a platform I/O failure: the raw OS error number
/// if the failure carries one, and otherwise whether the failure is of the
/// catch-all "other" kind.
#[derive(Debug, Clone, Copy, PartialEq, Eq, Structural)]
pub struct IoFailure {
    pub raw_os_error: Option<i32>,
    pub is_other_kind: bool,
}

/// Translates a platform I/O failure into the closed error model.
///
/// A failure with a raw OS error number becomes the OS-error kind and
/// publishes that number; a failure of the "other" kind becomes the other
/// kind; anything else becomes the undefined kind.  Nothing but an OS error
/// publishes an error number.
pub fn error_from_io(f: &IoFailure) -> (r: crossterm_stream_error)
    ensures
        stream_error_wf(r),
        f.raw_os_error matches Some(n) ==> r.kind == crossterm_error::CROSSTERM_EOS && r.errno == n,
        f.raw_os_error is None && f.is_other_kind ==> r.kind == crossterm_error::CROSSTERM_EOTHER
            && r.errno == 0,
        f.raw_os_error is None && !f.is_other_kind ==> r.kind == crossterm_error::CROSSTERM_EUNDEF
            && r.errno == 0,
{
    match f.raw_os_error {
        Some(n) => crossterm_stream_error { kind: crossterm_error::CROSSTERM_EOS, errno: n },
        None => {
            if f.is_other_kind {
                crossterm_stream_error { kind: crossterm_error::CROSSTERM_EOTHER, errno: 0 }
            } else {
                crossterm_stream_error { kind: crossterm_error::CROSSTERM_EUNDEF, errno: 0 }
            }
        },
    }
}

} // verus!
