//! Errors surfaced by control-plane operations.

use vstd::prelude::*;

verus! {

/// What can go wrong while driving the control channel.
///
/// Driver rejections arrive as negative completion results; the raw code is
/// carried in [`Error::Io`] so callers can render or match on it.  A full
/// submission queue is reported separately because the single-in-flight
/// protocol should make it unreachable.
#[derive(Debug, Clone, Copy, PartialEq, Eq, Structural)]
pub enum Error {
    /// The ring's submission queue had no free slot.
    FullSubmissionQueue,
    /// The driver rejected the command; `errno` is the positive OS error code.
    Io { errno: i32 },
}

impl Error {
    /// True when the error is a driver rejection carrying `errno`.
    pub fn is_os_error(&self, errno: i32) -> (r: bool)
        ensures
            r == (*self == (Error::Io { errno })),
    {
        match self {
            Error::Io { errno: e } => *e == errno,
            Error::FullSubmissionQueue => false,
        }
    }
}

} // verus!
