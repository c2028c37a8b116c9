//! The failure taxonomy of the service.

use vstd::prelude::*;

verus! {

/// Every way a request can fail.  A failure aborts the whole requested
/// operation with no partial mutation; the host never retries inside this
/// library.
#[derive(Clone, Copy, PartialEq, Eq, Structural, Debug)]
pub enum AppError {
    /// `create_profile` was given a name longer than
    /// [`crate::state::MAX_NAME_LEN`] bytes.
    NameTooLong,
    /// `create_todo` or `update_todo` was given content longer than
    /// [`crate::state::MAX_CONTENT_LEN`] bytes.
    ContentTooLong,
    /// The requester is not the stored authority of the named profile.
    InvalidAuthority,
    /// The named todo's back-reference does not name the given profile.
    InvalidProfile,
    /// Decrementing a profile's todo counter would drop it below zero.
    CounterUnderflow,
    /// A record already lives at the address derived for a new record.
    DuplicateProfile,
    /// No record lives at the given address; the host's fetch fails before
    /// any rule of this library is consulted.
    RecordNotFound,
}

} // verus!
