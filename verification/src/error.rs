//! The error taxonomy shared by every component.

use vstd::prelude::*;

use crate::ids::{QuestId, UserId};

verus! {

/// Everything that can go wrong in the core.
///
/// Transport and storage failures reach the core only as plain values, so the
/// variants carry plain data: the offending username, or a short diagnostic
/// string supplied by the caller that drove the I/O.
#[derive(Debug)]
pub enum Error {
    /// A collaborator answered, but not in the agreed shape.
    InvalidResponse,
    /// A collaborator could not be reached at all.
    ServerUnreachable,
    /// Derived state contradicts itself (e.g. hashing failed for a stored salt).
    IncoherentState,
    /// The caller is not allowed to perform the action.
    Unauthorized,
    /// The broker or storage transport failed mid-operation; the detail text
    /// comes from the caller that drove the I/O.
    Transport(String),
    /// The given username does not satisfy the username rules.
    InvalidUsername(String),
    /// The generator program for `quest` exited non-zero while producing
    /// content for `user`; `exit_code` is `None` when a signal killed it.
    QuestContextGeneratorFailed { quest: QuestId, user: UserId, exit_code: Option<i32> },
    /// A mutation committed, but publishing its derived events failed. The
    /// mutation is deliberately not rolled back — event delivery is
    /// best-effort, at-least-once notification — and this variant keeps the
    /// failure distinguishable from the mutation's own failures.
    EventPublishFailed,
}

impl Error {
    /// True for the variant that reports a rejected username.
    pub fn is_invalid_username(&self) -> (r: bool)
        ensures
            r == (self is InvalidUsername),
    {
        match self {
            Error::InvalidUsername(_) => true,
            _ => false,
        }
    }
}

} // verus!
