//! The typed requests the host hands to the service, one per instruction.
//!
//! Each struct carries the requester's already-authenticated identity, the
//! addresses of the records the request names, and the request's payload.

use vstd::prelude::*;
use crate::state::{Address, Identity};

verus! {

/// Create the profile of `creator`, named `name`.
pub struct CreateProfile {
    pub creator: Identity,
    pub name: Vec<u8>,
}

/// Create a todo with `content` under the profile at `profile`.
pub struct CreateTodo {
    pub creator: Identity,
    pub profile: Address,
    pub content: Vec<u8>,
}

/// Flip the `completed` flag of the todo at `todo`.
pub struct ToggleTodo {
    pub creator: Identity,
    pub profile: Address,
    pub todo: Address,
}

/// Replace the content of the todo at `todo` with `content`.
pub struct UpdateTodo {
    pub creator: Identity,
    pub profile: Address,
    pub todo: Address,
    pub content: Vec<u8>,
}

/// Delete the todo at `todo` and reclaim its storage.
pub struct DeleteTodo {
    pub creator: Identity,
    pub profile: Address,
    pub todo: Address,
}

} // verus!
