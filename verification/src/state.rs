//! The two record kinds of the service and the addresses they live at.

use vstd::prelude::*;

verus! {

/// An already-authenticated identity.  The host runtime verifies signatures
/// before it calls into this library, so an `Identity` value is taken as
/// proof of consent; the library only compares it against stored
/// `authority` fields.
pub type Identity = u64;

/// Largest number of bytes a profile name may hold.
pub const MAX_NAME_LEN: usize = 100;

/// Largest number of bytes a todo's content may hold.
pub const MAX_CONTENT_LEN: usize = 200;

/// The address of a record in the ledger.
///
/// The host derives addresses deterministically: a profile's address from a
/// fixed label plus the owner's identity, and a todo's address from a second
/// label plus the owning profile's address plus the profile's todo counter at
/// creation time.  The two labels keep the two families of addresses apart,
/// which the two variants capture; determinism and injectivity of the
/// derivation are exactly the constructors' own.
#[derive(Clone, Copy, PartialEq, Eq, Structural, Debug)]
pub enum Address {
    /// The profile record of the given owner identity.  Each owner maps to at
    /// most one profile.
    ProfileOf(Identity),
    /// The todo record created under the given owner's profile as its
    /// `index`-th todo.
    TodoOf(Identity, u64),
}

/// The address at which the profile owned by `owner` lives.
pub open spec fn spec_profile_address(owner: Identity) -> Address {
    Address::ProfileOf(owner)
}

/// Derives the address of the profile owned by `owner`.
#[verifier::when_used_as_spec(spec_profile_address)]
pub fn profile_address(owner: Identity) -> (r: Address)
    ensures
        r == spec_profile_address(owner),
{
    Address::ProfileOf(owner)
}

/// The address at which the `index`-th todo of the profile owned by `owner`
/// lives.  The index is the profile's `todo_count` at creation time, so todos
/// are addressed in strict creation order.
pub open spec fn spec_todo_address(owner: Identity, index: u64) -> Address {
    Address::TodoOf(owner, index)
}

/// Derives the address of the `index`-th todo under the profile of `owner`.
#[verifier::when_used_as_spec(spec_todo_address)]
pub fn todo_address(owner: Identity, index: u64) -> (r: Address)
    ensures
        r == spec_todo_address(owner, index),
{
    Address::TodoOf(owner, index)
}

/// The creation index a todo address carries; profile addresses carry none.
pub open spec fn todo_slot(key: Address) -> u64 {
    match key {
        Address::ProfileOf(_) => 0,
        Address::TodoOf(_, index) => index,
    }
}

/// A profile record: one per owner identity.
pub struct Profile {
    /// The record's own address, derived from `authority`.
    pub key: Address,
    /// Display name, at most [`MAX_NAME_LEN`] bytes.
    pub name: Vec<u8>,
    /// The identity permitted to mutate this profile and its todos.
    pub authority: Identity,
    /// Number of live todo records under this profile.  Creation increments
    /// it and deletion decrements it; toggling a todo's `completed` flag
    /// leaves it alone, so the counter counts live todos whether pending or
    /// complete.
    pub todo_count: u64,
}

impl Profile {
    /// What `create_profile` establishes and every operation preserves: the
    /// record sits at the address derived from its authority and its name
    /// fits the bound.
    pub open spec fn wf(self) -> bool {
        &&& self.key == spec_profile_address(self.authority)
        &&& self.name@.len() <= MAX_NAME_LEN
    }
}

/// A todo record, created under a profile.
pub struct Todo {
    /// Back-reference to the owning profile's address.  This is a lookup
    /// key, not an ownership relation.
    pub profile: Address,
    /// The todo's text, at most [`MAX_CONTENT_LEN`] bytes.
    pub content: Vec<u8>,
    /// Whether the todo has been completed.  Starts `false`.
    pub completed: bool,
}

impl Todo {
    /// What `create_todo` establishes and every operation preserves.
    pub open spec fn wf(self) -> bool {
        self.content@.len() <= MAX_CONTENT_LEN
    }
}

} // verus!
