//! The per-record operations of the service.
//!
//! Each function here works on records the host has already fetched: it
//! checks the request against the stored fields and either applies the one
//! mutation the instruction stands for or reports the first rule the request
//! breaks, leaving every record as it was.  Allocation, lookup and
//! deallocation of whole records live in [`crate::ledger`].

use vstd::prelude::*;
use crate::error::AppError;
use crate::state::{Identity, Profile, Todo, MAX_CONTENT_LEN, MAX_NAME_LEN, spec_profile_address};

verus! {

/// Builds the profile of `creator`, named `name`.
///
/// Fails with `NameTooLong` exactly when `name` is longer than
/// [`MAX_NAME_LEN`] bytes; otherwise the new profile carries the derived
/// address, `creator` as its authority, and a todo counter of zero.
pub fn create_profile(creator: Identity, name: Vec<u8>) -> (r: Result<Profile, AppError>)
    ensures
        name@.len() > MAX_NAME_LEN ==> r == Err::<Profile, AppError>(AppError::NameTooLong),
        name@.len() <= MAX_NAME_LEN ==> r == Ok::<Profile, AppError>(
            Profile {
                key: spec_profile_address(creator),
                name: name,
                authority: creator,
                todo_count: 0,
            },
        ),
{
    if name.len() > MAX_NAME_LEN {
        Err(AppError::NameTooLong)
    } else {
        Ok(Profile { key: crate::state::profile_address(creator), name, authority: creator, todo_count: 0 })
    }
}

/// Builds a todo with `content` under `profile` and counts it.
///
/// Fails with `InvalidAuthority` exactly when `requester` is not the
/// profile's authority, and otherwise with `ContentTooLong` exactly when
/// `content` is longer than [`MAX_CONTENT_LEN`] bytes; on failure the
/// profile is untouched.  On success the new todo references the profile,
/// starts pending, and the profile's todo counter grows by one.
pub fn create_todo(requester: Identity, profile: &mut Profile, content: Vec<u8>) -> (r: Result<
    Todo,
    AppError,
>)
    requires
        old(profile).todo_count < u64::MAX,
    ensures
        old(profile).authority != requester ==> r == Err::<Todo, AppError>(
            AppError::InvalidAuthority,
        ) && *final(profile) == *old(profile),
        old(profile).authority == requester && content@.len() > MAX_CONTENT_LEN ==> r == Err::<
            Todo,
            AppError,
        >(AppError::ContentTooLong) && *final(profile) == *old(profile),
        old(profile).authority == requester && content@.len() <= MAX_CONTENT_LEN ==> r == Ok::<
            Todo,
            AppError,
        >(Todo { profile: old(profile).key, content: content, completed: false }) && *final(profile)
            == (Profile {
            key: old(profile).key,
            name: old(profile).name,
            authority: old(profile).authority,
            todo_count: (old(profile).todo_count + 1) as u64,
        }),
{
    if profile.authority != requester {
        return Err(AppError::InvalidAuthority);
    }
    if content.len() > MAX_CONTENT_LEN {
        return Err(AppError::ContentTooLong);
    }
    let todo = Todo { profile: profile.key, content, completed: false };
    profile.todo_count = profile.todo_count + 1;
    Ok(todo)
}

/// Flips the `completed` flag of `todo` and returns the new value.
///
/// Fails with `InvalidAuthority` exactly when `requester` is not the
/// profile's authority, and otherwise with `InvalidProfile` exactly when the
/// todo's back-reference does not name the profile; on failure the todo is
/// untouched.  The profile's todo counter is never touched: it counts live
/// todos whether pending or complete.
pub fn toggle_todo(requester: Identity, profile: &Profile, todo: &mut Todo) -> (r: Result<
    bool,
    AppError,
>)
    ensures
        profile.authority != requester ==> r == Err::<bool, AppError>(AppError::InvalidAuthority)
            && *final(todo) == *old(todo),
        profile.authority == requester && old(todo).profile != profile.key ==> r == Err::<
            bool,
            AppError,
        >(AppError::InvalidProfile) && *final(todo) == *old(todo),
        profile.authority == requester && old(todo).profile == profile.key ==> r == Ok::<
            bool,
            AppError,
        >(!old(todo).completed) && *final(todo) == (Todo {
            profile: old(todo).profile,
            content: old(todo).content,
            completed: !old(todo).completed,
        }),
{
    if profile.authority != requester {
        return Err(AppError::InvalidAuthority);
    }
    if todo.profile != profile.key {
        return Err(AppError::InvalidProfile);
    }
    todo.completed = !todo.completed;
    Ok(todo.completed)
}

/// Replaces the content of `todo` with `content`.
///
/// Fails with `InvalidAuthority` exactly when `requester` is not the
/// profile's authority; otherwise with `InvalidProfile` exactly when the
/// todo's back-reference does not name the profile; otherwise with
/// `ContentTooLong` exactly when `content` is longer than
/// [`MAX_CONTENT_LEN`] bytes.  On failure the todo is untouched.
pub fn update_todo(
    requester: Identity,
    profile: &Profile,
    todo: &mut Todo,
    content: Vec<u8>,
) -> (r: Result<(), AppError>)
    ensures
        profile.authority != requester ==> r == Err::<(), AppError>(AppError::InvalidAuthority)
            && *final(todo) == *old(todo),
        profile.authority == requester && old(todo).profile != profile.key ==> r == Err::<
            (),
            AppError,
        >(AppError::InvalidProfile) && *final(todo) == *old(todo),
        profile.authority == requester && old(todo).profile == profile.key && content@.len()
            > MAX_CONTENT_LEN ==> r == Err::<(), AppError>(AppError::ContentTooLong) && *final(todo)
            == *old(todo),
        profile.authority == requester && old(todo).profile == profile.key && content@.len()
            <= MAX_CONTENT_LEN ==> r == Ok::<(), AppError>(()) && *final(todo) == (Todo {
            profile: old(todo).profile,
            content: content,
            completed: old(todo).completed,
        }),
{
    if profile.authority != requester {
        return Err(AppError::InvalidAuthority);
    }
    if todo.profile != profile.key {
        return Err(AppError::InvalidProfile);
    }
    if content.len() > MAX_CONTENT_LEN {
        return Err(AppError::ContentTooLong);
    }
    todo.content = content;
    Ok(())
}

/// Uncounts `todo` from `profile` ahead of the record's removal.
///
/// Fails with `InvalidAuthority` exactly when `requester` is not the
/// profile's authority; otherwise with `InvalidProfile` exactly when the
/// todo's back-reference does not name the profile; otherwise with
/// `CounterUnderflow` exactly when the profile's todo counter is already
/// zero.  On failure the profile is untouched; on success the counter
/// shrinks by one and the caller is owed the removal of the record itself.
pub fn delete_todo(requester: Identity, profile: &mut Profile, todo: &Todo) -> (r: Result<
    (),
    AppError,
>)
    ensures
        old(profile).authority != requester ==> r == Err::<(), AppError>(
            AppError::InvalidAuthority,
        ) && *final(profile) == *old(profile),
        old(profile).authority == requester && todo.profile != old(profile).key ==> r == Err::<
            (),
            AppError,
        >(AppError::InvalidProfile) && *final(profile) == *old(profile),
        old(profile).authority == requester && todo.profile == old(profile).key
            && old(profile).todo_count == 0 ==> r == Err::<(), AppError>(
            AppError::CounterUnderflow,
        ) && *final(profile) == *old(profile),
        old(profile).authority == requester && todo.profile == old(profile).key
            && old(profile).todo_count > 0 ==> r == Ok::<(), AppError>(()) && *final(profile)
            == (Profile {
            key: old(profile).key,
            name: old(profile).name,
            authority: old(profile).authority,
            todo_count: (old(profile).todo_count - 1) as u64,
        }),
{
    if profile.authority != requester {
        return Err(AppError::InvalidAuthority);
    }
    if todo.profile != profile.key {
        return Err(AppError::InvalidProfile);
    }
    if profile.todo_count == 0 {
        return Err(AppError::CounterUnderflow);
    }
    profile.todo_count = profile.todo_count - 1;
    Ok(())
}

} // verus!
