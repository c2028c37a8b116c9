//! The mathematical model of the record store.
//!
//! [`LedgerState`] is the view of [`crate::ledger::Ledger`]: two sequences of
//! records.  The spec functions here say what each instruction does to a
//! state — [`spec_create_profile`] and friends are the reference the
//! executable methods are proved against — and [`ledger_wf`] is the
//! invariant every reachable state satisfies.

use vstd::prelude::*;
use crate::error::AppError;
use crate::state::{
    Address, Identity, Profile, Todo, MAX_CONTENT_LEN, MAX_NAME_LEN, spec_profile_address,
    spec_todo_address, todo_slot,
};

verus! {

/// A snapshot of the record store: every live profile and, for each live
/// todo, the address it was allocated at together with the record.
#[verifier::ext_equal]
pub struct LedgerState {
    pub profiles: Seq<Profile>,
    pub todos: Seq<(Address, Todo)>,
}

/// Whether a profile record lives at `key`.
pub open spec fn has_profile(profiles: Seq<Profile>, key: Address) -> bool {
    exists|i: int| 0 <= i < profiles.len() && (#[trigger] profiles[i]).key == key
}

/// The position of the profile record at `key`.
pub open spec fn profile_index(profiles: Seq<Profile>, key: Address) -> int {
    choose|i: int| 0 <= i < profiles.len() && (#[trigger] profiles[i]).key == key
}

/// The profile record at `key`.
pub open spec fn profile_at(profiles: Seq<Profile>, key: Address) -> Profile {
    profiles[profile_index(profiles, key)]
}

/// Whether a todo record lives at `key`.
pub open spec fn has_todo(todos: Seq<(Address, Todo)>, key: Address) -> bool {
    exists|i: int| 0 <= i < todos.len() && (#[trigger] todos[i]).0 == key
}

/// The position of the todo record at `key`.
pub open spec fn todo_index(todos: Seq<(Address, Todo)>, key: Address) -> int {
    choose|i: int| 0 <= i < todos.len() && (#[trigger] todos[i]).0 == key
}

/// The todo record at `key`.
pub open spec fn todo_at(todos: Seq<(Address, Todo)>, key: Address) -> Todo {
    todos[todo_index(todos, key)].1
}

/// How many live todos reference the profile at `profile`.
pub open spec fn live_count(todos: Seq<(Address, Todo)>, profile: Address) -> nat
    decreases todos.len(),
{
    if todos.len() == 0 {
        0
    } else {
        live_count(todos.drop_last(), profile) + if todos.last().1.profile == profile {
            1nat
        } else {
            0nat
        }
    }
}

/// A todo's address carries the owner whose profile the record references.
pub open spec fn todo_key_wf(key: Address, todo: Todo) -> bool {
    match key {
        Address::ProfileOf(_) => false,
        Address::TodoOf(owner, _) => todo.profile == spec_profile_address(owner),
    }
}

/// Every profile is well formed and no two live at the same address.
pub open spec fn profiles_wf(profiles: Seq<Profile>) -> bool {
    &&& forall|i: int| 0 <= i < profiles.len() ==> (#[trigger] profiles[i]).wf()
    &&& forall|i: int, j: int|
        #![trigger profiles[i], profiles[j]]
        0 <= i < j < profiles.len() ==> profiles[i].key != profiles[j].key
}

/// The invariant of every reachable ledger state: profiles are well formed
/// and distinct; every todo is well formed, sits at an address derived from
/// the profile it references, and that profile lives; no two todos share an
/// address; and every profile's counter equals the number of live todos
/// referencing it.
pub open spec fn ledger_wf(s: LedgerState) -> bool {
    &&& profiles_wf(s.profiles)
    &&& forall|i: int|
        0 <= i < s.todos.len() ==> (#[trigger] s.todos[i]).1.wf() && todo_key_wf(
            s.todos[i].0,
            s.todos[i].1,
        ) && has_profile(s.profiles, s.todos[i].1.profile)
    &&& forall|i: int, j: int|
        #![trigger s.todos[i], s.todos[j]]
        0 <= i < j < s.todos.len() ==> s.todos[i].0 != s.todos[j].0
    &&& forall|i: int|
        0 <= i < s.profiles.len() ==> (#[trigger] s.profiles[i]).todo_count as nat == live_count(
            s.todos,
            s.profiles[i].key,
        )
}

/// There is exactly one profile at a key once `profiles_wf` holds, so any
/// index that matches is the chosen one.
pub proof fn lemma_profile_index_is(profiles: Seq<Profile>, key: Address, i: int)
    requires
        profiles_wf(profiles),
        0 <= i < profiles.len(),
        profiles[i].key == key,
    ensures
        has_profile(profiles, key),
        profile_index(profiles, key) == i,
        profile_at(profiles, key) == profiles[i],
{
    assert(has_profile(profiles, key));
    let j = profile_index(profiles, key);
    if i < j {
        assert(profiles[i].key != profiles[j].key);
    } else if j < i {
        assert(profiles[j].key != profiles[i].key);
    }
}

/// There is exactly one todo at a key once the keys are distinct, so any
/// index that matches is the chosen one.
pub proof fn lemma_todo_index_is(todos: Seq<(Address, Todo)>, key: Address, i: int)
    requires
        forall|p: int, q: int|
            #![trigger todos[p], todos[q]]
            0 <= p < q < todos.len() ==> todos[p].0 != todos[q].0,
        0 <= i < todos.len(),
        todos[i].0 == key,
    ensures
        has_todo(todos, key),
        todo_index(todos, key) == i,
        todo_at(todos, key) == todos[i].1,
{
    assert(has_todo(todos, key));
    let j = todo_index(todos, key);
    if i < j {
        assert(todos[i].0 != todos[j].0);
    } else if j < i {
        assert(todos[j].0 != todos[i].0);
    }
}

/// The counter a sequence yields never exceeds its length.
pub proof fn lemma_live_count_le_len(todos: Seq<(Address, Todo)>, profile: Address)
    ensures
        live_count(todos, profile) <= todos.len(),
    decreases todos.len(),
{
    if todos.len() > 0 {
        lemma_live_count_le_len(todos.drop_last(), profile);
    }
}

/// Appending one todo grows the count of the profile it references by one
/// and leaves every other profile's count alone.
pub proof fn lemma_live_count_push(
    todos: Seq<(Address, Todo)>,
    entry: (Address, Todo),
    profile: Address,
)
    ensures
        live_count(todos.push(entry), profile) == live_count(todos, profile) + if entry.1.profile
            == profile {
            1nat
        } else {
            0nat
        },
{
    assert(todos.push(entry).drop_last() =~= todos);
    assert(todos.push(entry).last() == entry);
}

/// Replacing a todo with one that references the same profiles leaves every
/// count alone.
pub proof fn lemma_live_count_update(
    todos: Seq<(Address, Todo)>,
    i: int,
    entry: (Address, Todo),
    profile: Address,
)
    requires
        0 <= i < todos.len(),
        (todos[i].1.profile == profile) == (entry.1.profile == profile),
    ensures
        live_count(todos.update(i, entry), profile) == live_count(todos, profile),
    decreases todos.len(),
{
    if i == todos.len() - 1 {
        assert(todos.update(i, entry).drop_last() =~= todos.drop_last());
        assert(todos.update(i, entry).last() == entry);
    } else {
        assert(todos.update(i, entry).drop_last() =~= todos.drop_last().update(i, entry));
        assert(todos.update(i, entry).last() == todos.last());
        lemma_live_count_update(todos.drop_last(), i, entry, profile);
    }
}

/// Removing one todo shrinks the count of the profile it references by one
/// and leaves every other profile's count alone.
pub proof fn lemma_live_count_remove(todos: Seq<(Address, Todo)>, i: int, profile: Address)
    requires
        0 <= i < todos.len(),
    ensures
        live_count(todos, profile) == live_count(todos.remove(i), profile) + if todos[i].1.profile
            == profile {
            1nat
        } else {
            0nat
        },
    decreases todos.len(),
{
    if i == todos.len() - 1 {
        assert(todos.remove(i) =~= todos.drop_last());
    } else {
        assert(todos.remove(i).drop_last() =~= todos.drop_last().remove(i));
        assert(todos.remove(i).last() == todos.last());
        lemma_live_count_remove(todos.drop_last(), i, profile);
    }
}

/// A profile no live todo references has a count of zero.
pub proof fn lemma_live_count_none(todos: Seq<(Address, Todo)>, profile: Address)
    requires
        forall|i: int| 0 <= i < todos.len() ==> (#[trigger] todos[i]).1.profile != profile,
    ensures
        live_count(todos, profile) == 0,
    decreases todos.len(),
{
    if todos.len() > 0 {
        lemma_live_count_none(todos.drop_last(), profile);
    }
}

/// A profile some live todo references has a positive count.
pub proof fn lemma_live_count_pos(todos: Seq<(Address, Todo)>, i: int, profile: Address)
    requires
        0 <= i < todos.len(),
        todos[i].1.profile == profile,
    ensures
        live_count(todos, profile) >= 1,
{
    lemma_live_count_remove(todos, i, profile);
}

/// What `create_profile` does to a state: fails with `DuplicateProfile` when
/// a record already lives at the derived address, with `NameTooLong` when
/// the name is over the bound, and otherwise appends the new profile.
pub open spec fn spec_create_profile(s: LedgerState, creator: Identity, name: Vec<u8>) -> (
    LedgerState,
    Result<Address, AppError>,
) {
    let key = spec_profile_address(creator);
    if has_profile(s.profiles, key) {
        (s, Err(AppError::DuplicateProfile))
    } else if name@.len() > MAX_NAME_LEN {
        (s, Err(AppError::NameTooLong))
    } else {
        let p = Profile { key, name, authority: creator, todo_count: 0 };
        (LedgerState { profiles: s.profiles.push(p), todos: s.todos }, Ok(key))
    }
}

/// What `create_todo` does to a state: the profile must live and `requester`
/// must be its authority; the derived address must be free and the content
/// within its bound; then the new todo is appended, pending, and the
/// profile's counter grows by one.
pub open spec fn spec_create_todo(
    s: LedgerState,
    requester: Identity,
    profile: Address,
    content: Vec<u8>,
) -> (LedgerState, Result<Address, AppError>) {
    if !has_profile(s.profiles, profile) {
        (s, Err(AppError::RecordNotFound))
    } else {
        let pi = profile_index(s.profiles, profile);
        let p = s.profiles[pi];
        if p.authority != requester {
            (s, Err(AppError::InvalidAuthority))
        } else {
            let key = spec_todo_address(p.authority, p.todo_count);
            if has_todo(s.todos, key) {
                (s, Err(AppError::DuplicateProfile))
            } else if content@.len() > MAX_CONTENT_LEN {
                (s, Err(AppError::ContentTooLong))
            } else {
                let todo = Todo { profile, content, completed: false };
                let p2 = Profile {
                    key: p.key,
                    name: p.name,
                    authority: p.authority,
                    todo_count: (p.todo_count + 1) as u64,
                };
                (
                    LedgerState {
                        profiles: s.profiles.update(pi, p2),
                        todos: s.todos.push((key, todo)),
                    },
                    Ok(key),
                )
            }
        }
    }
}

/// What `toggle_todo` does to a state: both records must live, `requester`
/// must be the profile's authority and the todo must reference the profile;
/// then its `completed` flag flips and the new value is returned.  The
/// profile's counter is never touched.
pub open spec fn spec_toggle_todo(
    s: LedgerState,
    requester: Identity,
    profile: Address,
    todo: Address,
) -> (LedgerState, Result<bool, AppError>) {
    if !has_profile(s.profiles, profile) {
        (s, Err(AppError::RecordNotFound))
    } else if !has_todo(s.todos, todo) {
        (s, Err(AppError::RecordNotFound))
    } else {
        let p = profile_at(s.profiles, profile);
        let ti = todo_index(s.todos, todo);
        let t = s.todos[ti].1;
        if p.authority != requester {
            (s, Err(AppError::InvalidAuthority))
        } else if t.profile != profile {
            (s, Err(AppError::InvalidProfile))
        } else {
            let t2 = Todo { profile: t.profile, content: t.content, completed: !t.completed };
            (
                LedgerState { profiles: s.profiles, todos: s.todos.update(ti, (todo, t2)) },
                Ok(!t.completed),
            )
        }
    }
}

/// What `update_todo` does to a state: the same checks as `toggle_todo`,
/// then the content bound; then the todo's content is replaced.
pub open spec fn spec_update_todo(
    s: LedgerState,
    requester: Identity,
    profile: Address,
    todo: Address,
    content: Vec<u8>,
) -> (LedgerState, Result<(), AppError>) {
    if !has_profile(s.profiles, profile) {
        (s, Err(AppError::RecordNotFound))
    } else if !has_todo(s.todos, todo) {
        (s, Err(AppError::RecordNotFound))
    } else {
        let p = profile_at(s.profiles, profile);
        let ti = todo_index(s.todos, todo);
        let t = s.todos[ti].1;
        if p.authority != requester {
            (s, Err(AppError::InvalidAuthority))
        } else if t.profile != profile {
            (s, Err(AppError::InvalidProfile))
        } else if content@.len() > MAX_CONTENT_LEN {
            (s, Err(AppError::ContentTooLong))
        } else {
            let t2 = Todo { profile: t.profile, content, completed: t.completed };
            (LedgerState { profiles: s.profiles, todos: s.todos.update(ti, (todo, t2)) }, Ok(()))
        }
    }
}

/// What `delete_todo` does to a state: the same checks as `toggle_todo`;
/// then the profile's counter must be positive, the todo record is removed
/// and the counter shrinks by one.
pub open spec fn spec_delete_todo(
    s: LedgerState,
    requester: Identity,
    profile: Address,
    todo: Address,
) -> (LedgerState, Result<(), AppError>) {
    if !has_profile(s.profiles, profile) {
        (s, Err(AppError::RecordNotFound))
    } else if !has_todo(s.todos, todo) {
        (s, Err(AppError::RecordNotFound))
    } else {
        let pi = profile_index(s.profiles, profile);
        let p = s.profiles[pi];
        let ti = todo_index(s.todos, todo);
        let t = s.todos[ti].1;
        if p.authority != requester {
            (s, Err(AppError::InvalidAuthority))
        } else if t.profile != profile {
            (s, Err(AppError::InvalidProfile))
        } else if p.todo_count == 0 {
            (s, Err(AppError::CounterUnderflow))
        } else {
            let p2 = Profile {
                key: p.key,
                name: p.name,
                authority: p.authority,
                todo_count: (p.todo_count - 1) as u64,
            };
            (
                LedgerState { profiles: s.profiles.update(pi, p2), todos: s.todos.remove(ti) },
                Ok(()),
            )
        }
    }
}

/// `create_profile` preserves the ledger invariant.
pub proof fn lemma_create_profile_wf(s: LedgerState, creator: Identity, name: Vec<u8>)
    requires
        ledger_wf(s),
    ensures
        ledger_wf(spec_create_profile(s, creator, name).0),
{
    let key = spec_profile_address(creator);
    if !has_profile(s.profiles, key) && name@.len() <= MAX_NAME_LEN {
        let p = Profile { key, name, authority: creator, todo_count: 0 };
        let s1 = spec_create_profile(s, creator, name).0;
        assert(s1.profiles =~= s.profiles.push(p));
        assert forall|i: int|
            0 <= i < s1.todos.len() implies (#[trigger] s1.todos[i]).1.wf() && todo_key_wf(
            s1.todos[i].0,
            s1.todos[i].1,
        ) && has_profile(s1.profiles, s1.todos[i].1.profile) by {
            let w = choose|w: int|
                0 <= w < s.profiles.len() && (#[trigger] s.profiles[w]).key
                    == s.todos[i].1.profile;
            assert(s1.profiles[w].key == s1.todos[i].1.profile);
        }
        assert forall|i: int| 0 <= i < s.todos.len() implies (#[trigger] s.todos[i]).1.profile
            != key by {
            if s.todos[i].1.profile == key {
                assert(has_profile(s.profiles, key));
            }
        }
        lemma_live_count_none(s.todos, key);
        assert forall|i: int|
            0 <= i < s1.profiles.len() implies (#[trigger] s1.profiles[i]).todo_count as nat
            == live_count(s1.todos, s1.profiles[i].key) by {
            if i < s.profiles.len() {
                assert(s1.profiles[i] == s.profiles[i]);
            }
        }
    }
}

/// `create_todo` preserves the ledger invariant.  The bound on the todo
/// store keeps the counter increment from wrapping; a real store never
/// reaches it.
pub proof fn lemma_create_todo_wf(
    s: LedgerState,
    requester: Identity,
    profile: Address,
    content: Vec<u8>,
)
    requires
        ledger_wf(s),
        s.todos.len() < u64::MAX,
    ensures
        ledger_wf(spec_create_todo(s, requester, profile, content).0),
{
    if has_profile(s.profiles, profile) {
        let pi = profile_index(s.profiles, profile);
        let p = s.profiles[pi];
        let key = spec_todo_address(p.authority, p.todo_count);
        if p.authority == requester && !has_todo(s.todos, key) && content@.len()
            <= MAX_CONTENT_LEN {
            let todo = Todo { profile, content, completed: false };
            let p2 = Profile {
                key: p.key,
                name: p.name,
                authority: p.authority,
                todo_count: (p.todo_count + 1) as u64,
            };
            let s1 = spec_create_todo(s, requester, profile, content).0;
            assert(s1.profiles =~= s.profiles.update(pi, p2));
            assert(s1.todos =~= s.todos.push((key, todo)));
            lemma_live_count_le_len(s.todos, p.key);
            assert(p.todo_count < u64::MAX);
            assert forall|i: int|
                0 <= i < s1.todos.len() implies (#[trigger] s1.todos[i]).1.wf() && todo_key_wf(
                s1.todos[i].0,
                s1.todos[i].1,
            ) && has_profile(s1.profiles, s1.todos[i].1.profile) by {
                if i < s.todos.len() {
                    let w = choose|w: int|
                        0 <= w < s.profiles.len() && (#[trigger] s.profiles[w]).key
                            == s.todos[i].1.profile;
                    assert(s1.profiles[w].key == s1.todos[i].1.profile);
                } else {
                    assert(s1.todos[i] == (key, todo));
                    assert(p.wf());
                    assert(profile == p.key);
                    assert(s1.profiles[pi].key == profile);
                }
            }
            assert forall|i: int|
                0 <= i < s1.profiles.len() implies (#[trigger] s1.profiles[i]).todo_count as nat
                == live_count(s1.todos, s1.profiles[i].key) by {
                lemma_live_count_push(s.todos, (key, todo), s1.profiles[i].key);
                if i != pi {
                    assert(s1.profiles[i] == s.profiles[i]);
                    assert(s.profiles[i].key != p.key);
                    assert(todo.profile == p.key);
                } else {
                    assert(s1.profiles[i] == p2);
                    assert(todo.profile == p.key);
                }
            }
        }
    }
}

/// `toggle_todo` preserves the ledger invariant.
pub proof fn lemma_toggle_todo_wf(
    s: LedgerState,
    requester: Identity,
    profile: Address,
    todo: Address,
)
    requires
        ledger_wf(s),
    ensures
        ledger_wf(spec_toggle_todo(s, requester, profile, todo).0),
{
    if has_profile(s.profiles, profile) && has_todo(s.todos, todo) {
        let p = profile_at(s.profiles, profile);
        let ti = todo_index(s.todos, todo);
        let t = s.todos[ti].1;
        if p.authority == requester && t.profile == profile {
            let t2 = Todo { profile: t.profile, content: t.content, completed: !t.completed };
            let s1 = spec_toggle_todo(s, requester, profile, todo).0;
            assert(s1.todos =~= s.todos.update(ti, (todo, t2)));
            assert(s.todos[ti].0 == todo);
            assert forall|i: int|
                0 <= i < s1.todos.len() implies (#[trigger] s1.todos[i]).1.wf() && todo_key_wf(
                s1.todos[i].0,
                s1.todos[i].1,
            ) && has_profile(s1.profiles, s1.todos[i].1.profile) by {
                if i != ti {
                    assert(s1.todos[i] == s.todos[i]);
                }
            }
            assert forall|i: int|
                0 <= i < s1.profiles.len() implies (#[trigger] s1.profiles[i]).todo_count as nat
                == live_count(s1.todos, s1.profiles[i].key) by {
                lemma_live_count_update(s.todos, ti, (todo, t2), s1.profiles[i].key);
            }
        }
    }
}

/// `update_todo` preserves the ledger invariant.
pub proof fn lemma_update_todo_wf(
    s: LedgerState,
    requester: Identity,
    profile: Address,
    todo: Address,
    content: Vec<u8>,
)
    requires
        ledger_wf(s),
    ensures
        ledger_wf(spec_update_todo(s, requester, profile, todo, content).0),
{
    if has_profile(s.profiles, profile) && has_todo(s.todos, todo) {
        let p = profile_at(s.profiles, profile);
        let ti = todo_index(s.todos, todo);
        let t = s.todos[ti].1;
        if p.authority == requester && t.profile == profile && content@.len() <= MAX_CONTENT_LEN {
            let t2 = Todo { profile: t.profile, content, completed: t.completed };
            let s1 = spec_update_todo(s, requester, profile, todo, content).0;
            assert(s1.todos =~= s.todos.update(ti, (todo, t2)));
            assert(s.todos[ti].0 == todo);
            assert forall|i: int|
                0 <= i < s1.todos.len() implies (#[trigger] s1.todos[i]).1.wf() && todo_key_wf(
                s1.todos[i].0,
                s1.todos[i].1,
            ) && has_profile(s1.profiles, s1.todos[i].1.profile) by {
                if i != ti {
                    assert(s1.todos[i] == s.todos[i]);
                }
            }
            assert forall|i: int|
                0 <= i < s1.profiles.len() implies (#[trigger] s1.profiles[i]).todo_count as nat
                == live_count(s1.todos, s1.profiles[i].key) by {
                lemma_live_count_update(s.todos, ti, (todo, t2), s1.profiles[i].key);
            }
        }
    }
}

/// `delete_todo` preserves the ledger invariant.
pub proof fn lemma_delete_todo_wf(
    s: LedgerState,
    requester: Identity,
    profile: Address,
    todo: Address,
)
    requires
        ledger_wf(s),
    ensures
        ledger_wf(spec_delete_todo(s, requester, profile, todo).0),
{
    if has_profile(s.profiles, profile) && has_todo(s.todos, todo) {
        let pi = profile_index(s.profiles, profile);
        let p = s.profiles[pi];
        let ti = todo_index(s.todos, todo);
        let t = s.todos[ti].1;
        if p.authority == requester && t.profile == profile && p.todo_count > 0 {
            let p2 = Profile {
                key: p.key,
                name: p.name,
                authority: p.authority,
                todo_count: (p.todo_count - 1) as u64,
            };
            let s1 = spec_delete_todo(s, requester, profile, todo).0;
            assert(s1.profiles =~= s.profiles.update(pi, p2));
            assert(s1.todos =~= s.todos.remove(ti));
            assert forall|i: int|
                0 <= i < s1.todos.len() implies (#[trigger] s1.todos[i]).1.wf() && todo_key_wf(
                s1.todos[i].0,
                s1.todos[i].1,
            ) && has_profile(s1.profiles, s1.todos[i].1.profile) by {
                let oi = if i < ti {
                    i
                } else {
                    i + 1
                };
                assert(s1.todos[i] == s.todos[oi]);
                let w = choose|w: int|
                    0 <= w < s.profiles.len() && (#[trigger] s.profiles[w]).key
                        == s.todos[oi].1.profile;
                assert(s1.profiles[w].key == s1.todos[i].1.profile);
            }
            assert forall|i: int, j: int|
                #![trigger s1.todos[i], s1.todos[j]]
                0 <= i < j < s1.todos.len() implies s1.todos[i].0 != s1.todos[j].0 by {
                let oi = if i < ti {
                    i
                } else {
                    i + 1
                };
                let oj = if j < ti {
                    j
                } else {
                    j + 1
                };
                assert(s1.todos[i] == s.todos[oi]);
                assert(s1.todos[j] == s.todos[oj]);
            }
            assert forall|i: int|
                0 <= i < s1.profiles.len() implies (#[trigger] s1.profiles[i]).todo_count as nat
                == live_count(s1.todos, s1.profiles[i].key) by {
                lemma_live_count_remove(s.todos, ti, s1.profiles[i].key);
                if i != pi {
                    assert(s1.profiles[i] == s.profiles[i]);
                    assert(s.profiles[i].key != p.key);
                    assert(t.profile == p.key);
                } else {
                    assert(s1.profiles[i] == p2);
                    assert(t.profile == p.key);
                }
            }
        }
    }
}

} // verus!
