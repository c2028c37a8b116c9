//! Properties that relate several operations of the service.
//!
//! Each lemma here is stated over the transitions of [`crate::model`], which
//! the methods of [`crate::ledger::Ledger`] are proved to implement exactly,
//! so each holds of the executable service as well.

use vstd::prelude::*;
use crate::error::AppError;
use crate::model::{
    LedgerState, has_profile, has_todo, ledger_wf, lemma_create_todo_wf, lemma_live_count_le_len,
    lemma_live_count_pos, lemma_profile_index_is, lemma_todo_index_is, profile_at, profile_index,
    spec_create_profile, spec_create_todo, spec_delete_todo, spec_toggle_todo, spec_update_todo,
    todo_at, todo_index,
};
use crate::state::{
    Address, Identity, Profile, Todo, MAX_CONTENT_LEN, MAX_NAME_LEN, spec_profile_address,
    spec_todo_address, todo_slot,
};

verus! {

/// Creating a profile with a name within the bound, at a free address,
/// always succeeds, and the new record starts with a todo counter of zero.
pub proof fn lemma_create_profile_succeeds(s: LedgerState, creator: Identity, name: Vec<u8>)
    requires
        !has_profile(s.profiles, spec_profile_address(creator)),
        name@.len() <= MAX_NAME_LEN,
    ensures
        ({
            let (s1, r) = spec_create_profile(s, creator, name);
            let key = spec_profile_address(creator);
            &&& r == Ok::<Address, AppError>(key)
            &&& has_profile(s1.profiles, key)
            &&& profile_at(s1.profiles, key) == (Profile {
                key,
                name,
                authority: creator,
                todo_count: 0,
            })
        }),
{
    let key = spec_profile_address(creator);
    let p = Profile { key, name, authority: creator, todo_count: 0 };
    let s1 = spec_create_profile(s, creator, name).0;
    let n = s.profiles.len() as int;
    assert(s1.profiles[n] == p);
    assert(has_profile(s1.profiles, key));
    let j = profile_index(s1.profiles, key);
    if j < n {
        assert(s.profiles[j].key == key);
        assert(has_profile(s.profiles, key));
    }
}

/// Creating a profile with a name over the bound fails with `NameTooLong`
/// and creates no record.
pub proof fn lemma_create_profile_rejects_long_name(
    s: LedgerState,
    creator: Identity,
    name: Vec<u8>,
)
    requires
        !has_profile(s.profiles, spec_profile_address(creator)),
        name@.len() > MAX_NAME_LEN,
    ensures
        spec_create_profile(s, creator, name) == (s, Err::<Address, AppError>(
            AppError::NameTooLong,
        )),
{
}

/// A `create_todo` request by anyone but the profile's authority fails with
/// `InvalidAuthority` and creates nothing.
pub proof fn lemma_create_todo_requires_authority(
    s: LedgerState,
    requester: Identity,
    profile: Address,
    content: Vec<u8>,
)
    requires
        has_profile(s.profiles, profile),
        profile_at(s.profiles, profile).authority != requester,
    ensures
        spec_create_todo(s, requester, profile, content) == (s, Err::<Address, AppError>(
            AppError::InvalidAuthority,
        )),
{
}

/// Deleting a todo and then deleting it again fails the second time — the
/// record is gone — and the second request changes nothing, so the profile's
/// counter is not decremented twice.
pub proof fn lemma_delete_todo_twice_fails(
    s: LedgerState,
    requester: Identity,
    profile: Address,
    todo: Address,
)
    requires
        ledger_wf(s),
        spec_delete_todo(s, requester, profile, todo).1 == Ok::<(), AppError>(()),
    ensures
        ({
            let s1 = spec_delete_todo(s, requester, profile, todo).0;
            spec_delete_todo(s1, requester, profile, todo) == (s1, Err::<(), AppError>(
                AppError::RecordNotFound,
            ))
        }),
{
    let s1 = spec_delete_todo(s, requester, profile, todo).0;
    let pi = profile_index(s.profiles, profile);
    let ti = todo_index(s.todos, todo);
    assert(s1.todos =~= s.todos.remove(ti));
    assert(s1.profiles[pi].key == profile);
    assert(has_profile(s1.profiles, profile));
    assert forall|i: int| 0 <= i < s1.todos.len() implies (#[trigger] s1.todos[i]).0 != todo by {
        let oi = if i < ti {
            i
        } else {
            i + 1
        };
        assert(s1.todos[i] == s.todos[oi]);
        if oi < ti {
            assert(s.todos[oi].0 != s.todos[ti].0);
        } else {
            assert(s.todos[ti].0 != s.todos[oi].0);
        }
    }
    assert(!has_todo(s1.todos, todo));
}

/// Toggling a todo twice returns its `completed` flag, and with it the whole
/// store, to where it started; both requests succeed and report the flag
/// they produced.
pub proof fn lemma_toggle_todo_round_trip(
    s: LedgerState,
    requester: Identity,
    profile: Address,
    todo: Address,
)
    requires
        ledger_wf(s),
        has_profile(s.profiles, profile),
        profile_at(s.profiles, profile).authority == requester,
        has_todo(s.todos, todo),
        todo_at(s.todos, todo).profile == profile,
    ensures
        ({
            let (s1, r1) = spec_toggle_todo(s, requester, profile, todo);
            let (s2, r2) = spec_toggle_todo(s1, requester, profile, todo);
            &&& r1 == Ok::<bool, AppError>(!todo_at(s.todos, todo).completed)
            &&& r2 == Ok::<bool, AppError>(todo_at(s.todos, todo).completed)
            &&& s2 == s
        }),
{
    let ti = todo_index(s.todos, todo);
    let t = s.todos[ti].1;
    let t2 = Todo { profile: t.profile, content: t.content, completed: !t.completed };
    let (s1, r1) = spec_toggle_todo(s, requester, profile, todo);
    assert(s1.todos =~= s.todos.update(ti, (todo, t2)));
    assert forall|p: int, q: int|
        #![trigger s1.todos[p], s1.todos[q]]
        0 <= p < q < s1.todos.len() implies s1.todos[p].0 != s1.todos[q].0 by {
        assert(s1.todos[p].0 == s.todos[p].0);
        assert(s1.todos[q].0 == s.todos[q].0);
    }
    lemma_todo_index_is(s1.todos, todo, ti);
    let (s2, r2) = spec_toggle_todo(s1, requester, profile, todo);
    let t3 = Todo { profile: t2.profile, content: t2.content, completed: !t2.completed };
    assert(t3 == t);
    assert(s2.todos =~= s.todos);
    assert(s2 =~= s);
}

/// A failed request never mutates the store: whichever rule a request
/// breaks, the state it leaves is the state it found.
pub proof fn lemma_failed_requests_change_nothing(
    s: LedgerState,
    requester: Identity,
    profile: Address,
    todo: Address,
    payload: Vec<u8>,
)
    ensures
        spec_create_profile(s, requester, payload).1 is Err ==> spec_create_profile(
            s,
            requester,
            payload,
        ).0 == s,
        spec_create_todo(s, requester, profile, payload).1 is Err ==> spec_create_todo(
            s,
            requester,
            profile,
            payload,
        ).0 == s,
        spec_toggle_todo(s, requester, profile, todo).1 is Err ==> spec_toggle_todo(
            s,
            requester,
            profile,
            todo,
        ).0 == s,
        spec_update_todo(s, requester, profile, todo, payload).1 is Err ==> spec_update_todo(
            s,
            requester,
            profile,
            todo,
            payload,
        ).0 == s,
        spec_delete_todo(s, requester, profile, todo).1 is Err ==> spec_delete_todo(
            s,
            requester,
            profile,
            todo,
        ).0 == s,
{
}

/// In a well-formed store the delete-below-zero case is unreachable: while
/// a todo lives, its profile's counter counts it, so the counter is
/// positive whenever the other checks pass.
pub proof fn lemma_delete_todo_never_underflows(
    s: LedgerState,
    requester: Identity,
    profile: Address,
    todo: Address,
)
    requires
        ledger_wf(s),
    ensures
        spec_delete_todo(s, requester, profile, todo).1 != Err::<(), AppError>(
            AppError::CounterUnderflow,
        ),
{
    if has_profile(s.profiles, profile) && has_todo(s.todos, todo) {
        let pi = profile_index(s.profiles, profile);
        let ti = todo_index(s.todos, todo);
        if s.todos[ti].1.profile == profile {
            lemma_live_count_pos(s.todos, ti, profile);
            assert(s.profiles[pi].todo_count as nat == crate::model::live_count(
                s.todos,
                s.profiles[pi].key,
            ));
        }
    }
}

/// The state after a run of `create_todo` requests by `creator` against
/// `creator`'s own profile, one request per element of `contents`, applied
/// first to last.
pub open spec fn apply_creates(
    s: LedgerState,
    creator: Identity,
    contents: Seq<Vec<u8>>,
) -> LedgerState
    decreases contents.len(),
{
    if contents.len() == 0 {
        s
    } else {
        let s1 = spec_create_todo(s, creator, spec_profile_address(creator), contents[0]).0;
        apply_creates(s1, creator, contents.subrange(1, contents.len() as int))
    }
}

/// Whether every request of such a run succeeds.
pub open spec fn creates_all_ok(s: LedgerState, creator: Identity, contents: Seq<Vec<u8>>) -> bool
    decreases contents.len(),
{
    contents.len() == 0 || {
        let (s1, r) = spec_create_todo(s, creator, spec_profile_address(creator), contents[0]);
        r is Ok && creates_all_ok(s1, creator, contents.subrange(1, contents.len() as int))
    }
}

/// Every live todo of `creator`'s profile sits at a derived address whose
/// creation index is below `bound`.
pub open spec fn todo_slots_below(s: LedgerState, creator: Identity, bound: u64) -> bool {
    forall|i: int|
        0 <= i < s.todos.len() && (#[trigger] s.todos[i]).1.profile == spec_profile_address(
            creator,
        ) ==> todo_slot(s.todos[i].0) < bound
}

/// The induction behind [`lemma_create_todo_sequence`], generalized to a
/// profile whose counter already stands at some value bounding the creation
/// indices of its live todos.
proof fn lemma_creates_run(s: LedgerState, creator: Identity, contents: Seq<Vec<u8>>)
    requires
        ledger_wf(s),
        has_profile(s.profiles, spec_profile_address(creator)),
        profile_at(s.profiles, spec_profile_address(creator)).authority == creator,
        todo_slots_below(
            s,
            creator,
            profile_at(s.profiles, spec_profile_address(creator)).todo_count,
        ),
        forall|i: int|
            0 <= i < contents.len() ==> (#[trigger] contents[i])@.len() <= MAX_CONTENT_LEN,
        s.todos.len() + contents.len() <= u64::MAX,
    ensures
        creates_all_ok(s, creator, contents),
        ({
            let s2 = apply_creates(s, creator, contents);
            let pk = spec_profile_address(creator);
            let c0 = profile_at(s.profiles, pk).todo_count;
            &&& ledger_wf(s2)
            &&& has_profile(s2.profiles, pk)
            &&& profile_at(s2.profiles, pk).authority == creator
            &&& profile_at(s2.profiles, pk).todo_count == c0 + contents.len()
            &&& todo_slots_below(s2, creator, (c0 + contents.len()) as u64)
            &&& s2.todos.len() == s.todos.len() + contents.len()
            &&& forall|j: u64|
                c0 <= j < c0 + contents.len() ==> has_todo(
                    s2.todos,
                    #[trigger] spec_todo_address(creator, j),
                )
            &&& forall|k: Address| has_todo(s.todos, k) ==> has_todo(s2.todos, k)
        }),
    decreases contents.len(),
{
    let pk = spec_profile_address(creator);
    let c0 = profile_at(s.profiles, pk).todo_count;
    if contents.len() > 0 {
        let pi = profile_index(s.profiles, pk);
        let p = s.profiles[pi];
        let key = spec_todo_address(creator, c0);
        lemma_live_count_le_len(s.todos, pk);
        assert(c0 < u64::MAX);
        assert(!has_todo(s.todos, key)) by {
            if has_todo(s.todos, key) {
                let w = todo_index(s.todos, key);
                assert(s.todos[w].0 == key);
                assert(s.todos[w].1.profile == pk);
                assert(todo_slot(s.todos[w].0) < c0);
            }
        }
        let (s1, r) = spec_create_todo(s, creator, pk, contents[0]);
        assert(r == Ok::<Address, AppError>(key));
        lemma_create_todo_wf(s, creator, pk, contents[0]);
        let todo = Todo { profile: pk, content: contents[0], completed: false };
        let p2 = Profile {
            key: p.key,
            name: p.name,
            authority: p.authority,
            todo_count: (c0 + 1) as u64,
        };
        assert(s1.profiles =~= s.profiles.update(pi, p2));
        assert(s1.todos =~= s.todos.push((key, todo)));
        lemma_profile_index_is(s1.profiles, pk, pi);
        assert(profile_at(s1.profiles, pk) == p2);
        assert(todo_slots_below(s1, creator, (c0 + 1) as u64)) by {
            assert forall|i: int|
                0 <= i < s1.todos.len() && (#[trigger] s1.todos[i]).1.profile
                    == pk implies todo_slot(s1.todos[i].0) < c0 + 1 by {
                if i < s.todos.len() {
                    assert(s1.todos[i] == s.todos[i]);
                } else {
                    assert(s1.todos[i] == (key, todo));
                }
            }
        }
        let tail = contents.subrange(1, contents.len() as int);
        lemma_creates_run(s1, creator, tail);
        let s2 = apply_creates(s, creator, contents);
        assert(s2 == apply_creates(s1, creator, tail));
        assert(has_todo(s1.todos, key)) by {
            assert(s1.todos[s.todos.len() as int] == (key, todo));
        }
        assert forall|j: u64|
            c0 <= j < c0 + contents.len() implies has_todo(
            s2.todos,
            #[trigger] spec_todo_address(creator, j),
        ) by {
            if j == c0 {
                assert(has_todo(s1.todos, spec_todo_address(creator, j)));
            }
        }
        assert forall|k: Address| has_todo(s.todos, k) implies has_todo(s2.todos, k) by {
            let w = todo_index(s.todos, k);
            assert(s.todos[w].0 == k);
            assert(s1.todos[w] == s.todos[w]);
            assert(has_todo(s1.todos, k));
        }
    }
}

/// Starting from a profile that has no todos yet, a run of `create_todo`
/// requests by the profile's authority, each with content within the bound,
/// succeeds throughout; afterwards the profile's counter equals the number
/// of requests and a todo lives at each of the derived addresses with
/// creation indices `0` up to that number, which are pairwise distinct.
pub proof fn lemma_create_todo_sequence(s: LedgerState, creator: Identity, contents: Seq<Vec<u8>>)
    requires
        ledger_wf(s),
        has_profile(s.profiles, spec_profile_address(creator)),
        profile_at(s.profiles, spec_profile_address(creator)).authority == creator,
        profile_at(s.profiles, spec_profile_address(creator)).todo_count == 0,
        forall|i: int|
            0 <= i < contents.len() ==> (#[trigger] contents[i])@.len() <= MAX_CONTENT_LEN,
        s.todos.len() + contents.len() <= u64::MAX,
    ensures
        creates_all_ok(s, creator, contents),
        ({
            let s2 = apply_creates(s, creator, contents);
            &&& ledger_wf(s2)
            &&& profile_at(s2.profiles, spec_profile_address(creator)).todo_count
                == contents.len()
            &&& forall|j: u64|
                j < contents.len() ==> has_todo(s2.todos, #[trigger] spec_todo_address(creator, j))
        }),
        forall|j1: u64, j2: u64|
            j1 < j2 < contents.len() ==> #[trigger] spec_todo_address(creator, j1)
                != #[trigger] spec_todo_address(creator, j2),
{
    let pk = spec_profile_address(creator);
    assert forall|i: int|
        0 <= i < s.todos.len() && (#[trigger] s.todos[i]).1.profile == pk implies todo_slot(
        s.todos[i].0,
    ) < 0u64 by {
        lemma_live_count_pos(s.todos, i, pk);
        let pi = profile_index(s.profiles, pk);
        assert(s.profiles[pi].todo_count as nat == crate::model::live_count(s.todos, pk));
    }
    lemma_creates_run(s, creator, contents);
}

} // verus!
