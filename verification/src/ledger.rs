//! The record store and the instruction entry points.
//!
//! [`Ledger`] stands for the host's key-addressed store, restricted to the
//! records this program owns.  Each public method takes one request from
//! [`crate::requests`], performs the host's part — fetch by address,
//! allocate at the derived address, deallocate — and hands the fetched
//! records to [`crate::service`] for the program's own checks and mutations.
//! Every method is proved to do to the store's view exactly what the
//! matching transition of [`crate::model`] says, and to preserve
//! [`crate::model::ledger_wf`].

use vstd::prelude::*;
use crate::error::AppError;
use crate::model::{
    LedgerState, has_profile, has_todo, ledger_wf, lemma_create_profile_wf, lemma_create_todo_wf,
    lemma_delete_todo_wf, lemma_live_count_le_len, lemma_profile_index_is, lemma_todo_index_is,
    lemma_toggle_todo_wf, lemma_update_todo_wf, profile_at, spec_create_profile, spec_create_todo,
    spec_delete_todo, spec_toggle_todo, spec_update_todo, todo_at,
};
use crate::requests::{CreateProfile, CreateTodo, DeleteTodo, ToggleTodo, UpdateTodo};
use crate::state::{Address, Profile, Todo, profile_address, todo_address};

verus! {

/// The records this program owns, each at its derived address.
pub struct Ledger {
    pub profiles: Vec<Profile>,
    pub todos: Vec<(Address, Todo)>,
}

impl View for Ledger {
    type V = LedgerState;

    open spec fn view(&self) -> LedgerState {
        LedgerState { profiles: self.profiles@, todos: self.todos@ }
    }
}

impl Ledger {
    /// The store's invariant; see [`ledger_wf`].
    pub open spec fn wf(&self) -> bool {
        ledger_wf(self@)
    }

    /// An empty store.
    pub fn new() -> (r: Ledger)
        ensures
            r.wf(),
            r@.profiles == Seq::<Profile>::empty(),
            r@.todos == Seq::<(Address, Todo)>::empty(),
    {
        Ledger { profiles: Vec::new(), todos: Vec::new() }
    }

    /// Fetches the position of the profile record at `key`, if one lives.
    fn find_profile(&self, key: Address) -> (r: Option<usize>)
        ensures
            match r {
                Some(i) => i < self@.profiles.len() && self@.profiles[i as int].key == key,
                None => !has_profile(self@.profiles, key),
            },
    {
        let mut i: usize = 0;
        while i < self.profiles.len()
            invariant
                i <= self@.profiles.len(),
                forall|j: int| 0 <= j < i ==> self@.profiles[j].key != key,
            decreases self@.profiles.len() - i,
        {
            if self.profiles[i].key == key {
                return Some(i);
            }
            i = i + 1;
        }
        None
    }

    /// Fetches the position of the todo record at `key`, if one lives.
    fn find_todo(&self, key: Address) -> (r: Option<usize>)
        ensures
            match r {
                Some(i) => i < self@.todos.len() && self@.todos[i as int].0 == key,
                None => !has_todo(self@.todos, key),
            },
    {
        let mut i: usize = 0;
        while i < self.todos.len()
            invariant
                i <= self@.todos.len(),
                forall|j: int| 0 <= j < i ==> self@.todos[j].0 != key,
            decreases self@.todos.len() - i,
        {
            if self.todos[i].0 == key {
                return Some(i);
            }
            i = i + 1;
        }
        None
    }

    /// Creates the requester's profile at its derived address.
    ///
    /// Does to the store exactly what [`spec_create_profile`] says: fails
    /// with `DuplicateProfile` when the requester already has a profile and
    /// with `NameTooLong` when the name is over the bound; otherwise the new
    /// record carries the requester as authority and a todo counter of zero.
    pub fn create_profile(&mut self, req: CreateProfile) -> (r: Result<Address, AppError>)
        requires
            old(self).wf(),
        ensures
            final(self).wf(),
            final(self)@ == spec_create_profile(old(self)@, req.creator, req.name).0,
            r == spec_create_profile(old(self)@, req.creator, req.name).1,
    {
        let key = profile_address(req.creator);
        match self.find_profile(key) {
            Some(_) => Err(AppError::DuplicateProfile),
            None => {
                match crate::service::create_profile(req.creator, req.name) {
                    Err(e) => Err(e),
                    Ok(p) => {
                        self.profiles.push(p);
                        proof {
                            assert(self@ =~= spec_create_profile(
                                old(self)@,
                                req.creator,
                                req.name,
                            ).0);
                            lemma_create_profile_wf(old(self)@, req.creator, req.name);
                        }
                        Ok(key)
                    },
                }
            },
        }
    }

    /// Creates a todo under the profile at `req.profile`.
    ///
    /// Does to the store exactly what [`spec_create_todo`] says: the profile
    /// must live and the requester must be its authority, the derived
    /// address must be free and the content within its bound; then the todo
    /// is allocated pending and the profile's counter grows by one.  The
    /// bound on the store's size only keeps the counter within its machine
    /// width.
    pub fn create_todo(&mut self, req: CreateTodo) -> (r: Result<Address, AppError>)
        requires
            old(self).wf(),
            old(self)@.todos.len() < u64::MAX,
        ensures
            final(self).wf(),
            final(self)@ == spec_create_todo(old(self)@, req.creator, req.profile, req.content).0,
            r == spec_create_todo(old(self)@, req.creator, req.profile, req.content).1,
    {
        match self.find_profile(req.profile) {
            None => Err(AppError::RecordNotFound),
            Some(pi) => {
                proof {
                    lemma_profile_index_is(self@.profiles, req.profile, pi as int);
                }
                if self.profiles[pi].authority != req.creator {
                    return Err(AppError::InvalidAuthority);
                }
                let key = todo_address(self.profiles[pi].authority, self.profiles[pi].todo_count);
                match self.find_todo(key) {
                    Some(_) => Err(AppError::DuplicateProfile),
                    None => {
                        proof {
                            lemma_live_count_le_len(self@.todos, self@.profiles[pi as int].key);
                        }
                        let mut p = self.profiles.remove(pi);
                        let res = crate::service::create_todo(req.creator, &mut p, req.content);
                        self.profiles.insert(pi, p);
                        match res {
                            Err(e) => {
                                proof {
                                    assert(self@ =~= old(self)@);
                                }
                                Err(e)
                            },
                            Ok(todo) => {
                                self.todos.push((key, todo));
                                proof {
                                    assert(self@ =~= spec_create_todo(
                                        old(self)@,
                                        req.creator,
                                        req.profile,
                                        req.content,
                                    ).0);
                                    lemma_create_todo_wf(
                                        old(self)@,
                                        req.creator,
                                        req.profile,
                                        req.content,
                                    );
                                }
                                Ok(key)
                            },
                        }
                    },
                }
            },
        }
    }

    /// Flips the `completed` flag of the todo at `req.todo` and returns the
    /// new value.
    ///
    /// Does to the store exactly what [`spec_toggle_todo`] says: both
    /// records must live, the requester must be the profile's authority and
    /// the todo must reference the profile.  The profile's counter is never
    /// touched.
    pub fn toggle_todo(&mut self, req: ToggleTodo) -> (r: Result<bool, AppError>)
        requires
            old(self).wf(),
        ensures
            final(self).wf(),
            final(self)@ == spec_toggle_todo(old(self)@, req.creator, req.profile, req.todo).0,
            r == spec_toggle_todo(old(self)@, req.creator, req.profile, req.todo).1,
    {
        match self.find_profile(req.profile) {
            None => Err(AppError::RecordNotFound),
            Some(pi) => {
                match self.find_todo(req.todo) {
                    None => Err(AppError::RecordNotFound),
                    Some(ti) => {
                        proof {
                            lemma_profile_index_is(self@.profiles, req.profile, pi as int);
                            lemma_todo_index_is(self@.todos, req.todo, ti as int);
                        }
                        let (tkey, mut todo) = self.todos.remove(ti);
                        let res = crate::service::toggle_todo(
                            req.creator,
                            &self.profiles[pi],
                            &mut todo,
                        );
                        self.todos.insert(ti, (tkey, todo));
                        proof {
                            assert(self@ =~= spec_toggle_todo(
                                old(self)@,
                                req.creator,
                                req.profile,
                                req.todo,
                            ).0);
                            lemma_toggle_todo_wf(old(self)@, req.creator, req.profile, req.todo);
                        }
                        res
                    },
                }
            },
        }
    }

    /// Replaces the content of the todo at `req.todo`.
    ///
    /// Does to the store exactly what [`spec_update_todo`] says: the same
    /// checks as `toggle_todo`, then the content bound; then the new content
    /// is assigned.
    pub fn update_todo(&mut self, req: UpdateTodo) -> (r: Result<(), AppError>)
        requires
            old(self).wf(),
        ensures
            final(self).wf(),
            final(self)@ == spec_update_todo(
                old(self)@,
                req.creator,
                req.profile,
                req.todo,
                req.content,
            ).0,
            r == spec_update_todo(old(self)@, req.creator, req.profile, req.todo, req.content).1,
    {
        match self.find_profile(req.profile) {
            None => Err(AppError::RecordNotFound),
            Some(pi) => {
                match self.find_todo(req.todo) {
                    None => Err(AppError::RecordNotFound),
                    Some(ti) => {
                        proof {
                            lemma_profile_index_is(self@.profiles, req.profile, pi as int);
                            lemma_todo_index_is(self@.todos, req.todo, ti as int);
                        }
                        let (tkey, mut todo) = self.todos.remove(ti);
                        let res = crate::service::update_todo(
                            req.creator,
                            &self.profiles[pi],
                            &mut todo,
                            req.content,
                        );
                        self.todos.insert(ti, (tkey, todo));
                        proof {
                            assert(self@ =~= spec_update_todo(
                                old(self)@,
                                req.creator,
                                req.profile,
                                req.todo,
                                req.content,
                            ).0);
                            lemma_update_todo_wf(
                                old(self)@,
                                req.creator,
                                req.profile,
                                req.todo,
                                req.content,
                            );
                        }
                        res
                    },
                }
            },
        }
    }

    /// Deletes the todo at `req.todo`, reclaiming its storage, and shrinks
    /// the profile's counter by one.
    ///
    /// Does to the store exactly what [`spec_delete_todo`] says: the same
    /// checks as `toggle_todo`, and the counter must be positive — which
    /// the invariant in fact guarantees whenever the todo lives.
    pub fn delete_todo(&mut self, req: DeleteTodo) -> (r: Result<(), AppError>)
        requires
            old(self).wf(),
        ensures
            final(self).wf(),
            final(self)@ == spec_delete_todo(old(self)@, req.creator, req.profile, req.todo).0,
            r == spec_delete_todo(old(self)@, req.creator, req.profile, req.todo).1,
    {
        match self.find_profile(req.profile) {
            None => Err(AppError::RecordNotFound),
            Some(pi) => {
                match self.find_todo(req.todo) {
                    None => Err(AppError::RecordNotFound),
                    Some(ti) => {
                        proof {
                            lemma_profile_index_is(self@.profiles, req.profile, pi as int);
                            lemma_todo_index_is(self@.todos, req.todo, ti as int);
                        }
                        let (tkey, todo) = self.todos.remove(ti);
                        let mut p = self.profiles.remove(pi);
                        let res = crate::service::delete_todo(req.creator, &mut p, &todo);
                        self.profiles.insert(pi, p);
                        match res {
                            Err(e) => {
                                self.todos.insert(ti, (tkey, todo));
                                proof {
                                    assert(self@ =~= old(self)@);
                                }
                                Err(e)
                            },
                            Ok(()) => {
                                proof {
                                    assert(self@ =~= spec_delete_todo(
                                        old(self)@,
                                        req.creator,
                                        req.profile,
                                        req.todo,
                                    ).0);
                                    lemma_delete_todo_wf(
                                        old(self)@,
                                        req.creator,
                                        req.profile,
                                        req.todo,
                                    );
                                }
                                Ok(())
                            },
                        }
                    },
                }
            },
        }
    }

    /// Fetches the profile record at `key`, if one lives.
    pub fn get_profile(&self, key: Address) -> (r: Option<&Profile>)
        requires
            self.wf(),
        ensures
            match r {
                Some(p) => has_profile(self@.profiles, key) && *p == profile_at(
                    self@.profiles,
                    key,
                ),
                None => !has_profile(self@.profiles, key),
            },
    {
        match self.find_profile(key) {
            Some(i) => {
                proof {
                    lemma_profile_index_is(self@.profiles, key, i as int);
                }
                Some(&self.profiles[i])
            },
            None => None,
        }
    }

    /// Fetches the todo record at `key`, if one lives.
    pub fn get_todo(&self, key: Address) -> (r: Option<&Todo>)
        requires
            self.wf(),
        ensures
            match r {
                Some(t) => has_todo(self@.todos, key) && *t == todo_at(self@.todos, key),
                None => !has_todo(self@.todos, key),
            },
    {
        match self.find_todo(key) {
            Some(i) => {
                proof {
                    lemma_todo_index_is(self@.todos, key, i as int);
                }
                Some(&self.todos[i].1)
            },
            None => None,
        }
    }
}

} // verus!
