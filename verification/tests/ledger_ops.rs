use todo_program::error::AppError;
use todo_program::ledger::Ledger;
use todo_program::requests::{CreateProfile, CreateTodo, DeleteTodo, ToggleTodo, UpdateTodo};
use todo_program::state::{profile_address, todo_address};

const ALICE: u64 = 11;
const BOB: u64 = 22;

fn profile_with_name(ledger: &mut Ledger, owner: u64, name: &str) -> Result<(), AppError> {
    ledger
        .create_profile(CreateProfile { creator: owner, name: name.as_bytes().to_vec() })
        .map(|_| ())
}

fn todo_with_content(ledger: &mut Ledger, owner: u64, content: &str) -> Result<(), AppError> {
    ledger
        .create_todo(CreateTodo {
            creator: owner,
            profile: profile_address(owner),
            content: content.as_bytes().to_vec(),
        })
        .map(|_| ())
}

#[test]
fn create_profile_within_bound_succeeds() {
    let mut ledger = Ledger::new();
    let r = ledger.create_profile(CreateProfile { creator: ALICE, name: vec![b'x'; 100] });
    assert_eq!(r, Ok(profile_address(ALICE)));
    let p = ledger.get_profile(profile_address(ALICE)).unwrap();
    assert_eq!(p.todo_count, 0);
    assert_eq!(p.authority, ALICE);
    assert_eq!(p.name, vec![b'x'; 100]);
}

#[test]
fn create_profile_over_bound_fails_and_creates_nothing() {
    let mut ledger = Ledger::new();
    let r = ledger.create_profile(CreateProfile { creator: ALICE, name: vec![b'x'; 101] });
    assert_eq!(r, Err(AppError::NameTooLong));
    assert!(ledger.get_profile(profile_address(ALICE)).is_none());
}

#[test]
fn create_profile_twice_fails_with_duplicate() {
    let mut ledger = Ledger::new();
    assert_eq!(profile_with_name(&mut ledger, ALICE, "first"), Ok(()));
    let r = ledger.create_profile(CreateProfile { creator: ALICE, name: b"second".to_vec() });
    assert_eq!(r, Err(AppError::DuplicateProfile));
    let p = ledger.get_profile(profile_address(ALICE)).unwrap();
    assert_eq!(p.name, b"first".to_vec());
}

#[test]
fn create_todo_run_counts_and_addresses() {
    let mut ledger = Ledger::new();
    assert_eq!(profile_with_name(&mut ledger, ALICE, "Alice"), Ok(()));
    let mut addresses = Vec::new();
    for i in 0..3u64 {
        let r = ledger.create_todo(CreateTodo {
            creator: ALICE,
            profile: profile_address(ALICE),
            content: format!("todo {}", i).into_bytes(),
        });
        let addr = r.unwrap();
        assert_eq!(addr, todo_address(ALICE, i));
        assert!(!addresses.contains(&addr));
        addresses.push(addr);
        let p = ledger.get_profile(profile_address(ALICE)).unwrap();
        assert_eq!(p.todo_count, i + 1);
    }
    for (i, addr) in addresses.iter().enumerate() {
        let t = ledger.get_todo(*addr).unwrap();
        assert_eq!(t.content, format!("todo {}", i).into_bytes());
        assert!(!t.completed);
    }
}

#[test]
fn create_todo_by_non_authority_fails_and_creates_nothing() {
    let mut ledger = Ledger::new();
    assert_eq!(profile_with_name(&mut ledger, ALICE, "Alice"), Ok(()));
    let r = ledger.create_todo(CreateTodo {
        creator: BOB,
        profile: profile_address(ALICE),
        content: b"sneaky".to_vec(),
    });
    assert_eq!(r, Err(AppError::InvalidAuthority));
    assert_eq!(ledger.get_profile(profile_address(ALICE)).unwrap().todo_count, 0);
    assert!(ledger.get_todo(todo_address(ALICE, 0)).is_none());
}

#[test]
fn create_todo_without_profile_fails() {
    let mut ledger = Ledger::new();
    let r = ledger.create_todo(CreateTodo {
        creator: ALICE,
        profile: profile_address(ALICE),
        content: b"orphan".to_vec(),
    });
    assert_eq!(r, Err(AppError::RecordNotFound));
}

#[test]
fn delete_todo_twice_fails_without_second_decrement() {
    let mut ledger = Ledger::new();
    assert_eq!(profile_with_name(&mut ledger, ALICE, "Alice"), Ok(()));
    assert_eq!(todo_with_content(&mut ledger, ALICE, "only"), Ok(()));
    let req = DeleteTodo {
        creator: ALICE,
        profile: profile_address(ALICE),
        todo: todo_address(ALICE, 0),
    };
    assert_eq!(ledger.delete_todo(req), Ok(()));
    assert_eq!(ledger.get_profile(profile_address(ALICE)).unwrap().todo_count, 0);
    let again = DeleteTodo {
        creator: ALICE,
        profile: profile_address(ALICE),
        todo: todo_address(ALICE, 0),
    };
    assert_eq!(ledger.delete_todo(again), Err(AppError::RecordNotFound));
    assert_eq!(ledger.get_profile(profile_address(ALICE)).unwrap().todo_count, 0);
}

#[test]
fn toggle_todo_twice_restores_the_flag() {
    let mut ledger = Ledger::new();
    assert_eq!(profile_with_name(&mut ledger, ALICE, "Alice"), Ok(()));
    assert_eq!(todo_with_content(&mut ledger, ALICE, "flip me"), Ok(()));
    let req = ToggleTodo {
        creator: ALICE,
        profile: profile_address(ALICE),
        todo: todo_address(ALICE, 0),
    };
    assert_eq!(ledger.toggle_todo(req), Ok(true));
    let req = ToggleTodo {
        creator: ALICE,
        profile: profile_address(ALICE),
        todo: todo_address(ALICE, 0),
    };
    assert_eq!(ledger.toggle_todo(req), Ok(false));
    let t = ledger.get_todo(todo_address(ALICE, 0)).unwrap();
    assert!(!t.completed);
    assert_eq!(t.content, b"flip me".to_vec());
}

#[test]
fn toggle_todo_of_another_profile_fails() {
    let mut ledger = Ledger::new();
    assert_eq!(profile_with_name(&mut ledger, ALICE, "Alice"), Ok(()));
    assert_eq!(profile_with_name(&mut ledger, BOB, "Bob"), Ok(()));
    assert_eq!(todo_with_content(&mut ledger, ALICE, "hers"), Ok(()));
    let r = ledger.toggle_todo(ToggleTodo {
        creator: BOB,
        profile: profile_address(BOB),
        todo: todo_address(ALICE, 0),
    });
    assert_eq!(r, Err(AppError::InvalidProfile));
    assert!(!ledger.get_todo(todo_address(ALICE, 0)).unwrap().completed);
}

#[test]
fn toggle_missing_todo_fails() {
    let mut ledger = Ledger::new();
    assert_eq!(profile_with_name(&mut ledger, ALICE, "Alice"), Ok(()));
    let r = ledger.toggle_todo(ToggleTodo {
        creator: ALICE,
        profile: profile_address(ALICE),
        todo: todo_address(ALICE, 0),
    });
    assert_eq!(r, Err(AppError::RecordNotFound));
}

#[test]
fn full_lifecycle_scenario() {
    let mut ledger = Ledger::new();
    let r = ledger.create_profile(CreateProfile { creator: ALICE, name: b"Alice".to_vec() });
    assert_eq!(r, Ok(profile_address(ALICE)));
    assert_eq!(ledger.get_profile(profile_address(ALICE)).unwrap().todo_count, 0);

    let r = ledger.create_todo(CreateTodo {
        creator: ALICE,
        profile: profile_address(ALICE),
        content: b"buy milk".to_vec(),
    });
    assert_eq!(r, Ok(todo_address(ALICE, 0)));
    assert_eq!(ledger.get_profile(profile_address(ALICE)).unwrap().todo_count, 1);
    assert!(!ledger.get_todo(todo_address(ALICE, 0)).unwrap().completed);

    let r = ledger.toggle_todo(ToggleTodo {
        creator: ALICE,
        profile: profile_address(ALICE),
        todo: todo_address(ALICE, 0),
    });
    assert_eq!(r, Ok(true));
    assert!(ledger.get_todo(todo_address(ALICE, 0)).unwrap().completed);

    let r = ledger.delete_todo(DeleteTodo {
        creator: ALICE,
        profile: profile_address(ALICE),
        todo: todo_address(ALICE, 0),
    });
    assert_eq!(r, Ok(()));
    assert!(ledger.get_todo(todo_address(ALICE, 0)).is_none());
    assert_eq!(ledger.get_profile(profile_address(ALICE)).unwrap().todo_count, 0);
}

#[test]
fn create_todo_over_bound_fails_and_counts_nothing() {
    let mut ledger = Ledger::new();
    assert_eq!(profile_with_name(&mut ledger, ALICE, "Alice"), Ok(()));
    let r = ledger.create_todo(CreateTodo {
        creator: ALICE,
        profile: profile_address(ALICE),
        content: vec![b'c'; 201],
    });
    assert_eq!(r, Err(AppError::ContentTooLong));
    assert_eq!(ledger.get_profile(profile_address(ALICE)).unwrap().todo_count, 0);
    assert!(ledger.get_todo(todo_address(ALICE, 0)).is_none());
}

#[test]
fn create_todo_at_exact_bound_succeeds() {
    let mut ledger = Ledger::new();
    assert_eq!(profile_with_name(&mut ledger, ALICE, "Alice"), Ok(()));
    let r = ledger.create_todo(CreateTodo {
        creator: ALICE,
        profile: profile_address(ALICE),
        content: vec![b'c'; 200],
    });
    assert_eq!(r, Ok(todo_address(ALICE, 0)));
}

#[test]
fn create_todo_reusing_a_live_index_fails() {
    let mut ledger = Ledger::new();
    assert_eq!(profile_with_name(&mut ledger, ALICE, "Alice"), Ok(()));
    assert_eq!(todo_with_content(&mut ledger, ALICE, "zeroth"), Ok(()));
    assert_eq!(todo_with_content(&mut ledger, ALICE, "first"), Ok(()));
    assert_eq!(
        ledger.delete_todo(DeleteTodo {
            creator: ALICE,
            profile: profile_address(ALICE),
            todo: todo_address(ALICE, 0),
        }),
        Ok(())
    );
    // The counter stands at one again, so the next derived address is the
    // one the surviving todo still occupies.
    let r = todo_with_content(&mut ledger, ALICE, "collides");
    assert_eq!(r, Err(AppError::DuplicateProfile));
    assert_eq!(ledger.get_profile(profile_address(ALICE)).unwrap().todo_count, 1);
}

#[test]
fn update_todo_replaces_content() {
    let mut ledger = Ledger::new();
    assert_eq!(profile_with_name(&mut ledger, ALICE, "Alice"), Ok(()));
    assert_eq!(todo_with_content(&mut ledger, ALICE, "draft"), Ok(()));
    let r = ledger.update_todo(UpdateTodo {
        creator: ALICE,
        profile: profile_address(ALICE),
        todo: todo_address(ALICE, 0),
        content: b"final text".to_vec(),
    });
    assert_eq!(r, Ok(()));
    let t = ledger.get_todo(todo_address(ALICE, 0)).unwrap();
    assert_eq!(t.content, b"final text".to_vec());
    assert!(!t.completed);
}

#[test]
fn update_todo_over_bound_fails_and_changes_nothing() {
    let mut ledger = Ledger::new();
    assert_eq!(profile_with_name(&mut ledger, ALICE, "Alice"), Ok(()));
    assert_eq!(todo_with_content(&mut ledger, ALICE, "draft"), Ok(()));
    let r = ledger.update_todo(UpdateTodo {
        creator: ALICE,
        profile: profile_address(ALICE),
        todo: todo_address(ALICE, 0),
        content: vec![b'c'; 201],
    });
    assert_eq!(r, Err(AppError::ContentTooLong));
    assert_eq!(ledger.get_todo(todo_address(ALICE, 0)).unwrap().content, b"draft".to_vec());
}

#[test]
fn update_todo_by_non_authority_fails() {
    let mut ledger = Ledger::new();
    assert_eq!(profile_with_name(&mut ledger, ALICE, "Alice"), Ok(()));
    assert_eq!(todo_with_content(&mut ledger, ALICE, "draft"), Ok(()));
    let r = ledger.update_todo(UpdateTodo {
        creator: BOB,
        profile: profile_address(ALICE),
        todo: todo_address(ALICE, 0),
        content: b"defaced".to_vec(),
    });
    assert_eq!(r, Err(AppError::InvalidAuthority));
    assert_eq!(ledger.get_todo(todo_address(ALICE, 0)).unwrap().content, b"draft".to_vec());
}
