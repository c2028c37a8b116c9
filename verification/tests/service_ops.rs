use todo_program::error::AppError;
use todo_program::service::{create_profile, create_todo, delete_todo, toggle_todo, update_todo};
use todo_program::state::{profile_address, Profile, Todo};

const ALICE: u64 = 11;
const BOB: u64 = 22;

fn alice_profile(todo_count: u64) -> Profile {
    Profile {
        key: profile_address(ALICE),
        name: b"Alice".to_vec(),
        authority: ALICE,
        todo_count,
    }
}

#[test]
fn create_profile_builds_the_exact_record() {
    let p = create_profile(ALICE, b"Alice".to_vec()).unwrap();
    assert_eq!(p.key, profile_address(ALICE));
    assert_eq!(p.name, b"Alice".to_vec());
    assert_eq!(p.authority, ALICE);
    assert_eq!(p.todo_count, 0);
}

#[test]
fn create_profile_name_bounds() {
    assert!(create_profile(ALICE, vec![b'n'; 100]).is_ok());
    let r = create_profile(ALICE, vec![b'n'; 101]);
    assert!(matches!(r, Err(AppError::NameTooLong)));
}

#[test]
fn create_todo_builds_and_counts() {
    let mut p = alice_profile(4);
    let t = create_todo(ALICE, &mut p, b"water plants".to_vec()).unwrap();
    assert_eq!(t.profile, profile_address(ALICE));
    assert_eq!(t.content, b"water plants".to_vec());
    assert!(!t.completed);
    assert_eq!(p.todo_count, 5);
}

#[test]
fn create_todo_checks_authority_before_content() {
    let mut p = alice_profile(0);
    let r = create_todo(BOB, &mut p, vec![b'c'; 201]);
    assert!(matches!(r, Err(AppError::InvalidAuthority)));
    assert_eq!(p.todo_count, 0);
    let r = create_todo(ALICE, &mut p, vec![b'c'; 201]);
    assert!(matches!(r, Err(AppError::ContentTooLong)));
    assert_eq!(p.todo_count, 0);
}

#[test]
fn toggle_todo_flips_and_reports() {
    let p = alice_profile(1);
    let mut t = Todo { profile: p.key, content: b"flip".to_vec(), completed: false };
    assert_eq!(toggle_todo(ALICE, &p, &mut t), Ok(true));
    assert!(t.completed);
    assert_eq!(toggle_todo(ALICE, &p, &mut t), Ok(false));
    assert!(!t.completed);
}

#[test]
fn toggle_todo_rejects_foreign_records() {
    let alice = alice_profile(1);
    let bob = Profile {
        key: profile_address(BOB),
        name: b"Bob".to_vec(),
        authority: BOB,
        todo_count: 0,
    };
    let mut t = Todo { profile: alice.key, content: b"hers".to_vec(), completed: false };
    assert_eq!(toggle_todo(ALICE, &bob, &mut t), Err(AppError::InvalidAuthority));
    assert_eq!(toggle_todo(BOB, &bob, &mut t), Err(AppError::InvalidProfile));
    assert!(!t.completed);
}

#[test]
fn update_todo_assigns_the_new_content() {
    let p = alice_profile(1);
    let mut t = Todo { profile: p.key, content: b"old".to_vec(), completed: true };
    assert_eq!(update_todo(ALICE, &p, &mut t, b"new".to_vec()), Ok(()));
    assert_eq!(t.content, b"new".to_vec());
    assert!(t.completed);
}

#[test]
fn delete_todo_decrements_the_counter() {
    let mut p = alice_profile(2);
    let t = Todo { profile: p.key, content: b"done".to_vec(), completed: true };
    assert_eq!(delete_todo(ALICE, &mut p, &t), Ok(()));
    assert_eq!(p.todo_count, 1);
}

#[test]
fn delete_todo_at_zero_underflows() {
    let mut p = alice_profile(0);
    let t = Todo { profile: p.key, content: b"ghost".to_vec(), completed: false };
    assert_eq!(delete_todo(ALICE, &mut p, &t), Err(AppError::CounterUnderflow));
    assert_eq!(p.todo_count, 0);
}
