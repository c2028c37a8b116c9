use todo_program::codec::{
    encode_profile, encode_todo, profile_size, todo_size, PROFILE_SPACE, TODO_SPACE,
};
use todo_program::state::{profile_address, todo_address, Profile, Todo};

const ALICE: u64 = 11;

#[test]
fn profile_encoding_matches_its_size() {
    let p = Profile {
        key: profile_address(ALICE),
        name: b"Alice".to_vec(),
        authority: ALICE,
        todo_count: 3,
    };
    let bytes = encode_profile(&p);
    assert_eq!(bytes.len(), profile_size(&p));
    assert_eq!(bytes.len(), 17 + 4 + 5 + 8 + 8);
    // Address: profile tag, owner, index zero.
    assert_eq!(bytes[0], 0);
    assert_eq!(&bytes[1..9], &ALICE.to_le_bytes());
    assert_eq!(&bytes[9..17], &0u64.to_le_bytes());
    // Length-prefixed name.
    assert_eq!(&bytes[17..21], &5u32.to_le_bytes());
    assert_eq!(&bytes[21..26], b"Alice");
    // Authority and counter.
    assert_eq!(&bytes[26..34], &ALICE.to_le_bytes());
    assert_eq!(&bytes[34..42], &3u64.to_le_bytes());
}

#[test]
fn todo_encoding_matches_its_size() {
    let t = Todo {
        profile: profile_address(ALICE),
        content: b"buy milk".to_vec(),
        completed: true,
    };
    let bytes = encode_todo(&t);
    assert_eq!(bytes.len(), todo_size(&t));
    assert_eq!(bytes.len(), 17 + 4 + 8 + 1);
    assert_eq!(bytes[0], 0);
    assert_eq!(&bytes[17..21], &8u32.to_le_bytes());
    assert_eq!(&bytes[21..29], b"buy milk");
    assert_eq!(bytes[29], 1);
}

#[test]
fn todo_address_encodes_its_index() {
    let t = Todo {
        profile: profile_address(ALICE),
        content: Vec::new(),
        completed: false,
    };
    let mut bytes = Vec::new();
    todo_program::codec::encode_address(&mut bytes, todo_address(ALICE, 7));
    assert_eq!(bytes.len(), 17);
    assert_eq!(bytes[0], 1);
    assert_eq!(&bytes[1..9], &ALICE.to_le_bytes());
    assert_eq!(&bytes[9..17], &7u64.to_le_bytes());
    assert_eq!(encode_todo(&t).len(), 22);
}

#[test]
fn allocation_bounds_hold_at_the_limits() {
    let p = Profile {
        key: profile_address(ALICE),
        name: vec![b'n'; 100],
        authority: ALICE,
        todo_count: u64::MAX,
    };
    assert_eq!(profile_size(&p), PROFILE_SPACE);
    let t = Todo {
        profile: profile_address(ALICE),
        content: vec![b'c'; 200],
        completed: false,
    };
    assert_eq!(todo_size(&t), TODO_SPACE);
}
