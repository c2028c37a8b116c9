//! The fixed record layouts and their storage accounting.
//!
//! The host allocates a record's storage with an explicit byte size.  This
//! module fixes a serialization layout for each record kind, gives each a
//! size function proved equal to the length of the real encoding, and bounds
//! both by the per-kind allocation constants a well-formed record never
//! outgrows.
//!
//! The layout is little-endian throughout: an address is a one-byte tag, the
//! owner identity, and the creation index (zero for profiles); texts carry a
//! four-byte length prefix.

use vstd::prelude::*;
use crate::state::{Address, Profile, Todo, MAX_CONTENT_LEN, MAX_NAME_LEN};

verus! {

/// Bytes every encoded address occupies: tag, owner, creation index.
pub const ADDRESS_SPACE: usize = 1 + 8 + 8;

/// Bytes that hold any well-formed profile: address, name length prefix and
/// name at its bound, authority, todo counter.
pub const PROFILE_SPACE: usize = 17 + 4 + 100 + 8 + 8;

/// Bytes that hold any well-formed todo: back-reference, content length
/// prefix and content at its bound, completion flag.
pub const TODO_SPACE: usize = 17 + 4 + 200 + 1;

/// The eight little-endian bytes of `x`.
pub open spec fn spec_u64_le(x: u64) -> Seq<u8> {
    seq![
        (x & 0xff) as u8,
        ((x >> 8) & 0xff) as u8,
        ((x >> 16) & 0xff) as u8,
        ((x >> 24) & 0xff) as u8,
        ((x >> 32) & 0xff) as u8,
        ((x >> 40) & 0xff) as u8,
        ((x >> 48) & 0xff) as u8,
        ((x >> 56) & 0xff) as u8,
    ]
}

/// The four little-endian bytes of `x`.
pub open spec fn spec_u32_le(x: u32) -> Seq<u8> {
    seq![(x & 0xff) as u8, ((x >> 8) & 0xff) as u8, ((x >> 16) & 0xff) as u8, ((x >> 24)
        & 0xff) as u8]
}

/// The encoding of an address: tag, owner, creation index.
pub open spec fn spec_encode_address(a: Address) -> Seq<u8> {
    match a {
        Address::ProfileOf(owner) => seq![0u8] + spec_u64_le(owner) + spec_u64_le(0),
        Address::TodoOf(owner, index) => seq![1u8] + spec_u64_le(owner) + spec_u64_le(index),
    }
}

/// The encoding of a profile record.
pub open spec fn spec_encode_profile(p: Profile) -> Seq<u8> {
    spec_encode_address(p.key) + spec_u32_le(p.name@.len() as u32) + p.name@ + spec_u64_le(
        p.authority,
    ) + spec_u64_le(p.todo_count)
}

/// The encoding of a todo record.
pub open spec fn spec_encode_todo(t: Todo) -> Seq<u8> {
    spec_encode_address(t.profile) + spec_u32_le(t.content@.len() as u32) + t.content@ + seq![
        if t.completed {
            1u8
        } else {
            0u8
        },
    ]
}

/// How many bytes a profile record encodes to.
pub open spec fn spec_profile_size(p: Profile) -> nat {
    (ADDRESS_SPACE + 4 + 8 + 8) as nat + p.name@.len()
}

/// How many bytes a todo record encodes to.
pub open spec fn spec_todo_size(t: Todo) -> nat {
    (ADDRESS_SPACE + 4 + 1) as nat + t.content@.len()
}

fn push_u64_le(out: &mut Vec<u8>, x: u64)
    ensures
        final(out)@ == old(out)@ + spec_u64_le(x),
{
    out.push((x & 0xff) as u8);
    out.push(((x >> 8) & 0xff) as u8);
    out.push(((x >> 16) & 0xff) as u8);
    out.push(((x >> 24) & 0xff) as u8);
    out.push(((x >> 32) & 0xff) as u8);
    out.push(((x >> 40) & 0xff) as u8);
    out.push(((x >> 48) & 0xff) as u8);
    out.push(((x >> 56) & 0xff) as u8);
    assert(out@ =~= old(out)@ + spec_u64_le(x));
}

fn push_u32_le(out: &mut Vec<u8>, x: u32)
    ensures
        final(out)@ == old(out)@ + spec_u32_le(x),
{
    out.push((x & 0xff) as u8);
    out.push(((x >> 8) & 0xff) as u8);
    out.push(((x >> 16) & 0xff) as u8);
    out.push(((x >> 24) & 0xff) as u8);
    assert(out@ =~= old(out)@ + spec_u32_le(x));
}

fn push_bytes(out: &mut Vec<u8>, bytes: &Vec<u8>)
    ensures
        final(out)@ == old(out)@ + bytes@,
{
    let mut i: usize = 0;
    while i < bytes.len()
        invariant
            i <= bytes@.len(),
            out@ == old(out)@ + bytes@.subrange(0, i as int),
        decreases bytes@.len() - i,
    {
        out.push(bytes[i]);
        assert(out@ =~= old(out)@ + bytes@.subrange(0, i + 1 as int));
        i = i + 1;
    }
    assert(bytes@.subrange(0, bytes@.len() as int) =~= bytes@);
}

/// Encodes an address into `out`.
pub fn encode_address(out: &mut Vec<u8>, a: Address)
    ensures
        final(out)@ == old(out)@ + spec_encode_address(a),
        spec_encode_address(a).len() == ADDRESS_SPACE,
{
    match a {
        Address::ProfileOf(owner) => {
            out.push(0u8);
            push_u64_le(out, owner);
            push_u64_le(out, 0);
        },
        Address::TodoOf(owner, index) => {
            out.push(1u8);
            push_u64_le(out, owner);
            push_u64_le(out, index);
        },
    }
    assert(out@ =~= old(out)@ + spec_encode_address(a));
}

/// Encodes a profile record.  The result's length is exactly
/// [`spec_profile_size`], which never exceeds [`PROFILE_SPACE`].
pub fn encode_profile(p: &Profile) -> (r: Vec<u8>)
    requires
        p.wf(),
    ensures
        r@ == spec_encode_profile(*p),
        r@.len() == spec_profile_size(*p),
        spec_profile_size(*p) <= PROFILE_SPACE,
{
    let mut out: Vec<u8> = Vec::new();
    encode_address(&mut out, p.key);
    push_u32_le(&mut out, p.name.len() as u32);
    push_bytes(&mut out, &p.name);
    push_u64_le(&mut out, p.authority);
    push_u64_le(&mut out, p.todo_count);
    assert(out@ =~= spec_encode_profile(*p));
    out
}

/// Encodes a todo record.  The result's length is exactly
/// [`spec_todo_size`], which never exceeds [`TODO_SPACE`].
pub fn encode_todo(t: &Todo) -> (r: Vec<u8>)
    requires
        t.wf(),
    ensures
        r@ == spec_encode_todo(*t),
        r@.len() == spec_todo_size(*t),
        spec_todo_size(*t) <= TODO_SPACE,
{
    let mut out: Vec<u8> = Vec::new();
    encode_address(&mut out, t.profile);
    push_u32_le(&mut out, t.content.len() as u32);
    push_bytes(&mut out, &t.content);
    if t.completed {
        out.push(1u8);
    } else {
        out.push(0u8);
    }
    assert(out@ =~= spec_encode_todo(*t));
    out
}

/// How many bytes the profile record occupies in storage.
pub fn profile_size(p: &Profile) -> (r: usize)
    requires
        p.wf(),
    ensures
        r == spec_profile_size(*p),
{
    ADDRESS_SPACE + 4 + 8 + 8 + p.name.len()
}

/// How many bytes the todo record occupies in storage.
pub fn todo_size(t: &Todo) -> (r: usize)
    requires
        t.wf(),
    ensures
        r == spec_todo_size(*t),
{
    ADDRESS_SPACE + 4 + 1 + t.content.len()
}

} // verus!
