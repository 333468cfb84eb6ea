//! The key that identifies the direct conversation of two users.
use vstd::prelude::*;

use crate::ids::{lemma_uuid_text_injective, uuid_text, uuid_to_string};
use crate::text::{concat_str, lex_le, lex_le_exec, lemma_lex_le_antisymmetric, lemma_lex_le_total};

verus! {

/// Why no room key was made.
#[derive(Debug, Clone, Copy, PartialEq, Eq, Structural)]
pub enum RoomKeyError {
    /// A direct room was asked for without a recipient.
    MissingRecipient,
}

impl RoomKeyError {
    /// The text of the error.
    pub fn message(&self) -> (res: String)
        ensures
            res@ == "Direct message requires a recipient_id"@,
    {
        String::from_str("Direct message requires a recipient_id")
    }
}

/// The key of the direct room of two users: the texts of their ids, the smaller
/// first, joined by a colon.
pub open spec fn pair_key(a: u128, b: u128) -> Seq<char> {
    let sa = uuid_text(a);
    let sb = uuid_text(b);
    if lex_le(sa, sb) {
        sa + ":"@ + sb
    } else {
        sb + ":"@ + sa
    }
}

/// The key of the room asked for: a direct room needs a recipient and gets the
/// pair key; a group room has no key.
pub open spec fn room_key(created_by: u128, recipient: Option<u128>, is_direct: bool) -> Result<
    Option<Seq<char>>,
    RoomKeyError,
> {
    if is_direct {
        match recipient {
            Some(r) => Ok(Some(pair_key(created_by, r))),
            None => Err(RoomKeyError::MissingRecipient),
        }
    } else {
        Ok(None)
    }
}

/// The text of an optional key.
pub open spec fn key_view(r: Result<Option<String>, RoomKeyError>) -> Result<
    Option<Seq<char>>,
    RoomKeyError,
> {
    match r {
        Ok(Some(k)) => Ok(Some(k@)),
        Ok(None) => Ok(None),
        Err(e) => Err(e),
    }
}

/// The key of a room: for a direct room the two ids' texts in sorted order joined
/// by a colon (a missing recipient is an error); none for a group room.
pub fn direct_key(created_by: u128, recipient: Option<u128>, is_direct: bool) -> (res: Result<
    Option<String>,
    RoomKeyError,
>)
    ensures
        key_view(res) == room_key(created_by, recipient, is_direct),
{
    if !is_direct {
        return Ok(None);
    }
    let r = match recipient {
        Some(r) => r,
        None => return Err(RoomKeyError::MissingRecipient),
    };
    let a = uuid_to_string(created_by);
    let b = uuid_to_string(r);
    let (first, second) = if lex_le_exec(a.as_str(), b.as_str()) {
        (a, b)
    } else {
        (b, a)
    };
    let mut key = concat_str(first.as_str(), ":");
    key.append(second.as_str());
    Ok(Some(key))
}

/// The direct room of two users has one key, whoever of them asks for it.
pub proof fn lemma_pair_key_symmetric(a: u128, b: u128)
    ensures
        pair_key(a, b) == pair_key(b, a),
{
    let sa = uuid_text(a);
    let sb = uuid_text(b);
    lemma_lex_le_total(sa, sb);
    if lex_le(sa, sb) && lex_le(sb, sa) {
        lemma_lex_le_antisymmetric(sa, sb);
    }
}

/// The two texts that a pair key joins: the first 36 characters and the last 36.
proof fn lemma_pair_key_parts(a: u128, b: u128)
    ensures
        pair_key(a, b).len() == 73,
        lex_le(uuid_text(a), uuid_text(b)) ==> pair_key(a, b).subrange(0, 36) == uuid_text(a)
            && pair_key(a, b).subrange(37, 73) == uuid_text(b),
        !lex_le(uuid_text(a), uuid_text(b)) ==> pair_key(a, b).subrange(0, 36) == uuid_text(b)
            && pair_key(a, b).subrange(37, 73) == uuid_text(a),
{
    reveal_strlit(":");
    let sa = uuid_text(a);
    let sb = uuid_text(b);
    assert((sa + ":"@ + sb).subrange(0, 36) =~= sa);
    assert((sa + ":"@ + sb).subrange(37, 73) =~= sb);
    assert((sb + ":"@ + sa).subrange(0, 36) =~= sb);
    assert((sb + ":"@ + sa).subrange(37, 73) =~= sa);
}

/// Different pairs of users never share a direct room key: equal keys name the
/// same two users.
pub proof fn lemma_pair_key_injective(a: u128, b: u128, c: u128, d: u128)
    requires
        pair_key(a, b) == pair_key(c, d),
    ensures
        (a == c && b == d) || (a == d && b == c),
{
    lemma_pair_key_parts(a, b);
    lemma_pair_key_parts(c, d);
    if lex_le(uuid_text(a), uuid_text(b)) {
        if lex_le(uuid_text(c), uuid_text(d)) {
            lemma_uuid_text_injective(a, c);
            lemma_uuid_text_injective(b, d);
        } else {
            lemma_uuid_text_injective(a, d);
            lemma_uuid_text_injective(b, c);
        }
    } else {
        if lex_le(uuid_text(c), uuid_text(d)) {
            lemma_uuid_text_injective(b, c);
            lemma_uuid_text_injective(a, d);
        } else {
            lemma_uuid_text_injective(b, d);
            lemma_uuid_text_injective(a, c);
        }
    }
}

} // verus!
