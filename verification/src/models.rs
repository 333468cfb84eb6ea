//! The rows the server stores. Ids are UUIDs held as their 128-bit value; times
//! are microseconds since the Unix epoch (the precision the database keeps).
use vstd::prelude::*;

verus! {

/// A registered user.
#[derive(Debug, Clone)]
pub struct User {
    pub id: u128,
    pub username: String,
    pub email: String,
    pub password_hash: String,
    pub is_verified: bool,
    pub verification_token: Option<String>,
    pub verification_token_expires: Option<i64>,
    pub reset_token: Option<String>,
    pub reset_token_expires: Option<i64>,
    pub last_seen: Option<i64>,
    pub created_at: i64,
    pub updated_at: i64,
}

/// A chat room: a direct conversation between two users (with its pair key) or
/// a named group.
#[derive(Debug, Clone)]
pub struct ChatRoom {
    pub room_id: u128,
    pub room_name: Option<String>,
    pub description: Option<String>,
    pub is_direct: bool,
    pub direct_key: Option<String>,
    pub created_by: Option<u128>,
    pub created_at: Option<i64>,
    pub updated_at: i64,
}

/// A group room together with whether the asking user is one of its members.
#[derive(Debug, Clone)]
pub struct GroupChatroomWithMembership {
    pub room_id: u128,
    pub room_name: Option<String>,
    pub description: Option<String>,
    pub is_direct: bool,
    pub direct_key: Option<String>,
    pub created_by: Option<u128>,
    pub created_at: Option<i64>,
    pub updated_at: i64,
    pub is_member: bool,
}

/// A message posted in a room.
#[derive(Debug, Clone)]
pub struct Message {
    pub messages_id: u128,
    pub room_id: u128,
    pub message: String,
    pub sender_id: Option<u128>,
    pub updated_at: i64,
    pub created_at: i64,
}

/// The membership of a user in a room.
#[derive(Debug)]
pub struct RoomMembers {
    pub room_id: u128,
    pub user_id: u128,
    pub joined_at: i64,
}

} // verus!

verus! {

/// A failed database call, as the handlers see it: the error's text, the text of
/// the database's own error where the database answered, and whether that answer
/// was a violation of a uniqueness constraint.
pub struct DbError {
    pub message: String,
    pub database_message: Option<String>,
    pub unique_violation: bool,
}

} // verus!
