//! Core logic of a chat server: error texts and HTTP error values, password
//! hashing, session tokens, request validation, room keys and the decision
//! steps of each request handler. Input/output (HTTP, database, e-mail,
//! websockets) is performed by the caller, which feeds the outcomes back in.
use vstd::prelude::*;

pub mod auth;
pub mod config;
pub mod dtos;
pub mod errors;
pub mod ids;
pub mod mail;
pub mod models;
pub mod room_flows;
pub mod rooms;
pub mod socket;
pub mod password;
pub mod text;
pub mod token;
pub mod user_flows;
pub mod validation;

verus! {

} // verus!
