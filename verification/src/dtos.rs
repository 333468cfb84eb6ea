//! Request bodies with their field rules, and the bodies of the answers.
use vstd::prelude::*;
use validator::ValidateEmail;

use crate::ids::{uuid_text, uuid_to_string};
use crate::models::{ChatRoom, GroupChatroomWithMembership, Message, RoomMembers, User};
use crate::text::decimal_text;
use crate::validation::{
    add_field, bare_rule, check_bare_rule, check_rule, field_entry, finish, outcome, outcome_view,
    rule, FieldError, FieldErrors, FieldView, RuleView, ValidationErrors,
};

verus! {

/// Whether `validator`'s e-mail check (`ValidateEmail::validate_email`, after the
/// HTML5 rule) accepts the text.
pub uninterp spec fn validator_email_ok(s: Seq<char>) -> bool;

/// `ValidateEmail::validate_email` on the text. Claimed: the named verdict, and
/// that a text without `@` is refused (the check starts by refusing it).
#[verifier::external_body]
fn email_is_valid(s: &str) -> (res: bool)
    ensures
        res == validator_email_ok(s@),
        res ==> s@.contains('@'),
{
    s.validate_email()
}

/// How std's `Debug` writes a string: quoted, with escapes.
pub uninterp spec fn rust_debug_str(s: Seq<char>) -> Seq<char>;

/// How `serde_json`'s `Debug` writes a JSON string value.
pub open spec fn json_string_debug_text(s: Seq<char>) -> Seq<char> {
    "String("@ + rust_debug_str(s) + ")"@
}

/// How `serde_json`'s `Debug` writes a JSON number.
pub open spec fn json_number_debug_text(n: nat) -> Seq<char> {
    "Number("@ + decimal_text(n) + ")"@
}

/// `format!("{:?}", serde_json::Value::from(s))`. Claimed: `String(` and std's
/// `Debug` of the text, then `)` (serde_json's `Debug` for `Value::String`).
#[verifier::external_body]
fn json_string_debug(s: &str) -> (res: String)
    ensures
        res@ == "String("@ + rust_debug_str(s@) + ")"@,
{
    format!("{:?}", serde_json::Value::from(s))
}

/// `format!("{:?}", serde_json::Value::from(n))`. Claimed: `Number(`, the
/// decimal digits of `n`, then `)` (serde_json's `Debug` for `Number` writes its
/// `Display`, the integer's decimal text).
#[verifier::external_body]
fn json_number_debug(n: u64) -> (res: String)
    ensures
        res@ == json_number_debug_text(n as nat),
{
    format!("{:?}", serde_json::Value::from(n))
}

/// The parameters that `validator` records for a failed description length
/// (`max` and the value), as the report writes them.
pub open spec fn description_params(d: Seq<char>) -> Seq<char> {
    "{\"max\": Number(300), \"value\": "@ + json_string_debug_text(d) + "}"@
}

/// The parameters that `validator` records for a failed page size (`min`, `max`
/// and the value), as the report writes them.
pub open spec fn limit_params(limit: nat) -> Seq<char> {
    "{\"min\": Number(1), \"max\": Number(50), \"value\": "@ + json_number_debug_text(limit) + "}"@
}

/// The sign-up body.
#[derive(Debug, Clone)]
pub struct RegisterUserDto {
    pub username: String,
    pub email: String,
    pub password: String,
}

/// The sign-in body.
#[derive(Debug)]
pub struct LoginUserDto {
    pub email: String,
    pub password: String,
}

/// The body that asks for a room.
#[derive(Debug)]
pub struct CreateRoomRequest {
    pub room_name: Option<String>,
    pub description: Option<String>,
    pub is_direct: bool,
    pub created_by: u128,
    pub recipient: Option<u128>,
}

/// A message to post.
#[derive(Debug)]
pub struct MessageRequestDto {
    pub message: String,
    pub sender_id: u128,
    pub room_id: u128,
    pub recipient_id: u128,
}

/// The body that asks to join a room.
#[derive(Debug)]
pub struct RoomMembersRequest {
    pub room_id: u128,
    pub user_id: u128,
}

/// A page request: how many items, after which id.
#[derive(Debug)]
pub struct InfiniteScrollDto {
    pub limit: usize,
    pub after_id: Option<u128>,
}

/// The query of the e-mail confirmation link.
pub struct VerifyEmailQueryDto {
    pub token: String,
}

/// The rules of an e-mail field: ten characters or more, and a valid address.
pub open spec fn email_rules(email: Seq<char>) -> Seq<RuleView> {
    rule(email.len() >= 10, "length"@, Some("email is required"@)) + rule(
        validator_email_ok(email),
        "email"@,
        Some("invalid format!"@),
    )
}

/// The rules of a password field: not empty, and six characters or more.
pub open spec fn password_rules(password: Seq<char>) -> Seq<RuleView> {
    rule(password.len() >= 1, "length"@, Some("password is required"@)) + rule(
        password.len() >= 6,
        "length"@,
        Some("password must be more than 6 characters"@),
    )
}

/// The failed rules of a sign-up body.
pub open spec fn register_report(username: Seq<char>, email: Seq<char>, password: Seq<char>) -> Seq<
    FieldView,
> {
    field_entry(
        "username"@,
        rule(username.len() >= 2, "length"@, Some("username is required"@)),
    ) + field_entry("email"@, email_rules(email)) + field_entry("password"@, password_rules(password))
}

/// The failed rules of a sign-in body.
pub open spec fn login_report(email: Seq<char>, password: Seq<char>) -> Seq<FieldView> {
    field_entry("email"@, email_rules(email)) + field_entry("password"@, password_rules(password))
}

/// The failed rules of a room request: a name, where given, of 3 to 50
/// characters; a description, where given, of at most 300.
pub open spec fn room_report(room_name: Option<Seq<char>>, description: Option<Seq<char>>) -> Seq<
    FieldView,
> {
    field_entry(
        "room_name"@,
        match room_name {
            Some(n) => rule(3 <= n.len() <= 50, "length"@, Some("Name must be 3-50 characters"@)),
            None => Seq::empty(),
        },
    ) + field_entry(
        "description"@,
        match description {
            Some(d) => bare_rule(d.len() <= 300, "length"@, description_params(d)),
            None => Seq::empty(),
        },
    )
}

/// The failed rules of a message: it may not be empty.
pub open spec fn message_report(message: Seq<char>) -> Seq<FieldView> {
    field_entry("message"@, rule(message.len() >= 1, "length"@, Some("Can't send an empty text"@)))
}

/// The failed rules of a page request: between 1 and 50 items.
pub open spec fn scroll_report(limit: usize) -> Seq<FieldView> {
    field_entry("limit"@, bare_rule(1 <= limit <= 50, "range"@, limit_params(limit as nat)))
}

/// The failed rules of a confirmation query: the token may not be empty.
pub open spec fn verify_report(token: Seq<char>) -> Seq<FieldView> {
    field_entry("token"@, rule(token.len() >= 1, "length"@, Some("Token is required."@)))
}

pub open spec fn opt_text(o: Option<String>) -> Option<Seq<char>> {
    match o {
        Some(s) => Some(s@),
        None => None,
    }
}

/// Checks the e-mail rules into `failed`.
fn check_email(failed: &mut Vec<FieldError>, email: &String)
    ensures
        final(failed)@.map_values(|e: FieldError| e@) == old(failed)@.map_values(
            |e: FieldError| e@,
        ) + email_rules(email@),
{
    let ghost before = failed@.map_values(|e: FieldError| e@);
    check_rule(failed, email.unicode_len() >= 10, "length", Some("email is required"));
    check_rule(failed, email_is_valid(email.as_str()), "email", Some("invalid format!"));
    assert(failed@.map_values(|e: FieldError| e@) =~= before + email_rules(email@));
}

/// Checks the password rules into `failed`.
fn check_password(failed: &mut Vec<FieldError>, password: &String)
    ensures
        final(failed)@.map_values(|e: FieldError| e@) == old(failed)@.map_values(
            |e: FieldError| e@,
        ) + password_rules(password@),
{
    let ghost before = failed@.map_values(|e: FieldError| e@);
    let n = password.unicode_len();
    check_rule(failed, n >= 1, "length", Some("password is required"));
    check_rule(failed, n >= 6, "length", Some("password must be more than 6 characters"));
    assert(failed@.map_values(|e: FieldError| e@) =~= before + password_rules(password@));
}

impl RegisterUserDto {
    /// Checks the sign-up rules: a username of two characters or more, an e-mail
    /// of ten characters or more that is a valid address, a password of six
    /// characters or more.
    pub fn validate(&self) -> (res: Result<(), ValidationErrors>)
        ensures
            outcome_view(res) == outcome(
                register_report(self.username@, self.email@, self.password@),
            ),
    {
        let mut report: Vec<FieldErrors> = Vec::new();
        let mut u: Vec<FieldError> = Vec::new();
        check_rule(&mut u, self.username.unicode_len() >= 2, "length", Some("username is required"));
        add_field(&mut report, "username", u);
        let mut e: Vec<FieldError> = Vec::new();
        check_email(&mut e, &self.email);
        add_field(&mut report, "email", e);
        let mut p: Vec<FieldError> = Vec::new();
        check_password(&mut p, &self.password);
        add_field(&mut report, "password", p);
        assert(report@.map_values(|f: FieldErrors| f@) =~= register_report(
            self.username@,
            self.email@,
            self.password@,
        ));
        finish(report)
    }
}

impl LoginUserDto {
    /// Checks the sign-in rules: an e-mail of ten characters or more that is a
    /// valid address, a password of six characters or more.
    pub fn validate(&self) -> (res: Result<(), ValidationErrors>)
        ensures
            outcome_view(res) == outcome(login_report(self.email@, self.password@)),
    {
        let mut report: Vec<FieldErrors> = Vec::new();
        let mut e: Vec<FieldError> = Vec::new();
        check_email(&mut e, &self.email);
        add_field(&mut report, "email", e);
        let mut p: Vec<FieldError> = Vec::new();
        check_password(&mut p, &self.password);
        add_field(&mut report, "password", p);
        assert(report@.map_values(|f: FieldErrors| f@) =~= login_report(
            self.email@,
            self.password@,
        ));
        finish(report)
    }
}

impl CreateRoomRequest {
    /// Checks the room rules: a name, where given, of 3 to 50 characters; a
    /// description, where given, of at most 300 characters.
    pub fn validate(&self) -> (res: Result<(), ValidationErrors>)
        ensures
            outcome_view(res) == outcome(
                room_report(opt_text(self.room_name), opt_text(self.description)),
            ),
    {
        let mut report: Vec<FieldErrors> = Vec::new();
        let mut n: Vec<FieldError> = Vec::new();
        match &self.room_name {
            Some(name) => {
                let len = name.unicode_len();
                check_rule(
                    &mut n,
                    3 <= len && len <= 50,
                    "length",
                    Some("Name must be 3-50 characters"),
                );
            },
            None => {},
        }
        assert(n@.map_values(|e: FieldError| e@) =~= match opt_text(self.room_name) {
            Some(x) => rule(3 <= x.len() <= 50, "length"@, Some("Name must be 3-50 characters"@)),
            None => Seq::empty(),
        });
        add_field(&mut report, "room_name", n);
        let mut d: Vec<FieldError> = Vec::new();
        match &self.description {
            Some(text) => {
                let mut params = String::from_str("{\"max\": Number(300), \"value\": ");
                let v = json_string_debug(text.as_str());
                params.append(v.as_str());
                params.append("}");
                check_bare_rule(&mut d, text.unicode_len() <= 300, "length", params.as_str());
            },
            None => {},
        }
        assert(d@.map_values(|e: FieldError| e@) =~= match opt_text(self.description) {
            Some(x) => bare_rule(x.len() <= 300, "length"@, description_params(x)),
            None => Seq::empty(),
        });
        add_field(&mut report, "description", d);
        assert(report@.map_values(|f: FieldErrors| f@) =~= room_report(
            opt_text(self.room_name),
            opt_text(self.description),
        ));
        finish(report)
    }
}

impl MessageRequestDto {
    /// Checks that the message is not empty.
    pub fn validate(&self) -> (res: Result<(), ValidationErrors>)
        ensures
            outcome_view(res) == outcome(message_report(self.message@)),
    {
        let mut report: Vec<FieldErrors> = Vec::new();
        let mut m: Vec<FieldError> = Vec::new();
        check_rule(&mut m, self.message.unicode_len() >= 1, "length", Some("Can't send an empty text"));
        add_field(&mut report, "message", m);
        assert(report@.map_values(|f: FieldErrors| f@) =~= message_report(self.message@));
        finish(report)
    }
}

impl InfiniteScrollDto {
    /// Checks that between 1 and 50 items are asked for.
    pub fn validate(&self) -> (res: Result<(), ValidationErrors>)
        ensures
            outcome_view(res) == outcome(scroll_report(self.limit)),
    {
        let mut report: Vec<FieldErrors> = Vec::new();
        let mut l: Vec<FieldError> = Vec::new();
        let mut params = String::from_str("{\"min\": Number(1), \"max\": Number(50), \"value\": ");
        let v = json_number_debug(self.limit as u64);
        params.append(v.as_str());
        params.append("}");
        check_bare_rule(&mut l, 1 <= self.limit && self.limit <= 50, "range", params.as_str());
        add_field(&mut report, "limit", l);
        assert(report@.map_values(|f: FieldErrors| f@) =~= scroll_report(self.limit));
        finish(report)
    }
}

impl VerifyEmailQueryDto {
    /// Checks that the token is not empty.
    pub fn validate(&self) -> (res: Result<(), ValidationErrors>)
        ensures
            outcome_view(res) == outcome(verify_report(self.token@)),
    {
        let mut report: Vec<FieldErrors> = Vec::new();
        let mut t: Vec<FieldError> = Vec::new();
        check_rule(&mut t, self.token.unicode_len() >= 1, "length", Some("Token is required."));
        add_field(&mut report, "token", t);
        assert(report@.map_values(|f: FieldErrors| f@) =~= verify_report(self.token@));
        finish(report)
    }
}

/// A user as shown to clients: no password hash, no tokens.
#[derive(Debug)]
pub struct UserDto {
    pub id: String,
    pub username: String,
    pub email: String,
    pub is_verified: bool,
    pub last_seen: Option<i64>,
    pub created_at: i64,
    pub updated_at: i64,
}

/// The public view of a user row.
pub open spec fn shows_user(d: UserDto, u: User) -> bool {
    &&& d.id@ == uuid_text(u.id)
    &&& d.username@ == u.username@
    &&& d.email@ == u.email@
    &&& d.is_verified == u.is_verified
    &&& d.last_seen == u.last_seen
    &&& d.created_at == u.created_at
    &&& d.updated_at == u.updated_at
}

impl UserDto {
    /// The public view of a user.
    pub fn filter_user(user: &User) -> (res: UserDto)
        ensures
            shows_user(res, *user),
    {
        UserDto {
            id: uuid_to_string(user.id),
            username: user.username.clone(),
            email: user.email.clone(),
            is_verified: user.is_verified,
            last_seen: user.last_seen,
            created_at: user.created_at,
            updated_at: user.updated_at,
        }
    }

    /// The public views of users, in the same order.
    pub fn filter_users(users: &[User]) -> (res: Vec<UserDto>)
        ensures
            res@.len() == users@.len(),
            forall|i: int| 0 <= i < users@.len() ==> shows_user(#[trigger] res@[i], users@[i]),
    {
        let mut out: Vec<UserDto> = Vec::new();
        let n = users.len();
        let mut i: usize = 0;
        while i < n
            invariant
                n == users@.len(),
                i <= n,
                out@.len() == i,
                forall|k: int| 0 <= k < i ==> shows_user(#[trigger] out@[k], users@[k]),
            decreases n - i,
        {
            out.push(UserDto::filter_user(&users[i]));
            i = i + 1;
        }
        out
    }
}

/// A message as shown to clients.
#[derive(Debug)]
pub struct MessageResponseDto {
    pub messages_id: u128,
    pub room_id: u128,
    pub message: String,
    pub sender_id: Option<u128>,
    pub updated_at: i64,
    pub created_at: i64,
}

/// The public view of a message row.
pub open spec fn shows_message(d: MessageResponseDto, m: Message) -> bool {
    &&& d.messages_id == m.messages_id
    &&& d.room_id == m.room_id
    &&& d.message@ == m.message@
    &&& d.sender_id == m.sender_id
    &&& d.updated_at == m.updated_at
    &&& d.created_at == m.created_at
}

impl MessageResponseDto {
    /// The public view of a message.
    pub fn filter_msg(message: &Message) -> (res: MessageResponseDto)
        ensures
            shows_message(res, *message),
    {
        MessageResponseDto {
            messages_id: message.messages_id,
            room_id: message.room_id,
            message: message.message.clone(),
            sender_id: message.sender_id,
            updated_at: message.updated_at,
            created_at: message.created_at,
        }
    }

    /// The public views of messages, in the same order.
    pub fn filter_msgs(messages: &[Message]) -> (res: Vec<MessageResponseDto>)
        ensures
            res@.len() == messages@.len(),
            forall|i: int|
                0 <= i < messages@.len() ==> shows_message(#[trigger] res@[i], messages@[i]),
    {
        let mut out: Vec<MessageResponseDto> = Vec::new();
        let n = messages.len();
        let mut i: usize = 0;
        while i < n
            invariant
                n == messages@.len(),
                i <= n,
                out@.len() == i,
                forall|k: int| 0 <= k < i ==> shows_message(#[trigger] out@[k], messages@[k]),
            decreases n - i,
        {
            out.push(MessageResponseDto::filter_msg(&messages[i]));
            i = i + 1;
        }
        out
    }
}

/// A plain answer: status and message.
#[derive(Debug)]
pub struct Response {
    pub status: String,
    pub message: String,
}

/// The answer to a sign-in: status and the session token.
#[derive(Debug)]
pub struct LoginReponseDto {
    pub status: String,
    pub token: String,
}

/// The answer that shows one user.
#[derive(Debug)]
pub struct UserResponseDto {
    pub status: String,
    pub data: UserDto,
}

/// The answer that lists users, with their number.
#[derive(Debug)]
pub struct UsersResponseDto {
    pub status: String,
    pub data: Vec<UserDto>,
    pub result: i64,
}

/// The answer to a room request.
pub struct CreateRoomResponse {
    pub status: String,
    pub data: ChatRoom,
}

/// The answer that shows one room.
pub struct ChatRoomResponse {
    pub status: String,
    pub data: ChatRoom,
}

/// The answer that lists group rooms with the caller's membership.
pub struct ChatRoomsResponse {
    pub status: String,
    pub data: Vec<GroupChatroomWithMembership>,
}

/// The answer that lists the messages of a room.
#[derive(Debug)]
pub struct MessagesResponseDto {
    pub status: String,
    pub data: Vec<MessageResponseDto>,
}

/// The answer to joining a room.
#[allow(non_camel_case_types)]
#[derive(Debug)]
pub struct roomMemberResponse {
    pub status: String,
    pub data: RoomMembers,
}

} // verus!
