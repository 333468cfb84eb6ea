//! The steps of the account handlers: sign-up, sign-in, e-mail confirmation, and
//! the listings. Each multi-step handler is a machine that names the next
//! database or e-mail call and takes its outcome as the next event.
use vstd::prelude::*;
use axum_extra::extract::cookie::{Cookie, SameSite};

use crate::dtos::{
    login_report, register_report, shows_message, shows_user, verify_report, LoginReponseDto,
    LoginUserDto, MessageResponseDto, MessagesResponseDto, RegisterUserDto, Response, UserDto,
    UserResponseDto, UsersResponseDto, VerifyEmailQueryDto,
};
use crate::errors::{
    bad_request_of, bad_request_with, server_error_of, server_error_with,
    unauthorized_of, unauthorized_with, ErrorMessage, HttpError, STATUS_BAD_REQUEST,
    STATUS_INTERNAL_SERVER_ERROR,
};
use crate::ids::{random_uuid_text, uuid_text, uuid_to_string};
use crate::models::{DbError, Message, User};
use crate::text::{has_prefix, int_text};
use crate::password::{argon2id_prefix, is_b64_salt16, compare_outcome, compare_password, generate_salt, hash_outcome, hash_password_with_salt};
use crate::room_flows::success;
use crate::token::{
    decode_answer, lemma_created_token_decodes, Claims, EXPIRY_LEEWAY_SECONDS,
    clock_micros_reading, clock_reading, create_token_at, jwt_hs256_token, read_clock,
    read_clock_micros, token_outcome,
    MAX_LIFETIME_MINUTES, MICROS_BOUND, TIMESTAMP_BOUND,
};
use crate::validation::report_text;

verus! {

/// How long a sign-up's confirmation token stays valid: 24 hours, in
/// microseconds.
pub const VERIFICATION_LIFETIME_MICROS: i64 = 86400000000;

/// The largest token lifetime (in minutes, either way) for which the e-mail
/// confirmation's cookie lifetime (`lifetime * 60` hours) fits in seconds.
pub const MAX_CONFIRM_LIFETIME_MINUTES: i64 = 42700796466920;

/// The session cookie to set with an answer: named `token`, path `/`, HTTP only.
pub struct SessionCookie {
    pub value: String,
    pub max_age_seconds: i64,
    /// Whether the cookie is marked `SameSite=Lax`.
    pub same_site_lax: bool,
}

/// The `Set-Cookie` header value that the `cookie` crate's `Display` writes for a
/// cookie with this name, value, path and `Max-Age` (seconds), marked `HttpOnly`
/// and `SameSite=Lax` where asked, with no domain, expiry or `Secure` flag.
pub open spec fn cookie_text(
    name: Seq<char>,
    value: Seq<char>,
    path: Seq<char>,
    max_age_seconds: i64,
    http_only: bool,
    same_site_lax: bool,
) -> Seq<char> {
    name + "="@ + value + (if http_only {
        "; HttpOnly"@
    } else {
        Seq::empty()
    }) + (if same_site_lax {
        "; SameSite=Lax"@
    } else {
        Seq::empty()
    }) + "; Path="@ + path + "; Max-Age="@ + int_text(max_age_seconds as int)
}

/// The session cookie's header value: named `token`, path `/`, `HttpOnly`.
pub open spec fn session_cookie_text(value: Seq<char>, max_age_seconds: i64, same_site_lax: bool) -> Seq<char> {
    cookie_text("token"@, value, "/"@, max_age_seconds, true, same_site_lax)
}

/// `Cookie::build((name, value)).path(path).max_age(..).http_only(..)`, with
/// `SameSite=Lax` where asked, written by its `Display`. Claimed: the text that
/// `cookie_text` states (`Display` writes `name=value` unencoded, then `HttpOnly`,
/// `SameSite`, `Path` and `Max-Age` in this order; `Secure` is written only with a
/// `SameSite=None` or a secure flag, neither of which is set).
#[verifier::external_body]
fn cookie_header_text(
    name: &str,
    value: &str,
    path: &str,
    max_age_seconds: i64,
    http_only: bool,
    same_site_lax: bool,
) -> (res: String)
    ensures
        res@ == cookie_text(name@, value@, path@, max_age_seconds, http_only, same_site_lax),
{
    let mut c = Cookie::build((name.to_string(), value.to_string()))
        .path(path.to_string())
        .max_age(time::Duration::seconds(max_age_seconds))
        .http_only(http_only)
        .build();
    c.set_same_site(same_site_lax.then_some(SameSite::Lax));
    c.to_string()
}

impl SessionCookie {
    /// The `Set-Cookie` header value that sets this cookie: `token=<value>;
    /// HttpOnly`, `SameSite=Lax` where marked, `Path=/` and the `Max-Age`.
    pub fn header(&self) -> (res: String)
        ensures
            res@ == session_cookie_text(self.value@, self.max_age_seconds, self.same_site_lax),
    {
        cookie_header_text("token", self.value.as_str(), "/", self.max_age_seconds, true, self.same_site_lax)
    }
}

/// The text of a failed database call as an answer: the database's own text where
/// it answered, else the call's.
pub open spec fn db_error_text(e: DbError) -> Seq<char> {
    match e.database_message {
        Some(m) => m@,
        None => e.message@,
    }
}

// ---------------------------------------------------------------------------
// Sign-up.

/// Where the sign-up machine stands.
pub enum RegisterPhase {
    /// Waiting for the new user row.
    AwaitCreate,
    /// Waiting for the confirmation e-mail to be sent.
    AwaitEmail,
    /// Answered.
    Finished,
}

/// The sign-up machine: the address and confirmation token of the new user.
pub struct RegisterFlow {
    pub email: String,
    pub token: String,
    pub phase: RegisterPhase,
}

/// The outcome of the last call.
pub enum RegisterEvent {
    Created(Result<(), DbError>),
    EmailSent(Result<(), String>),
}

/// What to do next.
pub enum RegisterAction {
    /// Store a new user.
    CreateUser {
        username: String,
        email: String,
        password_hash: String,
        verification_token: String,
        verification_token_expires: i64,
    },
    /// Send the confirmation e-mail with this token to this address.
    SendEmail { to: String, token: String },
    /// Answer the request.
    Respond(Result<Response, HttpError>),
}

/// The text of the answer to a successful sign-up.
pub open spec fn registered_text() -> Seq<char> {
    "User is registered successfully!, Please check your email to verify your account"@
}

/// The first step of a sign-up for a body (username, e-mail, password), a salt
/// and a time (microseconds): where the body breaks the rules, a bad request whose
/// message lists the failed rules; where the hasher refuses, a bad request with the
/// hashing error's text; otherwise the new user is to be stored with the hash, the
/// machine's confirmation token and an expiry 24 hours on.
pub open spec fn register_started(
    username: Seq<char>,
    email: Seq<char>,
    password: Seq<char>,
    salt: Seq<char>,
    now_micros: i64,
    flow: RegisterFlow,
    action: RegisterAction,
) -> bool {
    let report = register_report(username, email, password);
    &&& flow.email@ == email
    &&& if report.len() != 0 {
        &&& flow.phase is Finished
        &&& action matches RegisterAction::Respond(Err(e)) && e.has(
            STATUS_BAD_REQUEST,
            report_text(report),
        )
    } else {
        match hash_outcome(password, salt) {
            Err(m) => {
                &&& flow.phase is Finished
                &&& action matches RegisterAction::Respond(Err(e)) && bad_request_with(e, m)
            },
            Ok(h) => {
                &&& flow.phase is AwaitCreate
                &&& action matches RegisterAction::CreateUser {
                    username: u,
                    email: em,
                    password_hash,
                    verification_token,
                    verification_token_expires,
                } && u@ == username && em@ == email && password_hash@ == h
                    && verification_token@ == flow.token@ && verification_token_expires
                    == now_micros + VERIFICATION_LIFETIME_MICROS
                &&& compare_outcome(password, h) == Ok::<bool, ErrorMessage>(true)
                &&& has_prefix(h, argon2id_prefix())
            },
        }
    }
}

impl RegisterFlow {
    /// How far the machine has come; every step raises it.
    pub open spec fn rank(&self) -> int {
        match self.phase {
            RegisterPhase::AwaitCreate => 0,
            RegisterPhase::AwaitEmail => 1,
            RegisterPhase::Finished => 2,
        }
    }

    /// The event is the outcome of the call that the phase waits for.
    pub open spec fn accepts(&self, ev: RegisterEvent) -> bool {
        match self.phase {
            RegisterPhase::AwaitCreate => ev is Created,
            RegisterPhase::AwaitEmail => ev is EmailSent,
            RegisterPhase::Finished => false,
        }
    }

    /// The first step of a sign-up with the given salt, confirmation token and
    /// time (microseconds): a body that breaks the rules is a bad request whose
    /// message lists the failed rules; a password the hasher refuses is a bad
    /// request with the hashing error's text; otherwise the user is stored with the
    /// hash, the token, and an expiry 24 hours on. With the Base64 text of 16 bytes
    /// as salt, a body that keeps the rules (and a password of at most 0x3fffffff
    /// characters) always reaches the storing of the user.
    pub fn start_with(body: RegisterUserDto, salt: &str, token: String, now_micros: i64) -> (res: (
        RegisterFlow,
        RegisterAction,
    ))
        requires
            -MICROS_BOUND <= now_micros <= MICROS_BOUND,
        ensures
            res.0.token@ == token@,
            register_started(body.username@, body.email@, body.password@, salt@, now_micros, res.0, res.1),
            register_report(body.username@, body.email@, body.password@).len() == 0
                && body.password@.len() <= 0x3fffffff && is_b64_salt16(salt@) ==> res.1 is CreateUser,
    {
        let checked = body.validate();
        let email = body.email.clone();
        match checked {
            Err(errs) => {
                let msg = errs.to_message();
                return (
                    RegisterFlow { email, token, phase: RegisterPhase::Finished },
                    RegisterAction::Respond(Err(HttpError::bad_service(msg))),
                );
            },
            Ok(()) => {},
        }
        match hash_password_with_salt(body.password.as_str(), salt) {
            Err(m) => (
                RegisterFlow { email, token, phase: RegisterPhase::Finished },
                RegisterAction::Respond(Err(bad_request_of(m))),
            ),
            Ok(h) => {
                let verification_token = token.clone();
                (
                    RegisterFlow { email, token, phase: RegisterPhase::AwaitCreate },
                    RegisterAction::CreateUser {
                        username: body.username,
                        email: body.email,
                        password_hash: h,
                        verification_token,
                        verification_token_expires: now_micros + VERIFICATION_LIFETIME_MICROS,
                    },
                )
            },
        }
    }

    /// The first step of a sign-up: as `start_with`, with a fresh random salt (the
    /// Base64 text of 16 bytes), a random confirmation token (the text of a random
    /// id) and the clock's reading in microseconds taken by the call. A body that
    /// keeps the rules (with a password of at most 0x3fffffff characters) always
    /// reaches the storing of the user.
    pub fn start(body: RegisterUserDto) -> (res: (RegisterFlow, RegisterAction))
        ensures
            exists|id: u128| #[trigger] uuid_text(id) == res.0.token@,
            exists|salt: Seq<char>, now_micros: i64|
                is_b64_salt16(salt) && -MICROS_BOUND <= now_micros <= MICROS_BOUND
                    && #[trigger] register_started(body.username@, body.email@, body.password@, salt, now_micros, res.0, res.1),
            exists|salt: Seq<char>, now_micros: i64|
                #![trigger clock_micros_reading(now_micros), is_b64_salt16(salt)]
                clock_micros_reading(now_micros) && is_b64_salt16(salt) && register_started(
                    body.username@,
                    body.email@,
                    body.password@,
                    salt,
                    now_micros,
                    res.0,
                    res.1,
                ),
            register_report(body.username@, body.email@, body.password@).len() == 0
                && body.password@.len() <= 0x3fffffff ==> res.1 is CreateUser,
    {
        let ghost username = body.username@;
        let ghost email = body.email@;
        let ghost password = body.password@;
        let salt = generate_salt();
        let token = random_uuid_text();
        let now = read_clock_micros();
        let res = RegisterFlow::start_with(body, salt.as_str(), token, now);
        assert(register_started(username, email, password, salt@, now, res.0, res.1));
        res
    }

    /// One step. A stored user is to be sent the confirmation e-mail with the
    /// token at the address; a failure to store is the server error "user already
    /// exists" where the database refused a duplicate, else a server error with the
    /// failure's text. An e-mail that was not sent is the bad request "failed to
    /// send email"; one that was sent ends in the success answer.
    pub fn step(self, ev: RegisterEvent) -> (res: (RegisterFlow, RegisterAction))
        requires
            self.accepts(ev),
        ensures
            res.0.rank() > self.rank(),
            res.0.phase is Finished <==> res.1 is Respond,
            match (self.phase, ev) {
                (RegisterPhase::AwaitCreate, RegisterEvent::Created(Ok(()))) => res.1 matches RegisterAction::SendEmail { to, token } && to@ == self.email@ && token@ == self.token@,
                (RegisterPhase::AwaitCreate, RegisterEvent::Created(Err(err))) => res.1 matches RegisterAction::Respond(Err(e)) && if err.database_message is Some && err.unique_violation {
                    server_error_with(e, ErrorMessage::UserAlreadyExist)
                } else {
                    e.has(STATUS_INTERNAL_SERVER_ERROR, db_error_text(err))
                },
                (RegisterPhase::AwaitEmail, RegisterEvent::EmailSent(Err(_))) => res.1 matches RegisterAction::Respond(Err(e)) && bad_request_with(e, ErrorMessage::EmailError),
                (RegisterPhase::AwaitEmail, RegisterEvent::EmailSent(Ok(()))) => res.1 matches RegisterAction::Respond(Ok(r)) && r.status@ == success() && r.message@ == registered_text(),
                _ => false,
            },
    {
        match (self.phase, ev) {
            (RegisterPhase::AwaitCreate, RegisterEvent::Created(created)) => match created {
                Ok(()) => {
                    let to = self.email.clone();
                    let token = self.token.clone();
                    (
                        RegisterFlow { email: self.email, token: self.token, phase: RegisterPhase::AwaitEmail },
                        RegisterAction::SendEmail { to, token },
                    )
                },
                Err(err) => {
                    let e = match err.database_message {
                        Some(m) => if err.unique_violation {
                            server_error_of(ErrorMessage::UserAlreadyExist)
                        } else {
                            HttpError::server_error(m)
                        },
                        None => HttpError::server_error(err.message),
                    };
                    (
                        RegisterFlow { email: self.email, token: self.token, phase: RegisterPhase::Finished },
                        RegisterAction::Respond(Err(e)),
                    )
                },
            },
            (RegisterPhase::AwaitEmail, RegisterEvent::EmailSent(sent)) => {
                let answer = match sent {
                    Err(_) => Err(bad_request_of(ErrorMessage::EmailError)),
                    Ok(()) => Ok(
                        Response {
                            status: String::from_str("success"),
                            message: String::from_str(
                                "User is registered successfully!, Please check your email to verify your account",
                            ),
                        },
                    ),
                };
                (
                    RegisterFlow { email: self.email, token: self.token, phase: RegisterPhase::Finished },
                    RegisterAction::Respond(answer),
                )
            },
            _ => {
                proof {
                    assert(false);
                }
                (
                    RegisterFlow { email: self.email, token: self.token, phase: RegisterPhase::Finished },
                    RegisterAction::Respond(Err(bad_request_of(ErrorMessage::EmailError))),
                )
            },
        }
    }
}

// ---------------------------------------------------------------------------
// Sign-in.

/// The answer to a sign-in: the body with the token, and the session cookie.
pub struct LoginAnswer {
    pub body: LoginReponseDto,
    pub cookie: SessionCookie,
}

/// Where the sign-in machine stands.
pub enum LoginPhase {
    /// Waiting for the user with the given e-mail.
    AwaitUser,
    /// Answered.
    Finished,
}

/// The sign-in machine: the password given, and the phase.
pub struct LoginFlow {
    pub password: String,
    pub phase: LoginPhase,
}

/// What to do next.
pub enum LoginAction {
    /// Look up the user with this e-mail.
    FindUserByEmail { email: String },
    /// Answer the request.
    Respond(Result<LoginAnswer, HttpError>),
    /// No answer can be made: the password was accepted but the token lifetime
    /// does not fit a duration of minutes, so no token can be built.
    LifetimeOutOfRange,
}

/// A successful sign-in answer: the token, and a cookie holding it for
/// `lifetime * 60` minutes, `SameSite=Lax`.
pub open spec fn login_answer(r: Result<LoginAnswer, HttpError>, token: Seq<char>, lifetime: i64) -> bool {
    r matches Ok(a) && a.body.status@ == success() && a.body.token@ == token && a.cookie.value@
        == token && a.cookie.max_age_seconds == lifetime * 3600 && a.cookie.same_site_lax
}

/// The sign-in answer for a looked-up user, at time `now` (seconds): a failed
/// lookup is a server error with its text; no such user, a password refused by the
/// checker, or a wrong password are "unauthorized: invalid credentials"; otherwise
/// a token for the user's id, issued now for `lifetime` minutes.
pub open spec fn login_outcome(
    found: Result<Option<User>, DbError>,
    password: Seq<char>,
    secret: Seq<u8>,
    lifetime: i64,
    now: i64,
    r: Result<LoginAnswer, HttpError>,
) -> bool {
    match found {
        Err(err) => r matches Err(e) && e.has(STATUS_INTERNAL_SERVER_ERROR, err.message@),
        Ok(None) => r matches Err(e) && unauthorized_with(e, ErrorMessage::InvalidCredentials),
        Ok(Some(u)) => if compare_outcome(password, u.password_hash@) != Ok::<bool, ErrorMessage>(true) {
            r matches Err(e) && unauthorized_with(e, ErrorMessage::InvalidCredentials)
        } else {
            match token_outcome(uuid_text(u.id), secret, lifetime, now) {
                Ok(t) => login_answer(r, t, lifetime),
                Err(_) => r matches Err(e) && server_error_with(e, ErrorMessage::TokenFailed),
            }
        },
    }
}

/// The token lifetime (minutes) fits a duration: `chrono::Duration::minutes`
/// accepts it.
pub open spec fn lifetime_fits(lifetime: i64) -> bool {
    -MAX_LIFETIME_MINUTES <= lifetime <= MAX_LIFETIME_MINUTES
}

/// The sign-in reaches the making of a token: the user was found and the
/// password checks against the stored hash.
pub open spec fn login_makes_token(found: Result<Option<User>, DbError>, password: Seq<char>) -> bool {
    found matches Ok(Some(u)) && compare_outcome(password, u.password_hash@) == Ok::<
        bool,
        ErrorMessage,
    >(true)
}

/// What a sign-in step does at time `now`: where a token is to be made for a
/// lifetime that fits no duration, no answer; otherwise the sign-in answer.
pub open spec fn login_stepped(
    found: Result<Option<User>, DbError>,
    password: Seq<char>,
    secret: Seq<u8>,
    lifetime: i64,
    now: i64,
    action: LoginAction,
) -> bool {
    if login_makes_token(found, password) && !lifetime_fits(lifetime) {
        action is LifetimeOutOfRange
    } else {
        action matches LoginAction::Respond(r) && login_outcome(found, password, secret, lifetime, now, r)
    }
}

impl LoginFlow {
    /// The machine for a sign-in: a body that breaks the rules is "bad request:
    /// invalid credentials"; otherwise the user with the e-mail is looked up.
    pub fn start(body: LoginUserDto) -> (res: (LoginFlow, LoginAction))
        ensures
            res.0.password@ == body.password@,
            login_report(body.email@, body.password@).len() == 0 ==> {
                &&& res.0.phase is AwaitUser
                &&& res.1 matches LoginAction::FindUserByEmail { email } && email@ == body.email@
            },
            login_report(body.email@, body.password@).len() != 0 ==> {
                &&& res.0.phase is Finished
                &&& res.1 matches LoginAction::Respond(Err(e)) && bad_request_with(
                    e,
                    ErrorMessage::InvalidCredentials,
                )
            },
    {
        match body.validate() {
            Err(_) => (
                LoginFlow { password: body.password, phase: LoginPhase::Finished },
                LoginAction::Respond(Err(bad_request_of(ErrorMessage::InvalidCredentials))),
            ),
            Ok(()) => (
                LoginFlow { password: body.password, phase: LoginPhase::AwaitUser },
                LoginAction::FindUserByEmail { email: body.email },
            ),
        }
    }

    /// The answer to the lookup of the user, at time `now` (seconds). Where the
    /// password is accepted but the lifetime fits no duration, no answer is made.
    pub fn step_at(self, found: Result<Option<User>, DbError>, secret: &[u8], lifetime: i64, now: i64) -> (res: (
        LoginFlow,
        LoginAction,
    ))
        requires
            self.phase is AwaitUser,
            -TIMESTAMP_BOUND <= now <= TIMESTAMP_BOUND,
        ensures
            res.0.phase is Finished,
            login_stepped(found, self.password@, secret@, lifetime, now, res.1),
    {
        let answer = match found {
            Err(err) => Err(HttpError::server_error(err.message)),
            Ok(None) => Err(unauthorized_of(ErrorMessage::InvalidCredentials)),
            Ok(Some(user)) => {
                match compare_password(self.password.as_str(), user.password_hash.as_str()) {
                    Ok(true) => {
                        if !(-MAX_LIFETIME_MINUTES <= lifetime && lifetime <= MAX_LIFETIME_MINUTES) {
                            return (
                                LoginFlow { password: self.password, phase: LoginPhase::Finished },
                                LoginAction::LifetimeOutOfRange,
                            );
                        }
                        match create_token_at(uuid_to_string(user.id), secret, lifetime, now) {
                            Ok(token) => {
                                let value = token.clone();
                                Ok(
                                    LoginAnswer {
                                        body: LoginReponseDto { status: String::from_str("success"), token },
                                        cookie: SessionCookie {
                                            value,
                                            max_age_seconds: lifetime * 3600,
                                            same_site_lax: true,
                                        },
                                    },
                                )
                            },
                            Err(_) => Err(server_error_of(ErrorMessage::TokenFailed)),
                        }
                    },
                    _ => Err(unauthorized_of(ErrorMessage::InvalidCredentials)),
                }
            },
        };
        (LoginFlow { password: self.password, phase: LoginPhase::Finished }, LoginAction::Respond(answer))
    }

    /// The answer to the lookup of the user, at the current time: as `step_at`
    /// at the clock's reading (seconds) taken by the call.
    pub fn step(self, found: Result<Option<User>, DbError>, secret: &[u8], lifetime: i64) -> (res: (
        LoginFlow,
        LoginAction,
    ))
        requires
            self.phase is AwaitUser,
        ensures
            res.0.phase is Finished,
            exists|now: i64|
                -TIMESTAMP_BOUND <= now <= TIMESTAMP_BOUND && #[trigger] login_stepped(
                    found,
                    self.password@,
                    secret@,
                    lifetime,
                    now,
                    res.1,
                ),
            exists|now: i64|
                #[trigger] clock_reading(now) && login_stepped(
                    found,
                    self.password@,
                    secret@,
                    lifetime,
                    now,
                    res.1,
                ),
    {
        let now = read_clock();
        self.step_at(found, secret, lifetime, now)
    }
}

// ---------------------------------------------------------------------------
// E-mail confirmation.

/// The answer to a confirmation: the body with the new session token, and the
/// session cookie.
pub struct VerifyAnswer {
    pub body: VerifyEmailQueryDto,
    pub cookie: SessionCookie,
}

/// Where the confirmation machine stands.
pub enum VerifyPhase {
    /// Waiting for the user with the confirmation token.
    AwaitUser,
    /// Waiting for the user to be marked as confirmed; the session token and its
    /// cookie's lifetime (seconds) are made.
    AwaitVerify { session: String, max_age_seconds: i64 },
    /// Answered.
    Finished,
}

/// The confirmation machine: the confirmation token, and the phase.
pub struct VerifyFlow {
    pub token: String,
    pub phase: VerifyPhase,
}

/// The outcome of the last database call.
pub enum VerifyEvent {
    Found(Result<Option<User>, DbError>),
    Verified(Result<(), DbError>),
}

/// What to do next.
pub enum VerifyAction {
    /// Look up the user with this confirmation token.
    FindUserByToken { token: String },
    /// Mark the user with this confirmation token as confirmed.
    VerifyUser { token: String },
    /// Answer the request.
    Respond(Result<VerifyAnswer, HttpError>),
}

/// What a confirmation step at time `now` (seconds) answers, by the event. A
/// failed lookup is a server error with its text, no such user the server error
/// "user does not exist"; for a user found, a session token for the user's id
/// (issued now for `lifetime` minutes) is made, its cookie kept `lifetime * 60`
/// hours, and the user is to be marked as confirmed. A failure to mark is a
/// server error with its text; otherwise the answer carries the session token, in
/// the body and in the cookie.
pub open spec fn verify_stepped(
    flow: VerifyFlow,
    ev: VerifyEvent,
    secret: Seq<u8>,
    lifetime: i64,
    now: i64,
    res: (VerifyFlow, VerifyAction),
) -> bool {
    match (flow.phase, ev) {
        (VerifyPhase::AwaitUser, VerifyEvent::Found(Err(err))) => res.1 matches VerifyAction::Respond(Err(e)) && e.has(STATUS_INTERNAL_SERVER_ERROR, err.message@),
        (VerifyPhase::AwaitUser, VerifyEvent::Found(Ok(None))) => res.1 matches VerifyAction::Respond(Err(e)) && server_error_with(e, ErrorMessage::UserNotExist),
        (VerifyPhase::AwaitUser, VerifyEvent::Found(Ok(Some(u)))) => match token_outcome(uuid_text(u.id), secret, lifetime, now) {
            Ok(t) => (res.0.phase matches VerifyPhase::AwaitVerify { session, max_age_seconds } && session@ == t && max_age_seconds == lifetime * 216000) && (res.1 matches VerifyAction::VerifyUser { token } && token@ == flow.token@),
            Err(_) => res.1 matches VerifyAction::Respond(Err(e)) && server_error_with(e, ErrorMessage::TokenFailed),
        },
        (VerifyPhase::AwaitVerify { .. }, VerifyEvent::Verified(Err(err))) => res.1 matches VerifyAction::Respond(Err(e)) && e.has(STATUS_INTERNAL_SERVER_ERROR, err.message@),
        (VerifyPhase::AwaitVerify { session, max_age_seconds }, VerifyEvent::Verified(Ok(()))) => res.1 matches VerifyAction::Respond(Ok(a)) && a.body.token@ == session@ && a.cookie.value@ == session@ && a.cookie.max_age_seconds == max_age_seconds && !a.cookie.same_site_lax,
        _ => false,
    }
}

/// The lifetime (minutes) for which a confirmation can build its token and its
/// cookie's duration of `lifetime * 60` hours.
pub open spec fn confirm_lifetime_fits(lifetime: i64) -> bool {
    -MAX_CONFIRM_LIFETIME_MINUTES <= lifetime <= MAX_CONFIRM_LIFETIME_MINUTES
}

impl VerifyFlow {
    /// How far the machine has come; every step raises it.
    pub open spec fn rank(&self) -> int {
        match self.phase {
            VerifyPhase::AwaitUser => 0,
            VerifyPhase::AwaitVerify { .. } => 1,
            VerifyPhase::Finished => 2,
        }
    }

    /// The event is the outcome of the call that the phase waits for.
    pub open spec fn accepts(&self, ev: VerifyEvent) -> bool {
        match self.phase {
            VerifyPhase::AwaitUser => ev is Found,
            VerifyPhase::AwaitVerify { .. } => ev is Verified,
            VerifyPhase::Finished => false,
        }
    }

    /// The machine for a confirmation link: an empty token is a bad request whose
    /// message lists the failed rule; otherwise the user with the token is looked
    /// up.
    pub fn start(query: VerifyEmailQueryDto) -> (res: (VerifyFlow, VerifyAction))
        ensures
            res.0.token@ == query.token@,
            verify_report(query.token@).len() == 0 ==> {
                &&& res.0.phase is AwaitUser
                &&& res.1 matches VerifyAction::FindUserByToken { token } && token@ == query.token@
            },
            verify_report(query.token@).len() != 0 ==> {
                &&& res.0.phase is Finished
                &&& res.1 matches VerifyAction::Respond(Err(e)) && e.has(
                    STATUS_BAD_REQUEST,
                    report_text(verify_report(query.token@)),
                )
            },
    {
        match query.validate() {
            Err(errs) => {
                let msg = errs.to_message();
                (
                    VerifyFlow { token: query.token, phase: VerifyPhase::Finished },
                    VerifyAction::Respond(Err(HttpError::bad_service(msg))),
                )
            },
            Ok(()) => {
                let token = query.token.clone();
                (
                    VerifyFlow { token: query.token, phase: VerifyPhase::AwaitUser },
                    VerifyAction::FindUserByToken { token },
                )
            },
        }
    }

    /// One step at time `now` (seconds), as `verify_stepped` says. A lifetime
    /// is needed only where a user was found.
    pub fn step_at(self, ev: VerifyEvent, secret: &[u8], lifetime: i64, now: i64) -> (res: (
        VerifyFlow,
        VerifyAction,
    ))
        requires
            self.accepts(ev),
            ev matches VerifyEvent::Found(Ok(Some(_))) ==> confirm_lifetime_fits(lifetime),
            -TIMESTAMP_BOUND <= now <= TIMESTAMP_BOUND,
        ensures
            res.0.token@ == self.token@,
            res.0.rank() > self.rank(),
            res.0.phase is Finished <==> res.1 is Respond,
            verify_stepped(self, ev, secret@, lifetime, now, res),
    {
        let token = self.token;
        match (self.phase, ev) {
            (VerifyPhase::AwaitUser, VerifyEvent::Found(found)) => match found {
                Err(err) => (
                    VerifyFlow { token, phase: VerifyPhase::Finished },
                    VerifyAction::Respond(Err(HttpError::server_error(err.message))),
                ),
                Ok(None) => (
                    VerifyFlow { token, phase: VerifyPhase::Finished },
                    VerifyAction::Respond(Err(server_error_of(ErrorMessage::UserNotExist))),
                ),
                Ok(Some(user)) => {
                    match create_token_at(uuid_to_string(user.id), secret, lifetime, now) {
                        Ok(session) => {
                            let t = token.clone();
                            let max_age_seconds = lifetime * 216000;
                            (
                                VerifyFlow { token, phase: VerifyPhase::AwaitVerify { session, max_age_seconds } },
                                VerifyAction::VerifyUser { token: t },
                            )
                        },
                        Err(_) => (
                            VerifyFlow { token, phase: VerifyPhase::Finished },
                            VerifyAction::Respond(Err(server_error_of(ErrorMessage::TokenFailed))),
                        ),
                    }
                },
            },
            (VerifyPhase::AwaitVerify { session, max_age_seconds }, VerifyEvent::Verified(done)) => match done {
                Err(err) => (
                    VerifyFlow { token, phase: VerifyPhase::Finished },
                    VerifyAction::Respond(Err(HttpError::server_error(err.message))),
                ),
                Ok(()) => {
                    let value = session.clone();
                    (
                        VerifyFlow { token, phase: VerifyPhase::Finished },
                        VerifyAction::Respond(
                            Ok(
                                VerifyAnswer {
                                    body: VerifyEmailQueryDto { token: session },
                                    cookie: SessionCookie {
                                        value,
                                        max_age_seconds,
                                        same_site_lax: false,
                                    },
                                },
                            ),
                        ),
                    )
                },
            },
            _ => {
                proof {
                    assert(false);
                }
                (
                    VerifyFlow { token, phase: VerifyPhase::Finished },
                    VerifyAction::Respond(Err(server_error_of(ErrorMessage::UserNotExist))),
                )
            },
        }
    }

    /// One step at the current time: as `step_at` at the clock's reading
    /// (seconds) taken by the call.
    pub fn step(self, ev: VerifyEvent, secret: &[u8], lifetime: i64) -> (res: (VerifyFlow, VerifyAction))
        requires
            self.accepts(ev),
            ev matches VerifyEvent::Found(Ok(Some(_))) ==> confirm_lifetime_fits(lifetime),
        ensures
            res.0.token@ == self.token@,
            res.0.rank() > self.rank(),
            res.0.phase is Finished <==> res.1 is Respond,
            exists|now: i64|
                -TIMESTAMP_BOUND <= now <= TIMESTAMP_BOUND && #[trigger] verify_stepped(
                    self,
                    ev,
                    secret@,
                    lifetime,
                    now,
                    res,
                ),
            exists|now: i64|
                #[trigger] clock_reading(now) && verify_stepped(
                    self,
                    ev,
                    secret@,
                    lifetime,
                    now,
                    res,
                ),
    {
        let now = read_clock();
        self.step_at(ev, secret, lifetime, now)
    }
}

// ---------------------------------------------------------------------------
// Listings.

/// The answer that shows the caller.
pub fn me_answer(user: &User) -> (res: UserResponseDto)
    ensures
        res.status@ == success(),
        shows_user(res.data, *user),
{
    UserResponseDto { status: String::from_str("success"), data: UserDto::filter_user(user) }
}

/// The answer to the listing of users: a failed listing is the server error
/// "failed to fetch all users"; otherwise the users' public views and their
/// number.
pub fn users_answer(listed: Result<Vec<User>, DbError>) -> (res: Result<UsersResponseDto, HttpError>)
    ensures
        match listed {
            Err(_) => res matches Err(e) && server_error_with(e, ErrorMessage::FetchAllUsersFailed),
            Ok(users) => res matches Ok(r) && r.status@ == success() && r.data@.len() == users@.len()
                && (users@.len() <= i64::MAX ==> r.result == users@.len()) && forall|i: int|
                0 <= i < users@.len() ==> shows_user(#[trigger] r.data@[i], users@[i]),
        },
{
    match listed {
        Err(_) => Err(server_error_of(ErrorMessage::FetchAllUsersFailed)),
        Ok(users) => {
            let data = UserDto::filter_users(users.as_slice());
            let n = data.len();
            let result: i64 = if (n as u64) <= 9223372036854775807u64 {
                n as i64
            } else {
                9223372036854775807i64
            };
            Ok(UsersResponseDto { status: String::from_str("success"), data, result })
        },
    }
}

/// The answer to the listing of a room's messages: a failed listing is the
/// server error "failed to get messages"; otherwise the messages' public views.
pub fn messages_answer(listed: Result<Vec<Message>, DbError>) -> (res: Result<MessagesResponseDto, HttpError>)
    ensures
        match listed {
            Err(_) => res matches Err(e) && server_error_with(e, ErrorMessage::FailedToGetMsg),
            Ok(msgs) => res matches Ok(r) && r.status@ == success() && r.data@.len() == msgs@.len()
                && forall|i: int| 0 <= i < msgs@.len() ==> shows_message(#[trigger] r.data@[i], msgs@[i]),
        },
{
    match listed {
        Err(_) => Err(server_error_of(ErrorMessage::FailedToGetMsg)),
        Ok(msgs) => Ok(
            MessagesResponseDto {
                status: String::from_str("success"),
                data: MessageResponseDto::filter_msgs(msgs.as_slice()),
            },
        ),
    }
}

/// The answer of the health check.
pub fn health_message() -> (res: String)
    ensures
        res@ == "This api is healthy and responsive"@,
{
    String::from_str("This api is healthy and responsive")
}

/// The greeting of the server's root.
pub fn return_server_response() -> (res: String)
    ensures
        res@ == "Server Established!!"@,
{
    String::from_str("Server Established!!")
}

/// Whoever signed up with a password is let in by that password: where a sign-up
/// stored a user with the hash it made, signing in to that user with the same
/// password answers with a token for the user's id, issued at the time of the
/// sign-in.
pub proof fn lemma_signed_up_password_signs_in(
    username: Seq<char>,
    email: Seq<char>,
    password: Seq<char>,
    salt: Seq<char>,
    now_micros: i64,
    flow: RegisterFlow,
    action: RegisterAction,
    stored: User,
    secret: Seq<u8>,
    lifetime: i64,
    now: i64,
    answer: Result<LoginAnswer, HttpError>,
)
    requires
        register_started(username, email, password, salt, now_micros, flow, action),
        action matches RegisterAction::CreateUser { password_hash, .. } && stored.password_hash@
            == password_hash@,
        login_outcome(Ok(Some(stored)), password, secret, lifetime, now, answer),
    ensures
        login_answer(
            answer,
            jwt_hs256_token(uuid_text(stored.id), now, (now + 60 * lifetime) as i64, secret),
            lifetime,
        ),
{
    assert(uuid_text(stored.id).len() == 36);
}

/// A sign-in that lets a user in answers with a session token for the user's id
/// issued at the clock's reading `now` and expiring `lifetime` minutes later, in
/// the body and in the cookie; decoded with the same secret at any later reading
/// that has not passed that expiry by more than the leeway, it names the user
/// with that issue time and expiry.
pub proof fn lemma_sign_in_token_is_current(
    user: User,
    password: Seq<char>,
    secret: Seq<u8>,
    lifetime: i64,
    now: i64,
    action: LoginAction,
    later: i64,
    decoded: Result<Claims, HttpError>,
)
    requires
        login_stepped(Ok(Some(user)), password, secret, lifetime, now, action),
        compare_outcome(password, user.password_hash@) == Ok::<bool, ErrorMessage>(true),
        lifetime_fits(lifetime),
        -TIMESTAMP_BOUND <= now <= TIMESTAMP_BOUND,
        action matches LoginAction::Respond(Ok(a)) ==> decode_answer(a.body.token@, secret, later, decoded),
        0 <= now + 60 * lifetime,
        later - EXPIRY_LEEWAY_SECONDS <= now + 60 * lifetime,
    ensures
        action matches LoginAction::Respond(Ok(a)) && a.body.token@ == jwt_hs256_token(
            uuid_text(user.id),
            now,
            (now + 60 * lifetime) as i64,
            secret,
        ) && a.cookie.value@ == a.body.token@,
        decoded matches Ok(c) && c.sub@ == uuid_text(user.id) && c.iat == now && c.exp == now + 60
            * lifetime,
{
    assert(uuid_text(user.id).len() == 36);
    if let LoginAction::Respond(Ok(a)) = action {
        lemma_created_token_decodes(uuid_text(user.id), secret, lifetime, now, a.body.token@, later, decoded);
    }
}

/// A confirmation of a found user makes a session token for the user's id issued
/// at the clock's reading `now` and expiring `lifetime` minutes later; decoded with
/// the same secret at any later reading that has not passed that expiry by more
/// than the leeway, it names the user with that issue time and expiry.
pub proof fn lemma_confirmation_token_is_current(
    flow: VerifyFlow,
    user: User,
    secret: Seq<u8>,
    lifetime: i64,
    now: i64,
    res: (VerifyFlow, VerifyAction),
    later: i64,
    decoded: Result<Claims, HttpError>,
)
    requires
        flow.phase is AwaitUser,
        verify_stepped(flow, VerifyEvent::Found(Ok(Some(user))), secret, lifetime, now, res),
        confirm_lifetime_fits(lifetime),
        -TIMESTAMP_BOUND <= now <= TIMESTAMP_BOUND,
        res.0.phase matches VerifyPhase::AwaitVerify { session, .. } ==> decode_answer(
            session@,
            secret,
            later,
            decoded,
        ),
        0 <= now + 60 * lifetime,
        later - EXPIRY_LEEWAY_SECONDS <= now + 60 * lifetime,
    ensures
        res.0.phase matches VerifyPhase::AwaitVerify { session, .. } && session@ == jwt_hs256_token(
            uuid_text(user.id),
            now,
            (now + 60 * lifetime) as i64,
            secret,
        ),
        decoded matches Ok(c) && c.sub@ == uuid_text(user.id) && c.iat == now && c.exp == now + 60
            * lifetime,
{
    assert(uuid_text(user.id).len() == 36);
    if let VerifyPhase::AwaitVerify { session, .. } = res.0.phase {
        lemma_created_token_decodes(uuid_text(user.id), secret, lifetime, now, session@, later, decoded);
    }
}

/// A sign-up that stores the user stores a confirmation token that expires
/// exactly 24 hours (in microseconds) after the clock's reading `now_micros`.
pub proof fn lemma_sign_up_expiry(
    username: Seq<char>,
    email: Seq<char>,
    password: Seq<char>,
    salt: Seq<char>,
    now_micros: i64,
    flow: RegisterFlow,
    action: RegisterAction,
)
    requires
        register_started(username, email, password, salt, now_micros, flow, action),
        action is CreateUser,
    ensures
        action matches RegisterAction::CreateUser { verification_token_expires, .. }
            && verification_token_expires == now_micros + 24 * 3600 * 1000000,
{
}

} // verus!
