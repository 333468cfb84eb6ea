use chat_server::dtos::{CreateRoomRequest, LoginUserDto, RegisterUserDto, RoomMembersRequest, VerifyEmailQueryDto};
use chat_server::models::{ChatRoom, DbError, GroupChatroomWithMembership, Message, RoomMembers, User};
use chat_server::password::hash_password;
use chat_server::room_flows::{
    group_rooms_answer, membership_flag, DirectRoomAction, DirectRoomEvent, DirectRoomFlow,
    GroupRoomAction, GroupRoomEvent, GroupRoomFlow, JoinRoomAction, JoinRoomEvent, JoinRoomFlow,
};
use chat_server::socket::{IncomingFrame, SocketAction, SocketEvent, SocketFlow};
use chat_server::token::decode_token;
use chat_server::user_flows::{
    health_message, me_answer, messages_answer, return_server_response, users_answer, LoginAction,
    LoginFlow, RegisterAction, RegisterEvent, RegisterFlow, VerifyAction, VerifyEvent, VerifyFlow,
};

const ME: u128 = 11;
const YOU: u128 = 22;

fn room(id: u128) -> ChatRoom {
    ChatRoom { room_id: id, room_name: None, description: None, is_direct: true, direct_key: Some("k".to_string()), created_by: Some(ME), created_at: Some(1), updated_at: 1 }
}

fn member(room_id: u128, user_id: u128) -> RoomMembers {
    RoomMembers { room_id, user_id, joined_at: 9 }
}

fn db_err(msg: &str) -> DbError {
    DbError { message: msg.to_string(), database_message: None, unique_violation: false }
}

fn user(id: u128, verified: bool, password_hash: &str) -> User {
    User {
        id, username: "u".to_string(), email: "u@example.com".to_string(), password_hash: password_hash.to_string(),
        is_verified: verified, verification_token: None, verification_token_expires: None, reset_token: None,
        reset_token_expires: None, last_seen: None, created_at: 0, updated_at: 0,
    }
}

fn direct_body() -> CreateRoomRequest {
    CreateRoomRequest { room_name: None, description: None, is_direct: true, created_by: ME, recipient: Some(YOU) }
}

fn err_of<T>(r: Result<T, chat_server::errors::HttpError>) -> (u16, String) {
    match r {
        Ok(_) => panic!("expected an error"),
        Err(e) => (e.status, e.message),
    }
}

#[test]
fn direct_room_existing_is_returned() {
    let (flow, act) = DirectRoomFlow::start(ME, &direct_body());
    assert!(matches!(act, DirectRoomAction::FindDirectRoom { creator: ME, recipient: Some(YOU) }));
    let (_, act) = flow.step(DirectRoomEvent::Looked(Ok(Some(room(5)))));
    match act {
        DirectRoomAction::Respond(Ok(r)) => assert_eq!((r.status.as_str(), r.data.room_id), ("success", 5)),
        _ => panic!(),
    }
}

#[test]
fn direct_room_full_run() {
    let (flow, _) = DirectRoomFlow::start(ME, &direct_body());
    let (flow, act) = flow.step(DirectRoomEvent::Looked(Ok(None)));
    assert!(matches!(act, DirectRoomAction::CreateDirectRoom { creator: ME, recipient: Some(YOU) }));
    let (flow, act) = flow.step(DirectRoomEvent::Created(Ok(room(6))));
    assert!(matches!(act, DirectRoomAction::AddMember { room_id: 6, user_id: Some(ME) }));
    let (flow, act) = flow.step(DirectRoomEvent::Added(Ok(member(6, ME))));
    assert!(matches!(act, DirectRoomAction::FindUser { user_id: Some(YOU) }));
    let (flow, act) = flow.step(DirectRoomEvent::RecipientLooked(Ok(Some(user(YOU, true, "h")))));
    assert!(matches!(act, DirectRoomAction::AddMember { room_id: 6, user_id: Some(YOU) }));
    let (_, act) = flow.step(DirectRoomEvent::Added(Err(db_err("dup"))));
    match act {
        DirectRoomAction::Respond(r) => assert_eq!(err_of(r), (500, "Failed to add room member, they dont exist".to_string())),
        _ => panic!(),
    }
}

#[test]
fn direct_room_unverified_recipient_is_not_added() {
    let (flow, _) = DirectRoomFlow::start(ME, &direct_body());
    let (flow, _) = flow.step(DirectRoomEvent::Looked(Ok(None)));
    let (flow, _) = flow.step(DirectRoomEvent::Created(Ok(room(6))));
    let (flow, _) = flow.step(DirectRoomEvent::Added(Ok(member(6, ME))));
    let (_, act) = flow.step(DirectRoomEvent::RecipientLooked(Ok(Some(user(YOU, false, "h")))));
    assert!(matches!(act, DirectRoomAction::Respond(Ok(ref r)) if r.data.room_id == 6));
}

#[test]
fn direct_room_errors() {
    let mut bad = direct_body();
    bad.room_name = Some("x".to_string());
    let (_, act) = DirectRoomFlow::start(ME, &bad);
    match act { DirectRoomAction::Respond(r) => assert_eq!(err_of(r), (400, "Invalid Input!!".to_string())), _ => panic!() }
    let (flow, _) = DirectRoomFlow::start(ME, &direct_body());
    let (_, act) = flow.step(DirectRoomEvent::Looked(Err(db_err("x"))));
    match act { DirectRoomAction::Respond(r) => assert_eq!(err_of(r), (500, "Failed to find room, it does not exist".to_string())), _ => panic!() }
    let (flow, _) = DirectRoomFlow::start(ME, &direct_body());
    let (flow, _) = flow.step(DirectRoomEvent::Looked(Ok(None)));
    let (_, act) = flow.step(DirectRoomEvent::Created(Err(db_err("x"))));
    match act { DirectRoomAction::Respond(r) => assert_eq!(err_of(r), (500, "Failed to create room".to_string())), _ => panic!() }
}

#[test]
fn group_room_runs() {
    let body = CreateRoomRequest { room_name: Some("rust fans".to_string()), description: Some("d".to_string()), is_direct: false, created_by: ME, recipient: None };
    let (flow, act) = GroupRoomFlow::start(ME, body);
    assert!(matches!(act, GroupRoomAction::FindRoomByName { room_name: Some(ref n) } if n == "rust fans"));
    let (flow, act) = flow.step(GroupRoomEvent::Looked(Ok(None)));
    match &act {
        GroupRoomAction::CreateGroupRoom { room_name, creator, description } => {
            assert_eq!((room_name.as_deref(), *creator, description.as_deref()), (Some("rust fans"), ME, Some("d")));
        }
        _ => panic!(),
    }
    let (flow, act) = flow.step(GroupRoomEvent::Created(Ok(room(3))));
    assert!(matches!(act, GroupRoomAction::AddMember { room_id: 3, user_id: Some(ME) }));
    let (_, act) = flow.step(GroupRoomEvent::Added(Ok(member(3, ME))));
    assert!(matches!(act, GroupRoomAction::Respond(Ok(ref r)) if r.data.room_id == 3 && r.status == "success"));
}

#[test]
fn group_room_name_taken() {
    let body = CreateRoomRequest { room_name: Some("rust fans".to_string()), description: None, is_direct: false, created_by: ME, recipient: None };
    let (flow, _) = GroupRoomFlow::start(ME, body);
    let (_, act) = flow.step(GroupRoomEvent::Looked(Ok(Some(room(1)))));
    match act { GroupRoomAction::Respond(r) => assert_eq!(err_of(r), (500, "Failed to create room".to_string())), _ => panic!() }
    let body = CreateRoomRequest { room_name: Some("no".to_string()), description: None, is_direct: false, created_by: ME, recipient: None };
    let (_, act) = GroupRoomFlow::start(ME, body);
    match act { GroupRoomAction::Respond(r) => assert_eq!(err_of(r), (400, "Function Failed: InvalidCredentials".to_string())), _ => panic!() }
}

#[test]
fn join_room_runs() {
    let (flow, act) = JoinRoomFlow::start(ME, &RoomMembersRequest { room_id: 4, user_id: YOU });
    assert!(matches!(act, JoinRoomAction::CheckMember { user_id: Some(YOU), room_id: 4 }));
    let (flow, act) = flow.step(JoinRoomEvent::Checked(Ok(false)));
    assert!(matches!(act, JoinRoomAction::AddMember { room_id: 4, user_id: Some(ME) }));
    let (_, act) = flow.step(JoinRoomEvent::Added(Ok(member(4, ME))));
    assert!(matches!(act, JoinRoomAction::Respond(Ok(ref r)) if r.data.user_id == ME));
    let (flow, _) = JoinRoomFlow::start(ME, &RoomMembersRequest { room_id: 4, user_id: YOU });
    let (_, act) = flow.step(JoinRoomEvent::Checked(Ok(true)));
    match act { JoinRoomAction::Respond(r) => assert_eq!(err_of(r), (400, "user already a member".to_string())), _ => panic!() }
    assert!(membership_flag(Some(true)));
    assert!(!membership_flag(Some(false)));
    assert!(!membership_flag(None));
}

#[test]
fn group_listing() {
    let g = GroupChatroomWithMembership { room_id: 1, room_name: Some("g".to_string()), description: None, is_direct: false, direct_key: None, created_by: None, created_at: None, updated_at: 0, is_member: true };
    let r = group_rooms_answer(Ok(vec![g])).ok().unwrap();
    assert_eq!((r.status.as_str(), r.data.len(), r.data[0].is_member), ("success", 1, true));
    assert_eq!(err_of(group_rooms_answer(Err(db_err("x")))), (500, "Failed to find room, it does not exist".to_string()));
}

#[test]
fn register_runs() {
    let body = RegisterUserDto { username: "alice".to_string(), email: "alice@example.com".to_string(), password: "secret12".to_string() };
    let (flow, act) = RegisterFlow::start(body);
    let token = flow.token.clone();
    assert_eq!(token.len(), 36);
    match &act {
        RegisterAction::CreateUser { username, email, password_hash, verification_token, .. } => {
            assert_eq!((username.as_str(), email.as_str()), ("alice", "alice@example.com"));
            assert!(password_hash.starts_with("$argon2"));
            assert_eq!(verification_token, &token);
        }
        _ => panic!(),
    }
    let (flow, act) = flow.step(RegisterEvent::Created(Ok(())));
    match &act {
        RegisterAction::SendEmail { to, token: t } => {
            assert_eq!(to, "alice@example.com");
            assert_eq!(t, &token);
        }
        _ => panic!(),
    }
    let (_, act) = flow.step(RegisterEvent::EmailSent(Ok(())));
    match act {
        RegisterAction::Respond(Ok(r)) => assert_eq!(r.message, "User is registered successfully!, Please check your email to verify your account"),
        _ => panic!(),
    }
}

#[test]
fn register_failures() {
    let body = RegisterUserDto { username: "alice".to_string(), email: "alice@example.com".to_string(), password: "secret12".to_string() };
    let (flow, _) = RegisterFlow::start_with(body, "c29tZXNhbHRzb21lc2FsdA", "tok".to_string(), 0);
    let dup = DbError { message: "error returned from database: dup".to_string(), database_message: Some("dup".to_string()), unique_violation: true };
    let (_, act) = flow.step(RegisterEvent::Created(Err(dup)));
    match act { RegisterAction::Respond(r) => assert_eq!(err_of(r), (500, "Failed to create user, User already exists!!".to_string())), _ => panic!() }
    let body = RegisterUserDto { username: "alice".to_string(), email: "alice@example.com".to_string(), password: "secret12".to_string() };
    let (flow, act) = RegisterFlow::start_with(body, "c29tZXNhbHRzb21lc2FsdA", "tok".to_string(), 0);
    assert!(matches!(act, RegisterAction::CreateUser { verification_token_expires: 86400000000, .. }));
    let other = DbError { message: "error returned from database: boom".to_string(), database_message: Some("boom".to_string()), unique_violation: false };
    let (_, act) = flow.step(RegisterEvent::Created(Err(other)));
    match act { RegisterAction::Respond(r) => assert_eq!(err_of(r), (500, "boom".to_string())), _ => panic!() }
    let body = RegisterUserDto { username: "a".to_string(), email: "alice@example.com".to_string(), password: "secret12".to_string() };
    let (_, act) = RegisterFlow::start(body);
    match act { RegisterAction::Respond(r) => assert_eq!(err_of(r), (400, "username: username is required".to_string())), _ => panic!() }
}

#[test]
fn register_email_failure() {
    let body = RegisterUserDto { username: "alice".to_string(), email: "alice@example.com".to_string(), password: "secret12".to_string() };
    let (flow, _) = RegisterFlow::start_with(body, "c29tZXNhbHRzb21lc2FsdA", "tok".to_string(), 0);
    let (flow, _) = flow.step(RegisterEvent::Created(Ok(())));
    let (_, act) = flow.step(RegisterEvent::EmailSent(Err("smtp".to_string())));
    match act { RegisterAction::Respond(r) => assert_eq!(err_of(r), (400, "Failed to send email!!".to_string())), _ => panic!() }
}

#[test]
fn login_runs() {
    let hash = hash_password("secret12").unwrap();
    let (flow, act) = LoginFlow::start(LoginUserDto { email: "u@example.com".to_string(), password: "secret12".to_string() });
    assert!(matches!(act, LoginAction::FindUserByEmail { ref email } if email == "u@example.com"));
    let (_, act) = flow.step_at(Ok(Some(user(0x1234, true, &hash))), b"key", 60, 1_700_000_000);
    match act {
        LoginAction::Respond(Ok(a)) => {
            assert_eq!(a.body.status, "success");
            assert_eq!(a.cookie.value, a.body.token);
            assert_eq!(a.cookie.max_age_seconds, 216000);
            assert!(a.cookie.same_site_lax);
        }
        _ => panic!(),
    }
    let (flow, _) = LoginFlow::start(LoginUserDto { email: "u@example.com".to_string(), password: "secret12".to_string() });
    let (_, act) = flow.step(Ok(Some(user(0x1234, true, &hash))), b"key", 60);
    match act {
        LoginAction::Respond(Ok(a)) => {
            let c = decode_token(&a.body.token, b"key").ok().unwrap();
            assert_eq!(c.sub, "00000000-0000-0000-0000-000000001234");
        }
        _ => panic!(),
    }
}

#[test]
fn login_refusals() {
    let hash = hash_password("secret12").unwrap();
    let (flow, _) = LoginFlow::start(LoginUserDto { email: "u@example.com".to_string(), password: "wrongpass".to_string() });
    let (_, act) = flow.step(Ok(Some(user(1, true, &hash))), b"key", 60);
    match act { LoginAction::Respond(r) => assert_eq!(err_of(r), (401, "Function Failed: InvalidCredentials".to_string())), _ => panic!() }
    let (flow, _) = LoginFlow::start(LoginUserDto { email: "u@example.com".to_string(), password: "secret12".to_string() });
    let (_, act) = flow.step(Ok(None), b"key", 60);
    match act { LoginAction::Respond(r) => assert_eq!(err_of(r), (401, "Function Failed: InvalidCredentials".to_string())), _ => panic!() }
    let (flow, _) = LoginFlow::start(LoginUserDto { email: "u@example.com".to_string(), password: "secret12".to_string() });
    let (_, act) = flow.step(Err(db_err("pool timed out")), b"key", 60);
    match act { LoginAction::Respond(r) => assert_eq!(err_of(r), (500, "pool timed out".to_string())), _ => panic!() }
    let (_, act) = LoginFlow::start(LoginUserDto { email: "bad".to_string(), password: "secret12".to_string() });
    match act { LoginAction::Respond(r) => assert_eq!(err_of(r), (400, "Function Failed: InvalidCredentials".to_string())), _ => panic!() }
}

#[test]
fn verify_email_runs() {
    let (flow, act) = VerifyFlow::start(VerifyEmailQueryDto { token: "tok".to_string() });
    assert!(matches!(act, VerifyAction::FindUserByToken { ref token } if token == "tok"));
    let (flow, act) = flow.step_at(VerifyEvent::Found(Ok(Some(user(7, false, "h")))), b"key", 60, 1_700_000_000);
    assert!(matches!(act, VerifyAction::VerifyUser { ref token } if token == "tok"));
    let (_, act) = flow.step(VerifyEvent::Verified(Ok(())), b"key", 60);
    match act {
        VerifyAction::Respond(Ok(a)) => {
            assert_eq!(a.cookie.value, a.body.token);
            assert_eq!(a.cookie.max_age_seconds, 60 * 60 * 3600);
            assert!(!a.cookie.same_site_lax);
        }
        _ => panic!(),
    }
    let (flow, _) = VerifyFlow::start(VerifyEmailQueryDto { token: "tok".to_string() });
    let (_, act) = flow.step(VerifyEvent::Found(Ok(None)), b"key", 60);
    match act { VerifyAction::Respond(r) => assert_eq!(err_of(r), (500, "Server Failed, User does not exist".to_string())), _ => panic!() }
    let (_, act) = VerifyFlow::start(VerifyEmailQueryDto { token: String::new() });
    match act { VerifyAction::Respond(r) => assert_eq!(err_of(r), (400, "token: Token is required.".to_string())), _ => panic!() }
}

#[test]
fn listings() {
    let me = me_answer(&user(0xab, true, "h"));
    assert_eq!((me.status.as_str(), me.data.id.as_str()), ("success", "00000000-0000-0000-0000-0000000000ab"));
    let all = users_answer(Ok(vec![user(1, true, "h"), user(2, false, "h")])).ok().unwrap();
    assert_eq!((all.data.len(), all.result), (2, 2));
    assert_eq!(err_of(users_answer(Err(db_err("x")))), (500, "Failed to fetch all users".to_string()));
    let m = Message { messages_id: 1, room_id: 2, message: "hey".to_string(), sender_id: Some(3), updated_at: 0, created_at: 0 };
    let msgs = messages_answer(Ok(vec![m])).ok().unwrap();
    assert_eq!(msgs.data[0].message, "hey");
    assert_eq!(err_of(messages_answer(Err(db_err("x")))), (500, "Failed to get messages".to_string()));
    assert_eq!(health_message(), "This api is healthy and responsive");
    assert_eq!(return_server_response(), "Server Established!!");
}

#[test]
fn socket_session() {
    let (flow, act) = SocketFlow::start(5, ME);
    assert!(matches!(act, SocketAction::Receive));
    let (flow, act) = flow.step(SocketEvent::Received(IncomingFrame::Text("hi".to_string())));
    assert!(matches!(act, SocketAction::StoreMessage { room_id: 5, ref text, sender_id: ME } if text == "hi"));
    let (flow, act) = flow.step(SocketEvent::Stored(Err(db_err("down"))));
    assert!(matches!(act, SocketAction::ReportAndReceive(ref m) if m == "down"));
    let (flow, _) = flow.step(SocketEvent::Received(IncomingFrame::Text("again".to_string())));
    let m = Message { messages_id: 1, room_id: 5, message: "again".to_string(), sender_id: Some(ME), updated_at: 0, created_at: 0 };
    let (flow, act) = flow.step(SocketEvent::Stored(Ok(m)));
    assert!(matches!(act, SocketAction::Broadcast(ref m) if m.message == "again"));
    let (flow, act) = flow.step(SocketEvent::Broadcast(Ok(())));
    assert!(matches!(act, SocketAction::Receive));
    let (_, act) = flow.step(SocketEvent::Received(IncomingFrame::Closed));
    assert!(matches!(act, SocketAction::Close));
}

#[test]
fn login_lifetime_matters_only_for_a_token() {
    let hash = hash_password("secret12").unwrap();
    let (flow, _) = LoginFlow::start(LoginUserDto { email: "u@example.com".to_string(), password: "wrongpass".to_string() });
    let (_, act) = flow.step(Ok(Some(user(1, true, &hash))), b"key", i64::MAX);
    match act { LoginAction::Respond(r) => assert_eq!(err_of(r), (401, "Function Failed: InvalidCredentials".to_string())), _ => panic!() }
    let (flow, _) = LoginFlow::start(LoginUserDto { email: "u@example.com".to_string(), password: "secret12".to_string() });
    let (_, act) = flow.step(Ok(None), b"key", i64::MIN);
    match act { LoginAction::Respond(r) => assert_eq!(err_of(r), (401, "Function Failed: InvalidCredentials".to_string())), _ => panic!() }
    let (flow, _) = LoginFlow::start(LoginUserDto { email: "u@example.com".to_string(), password: "secret12".to_string() });
    let (_, act) = flow.step(Ok(Some(user(1, true, &hash))), b"key", i64::MAX);
    assert!(matches!(act, LoginAction::LifetimeOutOfRange));
}

#[test]
fn verify_lifetime_matters_only_for_a_found_user() {
    let (flow, _) = VerifyFlow::start(VerifyEmailQueryDto { token: "tok".to_string() });
    let (_, act) = flow.step(VerifyEvent::Found(Ok(None)), b"key", i64::MAX);
    match act { VerifyAction::Respond(r) => assert_eq!(err_of(r), (500, "Server Failed, User does not exist".to_string())), _ => panic!() }
    let (flow, _) = VerifyFlow::start(VerifyEmailQueryDto { token: "tok".to_string() });
    let (flow, _) = flow.step(VerifyEvent::Found(Ok(Some(user(7, false, "h")))), b"key", 2);
    let (_, act) = flow.step(VerifyEvent::Verified(Err(db_err("gone"))), b"key", i64::MAX);
    match act { VerifyAction::Respond(r) => assert_eq!(err_of(r), (500, "gone".to_string())), _ => panic!() }
}

#[test]
fn room_lookup_miss_waits_for_creation() {
    let (flow, _) = DirectRoomFlow::start(ME, &direct_body());
    let (flow, act) = flow.step(DirectRoomEvent::Looked(Ok(None)));
    assert!(matches!(act, DirectRoomAction::CreateDirectRoom { creator: ME, recipient: Some(YOU) }));
    let (_, act) = flow.step(DirectRoomEvent::Created(Ok(room(5))));
    assert!(matches!(act, DirectRoomAction::AddMember { room_id: 5, user_id: Some(ME) }));
}

#[test]
fn register_start_reaches_storing() {
    let body = RegisterUserDto { username: "alice".to_string(), email: "alice@example.com".to_string(), password: "secret12".to_string() };
    let (flow, act) = RegisterFlow::start(body);
    assert_eq!(flow.token.len(), 36);
    match act {
        RegisterAction::CreateUser { password_hash, .. } => assert!(password_hash.starts_with("$argon2id$v=19$")),
        _ => panic!(),
    }
}
