use chat_server::dtos::{
    CreateRoomRequest, InfiniteScrollDto, LoginUserDto, MessageRequestDto, MessageResponseDto,
    RegisterUserDto, UserDto, VerifyEmailQueryDto,
};
use chat_server::models::{Message, User};
use chat_server::rooms::{direct_key, RoomKeyError};
use chat_server::socket::RoomChannels;

const A: u128 = 0x67e55044_10b1_426f_9247_bb680e5fe0c8;
const B: u128 = 0x0000_0000_0000_0000_0000_0000_0000_0001;

fn user(id: u128) -> User {
    User {
        id,
        username: "alice".to_string(),
        email: "alice@example.com".to_string(),
        password_hash: "$argon2id$x".to_string(),
        is_verified: true,
        verification_token: None,
        verification_token_expires: None,
        reset_token: None,
        reset_token_expires: None,
        last_seen: Some(5),
        created_at: 1,
        updated_at: 2,
    }
}

#[test]
fn register_rules() {
    let ok = RegisterUserDto { username: "al".to_string(), email: "alice@example.com".to_string(), password: "secret".to_string() };
    assert!(ok.validate().is_ok());
    let bad = RegisterUserDto { username: "a".to_string(), email: "a@b.c".to_string(), password: "".to_string() };
    let e = bad.validate().err().unwrap();
    assert_eq!(
        e.to_message(),
        "username: username is required\nemail: email is required\npassword: password is required, password must be more than 6 characters"
    );
    let bad_format = RegisterUserDto { username: "alice".to_string(), email: "not-an-address".to_string(), password: "secret12".to_string() };
    let e = bad_format.validate().err().unwrap();
    assert_eq!(e.to_message(), "email: invalid format!");
    assert_eq!(e.fields.len(), 1);
    assert_eq!(e.fields[0].errors[0].code, "email");
}

#[test]
fn login_rules() {
    let ok = LoginUserDto { email: "alice@example.com".to_string(), password: "secret".to_string() };
    assert!(ok.validate().is_ok());
    let short = LoginUserDto { email: "alice@example.com".to_string(), password: "12345".to_string() };
    assert_eq!(short.validate().err().unwrap().to_message(), "password: password must be more than 6 characters");
}

#[test]
fn room_rules() {
    let mut r = CreateRoomRequest { room_name: Some("ab".to_string()), description: None, is_direct: false, created_by: A, recipient: None };
    let e = r.validate().err().unwrap();
    assert_eq!(e.to_message(), "room_name: Name must be 3-50 characters");
    r.room_name = None;
    assert!(r.validate().is_ok());
    r.description = Some("x".repeat(301));
    let e = r.validate().err().unwrap();
    assert_eq!(e.fields[0].field, "description");
    assert_eq!(e.fields[0].errors[0].message, None);
    assert_eq!(
        e.to_message(),
        format!("description: Validation error: length [{{\"max\": Number(300), \"value\": String(\"{}\")}}]", "x".repeat(301))
    );
    r.description = Some("é".repeat(300));
    assert!(r.validate().is_ok());
}

#[test]
fn other_rules() {
    let m = MessageRequestDto { message: String::new(), sender_id: A, room_id: B, recipient_id: B };
    assert_eq!(m.validate().err().unwrap().to_message(), "message: Can't send an empty text");
    assert!(InfiniteScrollDto { limit: 0, after_id: None }.validate().is_err());
    assert!(InfiniteScrollDto { limit: 50, after_id: None }.validate().is_ok());
    assert_eq!(
        InfiniteScrollDto { limit: 51, after_id: Some(A) }.validate().err().unwrap().to_message(),
        "limit: Validation error: range [{\"min\": Number(1), \"max\": Number(50), \"value\": Number(51)}]"
    );
    assert_eq!(VerifyEmailQueryDto { token: String::new() }.validate().err().unwrap().to_message(), "token: Token is required.");
    assert!(VerifyEmailQueryDto { token: "t".to_string() }.validate().is_ok());
}

#[test]
fn user_view_hides_secrets() {
    let d = UserDto::filter_user(&user(A));
    assert_eq!(d.id, "67e55044-10b1-426f-9247-bb680e5fe0c8");
    assert_eq!(d.username, "alice");
    assert_eq!(d.email, "alice@example.com");
    assert!(d.is_verified);
    assert_eq!((d.last_seen, d.created_at, d.updated_at), (Some(5), 1, 2));
    let ds = UserDto::filter_users(&[user(A), user(B)]);
    assert_eq!(ds.len(), 2);
    assert_eq!(ds[1].id, "00000000-0000-0000-0000-000000000001");
}

#[test]
fn message_view() {
    let m = Message { messages_id: 7, room_id: 8, message: "hi".to_string(), sender_id: None, updated_at: 3, created_at: 4 };
    let d = MessageResponseDto::filter_msg(&m);
    assert_eq!((d.messages_id, d.room_id, d.message.as_str(), d.sender_id, d.updated_at, d.created_at), (7, 8, "hi", None, 3, 4));
    assert_eq!(MessageResponseDto::filter_msgs(&[m]).len(), 1);
}

#[test]
fn direct_key_is_shared_by_the_pair() {
    let k1 = direct_key(A, Some(B), true).unwrap().unwrap();
    let k2 = direct_key(B, Some(A), true).unwrap().unwrap();
    assert_eq!(k1, k2);
    assert_eq!(k1, "00000000-0000-0000-0000-000000000001:67e55044-10b1-426f-9247-bb680e5fe0c8");
    assert_eq!(direct_key(A, Some(A), true).unwrap().unwrap().len(), 73);
    assert_ne!(direct_key(A, Some(A), true).unwrap(), direct_key(A, Some(B), true).unwrap());
}

#[test]
fn direct_key_needs_recipient() {
    assert_eq!(direct_key(A, None, true).err(), Some(RoomKeyError::MissingRecipient));
    assert_eq!(RoomKeyError::MissingRecipient.message(), "Direct message requires a recipient_id");
    assert_eq!(direct_key(A, None, false).unwrap(), None);
    assert_eq!(direct_key(A, Some(B), false).unwrap(), None);
}

#[test]
fn room_channels_are_made_once() {
    let mut rooms = RoomChannels::new();
    let tx1 = rooms.channel_for(A);
    let mut rx = tx1.subscribe();
    let tx2 = rooms.channel_for(A);
    assert_eq!(rooms.rooms.len(), 1);
    tx2.send("hello".to_string()).unwrap();
    assert_eq!(rx.try_recv().unwrap(), "hello");
    assert!(tx1.same_channel(&tx2));
    assert!(tx1.same_channel(&rooms.rooms[&A]));
    let tx3 = rooms.channel_for(B);
    assert_eq!(rooms.rooms.len(), 2);
    assert!(!tx3.same_channel(&tx1));
    assert!(tx3.same_channel(&rooms.rooms[&B]));
}
