use chat_server::config::{parse_i64, Config};
use chat_server::errors::{ErrorMessage, HttpError};
use chat_server::mail::{create_verification_link, verification_email, verification_email_html};
use chat_server::text::{concat_str, lex_le_exec, skip_chars, starts_with};

#[test]
fn error_texts_are_fixed() {
    assert_eq!(ErrorMessage::EmptyPassword.return_err(), "Password Input is empty!!");
    assert_eq!(ErrorMessage::Unauthorized.return_err(), "Function failed: Unauthorized");
    assert_eq!(ErrorMessage::InvalidCredentials.return_err(), "Function Failed: InvalidCredentials");
    assert_eq!(ErrorMessage::UserAlreadyExist.return_err(), "Failed to create user, User already exists!!");
    assert_eq!(ErrorMessage::AddMemberFailedV2.return_err(), "Failed to add room member, they dont exist");
    assert_eq!(ErrorMessage::MemberNotExist.return_err(), "room member doesnt exist!!");
    assert_eq!(ErrorMessage::EmailError.return_err(), "Failed to send email!!");
}

#[test]
fn error_texts_differ() {
    let all = [
        ErrorMessage::EmptyPassword, ErrorMessage::HashingError, ErrorMessage::Unauthorized,
        ErrorMessage::InvalidCredentials, ErrorMessage::TokenFailed, ErrorMessage::UserNotExist,
        ErrorMessage::EmailError, ErrorMessage::CreateUserFailed, ErrorMessage::UserAlreadyExist,
        ErrorMessage::InvalidInput, ErrorMessage::CreateRoomFailed, ErrorMessage::FetchAllUsersFailed,
        ErrorMessage::FailedMessage, ErrorMessage::SocketFailed, ErrorMessage::AddMemberFailed,
        ErrorMessage::AddMemberFailedV2, ErrorMessage::RoomNotFound, ErrorMessage::FailedToGetMsg,
        ErrorMessage::RoomAlreadyExist, ErrorMessage::MemberNotExist,
    ];
    for (i, a) in all.iter().enumerate() {
        for (j, b) in all.iter().enumerate() {
            assert_eq!(i == j, a.return_err() == b.return_err());
        }
    }
}

#[test]
fn http_errors_carry_status() {
    let e = HttpError::bad_service("x".to_string());
    assert_eq!((e.status, e.message.as_str()), (400, "x"));
    let e = HttpError::unauthorized("y".to_string());
    assert_eq!(e.status, 401);
    let e = HttpError::server_error("z".to_string());
    assert_eq!(e.status, 500);
    let (status, body) = e.into_http_response();
    assert_eq!(status, 500);
    assert_eq!(body.status, "fail");
    assert_eq!(body.message, "z");
}

#[test]
fn text_helpers() {
    assert_eq!(concat_str("ab", "cd"), "abcd");
    assert!(starts_with("Bearer abc", "Bearer "));
    assert!(!starts_with("Bear", "Bearer "));
    assert!(!starts_with("bearer abc", "Bearer "));
    assert_eq!(skip_chars("héllo", 2), "llo");
    assert!(lex_le_exec("abc", "abd"));
    assert!(lex_le_exec("ab", "abc"));
    assert!(lex_le_exec("abc", "abc"));
    assert!(!lex_le_exec("b", "abc"));
    assert!(lex_le_exec("", ""));
}

#[test]
fn parse_i64_reads_like_std() {
    let cases = [
        "60", "-5", "+7", "", "-", "+", "12a", " 5", "5 ", "007", "9223372036854775807",
        "9223372036854775808", "-9223372036854775808", "-9223372036854775809",
        "99999999999999999999999", "1_000", "٣",
    ];
    for c in cases {
        assert_eq!(parse_i64(c), c.parse::<i64>().ok(), "case {:?}", c);
    }
    assert_eq!(parse_i64("60"), Some(60));
    assert_eq!(parse_i64("-9223372036854775808"), Some(i64::MIN));
    assert_eq!(parse_i64("9223372036854775808"), None);
}

#[test]
fn config_from_values() {
    let c = Config::from_values("postgres://db".to_string(), "s3cret".to_string(), "60").unwrap();
    assert_eq!(c.database_url, "postgres://db");
    assert_eq!(c.jwt_token, "s3cret");
    assert_eq!(c.jwt_maxage, 60);
    assert_eq!(c.port, 8000);
    assert!(Config::from_values("a".to_string(), "b".to_string(), "sixty").is_none());
}

#[test]
fn verification_link_and_email() {
    assert_eq!(
        create_verification_link("http://localhost:5173/verify-email", "abc".to_string()),
        "http://localhost:5173/verify-email?token=abc"
    );
    let m = verification_email("a@b.io".to_string(), "tok".to_string());
    assert_eq!(m.to, "a@b.io");
    assert_eq!(m.subject, "Email Verification");
    let url = "http://localhost:5173/verify-email?token=tok";
    assert_eq!(m.html.matches(url).count(), 2);
    assert!(m.html.contains("<a href=\"http://localhost:5173/verify-email?token=tok\""));
    assert!(m.html.contains("Verify Email Address"));
    assert_eq!(verification_email_html("U"), m.html.replace(url, "U"));
}

#[test]
fn checked_email_needs_mailboxes() {
    let m = chat_server::mail::verification_email_checked("Chat <noreply@chat.io>", "a@b.io".to_string(), "tok".to_string()).unwrap();
    assert_eq!(m.to, "a@b.io");
    assert_eq!(m.subject, "Email Verification");
    assert!(m.html.contains("http://localhost:5173/verify-email?token=tok"));
    assert!(chat_server::mail::verification_email_checked("noreply@chat.io", "not an address".to_string(), "tok".to_string()).is_none());
    assert!(chat_server::mail::verification_email_checked("", "a@b.io".to_string(), "tok".to_string()).is_none());
}

#[test]
fn session_cookie_header() {
    let c = chat_server::user_flows::SessionCookie { value: "abc".to_string(), max_age_seconds: 3600, same_site_lax: true };
    assert_eq!(c.header(), "token=abc; HttpOnly; SameSite=Lax; Path=/; Max-Age=3600");
    let c = chat_server::user_flows::SessionCookie { value: "abc".to_string(), max_age_seconds: -60, same_site_lax: false };
    assert_eq!(c.header(), "token=abc; HttpOnly; Path=/; Max-Age=-60");
}
