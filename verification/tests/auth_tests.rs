use chat_server::auth::{authenticate, bearer_token, resolve_user, user_id_from_claims};
use chat_server::errors::HttpError;
use chat_server::password::{compare_password, hash_password, hash_password_with_salt};
use chat_server::errors::ErrorMessage;
use chat_server::token::{claims_or_unauthorized, create_token, create_token_at, decode_token, Claims, TokenError};

const ID: u128 = 0x67e55044_10b1_426f_9247_bb680e5fe0c8;
const ID_TEXT: &str = "67e55044-10b1-426f-9247-bb680e5fe0c8";

#[test]
fn hash_then_compare_accepts() {
    let h = hash_password("secret12").unwrap();
    assert!(h.starts_with("$argon2"));
    assert_ne!(h, "secret12");
    assert_eq!(compare_password("secret12", &h), Ok(true));
    assert_eq!(compare_password("secret13", &h), Ok(false));
}

#[test]
fn empty_password_is_refused() {
    assert_eq!(hash_password(""), Err(ErrorMessage::EmptyPassword));
    assert_eq!(compare_password("", "$argon2id$whatever"), Err(ErrorMessage::EmptyPassword));
}

#[test]
fn stored_text_that_is_no_hash() {
    assert_eq!(compare_password("secret12", "not a hash"), Err(ErrorMessage::HashingError));
}

#[test]
fn hash_with_salt_is_deterministic() {
    let salt = "c29tZXNhbHRzb21lc2FsdA";
    let a = hash_password_with_salt("pw123456", salt).unwrap();
    let b = hash_password_with_salt("pw123456", salt).unwrap();
    assert_eq!(a, b);
    assert!(a.contains(salt));
    assert_eq!(hash_password_with_salt("pw123456", "!"), Err(ErrorMessage::HashingError));
    assert_eq!(hash_password_with_salt("", salt), Err(ErrorMessage::EmptyPassword));
}

#[test]
fn fresh_salts_differ() {
    assert_ne!(hash_password("samepass").unwrap(), hash_password("samepass").unwrap());
}

#[test]
fn token_needs_subject() {
    assert_eq!(create_token(String::new(), b"k", 60), Err(TokenError::InvalidSubject));
    assert_eq!(create_token_at(String::new(), b"k", 60, 0), Err(TokenError::InvalidSubject));
}

#[test]
fn token_at_fixed_time_is_fixed() {
    let a = create_token_at(ID_TEXT.to_string(), b"key", 60, 1_700_000_000).unwrap();
    let b = create_token_at(ID_TEXT.to_string(), b"key", 60, 1_700_000_000).unwrap();
    assert_eq!(a, b);
    assert_eq!(a.split('.').count(), 3);
    assert!(a.starts_with("eyJ"));
    let c = create_token_at(ID_TEXT.to_string(), b"other", 60, 1_700_000_000).unwrap();
    assert_ne!(a, c);
}

#[test]
fn created_token_decodes() {
    let t = create_token(ID_TEXT.to_string(), b"key", 60).unwrap();
    let c = decode_token(&t, b"key").ok().unwrap();
    assert_eq!(c.sub, ID_TEXT);
    assert_eq!(c.exp - c.iat, 3600);
}

#[test]
fn wrong_secret_is_unauthorized() {
    let t = create_token(ID_TEXT.to_string(), b"key", 60).unwrap();
    let e = decode_token(&t, b"nope").err().unwrap();
    assert_eq!((e.status, e.message.as_str()), (401, "Function failed: Unauthorized"));
}

#[test]
fn expired_token_is_unauthorized() {
    let t = create_token_at(ID_TEXT.to_string(), b"key", 1, 1_000).unwrap();
    assert!(decode_token(&t, b"key").is_err());
}

#[test]
fn claims_or_unauthorized_maps() {
    let c = claims_or_unauthorized(Some(Claims { sub: "s".to_string(), iat: 1, exp: 2 })).ok().unwrap();
    assert_eq!((c.sub.as_str(), c.iat, c.exp), ("s", 1, 2));
    let e = claims_or_unauthorized(None).err().unwrap();
    assert_eq!(e.status, 401);
}

#[test]
fn bearer_token_prefers_cookie() {
    assert_eq!(bearer_token(Some("c".to_string()), Some("Bearer h")), Some("c".to_string()));
    assert_eq!(bearer_token(None, Some("Bearer h")), Some("h".to_string()));
    assert_eq!(bearer_token(None, Some("Basic h")), None);
    assert_eq!(bearer_token(None, Some("Bearer ")), Some(String::new()));
    assert_eq!(bearer_token(None, None), None);
}

#[test]
fn subject_reads_back_as_id() {
    let claims = Claims { sub: ID_TEXT.to_string(), iat: 0, exp: 0 };
    assert_eq!(user_id_from_claims(Ok(claims)).ok(), Some(ID));
    let e = user_id_from_claims(Ok(Claims { sub: "nobody".to_string(), iat: 0, exp: 0 })).err().unwrap();
    assert_eq!((e.status, e.message.as_str()), (401, "Function failed: Unauthorized"));
    let e = user_id_from_claims(Err(HttpError::unauthorized("x".to_string()))).err().unwrap();
    assert_eq!((e.status, e.message.as_str()), (401, "Failed to initialize token"));
}

#[test]
fn authenticate_flows() {
    let e = authenticate(None, None, b"key").err().unwrap();
    assert_eq!((e.status, e.message.as_str()), (401, "Function failed: Unauthorized"));
    let t = create_token(ID_TEXT.to_string(), b"key", 60).unwrap();
    assert_eq!(authenticate(Some(t.clone()), None, b"key").ok(), Some(ID));
    let header = format!("Bearer {}", t);
    assert_eq!(authenticate(None, Some(&header), b"key").ok(), Some(ID));
    let e = authenticate(Some(t), None, b"other").err().unwrap();
    assert_eq!((e.status, e.message.as_str()), (401, "Failed to initialize token"));
    let bad = create_token("not-an-id".to_string(), b"key", 60).unwrap();
    let e = authenticate(Some(bad), None, b"key").err().unwrap();
    assert_eq!((e.status, e.message.as_str()), (401, "Function failed: Unauthorized"));
}

#[test]
fn resolve_user_maps_lookup() {
    assert_eq!(resolve_user::<u8>(Ok(Some(3))).ok(), Some(3));
    let e = resolve_user::<u8>(Ok(None)).err().unwrap();
    assert_eq!((e.status, e.message.as_str()), (401, "Server Failed, User does not exist"));
    let e = resolve_user::<u8>(Err("db".to_string())).err().unwrap();
    assert_eq!((e.status, e.message.as_str()), (500, "Function failed: Unauthorized"));
}

#[test]
fn empty_subject_refused_whatever_the_lifetime() {
    assert_eq!(create_token(String::new(), b"key", i64::MAX).err(), Some(TokenError::InvalidSubject));
    assert_eq!(create_token_at(String::new(), b"key", i64::MIN, 0).err(), Some(TokenError::InvalidSubject));
}

#[test]
fn produced_hash_is_argon2id() {
    let h = hash_password("secret12").unwrap();
    assert!(h.starts_with("$argon2id$v=19$"));
    assert_ne!(h, "secret12");
}

#[test]
fn hash_lets_in_only_its_password() {
    let h = hash_password("secret12").unwrap();
    assert_eq!(compare_password("secret12", &h), Ok(true));
    assert_eq!(compare_password("secret13", &h), Ok(false));
}
