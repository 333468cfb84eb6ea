//! Password hashing and checking with Argon2 (PHC string format).
use vstd::prelude::*;
use argon2::password_hash::rand_core::OsRng;
use argon2::password_hash::{PasswordHash, PasswordHasher, PasswordVerifier, Salt, SaltString};
use argon2::Argon2;

use crate::errors::ErrorMessage;
use crate::text::has_prefix;

verus! {

/// The PHC string that `Argon2::default()` produces for a password and a B64 salt,
/// or `None` where the hasher refuses the input.
pub uninterp spec fn argon2_phc_hash(password: Seq<char>, salt: Seq<char>) -> Option<Seq<char>>;

/// Whether `PasswordHash::new` accepts the text as a PHC string.
pub uninterp spec fn phc_string_parses(stored: Seq<char>) -> bool;

/// Whether `Argon2::default().verify_password` accepts the password against the
/// parsed PHC string.
pub uninterp spec fn argon2_accepts(password: Seq<char>, stored: Seq<char>) -> bool;

/// The start of every PHC string that `Argon2::default()` writes: the Argon2id
/// algorithm, version 19 (0x13).
pub open spec fn argon2id_prefix() -> Seq<char> {
    "$argon2id$v=19$"@
}

/// The text held by an optional string.
pub open spec fn opt_text(o: Option<String>) -> Option<Seq<char>> {
    match o {
        Some(s) => Some(s@),
        None => None,
    }
}

/// A character of the unpadded standard Base64 alphabet (`[A-Za-z0-9+/]`).
pub open spec fn is_b64_char(c: char) -> bool {
    ('A' <= c && c <= 'Z') || ('a' <= c && c <= 'z') || ('0' <= c && c <= '9') || c == '+' || c == '/'
}

/// The unpadded Base64 text of 16 bytes: 22 characters of the alphabet, the
/// last of which carries two bits and four zero bits (`A`, `Q`, `g` or `w`).
pub open spec fn is_b64_salt16(s: Seq<char>) -> bool {
    &&& s.len() == 22
    &&& forall|i: int| 0 <= i < 22 ==> is_b64_char(#[trigger] s[i])
    &&& (s[21] == 'A' || s[21] == 'Q' || s[21] == 'g' || s[21] == 'w')
}

/// A fresh salt: `SaltString::generate` fed by the operating system's random
/// source, as its B64 text. Claimed: 16 random bytes written in unpadded Base64
/// (`Encoding::B64`), so 22 characters of that alphabet whose last one has its
/// four low bits zero; which ones is random.
#[verifier::external_body]
pub(crate) fn generate_salt() -> (salt: String)
    ensures
        is_b64_salt16(salt@),
{
    SaltString::generate(&mut OsRng).as_str().to_string()
}

/// `Argon2::default().hash_password` on the password's bytes and the salt read by
/// `Salt::from_b64`, rendered as a PHC string; `None` where either refuses.
/// Claimed: the result is the named value of the inputs; a produced PHC string
/// parses again and is accepted by `verify_password` for the same password (the
/// verifier recomputes the hash with the parameters and salt stored in the string);
/// it starts with `$argon2id$v=19$` (the default algorithm and version, written
/// first by `PasswordHash`'s `Display`); and it is produced for a password of at
/// most 2^32 - 1 bytes (so at most 0x3fffffff characters) with the Base64 text of
/// 16 bytes as salt: `Salt::from_b64` accepts that text, it decodes to 16 bytes
/// (8 at least are needed), and default Argon2 refuses nothing else. Further, a
/// produced PHC string accepts exactly the passwords that hash with this salt to
/// the same string: `verify_password` recomputes the hash of the password given
/// with the algorithm, version, parameters (the defaults) and salt stored in the
/// string and compares the outputs, the rest of the string being the same.
#[verifier::external_body]
fn argon2_hash(password: &str, salt: &str) -> (res: Option<String>)
    ensures
        opt_text(res) == argon2_phc_hash(password@, salt@),
        res matches Some(h) ==> forall|q: Seq<char>|
            #[trigger] argon2_accepts(q, h@) == (argon2_phc_hash(q, salt@) == Some(h@)),
        res matches Some(h) ==> phc_string_parses(h@) && argon2_accepts(password@, h@),
        res matches Some(h) ==> has_prefix(h@, argon2id_prefix()),
        password@.len() <= 0x3fffffff && is_b64_salt16(salt@) ==> res is Some,
{
    let salt = Salt::from_b64(salt).ok()?;
    Argon2::default().hash_password(password.as_bytes(), salt).ok().map(|h| h.to_string())
}

/// `PasswordHash::new(stored).is_ok()`: whether the text parses as a PHC string.
#[verifier::external_body]
fn phc_parses(stored: &str) -> (res: bool)
    ensures
        res == phc_string_parses(stored@),
{
    PasswordHash::new(stored).is_ok()
}

/// `Argon2::default().verify_password` of the password's bytes against the parsed
/// PHC string. Claimed only where the string parses: then the result is the named
/// verdict.
#[verifier::external_body]
fn argon2_verify(password: &str, stored: &str) -> (res: bool)
    ensures
        phc_string_parses(stored@) ==> res == argon2_accepts(password@, stored@),
{
    match PasswordHash::new(stored) {
        Ok(h) => Argon2::default().verify_password(password.as_bytes(), &h).is_ok(),
        Err(_) => false,
    }
}

/// What hashing a password with a given salt answers.
pub open spec fn hash_outcome(password: Seq<char>, salt: Seq<char>) -> Result<
    Seq<char>,
    ErrorMessage,
> {
    if password.len() == 0 {
        Err(ErrorMessage::EmptyPassword)
    } else {
        match argon2_phc_hash(password, salt) {
            Some(h) => Ok(h),
            None => Err(ErrorMessage::HashingError),
        }
    }
}

/// What checking a password against a stored PHC string answers.
pub open spec fn compare_outcome(password: Seq<char>, stored: Seq<char>) -> Result<
    bool,
    ErrorMessage,
> {
    if password.len() == 0 {
        Err(ErrorMessage::EmptyPassword)
    } else if !phc_string_parses(stored) {
        Err(ErrorMessage::HashingError)
    } else {
        Ok(argon2_accepts(password, stored))
    }
}

/// A stored hash made with `salt` lets in exactly the non-empty passwords that
/// hash with that salt to it.
pub open spec fn lets_in_exactly(stored: Seq<char>, salt: Seq<char>) -> bool {
    forall|q: Seq<char>|
        q.len() > 0 ==> #[trigger] compare_outcome(q, stored) == Ok::<bool, ErrorMessage>(
            argon2_phc_hash(q, salt) == Some(stored),
        )
}

/// The text of a hashing result.
pub open spec fn result_text(r: Result<String, ErrorMessage>) -> Result<Seq<char>, ErrorMessage> {
    match r {
        Ok(s) => Ok(s@),
        Err(e) => Err(e),
    }
}

/// Hashes a password with the given B64 salt. An empty password is refused;
/// a hash that the hasher refuses is a hashing error, which never happens for a
/// password of at most 0x3fffffff characters and the Base64 text of 16 bytes. A
/// hash that is produced is an Argon2id PHC string accepted by `compare_password`
/// for the same password, and for exactly the passwords that hash with this salt to
/// the same string.
pub fn hash_password_with_salt(password: &str, salt: &str) -> (res: Result<String, ErrorMessage>)
    ensures
        result_text(res) == hash_outcome(password@, salt@),
        res matches Ok(h) ==> compare_outcome(password@, h@) == Ok::<bool, ErrorMessage>(true),
        res matches Ok(h) ==> has_prefix(h@, argon2id_prefix()),
        0 < password@.len() <= 0x3fffffff && is_b64_salt16(salt@) ==> res is Ok,
        res matches Ok(h) ==> lets_in_exactly(h@, salt@),
{
    if password.is_empty() {
        return Err(ErrorMessage::EmptyPassword);
    }
    match argon2_hash(password, salt) {
        Some(h) => Ok(h),
        None => Err(ErrorMessage::HashingError),
    }
}

/// Hashes a password with a fresh random 16-byte salt. An empty password is
/// refused with `EmptyPassword`; otherwise the result is the Argon2 PHC string for
/// that salt, which is always produced for a password of at most 0x3fffffff
/// characters (`HashingError` only beyond). A hash that is produced is an Argon2id
/// PHC string accepted by `compare_password` for the same password, and for exactly
/// the passwords that hash with its salt to the same string.
pub fn hash_password(password: &str) -> (res: Result<String, ErrorMessage>)
    ensures
        password@.len() == 0 <==> res == Err::<String, ErrorMessage>(ErrorMessage::EmptyPassword),
        res matches Err(e) ==> e == ErrorMessage::EmptyPassword || e == ErrorMessage::HashingError,
        res matches Ok(h) ==> exists|salt: Seq<char>|
            is_b64_salt16(salt) && argon2_phc_hash(password@, salt) == Some(h@)
                && #[trigger] lets_in_exactly(h@, salt),
        0 < password@.len() <= 0x3fffffff ==> res is Ok,
        res matches Ok(h) ==> compare_outcome(password@, h@) == Ok::<bool, ErrorMessage>(true),
        res matches Ok(h) ==> has_prefix(h@, argon2id_prefix()),
{
    if password.is_empty() {
        return Err(ErrorMessage::EmptyPassword);
    }
    let salt = generate_salt();
    let res = hash_password_with_salt(password, salt.as_str());
    proof {
        if let Ok(h) = &res {
            assert(argon2_phc_hash(password@, salt@) == Some(h@));
            assert(lets_in_exactly(h@, salt@));
        }
    }
    res
}

/// Checks a password against a stored PHC string. An empty password is refused
/// with `EmptyPassword`, a stored text that is no PHC string with `HashingError`;
/// otherwise the answer is whether Argon2 accepts the password.
pub fn compare_password(password: &str, stored_password: &str) -> (res: Result<bool, ErrorMessage>)
    ensures
        res == compare_outcome(password@, stored_password@),
{
    if password.is_empty() {
        return Err(ErrorMessage::EmptyPassword);
    }
    if !phc_parses(stored_password) {
        return Err(ErrorMessage::HashingError);
    }
    Ok(argon2_verify(password, stored_password))
}

} // verus!
