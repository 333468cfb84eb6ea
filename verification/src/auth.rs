//! Who is calling: the session token taken from the request, and the user id
//! that it names.
use vstd::prelude::*;

use crate::errors::{
    server_error_of, server_error_with, unauthorized_of, unauthorized_with, ErrorMessage,
    HttpError,
};
use crate::ids::{parse_uuid, uuid_parse, uuid_text};
use crate::models::User;
use crate::text::{has_prefix, skip_chars, starts_with};
use crate::token::{decode_token, encoded_claims_read, hs256_signed, Claims};

verus! {

/// The token of a request: the `token` cookie where there is one, else the rest
/// of an `Authorization` header that starts with `Bearer `.
pub open spec fn bearer_token_of(cookie: Option<Seq<char>>, header: Option<Seq<char>>) -> Option<
    Seq<char>,
> {
    match cookie {
        Some(c) => Some(c),
        None => match header {
            Some(h) => if has_prefix(h, "Bearer "@) {
                Some(h.skip(7))
            } else {
                None
            },
            None => None,
        },
    }
}

/// The text held by an optional string.
pub open spec fn opt_view(o: Option<String>) -> Option<Seq<char>> {
    match o {
        Some(s) => Some(s@),
        None => None,
    }
}

/// The text held by an optional string slice.
pub open spec fn opt_str_view(o: Option<&str>) -> Option<Seq<char>> {
    match o {
        Some(s) => Some(s@),
        None => None,
    }
}

/// Takes the session token from the `token` cookie's value, or else from an
/// `Authorization: Bearer <token>` header value.
pub fn bearer_token(cookie_token: Option<String>, authorization: Option<&str>) -> (res: Option<
    String,
>)
    ensures
        opt_view(res) == bearer_token_of(opt_view(cookie_token), opt_str_view(authorization)),
{
    match cookie_token {
        Some(c) => Some(c),
        None => match authorization {
            Some(h) => {
                let prefix = "Bearer ";
                proof {
                    reveal_strlit("Bearer ");
                }
                if starts_with(h, prefix) {
                    Some(skip_chars(h, 7))
                } else {
                    None
                }
            },
            None => None,
        },
    }
}

/// The user id that decoded claims name: an undecodable token is answered
/// "unauthorized: token failed", a subject that is no id "unauthorized".
pub open spec fn user_id_outcome(decoded: Option<Seq<char>>) -> Result<u128, ErrorMessage> {
    match decoded {
        None => Err(ErrorMessage::TokenFailed),
        Some(sub) => match uuid_parse(sub) {
            Some(id) => Ok(id),
            None => Err(ErrorMessage::Unauthorized),
        },
    }
}

/// The answer for a decoded token's subject: the id it names, or "unauthorized"
/// where it names none.
pub open spec fn subject_answer(sub: Seq<char>, res: Result<u128, HttpError>) -> bool {
    match uuid_parse(sub) {
        Some(id) => res == Ok::<u128, HttpError>(id),
        None => res matches Err(e) && unauthorized_with(e, ErrorMessage::Unauthorized),
    }
}

/// Reads the user id out of the result of decoding a token. The subject written
/// for a user id reads back as that id.
pub fn user_id_from_claims(claims: Result<Claims, HttpError>) -> (res: Result<u128, HttpError>)
    ensures
        match user_id_outcome(
            match claims {
                Ok(c) => Some(c.sub@),
                Err(_) => None,
            },
        ) {
            Ok(id) => res == Ok::<u128, HttpError>(id),
            Err(m) => res matches Err(e) && unauthorized_with(e, m),
        },
        claims matches Ok(c) ==> forall|id: u128|
            #[trigger] uuid_text(id) == c.sub@ ==> res == Ok::<u128, HttpError>(id),
{
    match claims {
        Err(_) => Err(unauthorized_of(ErrorMessage::TokenFailed)),
        Ok(c) => match parse_uuid(c.sub.as_str()) {
            Some(id) => Ok(id),
            None => Err(unauthorized_of(ErrorMessage::Unauthorized)),
        },
    }
}

/// Finds who is calling: the token from the cookie or the bearer header, decoded
/// with the secret, names a user id. No token is "unauthorized"; a token that does
/// not decode is "unauthorized: token failed"; a subject that is no id is
/// "unauthorized". Where a token is taken from the request, it either does not
/// decode, or its signature checks under the secret and the answer is that for the
/// subject read from its claims.
pub fn authenticate(cookie_token: Option<String>, authorization: Option<&str>, secret: &[u8]) -> (res:
    Result<u128, HttpError>)
    ensures
        bearer_token_of(opt_view(cookie_token), opt_str_view(authorization)) is None ==> (res matches Err(
            e,
        ) && unauthorized_with(e, ErrorMessage::Unauthorized)),
        res matches Err(e) ==> unauthorized_with(e, ErrorMessage::Unauthorized) || unauthorized_with(
            e,
            ErrorMessage::TokenFailed,
        ),
        bearer_token_of(opt_view(cookie_token), opt_str_view(authorization)) is Some ==> (res matches Err(
            e,
        ) && unauthorized_with(e, ErrorMessage::TokenFailed)) || exists|t: Seq<char>, c: Claims|
            bearer_token_of(opt_view(cookie_token), opt_str_view(authorization)) == Some(t)
                && hs256_signed(t, secret@) && #[trigger] encoded_claims_read(t, secret@, c)
                && subject_answer(c.sub@, res),
{
    let ghost chosen = bearer_token_of(opt_view(cookie_token), opt_str_view(authorization));
    let token = match bearer_token(cookie_token, authorization) {
        Some(t) => t,
        None => return Err(unauthorized_of(ErrorMessage::Unauthorized)),
    };
    let decoded = decode_token(token.as_str(), secret);
    let ghost dec = decoded;
    let res = user_id_from_claims(decoded);
    proof {
        assert(chosen == Some(token@));
        if let Ok(c) = dec {
            assert(encoded_claims_read(token@, secret@, c));
            assert(subject_answer(c.sub@, res));
        }
    }
    res
}

/// The user found for an authenticated id: a failed lookup is a server error,
/// a missing user "unauthorized: user does not exist".
pub fn resolve_user<U>(lookup: Result<Option<U>, String>) -> (res: Result<U, HttpError>)
    ensures
        match lookup {
            Err(_) => res matches Err(e) && server_error_with(e, ErrorMessage::Unauthorized),
            Ok(None) => res matches Err(e) && unauthorized_with(e, ErrorMessage::UserNotExist),
            Ok(Some(u)) => res matches Ok(r) && r == u,
        },
{
    match lookup {
        Err(_) => Err(server_error_of(ErrorMessage::Unauthorized)),
        Ok(None) => Err(unauthorized_of(ErrorMessage::UserNotExist)),
        Ok(Some(u)) => Ok(u),
    }
}

/// What the authentication layer attaches to a request: the calling user.
#[derive(Debug, Clone)]
pub struct JwtAuthMiddleware {
    pub user: User,
}

} // verus!
