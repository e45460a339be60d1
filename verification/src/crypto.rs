//! Trusted boundary around the outside cryptographic and validation crates.
//!
//! Everything in this module is an `external_body` wrapper whose contract is
//! believed, not proved.  Each wrapper names the outside function it relies on
//! and states no more than that function's source shows.  Results that are
//! functions of the arguments alone (a bcrypt comparison, a signed token, an
//! email check) are given uninterpreted names, so that the verified callers
//! can speak about them exactly without restating an outside algorithm.

use vstd::prelude::*;
use jsonwebtoken::DecodingKey;
use jsonwebtoken::EncodingKey;
use jsonwebtoken::Header;
use jsonwebtoken::Validation;
use serde_json::Value;
use crate::token::Claims;

verus! {

/// Whether bcrypt accepts `password` against the bcrypt-formatted `hash`.
/// Names the result of `bcrypt::verify`, which is deterministic in its
/// two arguments.
pub uninterp spec fn bcrypt_matches(password: Seq<char>, hash: Seq<char>) -> bool;

/// Whether `hash` is in the bcrypt format that `bcrypt::verify` parses:
/// 60 ASCII bytes, a recognized version prefix, an in-range cost and
/// valid base64 salt and digest.  Names the format check inside
/// `bcrypt::verify`, which fails exactly when this predicate is false —
/// a deterministic property of the hash string alone.  Every hash that
/// `bcrypt::hash` returns satisfies it.
pub uninterp spec fn bcrypt_wellformed(hash: Seq<char>) -> bool;

/// The signed compact token that `jsonwebtoken::encode` (HS256, default
/// header) produces for the claim set `{sub, email, iat, exp}` under
/// `secret`.  Deterministic in its arguments.
pub uninterp spec fn jwt_of(
    sub: Seq<char>,
    email: Seq<char>,
    iat: int,
    exp: int,
    secret: Seq<char>,
) -> Seq<char>;

/// The claim set `{sub, email, iat, exp}` that `jsonwebtoken::decode`
/// recovers from `token` under `secret` when expiry checking is turned off,
/// or `None` when the token is malformed, its signature does not verify
/// under `secret`, or its payload does not carry the four claims.  The
/// decoder also rejects a token that carries an `aud` claim, since no
/// expected audience is configured; tokens this crate issues carry none.
/// Deterministic in its arguments: with expiry checking off the decoder
/// never consults a clock.
pub uninterp spec fn jwt_claims(
    token: Seq<char>,
    secret: Seq<char>,
) -> Option<(Seq<char>, Seq<char>, int, int)>;

/// Whether `s` is a well-formed email address in the sense of
/// `validator::ValidateEmail`, which is deterministic in the string.
pub uninterp spec fn is_valid_email(s: Seq<char>) -> bool;

/// Relies on `bcrypt::hash`: it draws a fresh random salt, so two calls on
/// the same password differ, but every hash it returns is a well-formed
/// bcrypt hash that `bcrypt::verify` accepts for that password (the hash
/// embeds the salt and cost that produced it).
#[verifier::external_body]
pub(crate) fn bcrypt_hash_password(password: &str, cost: u32) -> (r: Result<String, ()>)
    ensures
        r matches Ok(h) ==> bcrypt_matches(password@, h@) && bcrypt_wellformed(h@),
{
    bcrypt::hash(password, cost).map_err(|_| ())
}

/// Relies on `bcrypt::verify`: deterministic comparison of a password
/// against a bcrypt hash; `Err` exactly when the hash is not in bcrypt
/// format.
#[verifier::external_body]
pub(crate) fn bcrypt_verify_password(password: &str, hash: &str) -> (r: Result<bool, ()>)
    ensures
        r matches Ok(b) ==> b == bcrypt_matches(password@, hash@),
        r is Err <==> !bcrypt_wellformed(hash@),
{
    bcrypt::verify(password, hash).map_err(|_| ())
}

/// Relies on `jsonwebtoken::encode` with the default (HS256) header: the
/// token is a deterministic function of the claim set and the secret, and
/// `jsonwebtoken::decode` under the same secret recovers exactly the claim
/// set that was encoded.  For HS256 the call cannot fail: any byte string
/// is a valid HMAC key, and serializing an object of strings and numbers
/// cannot error.
#[verifier::external_body]
pub(crate) fn jwt_encode(claims: &Claims, secret: &str) -> (r: Result<String, ()>)
    ensures
        r is Ok,
        r matches Ok(t) ==> t@ == jwt_of(
            claims.sub@, claims.email@, claims.iat as int, claims.exp as int, secret@),
        r matches Ok(t) ==> jwt_claims(t@, secret@)
            == Some((claims.sub@, claims.email@, claims.iat as int, claims.exp as int)),
{
    let mut payload = serde_json::Map::new();
    payload.insert("sub".to_owned(), Value::from(claims.sub.clone()));
    payload.insert("email".to_owned(), Value::from(claims.email.clone()));
    payload.insert("iat".to_owned(), Value::from(claims.iat));
    payload.insert("exp".to_owned(), Value::from(claims.exp));
    let key = EncodingKey::from_secret(secret.as_bytes());
    jsonwebtoken::encode(&Header::default(), &Value::Object(payload), &key).map_err(|_| ())
}

/// Relies on `jsonwebtoken::decode` over HS256 with expiry checking turned
/// off: it verifies the signature against `secret` before any claim content
/// is used, and hands back the embedded claim set, extracted field by
/// field.  The caller is responsible for the expiry decision.
#[verifier::external_body]
pub(crate) fn jwt_decode(token: &str, secret: &str) -> (r: Result<Claims, ()>)
    ensures
        r matches Ok(c) ==> jwt_claims(token@, secret@)
            == Some((c.sub@, c.email@, c.iat as int, c.exp as int)),
        r is Err ==> jwt_claims(token@, secret@) is None,
{
    let mut validation = Validation::default();
    validation.validate_exp = false;
    let key = DecodingKey::from_secret(secret.as_bytes());
    let data = jsonwebtoken::decode::<Value>(token, &key, &validation).map_err(|_| ())?;
    let c = data.claims;
    let sub = c.get("sub").and_then(Value::as_str).ok_or(())?.to_owned();
    let email = c.get("email").and_then(Value::as_str).ok_or(())?.to_owned();
    let iat = c.get("iat").and_then(Value::as_u64).ok_or(())?;
    let exp = c.get("exp").and_then(Value::as_u64).ok_or(())?;
    Ok(Claims { sub, email, exp, iat })
}

/// Relies on `chrono::Utc::now`: the current Unix timestamp in seconds.
/// Nothing can be promised of a clock reading.
#[verifier::external_body]
pub(crate) fn now_unix() -> (r: i64)
{
    chrono::Utc::now().timestamp()
}

/// Relies on `validator::ValidateEmail::validate_email` for `&str`:
/// deterministic in the string; an empty string, or one without `@`, is
/// never a well-formed address.
#[verifier::external_body]
pub(crate) fn check_email(s: &str) -> (r: bool)
    ensures
        r == is_valid_email(s@),
        s@.len() == 0 ==> r == false,
{
    validator::ValidateEmail::validate_email(&s)
}

} // verus!
