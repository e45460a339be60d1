//! Token service: issues and verifies signed, time-bounded identity tokens.
//!
//! A token is a self-contained signed encoding of a claim set; the service
//! holds the single symmetric secret shared by the issuing and the verifying
//! path.  Expiry is a pure wall-clock comparison made at verification time
//! in verified code: the trusted decoder checks the signature only.

use vstd::prelude::*;
use crate::crypto;
use crate::errors::AppError;
use crate::errors::AppResult;

verus! {

/// Fixed token lifetime in seconds (24 hours).
pub const TOKEN_LIFETIME_SECS: u64 = 86400;

/// Cost factor for bcrypt hashing (bcrypt's default work factor).
pub const HASH_COST: u32 = 12;

/// Claim set embedded in an identity token.
#[derive(Debug, Clone)]
pub struct Claims {
    /// Subject: the opaque user identifier.
    pub sub: String,
    /// Email address of the subject.
    pub email: String,
    /// Expiration time as a Unix timestamp in seconds.
    pub exp: u64,
    /// Issuance time as a Unix timestamp in seconds.
    pub iat: u64,
}

impl Claims {
    /// A claim set is well-formed when it was issued before it expires.
    pub open spec fn wf(&self) -> bool {
        self.iat < self.exp
    }
}

/// Issues and verifies identity tokens under one symmetric secret.
pub struct AuthService {
    secret: String,
}

impl AuthService {
    /// The signing secret, kept abstract outside this module.
    pub closed spec fn spec_secret(&self) -> Seq<char> {
        self.secret@
    }

    /// Create a service around the given signing secret.
    pub fn new(secret: String) -> (s: Self)
        ensures
            s.spec_secret() == secret@,
    {
        AuthService { secret }
    }

    /// Issue a token for `user_id` and `email` as of the instant `now`
    /// (Unix seconds): the claim set is `{sub: user_id, email,
    /// iat: now, exp: now + TOKEN_LIFETIME_SECS}`.
    pub fn generate_token_at(&self, user_id: &str, email: &str, now: u64) -> (r: AppResult<String>)
        requires
            now + TOKEN_LIFETIME_SECS <= u64::MAX,
        ensures
            r is Ok,
            r matches Ok(t) ==> t@ == crypto::jwt_of(
                user_id@, email@, now as int, now + TOKEN_LIFETIME_SECS, self.spec_secret()),
            r matches Ok(t) ==> crypto::jwt_claims(t@, self.spec_secret())
                == Some((user_id@, email@, now as int, (now + TOKEN_LIFETIME_SECS) as int)),
    {
        let claims = Claims {
            sub: user_id.to_owned(),
            email: email.to_owned(),
            iat: now,
            exp: now + TOKEN_LIFETIME_SECS,
        };
        match crypto::jwt_encode(&claims, self.secret.as_str()) {
            Ok(t) => Ok(t),
            Err(_) => Err(AppError::Internal("Token signing failed".to_owned())),
        }
    }

    /// Issue a token for `user_id` and `email` as of the current instant.
    pub fn generate_token(&self, user_id: &str, email: &str) -> (r: AppResult<String>)
        ensures
            r matches Ok(t) ==> exists|now: int|
                0 <= now
                && #[trigger] crypto::jwt_of(
                    user_id@, email@, now, now + TOKEN_LIFETIME_SECS, self.spec_secret()) == t@
                && crypto::jwt_claims(t@, self.spec_secret())
                    == Some((user_id@, email@, now, now + TOKEN_LIFETIME_SECS)),
            r matches Err(e) ==> e is Internal,
    {
        let now_raw = crypto::now_unix();
        if now_raw < 0 || now_raw > (i64::MAX - TOKEN_LIFETIME_SECS as i64) {
            return Err(AppError::Internal("Clock out of range".to_owned()));
        }
        let now = now_raw as u64;
        let r = self.generate_token_at(user_id, email, now);
        proof {
            if r is Ok {
                assert(crypto::jwt_claims(r->Ok_0@, self.spec_secret())
                    == Some((user_id@, email@, now as int, now + TOKEN_LIFETIME_SECS)));
            }
        }
        r
    }

    /// Verify `token` as of the instant `now` (Unix seconds): accept exactly
    /// when the signature verifies under this service's secret and the
    /// embedded expiry lies strictly in the future.  Any failure — malformed
    /// encoding, signature mismatch, expiry — collapses to the one `Jwt`
    /// error kind with no distinguishing detail.
    pub fn validate_token_at(&self, token: &str, now: u64) -> (r: AppResult<Claims>)
        ensures
            r matches Ok(c) ==> crypto::jwt_claims(token@, self.spec_secret())
                == Some((c.sub@, c.email@, c.iat as int, c.exp as int)) && c.exp > now,
            (crypto::jwt_claims(token@, self.spec_secret()) matches Some(cl) && cl.3 > now)
                ==> r is Ok,
            crypto::jwt_claims(token@, self.spec_secret()) is None ==> r is Err,
            (crypto::jwt_claims(token@, self.spec_secret()) matches Some(cl) && cl.3 <= now)
                ==> r is Err,
            r matches Err(e) ==> e is Jwt,
    {
        let claims = match crypto::jwt_decode(token, self.secret.as_str()) {
            Ok(c) => c,
            Err(_) => {
                return Err(AppError::Jwt("Invalid token".to_owned()));
            },
        };
        if claims.exp <= now {
            return Err(AppError::Jwt("Invalid token".to_owned()));
        }
        Ok(claims)
    }

    /// Verify `token` as of the current instant.
    pub fn validate_token(&self, token: &str) -> (r: AppResult<Claims>)
        ensures
            r matches Ok(c) ==> crypto::jwt_claims(token@, self.spec_secret())
                == Some((c.sub@, c.email@, c.iat as int, c.exp as int)),
            crypto::jwt_claims(token@, self.spec_secret()) is None ==> r is Err,
            r matches Err(e) ==> e is Jwt,
    {
        let now_raw = crypto::now_unix();
        let now: u64 = if now_raw < 0 { 0 } else { now_raw as u64 };
        self.validate_token_at(token, now)
    }

    /// Hash a password with bcrypt under the fixed configured cost factor.
    /// The salt is drawn fresh per call, so equal inputs give different
    /// hashes; every returned hash is well-formed and verifies against the
    /// input password.
    pub fn hash_password(&self, password: &str) -> (r: AppResult<String>)
        ensures
            r matches Ok(h) ==> crypto::bcrypt_matches(password@, h@)
                && crypto::bcrypt_wellformed(h@),
            r matches Err(e) ==> e is Internal,
    {
        match crypto::bcrypt_hash_password(password, HASH_COST) {
            Ok(h) => Ok(h),
            Err(_) => Err(AppError::Internal("Password hashing failed".to_owned())),
        }
    }

    /// Verify a password against a stored bcrypt hash.  The check fails —
    /// with an internal error, never a quiet mismatch — exactly when the
    /// hash is not in bcrypt format.
    pub fn verify_password(&self, password: &str, hash: &str) -> (r: AppResult<bool>)
        ensures
            r matches Ok(b) ==> b == crypto::bcrypt_matches(password@, hash@),
            r is Err <==> !crypto::bcrypt_wellformed(hash@),
            r matches Err(e) ==> e is Internal,
    {
        match crypto::bcrypt_verify_password(password, hash) {
            Ok(b) => Ok(b),
            Err(_) => Err(AppError::Internal("Password verification failed".to_owned())),
        }
    }

    /// Render the `Set-Cookie` value that carries `token` to the client.
    pub fn create_auth_cookie(&self, token: &str) -> (r: String)
        ensures
            r@ == "auth_token="@ + token@
                + "; HttpOnly; Path=/; SameSite=Lax; Max-Age=604800"@,
    {
        let mut cookie = String::new();
        cookie.append("auth_token=");
        cookie.append(token);
        cookie.append("; HttpOnly; Path=/; SameSite=Lax; Max-Age=604800");
        cookie
    }
}

} // verus!
