//! Credential-issuing flows: registration, login and token refresh.
//!
//! These are the entry points that bypass the identity-extraction
//! middleware: they validate caller input, consult the credential store,
//! hash or verify passwords, and issue a fresh token.  A failed login
//! reports one and the same error for an unknown email and for a wrong
//! password, so that the two cases cannot be told apart.

use vstd::prelude::*;
use crate::crypto;
use crate::errors::AppError;
use crate::errors::AppResult;
use crate::text::dec_str;
use crate::text::u64_to_string;
use crate::text::parse_u64;
use crate::token::AuthService;
use crate::token::Claims;
use crate::token::TOKEN_LIFETIME_SECS;
use crate::users::UserRepository;
use crate::users::UserView;
use crate::users::has_email;
use crate::users::email_idx;
use crate::users::has_user_id;
use crate::users::user_idx;

verus! {

/// Query flag of the credential-issuing endpoints: whether the raw token
/// is returned in the body besides the cookie.
pub struct LoginParams {
    /// Return the token in the response body.
    pub return_token: bool,
}

/// Registration payload.
pub struct CreateUserDto {
    /// Email address; must be well-formed.
    pub email: String,
    /// Password; at least 8 characters.
    pub password: String,
    /// Full name; at least 2 characters.
    pub full_name: String,
}

/// Login payload.
pub struct LoginDto {
    /// Email address; must be well-formed.
    pub email: String,
    /// Password; must not be empty.
    pub password: String,
}

/// A credential record as shown to clients: no password hash.
#[derive(Debug)]
pub struct UserResponse {
    /// User identifier.
    pub id: u64,
    /// Email address.
    pub email: String,
    /// Full name.
    pub full_name: String,
    /// Creation time (Unix seconds).
    pub created_at: u64,
}

impl UserResponse {
    /// Build the client-safe representation of a credential record.
    pub fn from_user(user: &crate::users::User) -> (r: UserResponse)
        ensures
            r.id == user@.id,
            r.email@ == user@.email,
            r.full_name@ == user@.full_name,
            r.created_at == user@.created_at,
    {
        UserResponse {
            id: user.id,
            email: user.email.clone(),
            full_name: user.full_name.clone(),
            created_at: user.created_at,
        }
    }
}

/// What a credential-issuing endpoint hands back: the safe user record and,
/// when the caller asked for it, the raw token in the body.
#[derive(Debug)]
pub struct AuthResponse {
    /// The client-safe user record.
    pub user: UserResponse,
    /// The raw token, present only when the caller asked for it.
    pub access_token: Option<String>,
}

/// Whether a registration payload is acceptable.
pub open spec fn valid_registration(
    email: Seq<char>,
    password: Seq<char>,
    full_name: Seq<char>,
) -> bool {
    crypto::is_valid_email(email) && password.len() >= 8 && full_name.len() >= 2
}

/// Whether a login payload is acceptable.
pub open spec fn valid_login(email: Seq<char>, password: Seq<char>) -> bool {
    crypto::is_valid_email(email) && password.len() >= 1
}

impl CreateUserDto {
    /// Check the payload: well-formed email, password of at least 8
    /// characters, full name of at least 2.
    pub fn validate(&self) -> (r: AppResult<()>)
        ensures
            r is Ok <==> valid_registration(self.email@, self.password@, self.full_name@),
            r matches Err(e) ==> e is Validation,
    {
        if !crypto::check_email(self.email.as_str()) {
            return Err(AppError::Validation("Invalid email address".to_owned()));
        }
        if self.password.as_str().unicode_len() < 8 {
            return Err(AppError::Validation(
                "Password must be at least 8 characters".to_owned()));
        }
        if self.full_name.as_str().unicode_len() < 2 {
            return Err(AppError::Validation(
                "Full name must be at least 2 characters".to_owned()));
        }
        Ok(())
    }
}

impl LoginDto {
    /// Check the payload: well-formed email and a non-empty password.
    pub fn validate(&self) -> (r: AppResult<()>)
        ensures
            r is Ok <==> valid_login(self.email@, self.password@),
            r matches Err(e) ==> e is Validation,
    {
        if !crypto::check_email(self.email.as_str()) {
            return Err(AppError::Validation("Invalid email address".to_owned()));
        }
        if self.password.as_str().unicode_len() < 1 {
            return Err(AppError::Validation("Password is required".to_owned()));
        }
        Ok(())
    }
}

/// Register a new account as of the instant `now`: validate the payload,
/// refuse a taken email, hash the password, store the credential record
/// and issue a token for it.
pub fn register(
    repo: &mut UserRepository,
    auth: &AuthService,
    dto: &CreateUserDto,
    now: u64,
    return_token: bool,
) -> (r: AppResult<(AuthResponse, String)>)
    requires
        old(repo).wf(),
        now + TOKEN_LIFETIME_SECS <= u64::MAX,
    ensures
        final(repo).wf(),
        !valid_registration(dto.email@, dto.password@, dto.full_name@)
            ==> (r matches Err(e) && e is Validation) && final(repo)@ == old(repo)@,
        (valid_registration(dto.email@, dto.password@, dto.full_name@)
            && has_email(old(repo)@, dto.email@))
            ==> (r matches Err(e) && e is Validation) && final(repo)@ == old(repo)@,
        (r matches Err(e) && e is Validation) <==> (
            !valid_registration(dto.email@, dto.password@, dto.full_name@)
            || has_email(old(repo)@, dto.email@)),
        (r matches Err(e) && e is Validation) ==> final(repo)@ == old(repo)@,
        r matches Err(e) ==> e is Validation || e is Internal,
        (valid_registration(dto.email@, dto.password@, dto.full_name@)
            && !has_email(old(repo)@, dto.email@)
            && old(repo).spec_next_id() < u64::MAX)
            ==> (r is Ok || (r matches Err(e) && e is Internal)),
        final(repo)@ == old(repo)@ || ({
            &&& valid_registration(dto.email@, dto.password@, dto.full_name@)
            &&& !has_email(old(repo)@, dto.email@)
            &&& exists|h: Seq<char>|
                #[trigger] crypto::bcrypt_matches(dto.password@, h)
                && final(repo)@ == old(repo)@.push(
                    (UserView {
                        id: old(repo).spec_next_id(),
                        email: dto.email@,
                        password_hash: h,
                        full_name: dto.full_name@,
                        created_at: now,
                        updated_at: now,
                    }))
        }),
        r matches Ok(out) ==> ({
            &&& valid_registration(dto.email@, dto.password@, dto.full_name@)
            &&& !has_email(old(repo)@, dto.email@)
            &&& exists|h: Seq<char>|
                #[trigger] crypto::bcrypt_matches(dto.password@, h)
                && final(repo)@ == old(repo)@.push(
                    (UserView {
                        id: old(repo).spec_next_id(),
                        email: dto.email@,
                        password_hash: h,
                        full_name: dto.full_name@,
                        created_at: now,
                        updated_at: now,
                    }))
            &&& crypto::jwt_claims(out.1@, auth.spec_secret()) == Some((
                dec_str(old(repo).spec_next_id() as int),
                dto.email@,
                now as int,
                (now + TOKEN_LIFETIME_SECS) as int,
            ))
            &&& out.0.user.id == old(repo).spec_next_id()
            &&& out.0.user.email@ == dto.email@
            &&& out.0.user.full_name@ == dto.full_name@
            &&& (return_token ==> (out.0.access_token matches Some(t) && t@ == out.1@))
            &&& (!return_token ==> out.0.access_token is None)
        }),
{
    if let Err(e) = dto.validate() {
        return Err(e);
    }
    if repo.email_exists(dto.email.as_str()) {
        return Err(AppError::Validation("Email already registered".to_owned()));
    }
    let password_hash = match auth.hash_password(dto.password.as_str()) {
        Ok(h) => h,
        Err(_) => {
            return Err(AppError::Internal("Password hashing failed".to_owned()));
        },
    };
    let (user_id, user_response) = match repo.create(
        dto.email.as_str(), password_hash, dto.full_name.as_str(), now) {
        Ok(user) => (user.id, UserResponse::from_user(user)),
        Err(_) => {
            return Err(AppError::Internal("Could not store credentials".to_owned()));
        },
    };
    let sub = u64_to_string(user_id);
    let token = match auth.generate_token_at(sub.as_str(), dto.email.as_str(), now) {
        Ok(t) => t,
        Err(_) => {
            // a signing failure still leaves the record stored, as it does
            // when the collaborator commits before the token is minted
            return Err(AppError::Internal("Token signing failed".to_owned()));
        },
    };
    let access_token = if return_token { Some(token.clone()) } else { None };
    Ok((AuthResponse { user: user_response, access_token }, token))
}

/// Log an account in as of the instant `now`: validate the payload, look
/// the email up, verify the password against the stored hash and issue a
/// token.  An unknown email and a wrong password produce one and the same
/// error, variant and message alike.
pub fn login(
    repo: &UserRepository,
    auth: &AuthService,
    dto: &LoginDto,
    now: u64,
    return_token: bool,
) -> (r: AppResult<(AuthResponse, String)>)
    requires
        repo.wf(),
        now + TOKEN_LIFETIME_SECS <= u64::MAX,
    ensures
        !valid_login(dto.email@, dto.password@)
            ==> (r matches Err(e) && e is Validation),
        (valid_login(dto.email@, dto.password@) && !has_email(repo@, dto.email@))
            ==> (r matches Err(e) && e matches AppError::Auth(m)
                && m@ == "Invalid email or password"@),
        (valid_login(dto.email@, dto.password@) && has_email(repo@, dto.email@)
            && !crypto::bcrypt_wellformed(
                repo@[email_idx(repo@, dto.email@)].password_hash))
            ==> (r matches Err(e) && e is Internal),
        (valid_login(dto.email@, dto.password@) && has_email(repo@, dto.email@)
            && crypto::bcrypt_wellformed(repo@[email_idx(repo@, dto.email@)].password_hash)
            && !crypto::bcrypt_matches(
                dto.password@, repo@[email_idx(repo@, dto.email@)].password_hash))
            ==> (r matches Err(e) && e matches AppError::Auth(m)
                && m@ == "Invalid email or password"@),
        (valid_login(dto.email@, dto.password@) && has_email(repo@, dto.email@)
            && crypto::bcrypt_wellformed(repo@[email_idx(repo@, dto.email@)].password_hash)
            && crypto::bcrypt_matches(
                dto.password@, repo@[email_idx(repo@, dto.email@)].password_hash))
            ==> r is Ok,
        r matches Ok(out) ==> ({
            let user = repo@[email_idx(repo@, dto.email@)];
            &&& valid_login(dto.email@, dto.password@)
            &&& has_email(repo@, dto.email@)
            &&& crypto::bcrypt_matches(dto.password@, user.password_hash)
            &&& crypto::jwt_claims(out.1@, auth.spec_secret()) == Some((
                dec_str(user.id as int),
                user.email,
                now as int,
                (now + TOKEN_LIFETIME_SECS) as int,
            ))
            &&& out.0.user.id == user.id
            &&& out.0.user.email@ == user.email
            &&& out.0.user.full_name@ == user.full_name
            &&& (return_token ==> (out.0.access_token matches Some(t) && t@ == out.1@))
            &&& (!return_token ==> out.0.access_token is None)
        }),
        r matches Err(e) ==> e is Validation || e is Auth || e is Internal,
{
    if let Err(e) = dto.validate() {
        return Err(e);
    }
    let user = match repo.find_by_email(dto.email.as_str()) {
        Some(u) => u,
        None => {
            return Err(AppError::Auth("Invalid email or password".to_owned()));
        },
    };
    let valid = match auth.verify_password(dto.password.as_str(), user.password_hash.as_str()) {
        Ok(b) => b,
        Err(_) => {
            return Err(AppError::Internal("Password verification failed".to_owned()));
        },
    };
    if !valid {
        return Err(AppError::Auth("Invalid email or password".to_owned()));
    }
    let sub = u64_to_string(user.id);
    let token = match auth.generate_token_at(sub.as_str(), user.email.as_str(), now) {
        Ok(t) => t,
        Err(_) => {
            return Err(AppError::Internal("Token signing failed".to_owned()));
        },
    };
    let access_token = if return_token { Some(token.clone()) } else { None };
    Ok((AuthResponse { user: UserResponse::from_user(user), access_token }, token))
}

/// Issue a fresh token for an already verified identity, provided its
/// subject still names a stored account.
pub fn refresh(
    repo: &UserRepository,
    auth: &AuthService,
    claims: &Claims,
    now: u64,
) -> (r: AppResult<(AuthResponse, String)>)
    requires
        repo.wf(),
        now + TOKEN_LIFETIME_SECS <= u64::MAX,
    ensures
        r matches Ok(out) ==> ({
            let user = repo@[user_idx(repo@, dec_val_of(claims.sub@))];
            &&& parses_to_id(claims.sub@)
            &&& has_user_id(repo@, dec_val_of(claims.sub@))
            &&& crypto::jwt_claims(out.1@, auth.spec_secret()) == Some((
                dec_str(user.id as int),
                user.email,
                now as int,
                (now + TOKEN_LIFETIME_SECS) as int,
            ))
            &&& out.0.user.id == user.id
            &&& out.0.access_token is None
        }),
        !parses_to_id(claims.sub@) ==> (r matches Err(e) && e is Internal),
        (parses_to_id(claims.sub@) && !has_user_id(repo@, dec_val_of(claims.sub@)))
            ==> (r matches Err(e) && e is Auth),
        (parses_to_id(claims.sub@) && has_user_id(repo@, dec_val_of(claims.sub@)))
            ==> r is Ok,
        r matches Err(e) ==> e is Internal || e is Auth,
{
    let user_id = match parse_u64(claims.sub.as_str()) {
        Some(n) => n,
        None => {
            return Err(AppError::Internal("Invalid user ID in token".to_owned()));
        },
    };
    let user = match repo.find_by_id(user_id) {
        Some(u) => u,
        None => {
            return Err(AppError::Auth("User not found".to_owned()));
        },
    };
    let sub = u64_to_string(user.id);
    let token = match auth.generate_token_at(sub.as_str(), user.email.as_str(), now) {
        Ok(t) => t,
        Err(_) => {
            return Err(AppError::Internal("Token signing failed".to_owned()));
        },
    };
    Ok((AuthResponse { user: UserResponse::from_user(user), access_token: None }, token))
}

/// Whether a token subject is a decimal user id that fits in `u64`.
pub open spec fn parses_to_id(s: Seq<char>) -> bool {
    s.len() > 0 && crate::text::all_digits(s) && crate::text::dec_val(s) <= u64::MAX
}

/// The user id named by a token subject.
pub open spec fn dec_val_of(s: Seq<char>) -> u64 {
    crate::text::dec_val(s) as u64
}

} // verus!
