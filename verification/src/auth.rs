//! Accounts' credentials and sessions: what sign-up, sign-in and profile
//! requests must hold, how a password is checked, how the bearer token is
//! read off a request, and how the refresh cookie is set.
use vstd::prelude::*;
use crate::errors::{ApiError, validation};
use crate::ids::Oid;
use crate::text::{chars_of, has_prefix, is_blank, starts_with, string_of, trim_chars, trimmed};
use crate::user::{User, UserResponse};

verus! {

#[verifier::external_type_specification]
#[verifier::external_body]
pub struct ExBcryptError(bcrypt::BcryptError);

/// Body of `POST /auth/register`.
#[derive(Debug)]
pub struct RegisterRequest {
    pub email: String,
    pub password: String,
    pub name: String,
}

/// Body of `POST /auth/login`.
#[derive(Debug)]
pub struct LoginRequest {
    pub email: String,
    pub password: String,
}

/// Body of `PATCH /auth/me`: either field alone may change; the current
/// password is needed only when the email changes.
#[derive(Debug)]
pub struct UpdateMeRequest {
    pub name: Option<String>,
    pub email: Option<String>,
    pub current_password: Option<String>,
}

/// Body of `POST /auth/me/password`.
#[derive(Debug)]
pub struct ChangePasswordRequest {
    pub current_password: String,
    pub new_password: String,
}

/// Reply of sign-up and sign-in: the account and an access token.
#[derive(Debug)]
pub struct AuthResponse {
    pub user: UserResponse,
    pub jwt: String,
}

/// Reply of `POST /auth/refresh`: only the new access token; the rotated
/// refresh token travels as a cookie.
#[derive(Debug)]
pub struct RefreshResponse {
    pub jwt: String,
}

/// The shortest password accepted, in characters.
pub const MIN_PASSWORD_LEN: usize = 8;

/// An email is plausible when it holds more than white space and an `@`.
pub open spec fn plausible_email(email: Seq<char>) -> bool {
    trimmed(email).len() > 0 && email.contains('@')
}

fn has_at(s: &str) -> (b: bool)
    ensures
        b == s@.contains('@'),
{
    let v = chars_of(s);
    let mut i: usize = 0;
    while i < v.len()
        invariant
            i <= v@.len(),
            v@ == s@,
            forall|k: int| 0 <= k < i ==> v@[k] != '@',
        decreases v.len() - i,
    {
        if v[i] == '@' {
            assert(v@[i as int] == '@');
            return true;
        }
        i = i + 1;
    }
    false
}

/// Sign-up needs a plausible email, a password of at least 8 characters
/// and a name.
pub fn validate_register(input: &RegisterRequest) -> (r: Result<(), ApiError>)
    ensures
        !plausible_email(input.email@) ==> (r matches Err(e) && e.is_validation(
            "a valid email is required"@,
        )),
        plausible_email(input.email@) && input.password@.len() < 8 ==> (r matches Err(
            e,
        ) && e.is_validation("password must be at least 8 characters"@)),
        plausible_email(input.email@) && input.password@.len() >= 8 && trimmed(
            input.name@,
        ).len() == 0 ==> (r matches Err(e) && e.is_validation("name is required"@)),
        r is Ok <==> (plausible_email(input.email@) && input.password@.len() >= 8
            && trimmed(input.name@).len() > 0),
{
    if is_blank(input.email.as_str()) || !has_at(input.email.as_str()) {
        return Err(validation("a valid email is required"));
    }
    if chars_of(input.password.as_str()).len() < MIN_PASSWORD_LEN {
        return Err(validation("password must be at least 8 characters"));
    }
    if is_blank(input.name.as_str()) {
        return Err(validation("name is required"));
    }
    Ok(())
}

/// A profile update must change something, and what it changes must be
/// valid: a plausible email, a non-blank name.
pub fn validate_update_me(input: &UpdateMeRequest) -> (r: Result<(), ApiError>)
    ensures
        input.name is None && input.email is None ==> (r matches Err(e) && e.is_validation(
            "nothing to update"@,
        )),
        !(input.name is None && input.email is None) && (input.email matches Some(m)
            && !plausible_email(m@)) ==> (r matches Err(e) && e.is_validation(
            "a valid email is required"@,
        )),
        !(input.name is None && input.email is None) && !(input.email matches Some(m)
            && !plausible_email(m@)) && (input.name matches Some(n) && trimmed(n@).len() == 0)
            ==> (r matches Err(e) && e.is_validation("name is required"@)),
        r is Ok <==> (!(input.name is None && input.email is None) && !(input.email matches Some(
            m,
        ) && !plausible_email(m@)) && !(input.name matches Some(n) && trimmed(n@).len() == 0)),
{
    if input.name.is_none() && input.email.is_none() {
        return Err(validation("nothing to update"));
    }
    if let Some(email) = &input.email {
        if is_blank(email.as_str()) || !has_at(email.as_str()) {
            return Err(validation("a valid email is required"));
        }
    }
    if let Some(name) = &input.name {
        if is_blank(name.as_str()) {
            return Err(validation("name is required"));
        }
    }
    Ok(())
}

/// A password change needs the current password and a new one of at
/// least 8 characters.
pub fn validate_change_password(input: &ChangePasswordRequest) -> (r: Result<(), ApiError>)
    ensures
        input.current_password@.len() == 0 ==> (r matches Err(e) && e.is_validation(
            "current password is required"@,
        )),
        input.current_password@.len() > 0 && input.new_password@.len() < 8 ==> (r matches Err(
            e,
        ) && e.is_validation("password must be at least 8 characters"@)),
        r is Ok <==> (input.current_password@.len() > 0 && input.new_password@.len()
            >= 8),
{
    if input.current_password.as_str().is_empty() {
        return Err(validation("current password is required"));
    }
    if chars_of(input.new_password.as_str()).len() < MIN_PASSWORD_LEN {
        return Err(validation("password must be at least 8 characters"));
    }
    Ok(())
}

/// Sign-in needs an email and a password.
pub fn validate_login(input: &LoginRequest) -> (r: Result<(), ApiError>)
    ensures
        r is Ok <==> (trimmed(input.email@).len() > 0 && input.password@.len() > 0),
        r matches Err(e) ==> e.is_validation("email and password are required"@),
{
    if is_blank(input.email.as_str()) || input.password.as_str().is_empty() {
        return Err(validation("email and password are required"));
    }
    Ok(())
}

/// The token of an `Authorization: Bearer <token>` header; a missing header
/// or another scheme is `Unauthenticated`.
pub fn bearer_token(header: Option<String>) -> (r: Result<String, ApiError>)
    ensures
        match header {
            None => r matches Err(e) && e is Unauthenticated,
            Some(h) => if starts_with(h@, "Bearer "@) {
                r matches Ok(t) && t@ == h@.skip(7)
            } else {
                r matches Err(e) && e is Unauthenticated
            },
        },
{
    proof {
        reveal_strlit("Bearer ");
    }
    let h = match header {
        Some(h) => h,
        None => return Err(ApiError::Unauthenticated),
    };
    let v = chars_of(h.as_str());
    if !has_prefix(&v, "Bearer ") {
        return Err(ApiError::Unauthenticated);
    }
    let t = string_of(&v.as_slice()[7..v.len()]);
    assert(v@.subrange(7, v@.len() as int) =~= h@.skip(7));
    Ok(t)
}

// --------------------------------------------------------------- passwords

/// The bcrypt work factor: `2^12` rounds.
pub const WORK_FACTOR: u32 = 12;

/// What `bcrypt::verify` says of `password` against `hash`: `Some(b)` for
/// `Ok(b)`, `None` when the hash cannot be read.
pub uninterp spec fn bcrypt_check(password: Seq<char>, hash: Seq<char>) -> Option<bool>;

/// The text `bcrypt::hash` makes at `cost`: 60 characters, `$2b$`, the
/// cost as two digits, `$`, then 22 characters of salt and 31 of hash.
pub open spec fn is_bcrypt_text(h: Seq<char>, cost: u32) -> bool {
    &&& h.len() == 60
    &&& h[0] == '$' && h[1] == '2' && h[2] == 'b' && h[3] == '$'
    &&& h[4] == ((cost / 10) + 48) as char
    &&& h[5] == ((cost % 10) + 48) as char
    &&& h[6] == '$'
}

/// Calls `bcrypt::hash` (random salt from the operating system). Claimed:
/// a cost outside 4 to 31 is refused; a hash it returns is in the `$2b$`
/// format at that cost (`HashParts::format` writes the version, the cost
/// padded to two digits, the 16-byte salt and the 23-byte hash in bcrypt's
/// unpadded base64) and verifies against the same password, since
/// `bcrypt::verify` recomputes the hash with the salt and cost it reads
/// back from the hash. Whether the operating system's random source
/// (`getrandom::fill`) succeeds, and so whether a valid cost succeeds, and
/// which salt comes out, are not claimed.
#[verifier::external_body]
fn bcrypt_hash(password: &str, cost: u32) -> (r: Result<String, bcrypt::BcryptError>)
    ensures
        !(4 <= cost <= 31) ==> r is Err,
        r matches Ok(h) ==> is_bcrypt_text(h@, cost),
        r matches Ok(h) ==> bcrypt_check(password@, h@) == Some(true),
{
    bcrypt::hash(password, cost)
}

/// Calls `bcrypt::verify`. Claimed: the result is `bcrypt_check` of the
/// password and the hash.
#[verifier::external_body]
fn bcrypt_verify(password: &str, hash: &str) -> (r: Result<bool, bcrypt::BcryptError>)
    ensures
        match r {
            Ok(b) => bcrypt_check(password@, hash@) == Some(b),
            Err(_) => bcrypt_check(password@, hash@) is None,
        },
{
    bcrypt::verify(password, hash)
}

/// Hashes a password for storage at the work factor: a `$2b$12$` hash of
/// 60 characters with a fresh random salt. It fails only where the
/// operating system's random source does.
pub fn hash_password(password: &str) -> (r: Result<String, bcrypt::BcryptError>)
    ensures
        r matches Ok(h) ==> h@.len() == 60 && h@.take(7) == "$2b$12$"@,
        r matches Ok(h) ==> bcrypt_check(password@, h@) == Some(true),
{
    proof {
        reveal_strlit("$2b$12$");
    }
    let r = bcrypt_hash(password, WORK_FACTOR);
    if let Ok(h) = &r {
        assert(h@.take(7) =~= "$2b$12$"@);
    }
    r
}

/// Checks a password against a stored hash.
pub fn verify_password(password: &str, hash: &str) -> (r: Result<bool, bcrypt::BcryptError>)
    ensures
        match r {
            Ok(b) => bcrypt_check(password@, hash@) == Some(b),
            Err(_) => bcrypt_check(password@, hash@) is None,
        },
{
    bcrypt_verify(password, hash)
}

/// The API error a hashing failure surfaces as.
pub fn api_error_from_bcrypt(err: &bcrypt::BcryptError) -> (e: ApiError)
    ensures
        e is Internal,
{
    ApiError::Internal
}

/// The sign-in outcome once the account was looked up and, if found, its
/// password checked (`check` is `None` when the check failed): an unknown
/// email and a wrong password are the same `InvalidCredentials`, so the
/// reply does not tell which accounts exist.
pub fn credentials_outcome(user: Option<User>, check: Option<bool>) -> (r: Result<User, ApiError>)
    ensures
        match user {
            None => r matches Err(e) && e is InvalidCredentials,
            Some(u) => match check {
                None => r matches Err(e) && e is Internal,
                Some(false) => r matches Err(e) && e is InvalidCredentials,
                Some(true) => r matches Ok(v) && v == u,
            },
        },
{
    match user {
        None => Err(ApiError::InvalidCredentials),
        Some(u) => match check {
            None => Err(ApiError::Internal),
            Some(false) => Err(ApiError::InvalidCredentials),
            Some(true) => Ok(u),
        },
    }
}

/// Signs in the account found for an email with `password`.
pub fn authenticate(user: Option<User>, password: &str) -> (r: Result<User, ApiError>)
    ensures
        match user {
            None => r matches Err(e) && e is InvalidCredentials,
            Some(u) => match bcrypt_check(password@, u.password_hash@) {
                None => r matches Err(e) && e is Internal,
                Some(false) => r matches Err(e) && e is InvalidCredentials,
                Some(true) => r matches Ok(v) && v == u,
            },
        },
{
    let check = match &user {
        None => None,
        Some(u) => match verify_password(password, u.password_hash.as_str()) {
            Ok(b) => Some(b),
            Err(_) => None,
        },
    };
    credentials_outcome(user, check)
}

/// The name and email a profile update writes (both trimmed).
#[derive(Debug)]
pub struct ProfileUpdate {
    pub name: String,
    pub email: String,
}

/// The email an update asks for differs from the stored one.
pub open spec fn email_changes(user: User, input: UpdateMeRequest) -> bool {
    input.email matches Some(e) && e@ != user.email@
}

/// What a profile update writes, given the outcome of checking the current
/// password (`check`; consulted only when the email changes and a current
/// password was sent, `None` when the check failed). Changing the email
/// needs the right current password; changing only the name does not.
pub fn profile_update_outcome(user: &User, input: &UpdateMeRequest, check: Option<bool>) -> (r:
    Result<ProfileUpdate, ApiError>)
    ensures
        email_changes(*user, *input) && input.current_password is None ==> (r matches Err(e)
            && e.is_validation("current password is required to change email"@)),
        email_changes(*user, *input) && input.current_password is Some && check is None ==> (r matches Err(
            e,
        ) && e is Internal),
        email_changes(*user, *input) && input.current_password is Some && check == Some(false)
            ==> (r matches Err(e) && e is InvalidCredentials),
        r is Ok <==> (!email_changes(*user, *input) || (input.current_password is Some && check
            == Some(true))),
        r matches Ok(p) ==> {
            &&& p.name@ == trimmed(
                match input.name {
                    Some(n) => n@,
                    None => user.name@,
                },
            )
            &&& p.email@ == trimmed(
                match input.email {
                    Some(m) => m@,
                    None => user.email@,
                },
            )
        },
{
    let changes = match &input.email {
        Some(m) => *m != user.email,
        None => false,
    };
    if changes {
        if input.current_password.is_none() {
            return Err(validation("current password is required to change email"));
        }
        match check {
            None => return Err(ApiError::Internal),
            Some(false) => return Err(ApiError::InvalidCredentials),
            Some(true) => {},
        }
    }
    let name = match &input.name {
        Some(n) => trim_chars(n.as_str()),
        None => trim_chars(user.name.as_str()),
    };
    let email = match &input.email {
        Some(m) => trim_chars(m.as_str()),
        None => trim_chars(user.email.as_str()),
    };
    Ok(ProfileUpdate { name: string_of(name.as_slice()), email: string_of(email.as_slice()) })
}

/// Plans a profile update for `user`, checking the current password when
/// the email changes.
pub fn plan_update_me(user: &User, input: &UpdateMeRequest) -> (r: Result<ProfileUpdate, ApiError>)
    ensures
        email_changes(*user, *input) && input.current_password is None ==> (r matches Err(e)
            && e.is_validation("current password is required to change email"@)),
        email_changes(*user, *input) && (input.current_password matches Some(c) && bcrypt_check(
            c@,
            user.password_hash@,
        ) == Some(false)) ==> (r matches Err(e) && e is InvalidCredentials),
        r is Ok <==> (!email_changes(*user, *input) || (input.current_password matches Some(c)
            && bcrypt_check(c@, user.password_hash@) == Some(true))),
        r matches Ok(p) ==> {
            &&& p.name@ == trimmed(
                match input.name {
                    Some(n) => n@,
                    None => user.name@,
                },
            )
            &&& p.email@ == trimmed(
                match input.email {
                    Some(m) => m@,
                    None => user.email@,
                },
            )
        },
{
    let changes = match &input.email {
        Some(m) => *m != user.email,
        None => false,
    };
    let check = if changes {
        match &input.current_password {
            Some(c) => match verify_password(c.as_str(), user.password_hash.as_str()) {
                Ok(b) => Some(b),
                Err(_) => None,
            },
            None => None,
        }
    } else {
        None
    };
    profile_update_outcome(user, input, check)
}

/// A password change needs the account to exist (`Unauthenticated`) and
/// the right current password (`InvalidCredentials`).
pub fn check_current_password(user: &Option<User>, current_password: &str) -> (r: Result<(), ApiError>)
    ensures
        match user {
            None => r matches Err(e) && e is Unauthenticated,
            Some(u) => match bcrypt_check(current_password@, u.password_hash@) {
                None => r matches Err(e) && e is Internal,
                Some(false) => r matches Err(e) && e is InvalidCredentials,
                Some(true) => r is Ok,
            },
        },
{
    match user {
        None => Err(ApiError::Unauthenticated),
        Some(u) => match verify_password(current_password, u.password_hash.as_str()) {
            Err(_) => Err(ApiError::Internal),
            Ok(false) => Err(ApiError::InvalidCredentials),
            Ok(true) => Ok(()),
        },
    }
}

// ---------------------------------------------------------------- sessions

/// A stored refresh-token session. Times are in milliseconds; `revoked_at`
/// is set on rotation or logout.
#[derive(Debug, Clone)]
pub struct RefreshTokenDoc {
    pub id: Option<Oid>,
    pub user_id: Oid,
    pub token_hash: String,
    pub created_at: i64,
    pub expires_at: i64,
    pub revoked_at: Option<i64>,
}

/// A session may be refreshed while it is neither revoked nor expired.
pub open spec fn session_active(doc: RefreshTokenDoc, now: i64) -> bool {
    doc.revoked_at is None && doc.expires_at > now
}

/// The session a refresh presents: one that is not found, was revoked or
/// expired is `Unauthenticated`. A refreshed session is revoked before the
/// new one is issued, so each refresh token works once.
pub fn require_active_session(found: Option<RefreshTokenDoc>, now: i64) -> (r: Result<
    RefreshTokenDoc,
    ApiError,
>)
    ensures
        match found {
            Some(d) => if session_active(d, now) {
                r matches Ok(e) && e == d
            } else {
                r matches Err(e) && e is Unauthenticated
            },
            None => r matches Err(e) && e is Unauthenticated,
        },
{
    match found {
        Some(d) => {
            if d.revoked_at.is_none() && d.expires_at > now {
                Ok(d)
            } else {
                Err(ApiError::Unauthenticated)
            }
        },
        None => Err(ApiError::Unauthenticated),
    }
}

/// A session's refresh token expires thirty days after `now` (milliseconds).
pub fn session_expiry(now_millis: i64) -> (t: i64)
    requires
        now_millis <= i64::MAX - 2592000000,
    ensures
        t == now_millis + 2592000000,
{
    now_millis + 2592000000
}

/// A session, revoked at `now`.
pub fn revoke(doc: RefreshTokenDoc, now: i64) -> (r: RefreshTokenDoc)
    ensures
        r.revoked_at == Some(now),
        r.id == doc.id && r.user_id == doc.user_id && r.token_hash == doc.token_hash,
        r.created_at == doc.created_at && r.expires_at == doc.expires_at,
{
    RefreshTokenDoc { revoked_at: Some(now), ..doc }
}

/// A refresh token works once: after it was refreshed (revoked), presenting
/// it again is refused.
pub proof fn law_refresh_token_is_single_use(doc: RefreshTokenDoc, at: i64, later: i64)
    ensures
        !session_active(
            RefreshTokenDoc { revoked_at: Some(at), ..doc },
            later,
        ),
{
}

/// The attributes of the refresh cookie: scoped to the auth routes, out of
/// scripts' reach, sent to the same site only, and `secure` as configured.
#[derive(Debug)]
pub struct CookieSpec {
    pub name: String,
    pub value: String,
    pub path: String,
    pub http_only: bool,
    pub secure: bool,
    pub same_site_strict: bool,
    pub max_age_secs: i64,
}

/// The cookie that hands a refresh token to the client for thirty days.
pub fn refresh_cookie(raw_token: String, secure: bool) -> (c: CookieSpec)
    ensures
        c.name@ == "refresh_token"@,
        c.value == raw_token,
        c.path@ == "/api/v1/auth"@,
        c.http_only,
        c.secure == secure,
        c.same_site_strict,
        c.max_age_secs == 2592000,
{
    CookieSpec {
        name: "refresh_token".to_string(),
        value: raw_token,
        path: "/api/v1/auth".to_string(),
        http_only: true,
        secure,
        same_site_strict: true,
        max_age_secs: 2592000,
    }
}

/// The cookie that clears the refresh token on logout.
pub fn expired_refresh_cookie(secure: bool) -> (c: CookieSpec)
    ensures
        c.name@ == "refresh_token"@,
        c.value@.len() == 0,
        c.path@ == "/api/v1/auth"@,
        c.http_only,
        c.secure == secure,
        c.same_site_strict,
        c.max_age_secs == 0,
{
    CookieSpec {
        name: "refresh_token".to_string(),
        value: String::new(),
        path: "/api/v1/auth".to_string(),
        http_only: true,
        secure,
        same_site_strict: true,
        max_age_secs: 0,
    }
}

} // verus!
