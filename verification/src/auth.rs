//! Email login. Every attempt passes the guest rate limit and request
//! validation before credentials are even read; only then are the stored
//! digest compared and a bearer token issued. Credential failures never say
//! which check failed beyond "invalid credentials".

use vstd::prelude::*;
use vstd::utf8::encode_utf8;
use crate::config::AppConfig;
use crate::config::AuthConfig;
use crate::crypto::hmac_sha256_hex;
use crate::crypto::sha256_hmac;
use crate::jwt::generate_jwt_token;
use crate::jwt::token_chars;
use crate::limiter::GuestLimiter;
use crate::limiter::rl_allows;
use crate::limiter::rl_step;
use crate::models::User;

verus! {

pub struct EmailLoginReq {
    pub email: String,
    pub password: String,
}

#[derive(Debug)]
pub struct JwtResponse {
    pub token: String,
}

pub struct NostrLogin {
    pub npub: String,
}

/// Why a login attempt was refused. Validation failures are the caller's to
/// mend; credential failures are terminal and deliberately unspecific; the
/// quota failure asks the caller to back off.
#[derive(Clone, Copy, Debug, PartialEq, Eq, Structural)]
pub enum LoginError {
    InvalidEmail,
    PasswordTooShort,
    InvalidCredentials,
    WeakPassword,
    LoginMethodDisabled,
    TooManyRequests,
}

impl LoginError {
    /// The HTTP status this error is rendered with.
    pub fn http_status(&self) -> (r: u16)
        ensures
            r == self.http_status_spec(),
    {
        match self {
            LoginError::InvalidEmail => 400,
            LoginError::PasswordTooShort => 400,
            LoginError::InvalidCredentials => 401,
            LoginError::WeakPassword => 400,
            LoginError::LoginMethodDisabled => 400,
            LoginError::TooManyRequests => 429,
        }
    }

    pub open spec fn http_status_spec(&self) -> u16 {
        match self {
            LoginError::InvalidEmail => 400u16,
            LoginError::PasswordTooShort => 400u16,
            LoginError::InvalidCredentials => 401u16,
            LoginError::WeakPassword => 400u16,
            LoginError::LoginMethodDisabled => 400u16,
            LoginError::TooManyRequests => 429u16,
        }
    }

    /// The human-readable message this error is rendered with.
    pub fn message(&self) -> (r: String)
        ensures
            r@ == self.message_spec(),
    {
        match self {
            LoginError::InvalidEmail => "Invalid email format".to_owned(),
            LoginError::PasswordTooShort => "Password too short".to_owned(),
            LoginError::InvalidCredentials => "Invalid credentials".to_owned(),
            LoginError::WeakPassword => "Password isn't strong enough".to_owned(),
            LoginError::LoginMethodDisabled => "Login method is disabled.".to_owned(),
            LoginError::TooManyRequests => "Too many requests".to_owned(),
        }
    }

    pub open spec fn message_spec(&self) -> Seq<char> {
        match self {
            LoginError::InvalidEmail => "Invalid email format"@,
            LoginError::PasswordTooShort => "Password too short"@,
            LoginError::InvalidCredentials => "Invalid credentials"@,
            LoginError::WeakPassword => "Password isn't strong enough"@,
            LoginError::LoginMethodDisabled => "Login method is disabled."@,
            LoginError::TooManyRequests => "Too many requests"@,
        }
    }
}

/// Whether the bytes hold an '@' (64 in UTF-8, where that byte occurs only as
/// the character itself).
pub open spec fn bytes_have_at(bytes: Seq<u8>) -> bool {
    exists|i: int| 0 <= i < bytes.len() && bytes[i] == 64u8
}

/// Whether the email text contains an '@'.
pub open spec fn email_has_at(email: Seq<char>) -> bool {
    bytes_have_at(encode_utf8(email))
}

/// The stored length of the text: its UTF-8 byte count.
pub open spec fn byte_len(s: Seq<char>) -> nat {
    encode_utf8(s).len()
}

fn contains_at_sign(s: &str) -> (r: bool)
    ensures
        r == email_has_at(s@),
{
    let bytes = s.as_bytes();
    let n = bytes.len();
    let mut i: usize = 0;
    while i < n
        invariant
            i <= n,
            n == bytes@.len(),
            bytes@ == encode_utf8(s@),
            forall|k: int| 0 <= k < i ==> bytes@[k] != 64u8,
        decreases n - i,
    {
        if bytes[i] == 64u8 {
            return true;
        }
        i = i + 1;
    }
    false
}

/// Validate a login request: the email login method must be enabled, the
/// email must contain an '@', and the password must reach the configured
/// minimum length — each checked in that order.
pub fn validate_email_login(data: &EmailLoginReq, config: &AuthConfig) -> (r: Result<
    (),
    LoginError,
>)
    ensures
        (r matches Ok(())) <==> (config.enable_email_auth && email_has_at(data.email@) && byte_len(
            data.password@,
        ) >= config.min_password_length),
        match r {
            Ok(()) => true,
            Err(e) => {
                &&& (e == LoginError::LoginMethodDisabled <==> !config.enable_email_auth)
                &&& (e == LoginError::InvalidEmail <==> (config.enable_email_auth && !email_has_at(
                    data.email@,
                )))
                &&& (e == LoginError::PasswordTooShort <==> (config.enable_email_auth
                    && email_has_at(data.email@) && byte_len(data.password@)
                    < config.min_password_length))
            },
        },
{
    if !config.enable_email_auth {
        return Err(LoginError::LoginMethodDisabled);
    }
    if !contains_at_sign(data.email.as_str()) {
        return Err(LoginError::InvalidEmail);
    }
    if data.password.as_str().as_bytes().len() < config.min_password_length {
        return Err(LoginError::PasswordTooShort);
    }
    Ok(())
}

/// Everything that runs before credentials are read: the guest rate limit
/// for the caller's hashed network identity short-circuits first — a caller
/// over quota is turned away before validation, credential checking, or any
/// repository work — then the request is validated.
pub fn gate_email_login(
    data: &EmailLoginReq,
    config: &AppConfig,
    limiter: &mut GuestLimiter,
    ip: &str,
    secret: &str,
    now: u64,
) -> (r: Result<(), LoginError>)
    requires
        old(limiter).cache.wf(),
        now + old(limiter).cache.ttl_seconds <= u64::MAX,
    ensures
        final(limiter).cache.wf(),
        final(limiter).cache.ttl_seconds == old(limiter).cache.ttl_seconds,
        (r matches Err(e) && e == LoginError::TooManyRequests) <==> !rl_allows(
            old(limiter).cache@,
            hmac_sha256_hex(ip@, secret@),
            config.rate_limiter.auth_requests_per_hour,
            now,
        ),
        !rl_allows(
            old(limiter).cache@,
            hmac_sha256_hex(ip@, secret@),
            config.rate_limiter.auth_requests_per_hour,
            now,
        ) ==> *final(limiter) == *old(limiter),
        rl_allows(
            old(limiter).cache@,
            hmac_sha256_hex(ip@, secret@),
            config.rate_limiter.auth_requests_per_hour,
            now,
        ) ==> {
            &&& final(limiter).cache@ == rl_step(
                old(limiter).cache@,
                hmac_sha256_hex(ip@, secret@),
                now,
                old(limiter).cache.ttl_seconds,
            )
            &&& ((r matches Ok(())) <==> (config.auth.enable_email_auth && email_has_at(
                data.email@,
            ) && byte_len(data.password@) >= config.auth.min_password_length))
            &&& (r matches Err(e) ==> {
                &&& (e == LoginError::LoginMethodDisabled <==> !config.auth.enable_email_auth)
                &&& (e == LoginError::InvalidEmail <==> (config.auth.enable_email_auth
                    && !email_has_at(data.email@)))
                &&& (e == LoginError::PasswordTooShort <==> (config.auth.enable_email_auth
                    && email_has_at(data.email@) && byte_len(data.password@)
                    < config.auth.min_password_length))
            })
        },
{
    let allowed = crate::limiter::guest_limiter(
        ip,
        secret,
        limiter,
        config.rate_limiter.auth_requests_per_hour,
        now,
    );
    if !allowed {
        return Err(LoginError::TooManyRequests);
    }
    validate_email_login(data, &config.auth)
}

/// The credential check and token issue that run only after admission:
/// compare the stored digest of the user looked up by email (absent when the
/// repository holds none) against the presented password hashed with the
/// shared secret, and on a match issue a token for the configured lifetime.
/// An unknown email and a wrong password fail identically.
pub fn complete_email_login(
    user: Option<&User>,
    password: &str,
    secret: &str,
    jwt_expiry_seconds: u64,
    now: u64,
) -> (r: Result<JwtResponse, LoginError>)
    requires
        now + jwt_expiry_seconds <= u64::MAX,
    ensures
        match user {
            None => r matches Err(e) && e == LoginError::InvalidCredentials,
            Some(u) => match r {
                Ok(resp) => {
                    &&& u.password@ == hmac_sha256_hex(password@, secret@)
                    &&& resp.token@ == token_chars(
                        u.uuid@,
                        now,
                        (now + jwt_expiry_seconds) as u64,
                        secret@,
                    )
                },
                Err(e) => e == LoginError::InvalidCredentials && u.password@ != hmac_sha256_hex(
                    password@,
                    secret@,
                ),
            },
        },
{
    let u = match user {
        Some(u) => u,
        None => {
            return Err(LoginError::InvalidCredentials);
        },
    };
    let hashed_pwd = sha256_hmac(password, secret);
    if u.password == hashed_pwd {
        let token = generate_jwt_token(u.uuid.as_str(), jwt_expiry_seconds, now, secret);
        Ok(JwtResponse { token })
    } else {
        Err(LoginError::InvalidCredentials)
    }
}

} // verus!
