//! Stateless bearer-token authorization. A token is a signed, time-bound
//! claim set; verification is a pure function of the token, the shared
//! secret, and an explicit clock instant, so expiry is decided here and not
//! by the signing library's notion of wall-clock time.

use vstd::prelude::*;

verus! {

/// The claims carried by a bearer token: the durable user identifier, the
/// expiry instant, and the issue instant (both in seconds).
#[derive(Clone, Debug)]
pub struct Claims {
    pub sub: String,
    pub exp: u64,
    pub iat: u64,
}

/// The signed token that encoding the claims (sub, iat, exp) with `secret`
/// produces; a deterministic function of those inputs.
pub uninterp spec fn token_chars(sub: Seq<char>, iat: u64, exp: u64, secret: Seq<char>) -> Seq<char>;

/// The claims (sub, iat, exp) that signature verification with `secret`
/// recovers from `token`, or nothing when the token is not a well-formed
/// claim set signed with `secret`; a deterministic function of the inputs.
pub uninterp spec fn claims_of(token: Seq<char>, secret: Seq<char>) -> Option<(Seq<char>, u64, u64)>;

/// Relies on jsonwebtoken::encode with HS256: the token is a deterministic
/// function of the claims and the secret (HMAC signing and base64 writing
/// involve no randomness), and jsonwebtoken::decode with the same secret
/// recovers exactly the claim set that was signed.
#[verifier::external_body]
fn encode_claims(sub: &str, iat: u64, exp: u64, secret: &str) -> (r: String)
    ensures
        r@ == token_chars(sub@, iat, exp, secret@),
        claims_of(r@, secret@) == Some((sub@, iat, exp)),
{
    let mut claims = serde_json::Map::new();
    claims.insert("sub".to_owned(), serde_json::Value::String(sub.to_owned()));
    claims.insert("iat".to_owned(), serde_json::Value::from(iat));
    claims.insert("exp".to_owned(), serde_json::Value::from(exp));
    jsonwebtoken::encode(
        &jsonwebtoken::Header::default(),
        &serde_json::Value::Object(claims),
        &jsonwebtoken::EncodingKey::from_secret(secret.as_bytes()),
    ).expect("HS256 signing of a plain JSON claim set does not fail")
}

/// Relies on jsonwebtoken::decode with HS256 and with time validation turned
/// off: whether the signature verifies, and which claims come back, is then a
/// function of the token and the secret alone. Expiry is checked by the
/// callers against an explicit clock.
#[verifier::external_body]
fn decode_claims(token: &str, secret: &str) -> (r: Option<Claims>)
    ensures
        match r {
            Some(c) => claims_of(token@, secret@) == Some((c.sub@, c.iat, c.exp)),
            None => claims_of(token@, secret@) is None,
        },
{
    let mut validation = jsonwebtoken::Validation::new(jsonwebtoken::Algorithm::HS256);
    validation.validate_exp = false;
    validation.required_spec_claims.clear();
    let data = jsonwebtoken::decode::<serde_json::Value>(
        token,
        &jsonwebtoken::DecodingKey::from_secret(secret.as_bytes()),
        &validation,
    ).ok()?;
    let sub = data.claims.get("sub")?.as_str()?.to_owned();
    let iat = data.claims.get("iat")?.as_u64()?;
    let exp = data.claims.get("exp")?.as_u64()?;
    Some(Claims { sub, exp, iat })
}

/// Why a caller could not be authenticated. `Expired` is the expiry-classified
/// refinement of an invalid claim set; both are terminal for the request.
#[derive(Clone, Copy, Debug, PartialEq, Eq, Structural)]
pub enum AuthError {
    Missing,
    Invalid,
    Expired,
}

impl AuthError {
    /// Every authentication failure is rendered as 401.
    pub fn http_status(&self) -> (r: u16)
        ensures
            r == 401,
    {
        401
    }

    /// The rendered message does not say which check failed beyond the
    /// credential being missing or invalid; an expired token reads as
    /// invalid to the caller.
    pub fn message(&self) -> (r: String)
        ensures
            r@ == self.message_spec(),
    {
        match self {
            AuthError::Missing => "Missing token".to_owned(),
            AuthError::Invalid => "Invalid token".to_owned(),
            AuthError::Expired => "Invalid token".to_owned(),
        }
    }

    pub open spec fn message_spec(&self) -> Seq<char> {
        match self {
            AuthError::Missing => "Missing token"@,
            AuthError::Invalid => "Invalid token"@,
            AuthError::Expired => "Invalid token"@,
        }
    }
}

/// Issue a token for `user_uuid` at instant `now`, valid for `exp_secs`
/// seconds and signed with the shared secret.
pub fn generate_jwt_token(user_uuid: &str, exp_secs: u64, now: u64, secret: &str) -> (token:
    String)
    requires
        now + exp_secs <= u64::MAX,
    ensures
        token@ == token_chars(user_uuid@, now, (now + exp_secs) as u64, secret@),
        claims_of(token@, secret@) == Some((user_uuid@, now, (now + exp_secs) as u64)),
{
    let exp = now + exp_secs;
    encode_claims(user_uuid, now, exp, secret)
}

/// Verify a token against the shared secret at instant `now`: the claims come
/// back exactly when the signature verifies and the expiry instant is still
/// ahead; a bad signature or shape is `Invalid`, a lapsed token `Expired`.
pub fn verify_jwt_token(token: &str, secret: &str, now: u64) -> (r: Result<Claims, AuthError>)
    ensures
        (r is Ok) <==> (claims_of(token@, secret@) matches Some(t) && now < t.2),
        match r {
            Ok(c) => claims_of(token@, secret@) == Some((c.sub@, c.iat, c.exp)) && now < c.exp,
            Err(e) => {
                &&& (e == AuthError::Invalid <==> claims_of(token@, secret@) is None)
                &&& (e == AuthError::Expired <==> (claims_of(token@, secret@) matches Some(t)
                    && t.2 <= now))
            },
        },
{
    match decode_claims(token, secret) {
        None => Err(AuthError::Invalid),
        Some(c) => {
            if now < c.exp {
                Ok(c)
            } else {
                Err(AuthError::Expired)
            }
        },
    }
}

/// The caller identity an authenticated route works under: the durable user
/// identifier extracted from a verified token. Derived per request, never
/// stored.
pub struct AuthorizationService {
    pub user_uuid: Option<String>,
}

impl AuthorizationService {
    pub open spec fn uuid_spec(&self) -> Option<String> {
        self.user_uuid
    }

    pub fn uuid(&self) -> (r: Option<&String>)
        ensures
            match r {
                Some(u) => self.user_uuid matches Some(v) && v == u,
                None => self.user_uuid is None,
            },
    {
        self.user_uuid.as_ref()
    }
}

/// Derive the caller identity from the bearer credential of a request: no
/// credential is `Missing`; a credential that does not verify at `now` is
/// refused with the verifier's classification; otherwise the subject claim
/// becomes the caller's durable identifier.
pub fn authorize(auth_header: Option<&String>, secret: &str, now: u64) -> (r: Result<
    AuthorizationService,
    AuthError,
>)
    ensures
        match auth_header {
            None => r matches Err(e) && e == AuthError::Missing,
            Some(token) => match r {
                Ok(svc) => {
                    &&& claims_of(token@, secret@) matches Some(t) && now < t.2
                    &&& (svc.uuid_spec() matches Some(u) && claims_of(token@, secret@)
                        matches Some(t) && u@ == t.0)
                },
                Err(e) => {
                    &&& (e == AuthError::Invalid <==> claims_of(token@, secret@) is None)
                    &&& (e == AuthError::Expired <==> (claims_of(token@, secret@) matches Some(t)
                        && t.2 <= now))
                },
            },
        },
        (auth_header matches Some(token) && claims_of(token@, secret@) matches Some(t) && now
            < t.2) <==> r is Ok,
{
    match auth_header {
        None => Err(AuthError::Missing),
        Some(token) => {
            let claims = verify_jwt_token(token.as_str(), secret, now)?;
            Ok(AuthorizationService { user_uuid: Some(claims.sub) })
        },
    }
}

/// Token round trip: a token issued for `user_uuid` at `now` with lifetime
/// `exp_secs` resolves to the same user identifier at any instant before the
/// expiry, and fails with the expiry classification at any instant after it.
pub fn token_round_trip(user_uuid: &str, exp_secs: u64, now: u64, later: u64, secret: &str) -> (r:
    Result<Claims, AuthError>)
    requires
        now + exp_secs <= u64::MAX,
    ensures
        later < now + exp_secs ==> (r matches Ok(c) && c.sub@ == user_uuid@ && c.iat == now
            && c.exp == now + exp_secs),
        later >= now + exp_secs ==> (r matches Err(e) && e == AuthError::Expired),
{
    let token = generate_jwt_token(user_uuid, exp_secs, now, secret);
    verify_jwt_token(token.as_str(), secret, later)
}

} // verus!
