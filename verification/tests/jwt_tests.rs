use nodeless_api::auth::LoginError;
use nodeless_api::auth::complete_email_login;
use nodeless_api::crypto::sha256_hmac;
use nodeless_api::jwt::AuthError;
use nodeless_api::jwt::authorize;
use nodeless_api::jwt::generate_jwt_token;
use nodeless_api::jwt::token_round_trip;
use nodeless_api::jwt::verify_jwt_token;
use nodeless_api::models::User;

const SECRET: &str = "test-signing-secret";

fn test_user(password_digest: String) -> User {
    User {
        uuid: "user-1".to_owned(),
        email: "user@example.com".to_owned(),
        password: password_digest,
        npub: None,
        identifier: None,
        created_at: 0,
        updated_at: 0,
        last_login_at: 0,
        deleted_at: None,
    }
}

#[test]
fn token_resolves_before_expiry() {
    let token = generate_jwt_token("user-1", 600, 1_000, SECRET);
    let claims = verify_jwt_token(&token, SECRET, 1_100).expect("token is fresh at 1100");
    assert_eq!(claims.sub, "user-1");
    assert_eq!(claims.iat, 1_000);
    assert_eq!(claims.exp, 1_600);
}

#[test]
fn token_expires_with_the_expiry_classification() {
    let token = generate_jwt_token("user-1", 600, 1_000, SECRET);
    assert_eq!(verify_jwt_token(&token, SECRET, 1_600).unwrap_err(), AuthError::Expired);
    assert_eq!(verify_jwt_token(&token, SECRET, 9_999).unwrap_err(), AuthError::Expired);
}

#[test]
fn round_trip_keeps_the_user_id() {
    let r = token_round_trip("user-7", 600, 1_000, 1_599, SECRET);
    assert_eq!(r.expect("still fresh").sub, "user-7");
    let r = token_round_trip("user-7", 600, 1_000, 1_600, SECRET);
    assert_eq!(r.unwrap_err(), AuthError::Expired);
}

#[test]
fn wrong_secret_or_tampering_is_invalid() {
    let token = generate_jwt_token("user-1", 600, 1_000, SECRET);
    assert_eq!(verify_jwt_token(&token, "other-secret", 1_100).unwrap_err(), AuthError::Invalid);

    let mut tampered = token.clone();
    tampered.push('x');
    assert_eq!(verify_jwt_token(&tampered, SECRET, 1_100).unwrap_err(), AuthError::Invalid);

    assert_eq!(verify_jwt_token("not.a.token", SECRET, 1_100).unwrap_err(), AuthError::Invalid);
}

#[test]
fn authorization_requires_a_verified_bearer() {
    assert!(matches!(authorize(None, SECRET, 1_100), Err(AuthError::Missing)));

    let token = generate_jwt_token("user-1", 600, 1_000, SECRET);
    let svc = authorize(Some(&token), SECRET, 1_100).expect("fresh token authorizes");
    assert_eq!(svc.uuid(), Some(&"user-1".to_owned()));

    assert!(matches!(authorize(Some(&token), SECRET, 2_000), Err(AuthError::Expired)));
}

#[test]
fn matching_digest_logs_in() {
    let digest = sha256_hmac("correct horse", SECRET);
    let user = test_user(digest);
    let r = complete_email_login(Some(&user), "correct horse", SECRET, 3_600, 1_000)
        .expect("digests match");
    let claims = verify_jwt_token(&r.token, SECRET, 1_001).expect("issued token verifies");
    assert_eq!(claims.sub, "user-1");
    assert_eq!(claims.exp, 4_600);
}

#[test]
fn wrong_password_and_unknown_user_fail_alike() {
    let digest = sha256_hmac("correct horse", SECRET);
    let user = test_user(digest);
    let wrong = complete_email_login(Some(&user), "wrong horse", SECRET, 3_600, 1_000);
    assert_eq!(wrong.unwrap_err(), LoginError::InvalidCredentials);

    let unknown = complete_email_login(None, "correct horse", SECRET, 3_600, 1_000);
    assert_eq!(unknown.unwrap_err(), LoginError::InvalidCredentials);
}
