use resolve::auth::{
    authenticate, bearer_token, check_current_password, credentials_outcome, expired_refresh_cookie,
    hash_password, plan_update_me, profile_update_outcome, refresh_cookie, require_active_session,
    revoke, session_expiry, validate_change_password, validate_login, validate_register,
    validate_update_me, verify_password, ChangePasswordRequest, LoginRequest, RefreshTokenDoc,
    RegisterRequest, UpdateMeRequest,
};
use resolve::errors::ApiError;
use resolve::ids::Oid;
use resolve::jwt::{
    check_claims, decode_token, decode_token_at, issue_token, issue_token_with_exp,
    now_unix_seconds, token_expiry, user_id_from_token, ClaimsRejection,
};
use resolve::refresh_token::{encode_hex, generate, hash_token, REFRESH_TOKEN_COOKIE};
use resolve::user::User;

fn msg<T: std::fmt::Debug>(r: Result<T, ApiError>) -> String {
    match r {
        Err(ApiError::Validation(m)) => m,
        other => panic!("unexpected {:?}", other),
    }
}

fn user_with_hash(hash: &str) -> User {
    User {
        id: Some(Oid { value: 7 }),
        email: "ada@example.com".to_string(),
        password_hash: hash.to_string(),
        name: "Ada".to_string(),
        global_role: None,
        created_at: 0,
    }
}

#[test]
fn decode_token_round_trips_issue_token() {
    let token = issue_token("507f1f77bcf86cd799439011", "test-secret").unwrap();
    let claims = decode_token(&token, "test-secret").unwrap();
    assert_eq!(claims.sub, "507f1f77bcf86cd799439011");
}

#[test]
fn decode_token_rejects_wrong_secret() {
    let token = issue_token("507f1f77bcf86cd799439011", "test-secret").unwrap();
    assert!(decode_token(&token, "wrong-secret").is_err());
}

#[test]
fn decode_token_rejects_expired_token() {
    let expired_exp = (now_unix_seconds() - 3600) as usize;
    let token = issue_token_with_exp("507f1f77bcf86cd799439011", "test-secret", expired_exp).unwrap();
    assert!(decode_token(&token, "test-secret").is_err());
}

#[test]
fn expiry_is_checked_with_a_minute_of_leeway() {
    let token = issue_token_with_exp("abc", "s", 1_000).unwrap();
    let c = decode_token_at(&token, "s", 1_060).unwrap();
    assert_eq!(c.sub, "abc");
    assert_eq!(c.exp, 1_000);
    assert_eq!(c.token_version, 0);
    assert!(decode_token_at(&token, "s", 1_061).is_err());
    assert!(decode_token_at("not.a.token", "s", 0).is_err());
    assert_eq!(token_expiry(100), 1_000);
    assert_eq!(token_expiry(-10_000), 0);
}

#[test]
fn claims_are_checked_for_type_and_expiry() {
    let ok = check_claims((Some("u".to_string()), Some(500), Some(3)), 100).unwrap();
    assert_eq!(ok.token_version, 3);
    assert_eq!(check_claims((None, Some(500), Some(3)), 100).unwrap_err(), ClaimsRejection::Malformed);
    assert_eq!(
        check_claims((Some("u".to_string()), Some(500), Some(i64::from(i32::MAX) + 1)), 100).unwrap_err(),
        ClaimsRejection::Malformed
    );
    assert_eq!(check_claims((Some("u".to_string()), Some(39), Some(0)), 100).unwrap_err(), ClaimsRejection::Expired);
}

#[test]
fn token_subject_must_be_an_object_id() {
    let good = issue_token("507f1f77bcf86cd799439011", "k").unwrap();
    let id = user_id_from_token(&good, "k").unwrap();
    assert_eq!(id.to_hex(), "507f1f77bcf86cd799439011");
    let bad = issue_token("not-an-id", "k").unwrap();
    assert!(matches!(user_id_from_token(&bad, "k"), Err(ApiError::Unauthenticated)));
    assert!(matches!(user_id_from_token(&good, "other"), Err(ApiError::Unauthenticated)));
}

#[test]
fn generate_produces_distinct_tokens_with_matching_hash() {
    let (raw_a, hash_a) = generate();
    let (raw_b, hash_b) = generate();
    assert_ne!(raw_a, raw_b);
    assert_eq!(hash_a, hash_token(&raw_a));
    assert_eq!(hash_b, hash_token(&raw_b));
    assert_ne!(hash_a, hash_b);
}

#[test]
fn hash_token_is_deterministic() {
    let (raw, hash) = generate();
    assert_eq!(hash_token(&raw), hash);
}

#[test]
fn tokens_and_digests_are_lowercase_hex() {
    let (raw, hash) = generate();
    assert_eq!(raw.len(), 64);
    assert!(raw.chars().all(|c| c.is_ascii_hexdigit() && !c.is_ascii_uppercase()));
    assert_eq!(hash.len(), 64);
    assert_eq!(encode_hex(&[0x00, 0xab, 0x0f, 0xff]), "00ab0fff");
    assert_eq!(
        hash_token("abc"),
        "ba7816bf8f01cfea414140de5dae2223b00361a396177a9cb410ff61f20015ad"
    );
    assert_eq!(REFRESH_TOKEN_COOKIE, "refresh_token");
}

#[test]
fn register_validation() {
    let req = |e: &str, p: &str, n: &str| RegisterRequest { email: e.to_string(), password: p.to_string(), name: n.to_string() };
    assert_eq!(msg(validate_register(&req("  ", "password1", "Ada"))), "a valid email is required");
    assert_eq!(msg(validate_register(&req("ada.example.com", "password1", "Ada"))), "a valid email is required");
    assert_eq!(msg(validate_register(&req("a@b", "short", "Ada"))), "password must be at least 8 characters");
    // characters, not bytes: four two-byte letters are too short
    assert_eq!(msg(validate_register(&req("a@b", "אבגד", "Ada"))), "password must be at least 8 characters");
    assert!(validate_register(&req("a@b", "אבגדהוזח", "Ada")).is_ok());
    assert_eq!(msg(validate_register(&req("a@b", "password1", " "))), "name is required");
}

#[test]
fn login_update_and_password_validation() {
    let login = |e: &str, p: &str| LoginRequest { email: e.to_string(), password: p.to_string() };
    assert!(validate_login(&login("a@b", "x")).is_ok());
    assert_eq!(msg(validate_login(&login(" ", "x"))), "email and password are required");
    assert_eq!(msg(validate_login(&login("a@b", ""))), "email and password are required");

    let upd = |n: Option<&str>, e: Option<&str>| UpdateMeRequest {
        name: n.map(str::to_string),
        email: e.map(str::to_string),
        current_password: None,
    };
    assert_eq!(msg(validate_update_me(&upd(None, None))), "nothing to update");
    assert_eq!(msg(validate_update_me(&upd(Some("Ada"), Some("nope")))), "a valid email is required");
    assert_eq!(msg(validate_update_me(&upd(Some(" "), Some("a@b")))), "name is required");
    assert!(validate_update_me(&upd(Some("Ada"), None)).is_ok());

    let chg = |c: &str, n: &str| ChangePasswordRequest { current_password: c.to_string(), new_password: n.to_string() };
    assert_eq!(msg(validate_change_password(&chg("", "longenough"))), "current password is required");
    assert_eq!(msg(validate_change_password(&chg("old", "short"))), "password must be at least 8 characters");
    assert!(validate_change_password(&chg("old", "longenough")).is_ok());
    assert_eq!(msg(validate_change_password(&chg("old", "אבגד"))), "password must be at least 8 characters");
}

#[test]
fn bearer_header_is_required() {
    assert!(matches!(bearer_token(None), Err(ApiError::Unauthenticated)));
    assert!(matches!(bearer_token(Some("Basic abc123".to_string())), Err(ApiError::Unauthenticated)));
    assert!(matches!(bearer_token(Some("bearer abc".to_string())), Err(ApiError::Unauthenticated)));
    assert_eq!(bearer_token(Some("Bearer abc.def".to_string())).unwrap(), "abc.def");
    assert_eq!(bearer_token(Some("Bearer ".to_string())).unwrap(), "");
}

#[test]
fn a_stored_password_signs_in() {
    let hash = hash_password("correct horse").unwrap();
    assert!(verify_password("correct horse", &hash).unwrap());
    assert!(!verify_password("wrong horse", &hash).unwrap());
    assert!(verify_password("x", "not a bcrypt hash").is_err());
    let user = user_with_hash(&hash);
    assert_eq!(authenticate(Some(user.clone()), "correct horse").unwrap().name, "Ada");
    assert!(matches!(authenticate(Some(user.clone()), "wrong"), Err(ApiError::InvalidCredentials)));
    assert!(matches!(authenticate(None, "correct horse"), Err(ApiError::InvalidCredentials)));
    assert!(matches!(authenticate(Some(user_with_hash("garbage")), "x"), Err(ApiError::Internal)));
    assert!(check_current_password(&Some(user.clone()), "correct horse").is_ok());
    assert!(matches!(check_current_password(&Some(user), "nope"), Err(ApiError::InvalidCredentials)));
    assert!(matches!(check_current_password(&None, "nope"), Err(ApiError::Unauthenticated)));
}

#[test]
fn credentials_outcomes() {
    let u = user_with_hash("h");
    assert!(matches!(credentials_outcome(None, Some(true)), Err(ApiError::InvalidCredentials)));
    assert!(matches!(credentials_outcome(Some(u.clone()), None), Err(ApiError::Internal)));
    assert!(matches!(credentials_outcome(Some(u.clone()), Some(false)), Err(ApiError::InvalidCredentials)));
    assert!(credentials_outcome(Some(u), Some(true)).is_ok());
}

#[test]
fn changing_the_email_needs_the_current_password() {
    let user = user_with_hash("h");
    let name_only = UpdateMeRequest { name: Some("  Grace ".to_string()), email: None, current_password: None };
    let p = profile_update_outcome(&user, &name_only, None).unwrap();
    assert_eq!(p.name, "Grace");
    assert_eq!(p.email, "ada@example.com");
    let same_email = UpdateMeRequest { name: None, email: Some("ada@example.com".to_string()), current_password: None };
    assert!(profile_update_outcome(&user, &same_email, None).is_ok());
    let new_email = UpdateMeRequest { name: None, email: Some(" g@h ".to_string()), current_password: None };
    assert_eq!(msg(profile_update_outcome(&user, &new_email, None)), "current password is required to change email");
    let with_pw = UpdateMeRequest { name: None, email: Some(" g@h ".to_string()), current_password: Some("pw".to_string()) };
    assert!(matches!(profile_update_outcome(&user, &with_pw, Some(false)), Err(ApiError::InvalidCredentials)));
    assert!(matches!(profile_update_outcome(&user, &with_pw, None), Err(ApiError::Internal)));
    assert_eq!(profile_update_outcome(&user, &with_pw, Some(true)).unwrap().email, "g@h");

    let hash = hash_password("pw-for-real").unwrap();
    let real = user_with_hash(&hash);
    let good = UpdateMeRequest { name: None, email: Some("new@x".to_string()), current_password: Some("pw-for-real".to_string()) };
    assert_eq!(plan_update_me(&real, &good).unwrap().email, "new@x");
    let bad = UpdateMeRequest { name: None, email: Some("new@x".to_string()), current_password: Some("nope".to_string()) };
    assert!(matches!(plan_update_me(&real, &bad), Err(ApiError::InvalidCredentials)));
}

#[test]
fn refresh_sessions_work_once_and_expire() {
    let doc = RefreshTokenDoc {
        id: Some(Oid { value: 1 }),
        user_id: Oid { value: 2 },
        token_hash: "h".to_string(),
        created_at: 0,
        expires_at: session_expiry(0),
        revoked_at: None,
    };
    assert_eq!(doc.expires_at, 2_592_000_000);
    assert!(require_active_session(Some(doc.clone()), 10).is_ok());
    assert!(matches!(require_active_session(Some(doc.clone()), 2_592_000_000), Err(ApiError::Unauthenticated)));
    let used = revoke(doc, 5);
    assert_eq!(used.revoked_at, Some(5));
    assert!(matches!(require_active_session(Some(used), 10), Err(ApiError::Unauthenticated)));
    assert!(matches!(require_active_session(None, 10), Err(ApiError::Unauthenticated)));
}

#[test]
fn refresh_cookie_attributes() {
    let c = refresh_cookie("raw".to_string(), false);
    assert_eq!(c.name, "refresh_token");
    assert_eq!(c.value, "raw");
    assert_eq!(c.path, "/api/v1/auth");
    assert!(c.http_only && c.same_site_strict && !c.secure);
    assert_eq!(c.max_age_secs, 30 * 24 * 3600);
    let gone = expired_refresh_cookie(true);
    assert_eq!(gone.value, "");
    assert_eq!(gone.max_age_secs, 0);
    assert!(gone.secure);
}

#[test]
fn hash_password_writes_a_2b_hash_at_cost_12() {
    let hash = hash_password("a password").unwrap();
    assert_eq!(hash.len(), 60);
    assert!(hash.starts_with("$2b$12$"));
}

#[test]
fn decode_token_accepts_a_token_no_clock_has_passed() {
    let token = issue_token_with_exp("507f1f77bcf86cd799439011", "k", 4_000_000_000_000_000_000).unwrap();
    let claims = decode_token(&token, "k").unwrap();
    assert_eq!(claims.sub, "507f1f77bcf86cd799439011");
    assert_eq!(claims.exp, 4_000_000_000_000_000_000usize);
}
