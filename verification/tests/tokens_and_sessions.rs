use connected::digest::sha256_hex;
use connected::error::AppError;
use connected::jwt::{decode_token, sign_token};
use connected::models::{AuthenticatedUser, Claims};
use connected::role::Role;
use connected::tokens::{
    accept_token, accept_token_now, claims_at, issue_token_pair, issue_token_pair_at,
    issue_token_pair_signed, issue_token_pair_stored, jwt_secret, next_rotation,
    ACCESS_TOKEN_TTL_SECS, EXPIRY_LEEWAY_SECS, REFRESH_TOKEN_TTL_SECS,
};

fn claims(token_type: &str) -> Claims {
    Claims { sub: 42, role: Role::Trainer, token_type: token_type.to_string(), exp: 2_000_000_000, rotation: 5 }
}

#[test]
fn lifetimes_are_fifteen_minutes_and_seven_days() {
    assert_eq!(ACCESS_TOKEN_TTL_SECS, 900);
    assert_eq!(REFRESH_TOKEN_TTL_SECS, 604_800);
}

#[test]
fn claims_at_adds_the_lifetime() {
    let c = claims_at(42, Role::Admin, "access", 900, 1_700_000_000, 77).unwrap();
    assert_eq!(
        c,
        Claims { sub: 42, role: Role::Admin, token_type: "access".to_string(), exp: 1_700_000_900, rotation: 77 }
    );
}

#[test]
fn claims_at_refuses_an_expiry_out_of_range() {
    let r = claims_at(42, Role::Admin, "access", 900, usize::MAX - 10, 77);
    assert_eq!(r, Err(AppError::Internal("token expiry out of range".to_string())));
}

#[test]
fn pair_at_given_instants_has_exact_lifetimes() {
    let p = issue_token_pair_at(3, Role::Trainer, Some("k".to_string()), 1_000, 1_001, 11).unwrap();
    assert_eq!(
        p.access,
        Claims { sub: 3, role: Role::Trainer, token_type: "access".to_string(), exp: 1_900, rotation: 11 }
    );
    assert_eq!(
        p.refresh,
        Claims { sub: 3, role: Role::Trainer, token_type: "refresh".to_string(), exp: 605_801, rotation: 11 }
    );
    assert_eq!(p.access_issued_at, 1_000);
    assert_eq!(p.refresh_issued_at, 1_001);
    assert_eq!(p.secret, "k");
}

#[test]
fn pair_at_checks_secret_before_range() {
    assert_eq!(
        issue_token_pair_at(3, Role::Trainer, None, usize::MAX, usize::MAX, 1).err(),
        Some(AppError::Internal("JWT_SECRET not set".to_string()))
    );
    assert_eq!(
        issue_token_pair_at(3, Role::Trainer, Some("k".to_string()), 0, usize::MAX - 5, 1).err(),
        Some(AppError::Internal("token expiry out of range".to_string()))
    );
}

#[test]
fn next_rotation_always_moves_on() {
    assert_eq!(next_rotation(0), 1);
    assert_eq!(next_rotation(41), 42);
    assert_eq!(next_rotation(u64::MAX), 0);
}

#[test]
fn reissued_pair_differs_from_the_consumed_one() {
    let p = issue_token_pair(5, Role::Admin, Some("k".to_string()), 0).unwrap();
    let q = issue_token_pair(5, Role::Admin, Some("k".to_string()), next_rotation(0)).unwrap();
    assert_eq!(p.refresh.rotation, 0);
    assert_eq!(q.refresh.rotation, 1);
    assert_ne!(p.refresh, q.refresh);
    assert_ne!(p.access, q.access);
    let same_second = issue_token_pair_at(5, Role::Admin, Some("k".to_string()), 10, 10, 0).unwrap();
    let next = issue_token_pair_at(5, Role::Admin, Some("k".to_string()), 10, 10, 1).unwrap();
    assert_ne!(same_second.refresh, next.refresh);
}

#[test]
fn missing_secret_is_internal_error() {
    assert_eq!(jwt_secret(None), Err(AppError::Internal("JWT_SECRET not set".to_string())));
    assert_eq!(jwt_secret(Some("s3cr3t".to_string())), Ok("s3cr3t".to_string()));
    let r = issue_token_pair(5, Role::Admin, None, 0);
    assert_eq!(r.err(), Some(AppError::Internal("JWT_SECRET not set".to_string())));
}

#[test]
fn issued_pair_has_both_types_and_lifetimes() {
    let p = issue_token_pair(5, Role::Admin, Some("k".to_string()), 3).unwrap();
    assert_eq!(p.access.sub, 5);
    assert_eq!(p.refresh.sub, 5);
    assert_eq!(p.access.role, Role::Admin);
    assert_eq!(p.refresh.role, Role::Admin);
    assert_eq!(p.access.token_type, "access");
    assert_eq!(p.refresh.token_type, "refresh");
    assert_eq!(p.secret, "k");
    assert_eq!(p.access.exp, p.access_issued_at + ACCESS_TOKEN_TTL_SECS);
    assert_eq!(p.refresh.exp, p.refresh_issued_at + REFRESH_TOKEN_TTL_SECS);
    assert!(p.access_issued_at > 1_700_000_000);
    assert!(p.refresh_issued_at >= p.access_issued_at);
    assert_eq!(p.access.rotation, 3);
    assert_eq!(p.refresh.rotation, 3);
}

const NOW: usize = 1_900_000_000;

#[test]
fn access_token_authenticates_only_as_access() {
    assert_eq!(
        accept_token(Some(claims("access")), "access", NOW),
        Ok(AuthenticatedUser { id: 42, role: Role::Trainer })
    );
    assert_eq!(accept_token(Some(claims("access")), "refresh", NOW), Err(AppError::Unauthorized));
    assert_eq!(accept_token(Some(claims("refresh")), "access", NOW), Err(AppError::Unauthorized));
    assert_eq!(accept_token(None, "access", NOW), Err(AppError::Unauthorized));
}

#[test]
fn expiry_is_checked_with_sixty_seconds_of_leeway() {
    assert_eq!(EXPIRY_LEEWAY_SECS, 60);
    let ok = Ok(AuthenticatedUser { id: 42, role: Role::Trainer });
    assert_eq!(accept_token(Some(claims("access")), "access", 2_000_000_000), ok);
    assert_eq!(accept_token(Some(claims("access")), "access", 2_000_000_060), ok);
    assert_eq!(accept_token(Some(claims("access")), "access", 2_000_000_061), Err(AppError::Unauthorized));
    assert_eq!(accept_token(Some(claims("refresh")), "refresh", usize::MAX), Err(AppError::Unauthorized));
    assert_eq!(accept_token(Some(claims("access")), "access", 0), ok);
}

#[test]
fn accepting_now_reads_the_clock() {
    assert_eq!(
        accept_token_now(Some(claims("access")), "access"),
        Ok(AuthenticatedUser { id: 42, role: Role::Trainer })
    );
    let mut old = claims("access");
    old.exp = 1_000;
    assert_eq!(accept_token_now(Some(old), "access"), Err(AppError::Unauthorized));
    assert_eq!(accept_token_now(None, "access"), Err(AppError::Unauthorized));
}

const ACCESS_JSON: &str = r#"{"sub":"00000000-0000-0000-0000-000000000009","role":"trainee","token_type":"access","exp":4102444800}"#;
const REFRESH_JSON: &str = r#"{"sub":"00000000-0000-0000-0000-000000000009","role":"trainee","token_type":"refresh","exp":4102444800}"#;

#[test]
fn signed_pair_is_recorded_by_refresh_hash() {
    let p = issue_token_pair(9, Role::Trainee, Some("k".to_string()), 0).unwrap();
    let s = issue_token_pair_signed(&p, Ok((ACCESS_JSON.to_string(), REFRESH_JSON.to_string()))).unwrap();
    assert_eq!(s.user_id, 9);
    assert_eq!(s.refresh_token_hash, sha256_hex(&s.tokens.refresh_token));
    assert_eq!(s.ttl_secs, REFRESH_TOKEN_TTL_SECS);
    assert_eq!(s.tokens.access_token, sign_token(ACCESS_JSON.to_string(), "k").unwrap());
    assert_eq!(s.tokens.refresh_token, sign_token(REFRESH_JSON.to_string(), "k").unwrap());
    assert_ne!(s.tokens.access_token, s.tokens.refresh_token);
    let tokens = s.tokens.clone();
    assert_eq!(issue_token_pair_stored(s.clone(), Ok(())), Ok(tokens));
    assert_eq!(
        issue_token_pair_stored(s, Err("insert failed".to_string())),
        Err(AppError::Internal("insert failed".to_string()))
    );
}

#[test]
fn unwritable_claims_are_internal_error() {
    let p = issue_token_pair(9, Role::Trainee, Some("k".to_string()), 0).unwrap();
    let r = issue_token_pair_signed(&p, Err("serialization failed".to_string()));
    assert_eq!(r, Err(AppError::Internal("serialization failed".to_string())));
    let r = issue_token_pair_signed(&p, Ok(("{not json".to_string(), REFRESH_JSON.to_string())));
    assert!(matches!(r, Err(AppError::Internal(_))));
}

#[test]
fn signed_token_has_default_header_and_claims_payload() {
    let t = sign_token(r#"{"a":1}"#.to_string(), "secret").unwrap();
    let parts: Vec<&str> = t.split('.').collect();
    assert_eq!(parts.len(), 3);
    assert_eq!(parts[0], "eyJ0eXAiOiJKV1QiLCJhbGciOiJIUzI1NiJ9");
    assert_eq!(parts[1], "eyJhIjoxfQ");
    assert_eq!(t, sign_token(r#"{"a":1}"#.to_string(), "secret").unwrap());
    assert_ne!(t, sign_token(r#"{"a":1}"#.to_string(), "other").unwrap());
}

#[test]
fn decoding_gives_back_what_was_signed() {
    let t = sign_token(ACCESS_JSON.to_string(), "k").unwrap();
    assert_eq!(decode_token(&t, "k"), Some(ACCESS_JSON.to_string()));
}

#[test]
fn decoding_refuses_wrong_secret_and_garbage() {
    let t = sign_token(ACCESS_JSON.to_string(), "k").unwrap();
    assert_eq!(decode_token(&t, "not-k"), None);
    let no_exp = sign_token(r#"{"sub":"x"}"#.to_string(), "k").unwrap();
    assert_eq!(decode_token(&no_exp, "k"), None);
    let with_aud = sign_token(r#"{"sub":"x","exp":4102444800,"aud":"y"}"#.to_string(), "k").unwrap();
    assert_eq!(decode_token(&with_aud, "k"), None);
    assert_eq!(decode_token("not.a.token", "k"), None);
    assert_eq!(decode_token("", "k"), None);
}

#[test]
fn decoding_leaves_expiry_to_the_caller() {
    let expired_json = r#"{"sub":"x","exp":1000}"#;
    let expired = sign_token(expired_json.to_string(), "k").unwrap();
    assert_eq!(decode_token(&expired, "k"), Some(expired_json.to_string()));
    let c = Claims { sub: 1, role: Role::Trainee, token_type: "access".to_string(), exp: 1_000, rotation: 0 };
    assert_eq!(accept_token(Some(c.clone()), "access", 1_060), Ok(AuthenticatedUser { id: 1, role: Role::Trainee }));
    assert_eq!(accept_token(Some(c), "access", 1_061), Err(AppError::Unauthorized));
}

#[test]
fn any_json_text_is_signed_and_nothing_else() {
    assert!(sign_token(" 1 ".to_string(), "k").is_ok());
    assert!(sign_token("[]".to_string(), "").is_ok());
    assert!(matches!(sign_token("1 2".to_string(), "k"), Err(AppError::Internal(_))));
    assert!(matches!(sign_token("".to_string(), "k"), Err(AppError::Internal(_))));
}
