use pmanager::token::{
    check_token, issue_token, stale_refresh_token, make_jwt_token, make_refresh_token, verify_jwt_token, AuthHeader,
    Claims, RefreshHeader, TokenKeys, TokenKind, ACCESS_TOKEN_TTL, CLOCK_MAX, REFRESH_TOKEN_TTL,
};
use pmanager::types::AuthErrors;

fn keys() -> TokenKeys {
    TokenKeys { access_secret: b"access-secret".to_vec(), refresh_secret: b"refresh-secret".to_vec() }
}

const NOW: i64 = 1_700_000_000;

#[test]
fn ttl_values() {
    assert_eq!(ACCESS_TOKEN_TTL, 3600);
    assert_eq!(REFRESH_TOKEN_TTL, 7 * 24 * 3600);
}

#[test]
fn issued_token_checks_to_its_claims() {
    let k = keys();
    let t = issue_token(&k, TokenKind::Access, 42, NOW).ok().unwrap();
    assert_eq!(check_token(&k, TokenKind::Access, &t, NOW), Some(Claims { id: 42, exp: NOW + 3600 }));
    let r = issue_token(&k, TokenKind::Refresh, 42, NOW).ok().unwrap();
    assert_eq!(check_token(&k, TokenKind::Refresh, &r, NOW), Some(Claims { id: 42, exp: NOW + 604800 }));
}

#[test]
fn access_token_expiry_boundary() {
    let k = keys();
    let t = issue_token(&k, TokenKind::Access, 7, NOW).ok().unwrap();
    let exp = NOW + ACCESS_TOKEN_TTL;
    assert!(check_token(&k, TokenKind::Access, &t, exp - 1).is_some());
    assert!(check_token(&k, TokenKind::Access, &t, exp).is_none());
    assert!(check_token(&k, TokenKind::Access, &t, exp + 1).is_none());
}

#[test]
fn token_classes_use_separate_secrets() {
    let k = keys();
    let t = issue_token(&k, TokenKind::Access, 7, NOW).ok().unwrap();
    assert!(check_token(&k, TokenKind::Refresh, &t, NOW).is_none());
    let r = issue_token(&k, TokenKind::Refresh, 7, NOW).ok().unwrap();
    assert!(check_token(&k, TokenKind::Access, &r, NOW).is_none());
}

#[test]
fn forged_token_fails() {
    let k = keys();
    let t = issue_token(&k, TokenKind::Access, 7, NOW).ok().unwrap();
    let mut forged = t.clone();
    forged.push('x');
    assert!(check_token(&k, TokenKind::Access, &forged, NOW).is_none());
    assert!(check_token(&k, TokenKind::Access, "not-a-token", NOW).is_none());
}

#[test]
fn expiry_out_of_range_is_internal_error() {
    let k = keys();
    let e = issue_token(&k, TokenKind::Refresh, 1, i64::MAX - 10).err().unwrap();
    assert!(e.error_type() == AuthErrors::InternalError);
}

#[test]
fn tokens_made_now_verify() {
    let k = keys();
    let t = make_jwt_token(&k, 9).ok().unwrap();
    assert_eq!(verify_jwt_token(&k, &t).ok(), Some(9));
    let r = make_refresh_token(&k, 9).ok().unwrap();
    assert!(verify_jwt_token(&k, &r).is_err());
}

#[test]
fn auth_header_reads_bearer_token() {
    let k = keys();
    let t = issue_token(&k, TokenKind::Access, 5, NOW).ok().unwrap();
    let h = AuthHeader::from_authorization(&k, &format!("Bearer {}", t), NOW).ok().unwrap();
    assert_eq!(h.claims, Claims { id: 5, exp: NOW + 3600 });
    assert_eq!(h.token, t);
}

#[test]
fn auth_header_missing_or_expired() {
    let k = keys();
    let e = AuthHeader::from_authorization(&k, "", NOW).err().unwrap();
    assert!(e.error_type() == AuthErrors::JwtTokenExpired);
    assert_eq!(e.status(), 401);
    let e = AuthHeader::from_authorization(&k, "Bearer   ", NOW).err().unwrap();
    assert_eq!(e.status(), 401);
    let t = issue_token(&k, TokenKind::Access, 5, NOW).ok().unwrap();
    let e = AuthHeader::from_authorization(&k, &format!("Bearer {}", t), NOW + 3600).err().unwrap();
    assert!(e.error_type() == AuthErrors::JwtTokenExpired);
}

#[test]
fn refresh_header_checks_refresh_secret() {
    let k = keys();
    let r = issue_token(&k, TokenKind::Refresh, 5, NOW).ok().unwrap();
    let h = RefreshHeader::from_authorization(&k, &format!("Bearer {}", r), NOW).ok().unwrap();
    assert_eq!(h.claims.id, 5);
    let a = issue_token(&k, TokenKind::Access, 5, NOW).ok().unwrap();
    let e = RefreshHeader::from_authorization(&k, &format!("Bearer {}", a), NOW).err().unwrap();
    assert!(e.error_type() == AuthErrors::RefreshTokenExpired);
    assert_eq!(e.status(), 403);
}

#[test]
fn stale_refresh_token_is_evicted() {
    let k = keys();
    let r = issue_token(&k, TokenKind::Refresh, 5, NOW).ok().unwrap();
    let header = format!("Bearer {}", r);
    assert_eq!(stale_refresh_token(&k, &header, NOW), None);
    assert_eq!(stale_refresh_token(&k, &header, NOW + REFRESH_TOKEN_TTL), Some(r.as_str()));
    assert_eq!(stale_refresh_token(&k, "Bearer forged", NOW), Some("forged"));
    assert_eq!(stale_refresh_token(&k, "", NOW), None);
}

#[test]
fn refresh_header_missing_is_forbidden() {
    let k = keys();
    let e = RefreshHeader::from_authorization(&k, "", NOW).err().unwrap();
    assert!(e.error_type() == AuthErrors::RefreshTokenExpired);
    assert_eq!(e.status(), 403);
}

#[test]
fn issued_tokens_use_compact_alphabet() {
    let k = keys();
    for kind in [TokenKind::Access, TokenKind::Refresh] {
        let t = issue_token(&k, kind, 123, NOW).ok().unwrap();
        assert!(!t.is_empty());
        assert!(t.chars().all(|c| c.is_ascii_alphanumeric() || c == '-' || c == '_' || c == '.'));
        assert_eq!(t.matches('.').count(), 2);
    }
}

#[test]
fn token_outliving_every_clock_reading_verifies() {
    let k = keys();
    let t = issue_token(&k, TokenKind::Access, 11, CLOCK_MAX).ok().unwrap();
    assert_eq!(verify_jwt_token(&k, &t).ok(), Some(11));
    let old = issue_token(&k, TokenKind::Access, 11, 0).ok().unwrap();
    assert!(verify_jwt_token(&k, &old).is_err());
}
