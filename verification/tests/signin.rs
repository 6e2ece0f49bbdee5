use jrnl_back::error::JrnlError;
use jrnl_back::signin::{
    apple_display_name, apple_nonce_matches, bearer_token, AppleAuthenticationError,
    AppleCallbackUser, AppleCallbackUserName, Claims, GoogleIdTokenClaims, RequestSignInArgs,
    RequestSignInResponse, StrippedGoogleVerificationClaims, TOKEN_LIFETIME_SECS,
};

fn claims(name: Option<&str>, given_name: Option<&str>, nonce: &str) -> GoogleIdTokenClaims {
    GoogleIdTokenClaims {
        sub: "subject-1".to_string(),
        name: name.map(|n| n.to_string()),
        given_name: given_name.map(|n| n.to_string()),
        nonce: nonce.to_string(),
    }
}

#[test]
fn claims_with_the_nonce_of_the_session_are_kept() {
    let kept = claims(Some("Ada Lovelace"), Some("Ada"), "n-1").strip(&"n-1".to_string());
    assert_eq!(
        kept,
        Some(StrippedGoogleVerificationClaims {
            sub: "subject-1".to_string(),
            name: Some("Ada Lovelace".to_string()),
        })
    );
}

#[test]
fn given_name_stands_in_for_a_missing_name() {
    let kept = claims(None, Some("Ada"), "n-1").strip(&"n-1".to_string()).unwrap();
    assert_eq!(kept.name, Some("Ada".to_string()));
    let nameless = claims(None, None, "n-1").strip(&"n-1".to_string()).unwrap();
    assert_eq!(nameless.name, None);
}

#[test]
fn claims_with_another_nonce_are_refused() {
    assert_eq!(claims(Some("Ada"), None, "n-1").strip(&"n-2".to_string()), None);
    assert_eq!(claims(Some("Ada"), None, "").strip(&"n-2".to_string()), None);
}

#[test]
fn apple_token_must_claim_the_nonce_of_the_session() {
    assert!(apple_nonce_matches(&Some("n-1".to_string()), &"n-1".to_string()));
    assert!(!apple_nonce_matches(&Some("n-1".to_string()), &"n-2".to_string()));
    assert!(!apple_nonce_matches(&None, &"n-1".to_string()));
}

#[test]
fn apple_user_is_named_by_first_name_or_not_at_all() {
    let user = AppleCallbackUser { name: AppleCallbackUserName { first_name: "Grace".to_string() } };
    assert_eq!(apple_display_name(Some(user)), "Grace");
    assert_eq!(apple_display_name(None), "no name");
}

#[test]
fn sign_in_messages_carry_nonce_and_token() {
    let args = RequestSignInArgs { nonce: "n-1".to_string() };
    let response = RequestSignInResponse { id_token: "token".to_string() };
    assert_eq!(args.nonce, "n-1");
    assert_eq!(response.id_token, "token");
    assert_ne!(
        AppleAuthenticationError::BadCallbackState,
        AppleAuthenticationError::VerificationError("bad signature".to_string())
    );
}

#[test]
fn bearer_header_carries_the_token() {
    assert_eq!(bearer_token(Some("Bearer abc.def.ghi")), Ok("abc.def.ghi"));
    assert_eq!(bearer_token(Some("Bearer ")), Ok(""));
    assert_eq!(bearer_token(Some("Bearer  spaced")), Ok(" spaced"));
}

#[test]
fn other_headers_are_refused() {
    assert_eq!(bearer_token(None), Err(JrnlError::BadAuthenticationHeader));
    assert_eq!(bearer_token(Some("")), Err(JrnlError::BadAuthenticationHeader));
    assert_eq!(bearer_token(Some("Bearer")), Err(JrnlError::BadAuthenticationHeader));
    assert_eq!(bearer_token(Some("bearer abc")), Err(JrnlError::BadAuthenticationHeader));
    assert_eq!(bearer_token(Some("Basic abc")), Err(JrnlError::BadAuthenticationHeader));
    assert_eq!(bearer_token(Some(" Bearer abc")), Err(JrnlError::BadAuthenticationHeader));
}

#[test]
fn token_is_good_for_thirty_days() {
    assert_eq!(TOKEN_LIFETIME_SECS, 30 * 24 * 60 * 60);
    let claims = Claims::issue(7, 1_704_110_400).unwrap();
    assert_eq!(claims, Claims { sub: 7, exp: 1_706_702_400 });
    assert_eq!(claims.check_expiry(1_704_110_400), Ok(()));
    assert_eq!(claims.check_expiry(1_706_702_400), Ok(()));
    assert_eq!(claims.check_expiry(1_706_702_401), Err(JrnlError::ExpiredToken));
    assert_eq!(claims.check_expiry(-1), Err(JrnlError::Other));
    assert_eq!(Claims { sub: 7, exp: 0 }.check_expiry(0), Ok(()));
}

#[test]
fn token_is_not_issued_for_an_instant_the_machine_cannot_hold() {
    assert_eq!(Claims::issue(7, i64::MAX), Err(JrnlError::Other));
    assert_eq!(Claims::issue(7, i64::MAX - TOKEN_LIFETIME_SECS + 1), Err(JrnlError::Other));
    assert_eq!(Claims::issue(7, -TOKEN_LIFETIME_SECS - 1), Err(JrnlError::Other));
    assert_eq!(Claims::issue(7, -TOKEN_LIFETIME_SECS), Ok(Claims { sub: 7, exp: 0 }));
    assert_eq!(Claims::issue(7, 0), Ok(Claims { sub: 7, exp: 2_592_000 }));
}
