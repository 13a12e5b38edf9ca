use thequotebook::model::User;
use thequotebook::session::session_user_id;
use thequotebook::sessions::{
    check_csrf, check_verified_email, login_complete, logout, validate_redirect, AuthError,
    GoogleAuthRequest, LoginOutcome, TokenClaims,
};

fn auth_request(csrf: &str) -> GoogleAuthRequest {
    GoogleAuthRequest {
        credential: "opaque-provider-credential".to_string(),
        g_csrf_token: csrf.to_string(),
    }
}

fn verified_claims(email: &str) -> TokenClaims {
    TokenClaims {
        email: email.to_string(),
        email_verified: true,
        name: "Some One".to_string(),
        aud: "client-id.apps.example".to_string(),
        iss: "https://accounts.google.com".to_string(),
        exp: 2_000_000_000,
    }
}

fn local_user(id: i32, email: &str) -> User {
    User {
        id,
        email_address: Some(email.to_string()),
        username: None,
        fullname: "Some One".to_string(),
        openid: None,
    }
}

#[test]
fn csrf_mismatch_is_rejected() {
    let request = auth_request("aaaa");
    assert_eq!(
        check_csrf(&request, &Some("bbbb".to_string())),
        Err(AuthError::InvalidCsrf)
    );
}

#[test]
fn csrf_missing_cookie_is_rejected() {
    let request = auth_request("aaaa");
    assert_eq!(check_csrf(&request, &None), Err(AuthError::InvalidCsrf));
}

#[test]
fn csrf_match_passes() {
    let request = auth_request("aaaa");
    assert_eq!(check_csrf(&request, &Some("aaaa".to_string())), Ok(()));
}

#[test]
fn absolute_redirect_is_rejected() {
    assert_eq!(
        validate_redirect(&Some("http://evil.example/x".to_string())),
        Err(AuthError::OpenRedirectRejected)
    );
}

#[test]
fn protocol_relative_redirect_is_rejected() {
    assert_eq!(
        validate_redirect(&Some("//evil.example".to_string())),
        Err(AuthError::OpenRedirectRejected)
    );
}

#[test]
fn relative_redirect_is_accepted() {
    assert_eq!(
        validate_redirect(&Some("/contexts/5".to_string())),
        Ok("/contexts/5".to_string())
    );
}

#[test]
fn missing_redirect_defaults_to_root() {
    assert_eq!(validate_redirect(&None), Ok("/".to_string()));
}

#[test]
fn unverified_email_fails_the_gate() {
    let mut claims = verified_claims("someone@example.com");
    claims.email_verified = false;
    assert_eq!(
        check_verified_email(&claims),
        Err(AuthError::IdentityVerificationFailed)
    );
    assert_eq!(
        check_verified_email(&verified_claims("someone@example.com")),
        Ok(())
    );
}

#[test]
fn unverified_email_is_rejected() {
    let mut claims = verified_claims("someone@example.com");
    claims.email_verified = false;
    let user = Some(local_user(3, "someone@example.com"));
    let r = login_complete(&claims, &user, 1000, 100, "SECRET-REDACTED", &None);
    assert_eq!(r, Err(AuthError::IdentityVerificationFailed));
}

#[test]
fn unknown_user_gets_no_cookie() {
    let claims = verified_claims("nobody@example.com");
    let r = login_complete(&claims, &None, 1000, 100, "SECRET-REDACTED", &None);
    assert_eq!(
        r,
        Ok(LoginOutcome::UnknownUser {
            email: "nobody@example.com".to_string()
        })
    );
}

#[test]
fn login_open_redirect_is_rejected() {
    let claims = verified_claims("someone@example.com");
    let user = Some(local_user(3, "someone@example.com"));
    let r = login_complete(
        &claims,
        &user,
        1000,
        100,
        "SECRET-REDACTED",
        &Some("https://evil.example/".to_string()),
    );
    assert_eq!(r, Err(AuthError::OpenRedirectRejected));
}

#[test]
fn successful_login_issues_a_working_token() {
    let secret = "SECRET-REDACTED";
    let claims = verified_claims("someone@example.com");
    let user = Some(local_user(42, "someone@example.com"));
    let now: u64 = 1_700_000_000;
    let duration: u64 = 2_592_000;
    let r = login_complete(
        &claims,
        &user,
        now,
        duration,
        secret,
        &Some("/contexts/5".to_string()),
    )
    .expect("login should succeed");
    match r {
        LoginOutcome::LoggedIn {
            token,
            max_age_seconds,
            notice,
            redirect_to,
        } => {
            assert_eq!(max_age_seconds, duration);
            assert_eq!(notice, "Logged in successfully.");
            assert_eq!(redirect_to, "/contexts/5");
            // The cookie it sets resolves back to the same user until expiry.
            let cookie = Some(token);
            assert_eq!(session_user_id(&cookie, secret, now + duration - 1), Some(42));
            assert_eq!(session_user_id(&cookie, secret, now + duration), None);
        }
        other => panic!("expected a login, got {:?}", other),
    }
}

#[test]
fn logout_clears_session_and_redirects() {
    let r = logout(&Some("/contexts/5".to_string())).expect("logout should succeed");
    assert!(r.clear_session);
    assert_eq!(r.notice, "You have been logged out.");
    assert_eq!(r.redirect_to, "/contexts/5");
}

#[test]
fn logout_rejects_foreign_redirect() {
    assert_eq!(
        logout(&Some("http://evil.example/x".to_string())),
        Err(AuthError::OpenRedirectRejected)
    );
}
