use oauth2_login_cli::config::{Oauth2Config, Oauth2Token};
use oauth2_login_cli::device::FormPost;
use oauth2_login_cli::error::{AuthError, ProviderError};
use oauth2_login_cli::refresh::{complete, complete_document, plan, refresh_request, RefreshPlan};
use oauth2_login_cli::schema::{DecodeError, Field};

fn token(expires: u64) -> Oauth2Token {
    Oauth2Token {
        token_type: "Bearer".to_string(),
        expires,
        access_token: "at-old".to_string(),
        refresh_token: "rt-old".to_string(),
    }
}

fn account(token: Option<Oauth2Token>) -> Oauth2Config {
    Oauth2Config {
        provider: "microsoft".to_string(),
        account_name: "a".to_string(),
        app_id: "app-123".to_string(),
        scopes: "mail".to_string(),
        device_code_endpoint: "https://login.test/devicecode".to_string(),
        token_endpoint: "https://login.test/token".to_string(),
        token,
    }
}

fn refresh_post() -> FormPost {
    FormPost {
        url: "https://login.test/token".to_string(),
        fields: vec![
            ("grant_type".to_string(), "refresh_token".to_string()),
            ("client_id".to_string(), "app-123".to_string()),
            ("refresh_token".to_string(), "rt-old".to_string()),
        ],
    }
}

const NEW_TOKEN_BODY: &str =
    r#"{"token_type":"Bearer","expires_in":1800,"access_token":"at-new","refresh_token":"rt-new"}"#;

#[test]
fn valid_token_needs_no_request() {
    let r = account(Some(token(2000)));
    assert_eq!(plan(&r, 1999), Ok(RefreshPlan::UpToDate));
    assert_eq!(plan(&r, 0), Ok(RefreshPlan::UpToDate));
    assert_eq!(r, account(Some(token(2000))));
}

#[test]
fn token_expires_when_the_clock_reaches_its_end() {
    let r = account(Some(token(2000)));
    assert_eq!(plan(&r, 2000), Ok(RefreshPlan::Renew { request: refresh_post() }));
    assert_eq!(plan(&r, 2001), Ok(RefreshPlan::Renew { request: refresh_post() }));
    assert_eq!(plan(&r, u64::MAX), Ok(RefreshPlan::Renew { request: refresh_post() }));
}

#[test]
fn refresh_request_carries_grant_type_client_and_refresh_token() {
    assert_eq!(refresh_request(&account(None), "rt-old"), refresh_post());
}

#[test]
fn record_without_token_cannot_be_refreshed() {
    let r = account(None);
    assert_eq!(plan(&r, 0), Err(AuthError::NotAuthorized));
    assert_eq!(plan(&r, u64::MAX), Err(AuthError::NotAuthorized));
}

#[test]
fn renew_without_token_fails_and_changes_nothing() {
    let mut r = account(None);
    let outcome = plan(&r, 1000);
    assert_eq!(outcome, Err(AuthError::NotAuthorized));
    assert_ne!(oauth2_login_cli::command::exit_status(&outcome), 0);
    assert!(!oauth2_login_cli::command::store_changed(
        oauth2_login_cli::command::Command::Renew,
        &outcome
    ));
    assert_eq!(complete(&mut r, true, NEW_TOKEN_BODY, 1000), Err(AuthError::NotAuthorized));
    assert_eq!(r, account(None));
}

#[test]
fn accepted_refresh_replaces_the_token() {
    let mut r = account(Some(token(2000)));
    assert_eq!(complete(&mut r, true, NEW_TOKEN_BODY, 2500), Ok(()));
    assert_eq!(
        r,
        account(Some(Oauth2Token {
            token_type: "Bearer".to_string(),
            expires: 2500 + 1800,
            access_token: "at-new".to_string(),
            refresh_token: "rt-new".to_string(),
        }))
    );
}

#[test]
fn refused_refresh_keeps_the_expired_token() {
    let mut r = account(Some(token(2000)));
    let body = r#"{"error":"invalid_grant","error_description":"refresh token expired"}"#;
    assert_eq!(
        complete(&mut r, false, body, 2500),
        Err(AuthError::RefreshFailed(Some(ProviderError {
            error: "invalid_grant".to_string(),
            error_description: Some("refresh token expired".to_string()),
            error_codes: None,
        })))
    );
    assert_eq!(r, account(Some(token(2000))));
}

#[test]
fn refused_refresh_without_a_readable_reason() {
    let mut r = account(Some(token(2000)));
    assert_eq!(complete(&mut r, false, "Bad Gateway", 2500), Err(AuthError::RefreshFailed(None)));
    assert_eq!(complete(&mut r, false, "{}", 2500), Err(AuthError::RefreshFailed(None)));
    assert_eq!(complete(&mut r, false, NEW_TOKEN_BODY, 2500), Err(AuthError::RefreshFailed(None)));
    assert_eq!(r, account(Some(token(2000))));
}

#[test]
fn unreadable_refresh_answer_keeps_the_token() {
    let mut r = account(Some(token(2000)));
    assert_eq!(
        complete(&mut r, true, "not json", 2500),
        Err(AuthError::ResponseParseError(DecodeError::Syntax))
    );
    assert_eq!(
        complete(&mut r, true, r#"{"token_type":"Bearer"}"#, 2500),
        Err(AuthError::ResponseParseError(DecodeError::Missing(Field::ExpiresIn)))
    );
    assert_eq!(r, account(Some(token(2000))));
}

#[test]
fn refresh_answer_with_an_untellable_end_keeps_the_token() {
    let mut r = account(Some(token(2000)));
    assert_eq!(complete(&mut r, true, NEW_TOKEN_BODY, u64::MAX), Err(AuthError::TimeOutOfRange));
    assert_eq!(r, account(Some(token(2000))));
}

#[test]
fn refresh_on_a_document_agrees_with_refresh_on_its_text() {
    let doc: serde_json::Value = serde_json::from_str(NEW_TOKEN_BODY).unwrap();
    let mut by_text = account(Some(token(2000)));
    let mut by_document = account(Some(token(2000)));
    assert_eq!(
        complete(&mut by_text, true, NEW_TOKEN_BODY, 3000),
        complete_document(&mut by_document, true, Some(&doc), 3000)
    );
    assert_eq!(by_text, by_document);
    assert_eq!(
        complete_document(&mut by_document, true, None, 3000),
        Err(AuthError::ResponseParseError(DecodeError::Syntax))
    );
    assert_eq!(complete_document(&mut by_document, false, None, 3000), Err(AuthError::RefreshFailed(None)));
}
