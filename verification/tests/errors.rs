use oauth2_login_cli::error::{AuthError, ProviderError};
use oauth2_login_cli::schema::{DecodeError, Field};

fn refusal(description: Option<&str>) -> ProviderError {
    ProviderError {
        error: "invalid_client".to_string(),
        error_description: description.map(|d| d.to_string()),
        error_codes: Some(vec![7000215]),
    }
}

#[test]
fn provider_words_are_code_and_description() {
    assert_eq!(refusal(Some("bad secret")).message(), "invalid_client: bad secret");
    assert_eq!(refusal(None).message(), "invalid_client");
}

#[test]
fn rejection_is_reported_in_the_provider_words() {
    assert_eq!(
        AuthError::ProviderRejected(refusal(Some("bad secret"))).message(),
        "Request error, please check your OAuth2 configuration: invalid_client: bad secret"
    );
    assert_eq!(
        AuthError::ProviderRejected(refusal(None)).message(),
        "Request error, please check your OAuth2 configuration: invalid_client"
    );
}

#[test]
fn failed_refresh_is_reported_with_its_reason() {
    assert_eq!(
        AuthError::RefreshFailed(Some(refusal(Some("gone")))).message(),
        "Token endpoint call failed: invalid_client: gone"
    );
    assert_eq!(AuthError::RefreshFailed(None).message(), "Token endpoint call failed!");
}

#[test]
fn reader_errors_are_reported_with_the_member() {
    assert_eq!(
        AuthError::ConfigParseError(DecodeError::Missing(Field::AppId)).message(),
        "Failure to parse configuration file: missing field `app_id`"
    );
    assert_eq!(
        AuthError::ResponseParseError(DecodeError::Syntax).message(),
        "Failed to parse the data returned from the provider: not a JSON document"
    );
}

#[test]
fn plain_errors_are_reported() {
    assert_eq!(AuthError::ConfigIoError.message(), "Failed to open file");
    assert_eq!(
        AuthError::NotAuthorized.message(),
        "The token was not obtained. You need to run the `gen-token` command first to get the token!"
    );
    assert_eq!(
        AuthError::AccountNotFound.message(),
        "No OAuth2 account_name found. Please check the parameters!"
    );
    assert_eq!(
        AuthError::UnknownCommand.message(),
        "Error: The command does not exist. Please check the parameters!"
    );
    assert_eq!(AuthError::TimeOutOfRange.message(), "Time calculation overflow");
    assert_eq!(AuthError::PollLimitReached.message(), "The device was not authorized in time");
}

#[test]
fn copy_of_a_refusal_is_the_refusal() {
    let r = refusal(Some("d"));
    assert_eq!(r.clone(), r);
}
