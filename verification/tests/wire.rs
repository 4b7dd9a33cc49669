use oauth2_login_cli::error::ProviderError;
use oauth2_login_cli::microsoft;
use oauth2_login_cli::oauth;
use oauth2_login_cli::schema::{DecodeError, Field};

#[test]
fn device_code_is_read_under_verification_uri() {
    let body = r#"{"user_code":"ABCD-EFGH","device_code":"dev-1","verification_uri":"https://example.test/device"}"#;
    let answer = oauth::deviceCodeEndpointResponse::from_json(body).unwrap();
    assert_eq!(answer.user_code, "ABCD-EFGH");
    assert_eq!(answer.device_code, "dev-1");
    assert_eq!(answer.verification_uri, "https://example.test/device");
}

#[test]
fn device_code_is_read_under_verification_url() {
    let body = r#"{"user_code":"ABCD-EFGH","device_code":"dev-1","verification_url":"https://example.test/device"}"#;
    let answer = oauth::deviceCodeEndpointResponse::from_json(body).unwrap();
    assert_eq!(answer.verification_uri, "https://example.test/device");
}

#[test]
fn either_name_of_the_address_gives_the_same_answer() {
    let with_uri = r#"{"user_code":"u","device_code":"d","verification_uri":"https://a.test/x","interval":5}"#;
    let with_url = r#"{"verification_url":"https://a.test/x","expires_in":900,"device_code":"d","user_code":"u"}"#;
    assert_eq!(
        oauth::deviceCodeEndpointResponse::from_json(with_uri),
        oauth::deviceCodeEndpointResponse::from_json(with_url)
    );
}

#[test]
fn address_under_both_names_is_refused() {
    let body = r#"{"user_code":"u","device_code":"d","verification_uri":"a","verification_url":"a"}"#;
    assert_eq!(
        oauth::deviceCodeEndpointResponse::from_json(body),
        Err(DecodeError::Ambiguous(Field::VerificationUri))
    );
}

#[test]
fn device_code_errors_name_the_first_failing_member() {
    assert_eq!(
        oauth::deviceCodeEndpointResponse::from_json("{}"),
        Err(DecodeError::Missing(Field::UserCode))
    );
    assert_eq!(
        oauth::deviceCodeEndpointResponse::from_json(r#"{"user_code":"u"}"#),
        Err(DecodeError::Missing(Field::DeviceCode))
    );
    assert_eq!(
        oauth::deviceCodeEndpointResponse::from_json(r#"{"user_code":"u","device_code":"d"}"#),
        Err(DecodeError::Missing(Field::VerificationUri))
    );
    assert_eq!(
        oauth::deviceCodeEndpointResponse::from_json(r#"{"user_code":7,"device_code":"d"}"#),
        Err(DecodeError::Invalid(Field::UserCode))
    );
    assert_eq!(
        oauth::deviceCodeEndpointResponse::from_json(
            r#"{"user_code":"u","device_code":"d","verification_url":null}"#
        ),
        Err(DecodeError::Invalid(Field::VerificationUrl))
    );
}

#[test]
fn text_that_is_no_document_is_a_syntax_error() {
    assert_eq!(oauth::deviceCodeEndpointResponse::from_json("{"), Err(DecodeError::Syntax));
    assert_eq!(oauth::tokenEndpointResponse::from_json(""), Err(DecodeError::Syntax));
    assert_eq!(oauth::Error::from_json("<html>"), Err(DecodeError::Syntax));
    assert_eq!(ProviderError::from_json("{} {}"), Err(DecodeError::Syntax));
}

#[test]
fn document_that_is_no_object_misses_the_first_member() {
    assert_eq!(
        oauth::tokenEndpointResponse::from_json("[1,2]"),
        Err(DecodeError::Missing(Field::TokenType))
    );
    assert_eq!(oauth::Error::from_json("\"text\""), Err(DecodeError::Missing(Field::Error)));
}

#[test]
fn token_answer_is_read() {
    let body = r#"{"token_type":"Bearer","expires_in":3600,"access_token":"at","refresh_token":"rt","scope":"mail"}"#;
    let answer = oauth::tokenEndpointResponse::from_json(body).unwrap();
    assert_eq!(
        answer,
        oauth::tokenEndpointResponse {
            token_type: "Bearer".to_string(),
            expires_in: 3600,
            access_token: "at".to_string(),
            refresh_token: "rt".to_string(),
        }
    );
}

#[test]
fn lifetime_has_to_be_an_integer_within_i32() {
    let with = |n: &str| {
        format!(
            r#"{{"token_type":"Bearer","expires_in":{},"access_token":"at","refresh_token":"rt"}}"#,
            n
        )
    };
    assert_eq!(oauth::tokenEndpointResponse::from_json(&with("2147483647")).unwrap().expires_in, i32::MAX);
    assert_eq!(oauth::tokenEndpointResponse::from_json(&with("-2147483648")).unwrap().expires_in, i32::MIN);
    assert_eq!(oauth::tokenEndpointResponse::from_json(&with("-5")).unwrap().expires_in, -5);
    let invalid = Err(DecodeError::Invalid(Field::ExpiresIn));
    assert_eq!(oauth::tokenEndpointResponse::from_json(&with("2147483648")), invalid);
    assert_eq!(oauth::tokenEndpointResponse::from_json(&with("-2147483649")), invalid);
    assert_eq!(oauth::tokenEndpointResponse::from_json(&with("18446744073709551615")), invalid);
    assert_eq!(oauth::tokenEndpointResponse::from_json(&with("3600.0")), invalid);
    assert_eq!(oauth::tokenEndpointResponse::from_json(&with("\"3600\"")), invalid);
    assert_eq!(oauth::tokenEndpointResponse::from_json(&with("null")), invalid);
}

#[test]
fn token_answer_errors_follow_the_order_of_the_members() {
    assert_eq!(
        oauth::tokenEndpointResponse::from_json(r#"{"expires_in":"x"}"#),
        Err(DecodeError::Missing(Field::TokenType))
    );
    assert_eq!(
        oauth::tokenEndpointResponse::from_json(r#"{"token_type":"Bearer","expires_in":1}"#),
        Err(DecodeError::Missing(Field::AccessToken))
    );
    assert_eq!(
        oauth::tokenEndpointResponse::from_json(
            r#"{"token_type":"Bearer","expires_in":1,"access_token":"a"}"#
        ),
        Err(DecodeError::Missing(Field::RefreshToken))
    );
}

#[test]
fn standard_refusal_is_read() {
    let body = r#"{"error":"authorization_pending","error_description":"waiting"}"#;
    assert_eq!(
        oauth::Error::from_json(body),
        Ok(oauth::Error {
            error: "authorization_pending".to_string(),
            error_description: "waiting".to_string(),
        })
    );
    assert_eq!(
        oauth::Error::from_json(r#"{"error":"x"}"#),
        Err(DecodeError::Missing(Field::ErrorDescription))
    );
}

#[test]
fn microsoft_device_code_knows_one_name_only() {
    let body = r#"{"user_code":"u","device_code":"d","verification_uri":"https://m.test"}"#;
    assert_eq!(
        microsoft::deviceCodeEndpointResponse::from_json(body),
        Ok(microsoft::deviceCodeEndpointResponse {
            user_code: "u".to_string(),
            device_code: "d".to_string(),
            verification_uri: "https://m.test".to_string(),
        })
    );
    let other = r#"{"user_code":"u","device_code":"d","verification_url":"https://m.test"}"#;
    assert_eq!(
        microsoft::deviceCodeEndpointResponse::from_json(other),
        Err(DecodeError::Missing(Field::VerificationUri))
    );
}

#[test]
fn microsoft_refusal_carries_numeric_codes() {
    let body = r#"{"error":"invalid_grant","error_description":"expired","error_codes":[70020,-1]}"#;
    assert_eq!(
        microsoft::Error::from_json(body),
        Ok(microsoft::Error {
            error: "invalid_grant".to_string(),
            error_description: "expired".to_string(),
            error_codes: vec![70020, -1],
        })
    );
    assert_eq!(
        microsoft::Error::from_json(r#"{"error":"e","error_description":"d","error_codes":[]}"#)
            .unwrap()
            .error_codes,
        Vec::<i32>::new()
    );
    assert_eq!(
        microsoft::Error::from_json(r#"{"error":"e","error_description":"d"}"#),
        Err(DecodeError::Missing(Field::ErrorCodes))
    );
    assert_eq!(
        microsoft::Error::from_json(r#"{"error":"e","error_description":"d","error_codes":[1,"2"]}"#),
        Err(DecodeError::Invalid(Field::ErrorCodes))
    );
    assert_eq!(
        microsoft::Error::from_json(r#"{"error":"e","error_description":"d","error_codes":[4294967296]}"#),
        Err(DecodeError::Invalid(Field::ErrorCodes))
    );
    assert_eq!(
        microsoft::Error::from_json(r#"{"error":"e","error_description":"d","error_codes":7}"#),
        Err(DecodeError::Invalid(Field::ErrorCodes))
    );
}

#[test]
fn microsoft_token_answer_needs_the_extended_lifetime() {
    let body = r#"{"token_type":"Bearer","expires_in":3599,"ext_expires_in":7200,"access_token":"at","refresh_token":"rt"}"#;
    assert_eq!(
        microsoft::tokenEndpointResponse::from_json(body),
        Ok(microsoft::tokenEndpointResponse {
            token_type: "Bearer".to_string(),
            expires_in: 3599,
            ext_expires_in: 7200,
            access_token: "at".to_string(),
            refresh_token: "rt".to_string(),
        })
    );
    let without = r#"{"token_type":"Bearer","expires_in":3599,"access_token":"at","refresh_token":"rt"}"#;
    assert_eq!(
        microsoft::tokenEndpointResponse::from_json(without),
        Err(DecodeError::Missing(Field::ExtExpiresIn))
    );
}

#[test]
fn refusal_needs_only_the_error_code() {
    assert_eq!(
        ProviderError::from_json(r#"{"error":"invalid_client"}"#),
        Ok(ProviderError {
            error: "invalid_client".to_string(),
            error_description: None,
            error_codes: None,
        })
    );
    assert_eq!(
        ProviderError::from_json(r#"{"error":"e","error_description":null,"error_codes":null}"#),
        Ok(ProviderError { error: "e".to_string(), error_description: None, error_codes: None })
    );
    assert_eq!(
        ProviderError::from_json(r#"{"error":"e","error_description":"d","error_codes":[1,2,3]}"#),
        Ok(ProviderError {
            error: "e".to_string(),
            error_description: Some("d".to_string()),
            error_codes: Some(vec![1, 2, 3]),
        })
    );
}

#[test]
fn refusal_with_members_of_the_wrong_type_is_refused() {
    assert_eq!(
        ProviderError::from_json(r#"{"error_description":"d"}"#),
        Err(DecodeError::Missing(Field::Error))
    );
    assert_eq!(
        ProviderError::from_json(r#"{"error":"e","error_description":5}"#),
        Err(DecodeError::Invalid(Field::ErrorDescription))
    );
    assert_eq!(
        ProviderError::from_json(r#"{"error":"e","error_codes":"x"}"#),
        Err(DecodeError::Invalid(Field::ErrorCodes))
    );
}

#[test]
fn decoding_a_document_agrees_with_decoding_its_text() {
    let body = r#"{"user_code":"u","device_code":"d","verification_url":"https://a.test"}"#;
    let doc: serde_json::Value = serde_json::from_str(body).unwrap();
    assert_eq!(
        oauth::deviceCodeEndpointResponse::decode(&doc),
        oauth::deviceCodeEndpointResponse::from_json(body)
    );
}

#[test]
fn field_names_are_the_keys_of_the_wire() {
    assert_eq!(Field::VerificationUri.name(), "verification_uri");
    assert_eq!(Field::VerificationUrl.name(), "verification_url");
    assert_eq!(Field::ExtExpiresIn.name(), "ext_expires_in");
    assert_eq!(Field::AccountName.name(), "account_name");
    assert_eq!(Field::DeviceCodeEndpoint.name(), "device_code_endpoint");
}

#[test]
fn decode_errors_are_worded() {
    assert_eq!(DecodeError::Syntax.message(), "not a JSON document");
    assert_eq!(DecodeError::NotAList.message(), "not a list of records");
    assert_eq!(DecodeError::Missing(Field::UserCode).message(), "missing field `user_code`");
    assert_eq!(
        DecodeError::Invalid(Field::ExpiresIn).message(),
        "invalid value for field `expires_in`"
    );
    assert_eq!(
        DecodeError::Ambiguous(Field::VerificationUri).message(),
        "more than one name given for field `verification_uri`"
    );
}

#[test]
fn microsoft_answers_in_the_terms_of_the_standard() {
    let body = r#"{"token_type":"Bearer","expires_in":3599,"ext_expires_in":7200,"access_token":"at","refresh_token":"rt"}"#;
    assert_eq!(
        microsoft::tokenEndpointResponse::from_json(body).unwrap().into_standard(),
        oauth::tokenEndpointResponse::from_json(body).unwrap()
    );
    let body = r#"{"user_code":"u","device_code":"d","verification_uri":"https://m.test"}"#;
    assert_eq!(
        microsoft::deviceCodeEndpointResponse::from_json(body).unwrap().into_standard(),
        oauth::deviceCodeEndpointResponse::from_json(body).unwrap()
    );
}

#[test]
fn strict_refusals_are_refusals() {
    let body = r#"{"error":"invalid_grant","error_description":"expired","error_codes":[70020]}"#;
    assert_eq!(
        microsoft::Error::from_json(body).unwrap().into_provider_error(),
        ProviderError::from_json(body).unwrap()
    );
    let body = r#"{"error":"invalid_grant","error_description":"expired"}"#;
    assert_eq!(
        oauth::Error::from_json(body).unwrap().into_provider_error(),
        ProviderError::from_json(body).unwrap()
    );
    assert_eq!(
        oauth::Error::from_json(body).unwrap().into_provider_error(),
        ProviderError {
            error: "invalid_grant".to_string(),
            error_description: Some("expired".to_string()),
            error_codes: None,
        }
    );
}

#[test]
fn token_answer_becomes_the_token_to_keep() {
    let answer = oauth::tokenEndpointResponse {
        token_type: "Bearer".to_string(),
        expires_in: 60,
        access_token: "at".to_string(),
        refresh_token: "rt".to_string(),
    };
    assert_eq!(
        answer.clone().into_token(1000),
        Some(oauth2_login_cli::config::Oauth2Token {
            token_type: "Bearer".to_string(),
            expires: 1060,
            access_token: "at".to_string(),
            refresh_token: "rt".to_string(),
        })
    );
    assert_eq!(answer.into_token(u64::MAX - 59), None);
}
