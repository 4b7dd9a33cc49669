use oauth2_login_cli::config::{decode_store, parse, to_document, to_json, Oauth2Config, Oauth2Token};
use oauth2_login_cli::error::AuthError;
use oauth2_login_cli::schema::{DecodeError, Field};

fn with_token() -> Oauth2Config {
    Oauth2Config {
        provider: "microsoft".to_string(),
        account_name: "work".to_string(),
        app_id: "app-1".to_string(),
        scopes: "offline_access https://outlook.office.com/IMAP.AccessAsUser.All".to_string(),
        device_code_endpoint: "https://login.test/devicecode".to_string(),
        token_endpoint: "https://login.test/token".to_string(),
        token: Some(Oauth2Token {
            token_type: "Bearer".to_string(),
            expires: 1_700_003_600,
            access_token: "at \"quoted\" \\ \n line".to_string(),
            refresh_token: "rt-é-雪".to_string(),
        }),
    }
}

fn without_token() -> Oauth2Config {
    Oauth2Config {
        provider: "google".to_string(),
        account_name: "home".to_string(),
        app_id: "app-2".to_string(),
        scopes: "".to_string(),
        device_code_endpoint: "https://g.test/device".to_string(),
        token_endpoint: "https://g.test/token".to_string(),
        token: None,
    }
}

const ONE_RECORD: &str = r#"[
  {
    "provider": "google",
    "account_name": "home",
    "app_id": "app-2",
    "scopes": "",
    "device_code_endpoint": "https://g.test/device",
    "token_endpoint": "https://g.test/token",
    "token": null
  }
]"#;

#[test]
fn configuration_is_read() {
    assert_eq!(parse(ONE_RECORD), Ok(vec![without_token()]));
}

#[test]
fn configuration_is_written_with_indentation_in_field_order() {
    assert_eq!(to_json(&vec![without_token()]), Some(ONE_RECORD.to_string()));
}

#[test]
fn token_is_written_inside_its_record() {
    let record = Oauth2Config {
        token: Some(Oauth2Token {
            token_type: "Bearer".to_string(),
            expires: 42,
            access_token: "at".to_string(),
            refresh_token: "rt".to_string(),
        }),
        ..without_token()
    };
    let expected = r#"[
  {
    "provider": "google",
    "account_name": "home",
    "app_id": "app-2",
    "scopes": "",
    "device_code_endpoint": "https://g.test/device",
    "token_endpoint": "https://g.test/token",
    "token": {
      "token_type": "Bearer",
      "expires": 42,
      "access_token": "at",
      "refresh_token": "rt"
    }
  }
]"#;
    assert_eq!(to_json(&vec![record]), Some(expected.to_string()));
}

#[test]
fn empty_collection_is_an_empty_list() {
    assert_eq!(to_json(&Vec::new()), Some("[]".to_string()));
    assert_eq!(parse("[]"), Ok(Vec::new()));
    assert_eq!(parse(" [ ] \n"), Ok(Vec::new()));
}

#[test]
fn written_configuration_reads_back_the_same() {
    let records = vec![with_token(), without_token(), with_token()];
    let text = to_json(&records).unwrap();
    assert_eq!(parse(&text), Ok(records));
}

#[test]
fn written_document_reads_back_the_same() {
    let records = vec![without_token(), with_token()];
    assert_eq!(decode_store(&to_document(&records)), Ok(records));
}

#[test]
fn record_document_reads_back_the_same() {
    assert_eq!(Oauth2Config::decode(&with_token().to_document()), Ok(with_token()));
    assert_eq!(Oauth2Config::decode(&without_token().to_document()), Ok(without_token()));
    let token = with_token().token.unwrap();
    assert_eq!(Oauth2Token::decode(&token.to_document()), Ok(token));
}

#[test]
fn largest_expiry_survives_writing_and_reading() {
    let mut record = with_token();
    record.token.as_mut().unwrap().expires = u64::MAX;
    let text = to_json(&vec![record.clone()]).unwrap();
    assert_eq!(parse(&text), Ok(vec![record]));
}

#[test]
fn missing_token_member_means_no_token() {
    let text = r#"[{"provider":"p","account_name":"a","app_id":"i","scopes":"s",
        "device_code_endpoint":"d","token_endpoint":"t"}]"#;
    let records = parse(text).unwrap();
    assert_eq!(records.len(), 1);
    assert_eq!(records[0].token, None);
    assert_eq!(records[0].account_name, "a");
}

#[test]
fn unknown_members_are_passed_over() {
    let text = r#"[{"provider":"p","account_name":"a","app_id":"i","scopes":"s",
        "device_code_endpoint":"d","token_endpoint":"t","token":null,"comment":[1,2]}]"#;
    assert_eq!(parse(text).unwrap().len(), 1);
}

#[test]
fn malformed_configuration_is_refused() {
    assert_eq!(parse(""), Err(AuthError::ConfigParseError(DecodeError::Syntax)));
    assert_eq!(parse("[{]"), Err(AuthError::ConfigParseError(DecodeError::Syntax)));
    assert_eq!(parse("{}"), Err(AuthError::ConfigParseError(DecodeError::NotAList)));
    assert_eq!(parse("null"), Err(AuthError::ConfigParseError(DecodeError::NotAList)));
    assert_eq!(parse("\"[]\""), Err(AuthError::ConfigParseError(DecodeError::NotAList)));
}

#[test]
fn record_errors_name_the_first_failing_member() {
    assert_eq!(parse("[{}]"), Err(AuthError::ConfigParseError(DecodeError::Missing(Field::Provider))));
    assert_eq!(parse("[1]"), Err(AuthError::ConfigParseError(DecodeError::Missing(Field::Provider))));
    assert_eq!(
        parse(r#"[{"provider":"p"}]"#),
        Err(AuthError::ConfigParseError(DecodeError::Missing(Field::AccountName)))
    );
    assert_eq!(
        parse(r#"[{"provider":"p","account_name":"a","app_id":3}]"#),
        Err(AuthError::ConfigParseError(DecodeError::Invalid(Field::AppId)))
    );
    let head = r#"{"provider":"p","account_name":"a","app_id":"i","scopes":"s","device_code_endpoint":"d","token_endpoint":"t""#;
    assert_eq!(
        parse(&format!("[{}, \"token\": {{}}}}]", head)),
        Err(AuthError::ConfigParseError(DecodeError::Missing(Field::TokenType)))
    );
    assert_eq!(
        parse(&format!("[{}, \"token\": 5}}]", head)),
        Err(AuthError::ConfigParseError(DecodeError::Missing(Field::TokenType)))
    );
    assert_eq!(
        parse(&format!("[{}, \"token\": {{\"token_type\":\"B\",\"expires\":-1}}}}]", head)),
        Err(AuthError::ConfigParseError(DecodeError::Invalid(Field::Expires)))
    );
    assert_eq!(
        parse(&format!("[{}, \"token\": {{\"token_type\":\"B\",\"expires\":1.5}}}}]", head)),
        Err(AuthError::ConfigParseError(DecodeError::Invalid(Field::Expires)))
    );
    assert_eq!(
        parse(&format!("[{}, \"token\": {{\"token_type\":\"B\",\"expires\":1}}}}]", head)),
        Err(AuthError::ConfigParseError(DecodeError::Missing(Field::AccessToken)))
    );
}

#[test]
fn first_bad_record_decides_the_error() {
    let good = ONE_RECORD.trim_start_matches('[').trim_end_matches(']');
    let text = format!("[{}, {{\"provider\": 1}}, {{}}]", good);
    assert_eq!(parse(&text), Err(AuthError::ConfigParseError(DecodeError::Invalid(Field::Provider))));
    let text = format!("[{{}}, {}, {{\"provider\": 1}}]", good);
    assert_eq!(parse(&text), Err(AuthError::ConfigParseError(DecodeError::Missing(Field::Provider))));
}

#[test]
fn copies_of_records_are_the_records() {
    assert_eq!(with_token().clone(), with_token());
    assert_eq!(without_token().clone(), without_token());
}

#[test]
fn document_that_is_no_list_is_refused() {
    let doc: serde_json::Value = serde_json::from_str("{\"provider\": \"p\"}").unwrap();
    assert_eq!(decode_store(&doc), Err(DecodeError::NotAList));
    let doc: serde_json::Value = serde_json::from_str("[[]]").unwrap();
    assert_eq!(decode_store(&doc), Err(DecodeError::Missing(Field::Provider)));
}
