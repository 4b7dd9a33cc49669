//! The answers of a provider that follows the device authorization grant as
//! the standard words it.

use vstd::prelude::*;
use serde_json::Value;
use crate::json::read_document;
use crate::clock::{shifted, timestamp_plus_offset};
use crate::config::{Oauth2Token, TokenView};
use crate::error::{ProviderError, ProviderErrorView};
use crate::schema::{lookup, of_text, required_i32, required_text, DecodeError, Field};
use crate::views::{option_view, viewed};
use crate::schema::{find, read_i32, read_text};

verus! {

/// What the device authorization endpoint answers to an accepted request.
///
/// Providers disagree on the name of the address that the user has to visit:
/// it is read from `verification_uri` or from `verification_url`.
#[allow(non_camel_case_types)]
#[derive(Debug, PartialEq, Eq)]
pub struct deviceCodeEndpointResponse {
    pub user_code: String,
    pub device_code: String,
    pub verification_uri: String,
}

/// A device code answer with its texts taken by their characters.
pub struct DeviceCodeView {
    pub user_code: Seq<char>,
    pub device_code: Seq<char>,
    pub verification_uri: Seq<char>,
}

impl View for deviceCodeEndpointResponse {
    type V = DeviceCodeView;

    open spec fn view(&self) -> DeviceCodeView {
        DeviceCodeView {
            user_code: self.user_code@,
            device_code: self.device_code@,
            verification_uri: self.verification_uri@,
        }
    }
}

impl Clone for deviceCodeEndpointResponse {
    fn clone(&self) -> (r: Self)
        ensures
            r == *self,
    {
        deviceCodeEndpointResponse {
            user_code: self.user_code.clone(),
            device_code: self.device_code.clone(),
            verification_uri: self.verification_uri.clone(),
        }
    }
}

/// The address to visit, under either of its two names. A document that gives
/// both names is refused.
pub open spec fn verification_uri_of(doc: Value) -> Result<Seq<char>, DecodeError> {
    if lookup(doc, Field::VerificationUri) is Some {
        if lookup(doc, Field::VerificationUrl) is Some {
            Err(DecodeError::Ambiguous(Field::VerificationUri))
        } else {
            required_text(doc, Field::VerificationUri)
        }
    } else if lookup(doc, Field::VerificationUrl) is Some {
        required_text(doc, Field::VerificationUrl)
    } else {
        Err(DecodeError::Missing(Field::VerificationUri))
    }
}

/// The device code answer that a document holds. Members are read in the order
/// of the struct's fields, and the first that fails decides the error.
pub open spec fn device_code_of(doc: Value) -> Result<DeviceCodeView, DecodeError> {
    match required_text(doc, Field::UserCode) {
        Err(e) => Err(e),
        Ok(user_code) => match required_text(doc, Field::DeviceCode) {
            Err(e) => Err(e),
            Ok(device_code) => match verification_uri_of(doc) {
                Err(e) => Err(e),
                Ok(verification_uri) => Ok(
                    DeviceCodeView { user_code, device_code, verification_uri },
                ),
            },
        },
    }
}

/// Reads the address to visit, under either of its two names.
pub fn read_verification_uri(doc: &Value) -> (r: Result<String, DecodeError>)
    ensures
        viewed(r) == verification_uri_of(*doc),
{
    let under_uri = find(doc, Field::VerificationUri).is_some();
    let under_url = find(doc, Field::VerificationUrl).is_some();
    if under_uri {
        if under_url {
            Err(DecodeError::Ambiguous(Field::VerificationUri))
        } else {
            read_text(doc, Field::VerificationUri)
        }
    } else if under_url {
        read_text(doc, Field::VerificationUrl)
    } else {
        Err(DecodeError::Missing(Field::VerificationUri))
    }
}

impl deviceCodeEndpointResponse {
    /// Reads the value that a document holds.
    pub fn decode(doc: &Value) -> (r: Result<Self, DecodeError>)
        ensures
            viewed(r) == device_code_of(*doc),
    {
        let user_code = read_text(doc, Field::UserCode)?;
        let device_code = read_text(doc, Field::DeviceCode)?;
        let verification_uri = read_verification_uri(doc)?;
        Ok(deviceCodeEndpointResponse { user_code, device_code, verification_uri })
    }

    /// Reads the value from the text of a JSON document.
    pub fn from_json(text: &str) -> (r: Result<Self, DecodeError>)
        ensures
            viewed(r) == of_text(text@, |doc: Value| device_code_of(doc)),
    {
        match read_document(text) {
            Some(doc) => Self::decode(&doc),
            None => Err(DecodeError::Syntax),
        }
    }
}

/// What the token endpoint answers once the user has approved the device, or
/// to an accepted refresh.
#[allow(non_camel_case_types)]
#[derive(Debug, PartialEq, Eq)]
pub struct tokenEndpointResponse {
    pub token_type: String,
    pub expires_in: i32,
    pub access_token: String,
    pub refresh_token: String,
}

/// A token answer with its texts taken by their characters.
pub struct TokenAnswerView {
    pub token_type: Seq<char>,
    pub expires_in: i32,
    pub access_token: Seq<char>,
    pub refresh_token: Seq<char>,
}

impl View for tokenEndpointResponse {
    type V = TokenAnswerView;

    open spec fn view(&self) -> TokenAnswerView {
        TokenAnswerView {
            token_type: self.token_type@,
            expires_in: self.expires_in,
            access_token: self.access_token@,
            refresh_token: self.refresh_token@,
        }
    }
}

impl Clone for tokenEndpointResponse {
    fn clone(&self) -> (r: Self)
        ensures
            r == *self,
    {
        tokenEndpointResponse {
            token_type: self.token_type.clone(),
            expires_in: self.expires_in,
            access_token: self.access_token.clone(),
            refresh_token: self.refresh_token.clone(),
        }
    }
}

/// The token answer that a document holds. Members are read in the order of
/// the struct's fields, and the first that fails decides the error.
pub open spec fn token_answer_of(doc: Value) -> Result<TokenAnswerView, DecodeError> {
    match required_text(doc, Field::TokenType) {
        Err(e) => Err(e),
        Ok(token_type) => match required_i32(doc, Field::ExpiresIn) {
            Err(e) => Err(e),
            Ok(expires_in) => match required_text(doc, Field::AccessToken) {
                Err(e) => Err(e),
                Ok(access_token) => match required_text(doc, Field::RefreshToken) {
                    Err(e) => Err(e),
                    Ok(refresh_token) => Ok(
                        TokenAnswerView { token_type, expires_in, access_token, refresh_token },
                    ),
                },
            },
        },
    }
}

impl tokenEndpointResponse {
    /// Reads the value that a document holds.
    pub fn decode(doc: &Value) -> (r: Result<Self, DecodeError>)
        ensures
            viewed(r) == token_answer_of(*doc),
    {
        let token_type = read_text(doc, Field::TokenType)?;
        let expires_in = read_i32(doc, Field::ExpiresIn)?;
        let access_token = read_text(doc, Field::AccessToken)?;
        let refresh_token = read_text(doc, Field::RefreshToken)?;
        Ok(tokenEndpointResponse { token_type, expires_in, access_token, refresh_token })
    }

    /// Reads the value from the text of a JSON document.
    pub fn from_json(text: &str) -> (r: Result<Self, DecodeError>)
        ensures
            viewed(r) == of_text(text@, |doc: Value| token_answer_of(doc)),
    {
        match read_document(text) {
            Some(doc) => Self::decode(&doc),
            None => Err(DecodeError::Syntax),
        }
    }
}

/// The token to keep for an answer received at `now`: the answer's members,
/// with the lifetime turned into the point in time at which it ends. There is
/// none where that point cannot be told in seconds since the epoch.
pub open spec fn cached_token_of(answer: TokenAnswerView, now: u64) -> Option<TokenView> {
    match shifted(now, answer.expires_in as i64) {
        Some(expires) => Some(
            TokenView {
                token_type: answer.token_type,
                expires,
                access_token: answer.access_token,
                refresh_token: answer.refresh_token,
            },
        ),
        None => None,
    }
}

impl tokenEndpointResponse {
    /// Turns the answer, which arrived at `now`, into the token to keep.
    pub fn into_token(self, now: u64) -> (r: Option<Oauth2Token>)
        ensures
            option_view(r) == cached_token_of(self@, now),
    {
        match timestamp_plus_offset(now, self.expires_in as i64) {
            Some(expires) => Some(
                Oauth2Token {
                    token_type: self.token_type,
                    expires,
                    access_token: self.access_token,
                    refresh_token: self.refresh_token,
                },
            ),
            None => None,
        }
    }
}

/// What either endpoint answers to a request that it refuses.
#[derive(Debug, PartialEq, Eq)]
pub struct Error {
    pub error: String,
    pub error_description: String,
}

/// A refusal with its texts taken by their characters.
pub struct ErrorView {
    pub error: Seq<char>,
    pub error_description: Seq<char>,
}

impl View for Error {
    type V = ErrorView;

    open spec fn view(&self) -> ErrorView {
        ErrorView { error: self.error@, error_description: self.error_description@ }
    }
}

impl Clone for Error {
    fn clone(&self) -> (r: Self)
        ensures
            r == *self,
    {
        Error { error: self.error.clone(), error_description: self.error_description.clone() }
    }
}

/// The refusal that a document holds. Members are read in the order of the
/// struct's fields, and the first that fails decides the error.
pub open spec fn error_of(doc: Value) -> Result<ErrorView, DecodeError> {
    match required_text(doc, Field::Error) {
        Err(e) => Err(e),
        Ok(error) => match required_text(doc, Field::ErrorDescription) {
            Err(e) => Err(e),
            Ok(error_description) => Ok(ErrorView { error, error_description }),
        },
    }
}

impl Error {
    /// Reads the value that a document holds.
    pub fn decode(doc: &Value) -> (r: Result<Self, DecodeError>)
        ensures
            viewed(r) == error_of(*doc),
    {
        let error = read_text(doc, Field::Error)?;
        let error_description = read_text(doc, Field::ErrorDescription)?;
        Ok(Error { error, error_description })
    }

    /// Reads the value from the text of a JSON document.
    pub fn from_json(text: &str) -> (r: Result<Self, DecodeError>)
        ensures
            viewed(r) == of_text(text@, |doc: Value| error_of(doc)),
    {
        match read_document(text) {
            Some(doc) => Self::decode(&doc),
            None => Err(DecodeError::Syntax),
        }
    }
}

/// A refusal of which the description is known and the numeric codes are not.
pub open spec fn described_refusal(refusal: ErrorView) -> ProviderErrorView {
    ProviderErrorView {
        error: refusal.error,
        error_description: Some(refusal.error_description),
        error_codes: None,
    }
}

impl Error {
    /// The same refusal, as the operations report it.
    pub fn into_provider_error(self) -> (r: ProviderError)
        ensures
            r@ == described_refusal(self@),
    {
        ProviderError {
            error: self.error,
            error_description: Some(self.error_description),
            error_codes: None,
        }
    }
}

/// A provider may name the address to visit `verification_uri` or
/// `verification_url`: two documents that agree on the codes and give the same
/// address, one under the first name only and one under the second name only,
/// read as the same answer.
pub proof fn lemma_verification_address_under_either_name(with_uri: Value, with_url: Value)
    requires
        required_text(with_uri, Field::UserCode) is Ok,
        required_text(with_uri, Field::DeviceCode) is Ok,
        required_text(with_url, Field::UserCode) == required_text(with_uri, Field::UserCode),
        required_text(with_url, Field::DeviceCode) == required_text(with_uri, Field::DeviceCode),
        required_text(with_uri, Field::VerificationUri) is Ok,
        lookup(with_uri, Field::VerificationUrl) is None,
        required_text(with_url, Field::VerificationUrl) == required_text(
            with_uri,
            Field::VerificationUri,
        ),
        lookup(with_url, Field::VerificationUri) is None,
    ensures
        device_code_of(with_uri) is Ok,
        device_code_of(with_url) == device_code_of(with_uri),
        device_code_of(with_uri).unwrap().verification_uri == required_text(
            with_uri,
            Field::VerificationUri,
        ).unwrap(),
{
}

} // verus!
