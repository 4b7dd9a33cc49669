//! The answers of the Microsoft identity platform, which adds members of its
//! own to the standard ones and names the address to visit `verification_uri`.

use vstd::prelude::*;
use serde_json::Value;
use crate::json::read_document;
use crate::schema::{of_text, required_i32, required_i32_list, required_text, DecodeError, Field};
use crate::error::{provider_error_of, ProviderError, ProviderErrorView};
use crate::oauth;
use crate::schema::lookup;
use crate::views::viewed;
use crate::schema::{read_i32, read_i32_list, read_text};

verus! {

/// What the device authorization endpoint answers to an accepted request.
#[allow(non_camel_case_types)]
#[derive(Debug, PartialEq, Eq)]
pub struct deviceCodeEndpointResponse {
    pub user_code: String,
    pub device_code: String,
    pub verification_uri: String,
}

/// A device code answer with its texts taken by their characters.
pub struct DeviceCodeView {
    pub user_code: Seq<char>,
    pub device_code: Seq<char>,
    pub verification_uri: Seq<char>,
}

impl View for deviceCodeEndpointResponse {
    type V = DeviceCodeView;

    open spec fn view(&self) -> DeviceCodeView {
        DeviceCodeView {
            user_code: self.user_code@,
            device_code: self.device_code@,
            verification_uri: self.verification_uri@,
        }
    }
}

impl Clone for deviceCodeEndpointResponse {
    fn clone(&self) -> (r: Self)
        ensures
            r == *self,
    {
        deviceCodeEndpointResponse {
            user_code: self.user_code.clone(),
            device_code: self.device_code.clone(),
            verification_uri: self.verification_uri.clone(),
        }
    }
}

/// The device code answer that a document holds. Members are read in the order
/// of the struct's fields, and the first that fails decides the error.
pub open spec fn device_code_of(doc: Value) -> Result<DeviceCodeView, DecodeError> {
    match required_text(doc, Field::UserCode) {
        Err(e) => Err(e),
        Ok(user_code) => match required_text(doc, Field::DeviceCode) {
            Err(e) => Err(e),
            Ok(device_code) => match required_text(doc, Field::VerificationUri) {
                Err(e) => Err(e),
                Ok(verification_uri) => Ok(
                    DeviceCodeView { user_code, device_code, verification_uri },
                ),
            },
        },
    }
}

impl deviceCodeEndpointResponse {
    /// Reads the value that a document holds.
    pub fn decode(doc: &Value) -> (r: Result<Self, DecodeError>)
        ensures
            viewed(r) == device_code_of(*doc),
    {
        let user_code = read_text(doc, Field::UserCode)?;
        let device_code = read_text(doc, Field::DeviceCode)?;
        let verification_uri = read_text(doc, Field::VerificationUri)?;
        Ok(deviceCodeEndpointResponse { user_code, device_code, verification_uri })
    }

    /// Reads the value from the text of a JSON document.
    pub fn from_json(text: &str) -> (r: Result<Self, DecodeError>)
        ensures
            viewed(r) == of_text(text@, |doc: Value| device_code_of(doc)),
    {
        match read_document(text) {
            Some(doc) => Self::decode(&doc),
            None => Err(DecodeError::Syntax),
        }
    }
}

/// What either endpoint answers to a request that it refuses.
#[derive(Debug, PartialEq, Eq)]
pub struct Error {
    pub error: String,
    pub error_description: String,
    pub error_codes: Vec<i32>,
}

/// A refusal with its texts taken by their characters.
pub struct ErrorView {
    pub error: Seq<char>,
    pub error_description: Seq<char>,
    pub error_codes: Seq<i32>,
}

impl View for Error {
    type V = ErrorView;

    open spec fn view(&self) -> ErrorView {
        ErrorView {
            error: self.error@,
            error_description: self.error_description@,
            error_codes: self.error_codes@,
        }
    }
}

impl Clone for Error {
    fn clone(&self) -> (r: Self)
        ensures
            r@ == self@,
    {
        Error {
            error: self.error.clone(),
            error_description: self.error_description.clone(),
            error_codes: self.error_codes.clone(),
        }
    }
}

/// The refusal that a document holds. Members are read in the order of the
/// struct's fields, and the first that fails decides the error.
pub open spec fn error_of(doc: Value) -> Result<ErrorView, DecodeError> {
    match required_text(doc, Field::Error) {
        Err(e) => Err(e),
        Ok(error) => match required_text(doc, Field::ErrorDescription) {
            Err(e) => Err(e),
            Ok(error_description) => match required_i32_list(doc, Field::ErrorCodes) {
                Err(e) => Err(e),
                Ok(error_codes) => Ok(ErrorView { error, error_description, error_codes }),
            },
        },
    }
}

impl Error {
    /// Reads the value that a document holds.
    pub fn decode(doc: &Value) -> (r: Result<Self, DecodeError>)
        ensures
            viewed(r) == error_of(*doc),
    {
        let error = read_text(doc, Field::Error)?;
        let error_description = read_text(doc, Field::ErrorDescription)?;
        let error_codes = read_i32_list(doc, Field::ErrorCodes)?;
        Ok(Error { error, error_description, error_codes })
    }

    /// Reads the value from the text of a JSON document.
    pub fn from_json(text: &str) -> (r: Result<Self, DecodeError>)
        ensures
            viewed(r) == of_text(text@, |doc: Value| error_of(doc)),
    {
        match read_document(text) {
            Some(doc) => Self::decode(&doc),
            None => Err(DecodeError::Syntax),
        }
    }
}

/// What the token endpoint answers once the user has approved the device, or
/// to an accepted refresh.
#[allow(non_camel_case_types)]
#[derive(Debug, PartialEq, Eq)]
pub struct tokenEndpointResponse {
    pub token_type: String,
    pub expires_in: i32,
    pub ext_expires_in: i32,
    pub access_token: String,
    pub refresh_token: String,
}

/// A token answer with its texts taken by their characters.
pub struct TokenAnswerView {
    pub token_type: Seq<char>,
    pub expires_in: i32,
    pub ext_expires_in: i32,
    pub access_token: Seq<char>,
    pub refresh_token: Seq<char>,
}

impl View for tokenEndpointResponse {
    type V = TokenAnswerView;

    open spec fn view(&self) -> TokenAnswerView {
        TokenAnswerView {
            token_type: self.token_type@,
            expires_in: self.expires_in,
            ext_expires_in: self.ext_expires_in,
            access_token: self.access_token@,
            refresh_token: self.refresh_token@,
        }
    }
}

impl Clone for tokenEndpointResponse {
    fn clone(&self) -> (r: Self)
        ensures
            r == *self,
    {
        tokenEndpointResponse {
            token_type: self.token_type.clone(),
            expires_in: self.expires_in,
            ext_expires_in: self.ext_expires_in,
            access_token: self.access_token.clone(),
            refresh_token: self.refresh_token.clone(),
        }
    }
}

/// The token answer that a document holds. Members are read in the order of
/// the struct's fields, and the first that fails decides the error.
pub open spec fn token_answer_of(doc: Value) -> Result<TokenAnswerView, DecodeError> {
    match required_text(doc, Field::TokenType) {
        Err(e) => Err(e),
        Ok(token_type) => match required_i32(doc, Field::ExpiresIn) {
            Err(e) => Err(e),
            Ok(expires_in) => match required_i32(doc, Field::ExtExpiresIn) {
                Err(e) => Err(e),
                Ok(ext_expires_in) => match required_text(doc, Field::AccessToken) {
                    Err(e) => Err(e),
                    Ok(access_token) => match required_text(doc, Field::RefreshToken) {
                        Err(e) => Err(e),
                        Ok(refresh_token) => Ok(
                            TokenAnswerView {
                                token_type,
                                expires_in,
                                ext_expires_in,
                                access_token,
                                refresh_token,
                            },
                        ),
                    },
                },
            },
        },
    }
}

impl tokenEndpointResponse {
    /// Reads the value that a document holds.
    pub fn decode(doc: &Value) -> (r: Result<Self, DecodeError>)
        ensures
            viewed(r) == token_answer_of(*doc),
    {
        let token_type = read_text(doc, Field::TokenType)?;
        let expires_in = read_i32(doc, Field::ExpiresIn)?;
        let ext_expires_in = read_i32(doc, Field::ExtExpiresIn)?;
        let access_token = read_text(doc, Field::AccessToken)?;
        let refresh_token = read_text(doc, Field::RefreshToken)?;
        Ok(
            tokenEndpointResponse {
                token_type,
                expires_in,
                ext_expires_in,
                access_token,
                refresh_token,
            },
        )
    }

    /// Reads the value from the text of a JSON document.
    pub fn from_json(text: &str) -> (r: Result<Self, DecodeError>)
        ensures
            viewed(r) == of_text(text@, |doc: Value| token_answer_of(doc)),
    {
        match read_document(text) {
            Some(doc) => Self::decode(&doc),
            None => Err(DecodeError::Syntax),
        }
    }
}

/// A device code answer in the standard's terms.
pub open spec fn standard_device_code(answer: DeviceCodeView) -> oauth::DeviceCodeView {
    oauth::DeviceCodeView {
        user_code: answer.user_code,
        device_code: answer.device_code,
        verification_uri: answer.verification_uri,
    }
}

/// A token answer in the standard's terms, which know no extended lifetime.
pub open spec fn standard_token_answer(answer: TokenAnswerView) -> oauth::TokenAnswerView {
    oauth::TokenAnswerView {
        token_type: answer.token_type,
        expires_in: answer.expires_in,
        access_token: answer.access_token,
        refresh_token: answer.refresh_token,
    }
}

/// A refusal with everything known about it.
pub open spec fn known_refusal(refusal: ErrorView) -> ProviderErrorView {
    ProviderErrorView {
        error: refusal.error,
        error_description: Some(refusal.error_description),
        error_codes: Some(refusal.error_codes),
    }
}

impl deviceCodeEndpointResponse {
    /// The same answer in the standard's terms.
    pub fn into_standard(self) -> (r: oauth::deviceCodeEndpointResponse)
        ensures
            r@ == standard_device_code(self@),
    {
        oauth::deviceCodeEndpointResponse {
            user_code: self.user_code,
            device_code: self.device_code,
            verification_uri: self.verification_uri,
        }
    }
}

impl tokenEndpointResponse {
    /// The same answer in the standard's terms.
    pub fn into_standard(self) -> (r: oauth::tokenEndpointResponse)
        ensures
            r@ == standard_token_answer(self@),
    {
        oauth::tokenEndpointResponse {
            token_type: self.token_type,
            expires_in: self.expires_in,
            access_token: self.access_token,
            refresh_token: self.refresh_token,
        }
    }
}

impl Error {
    /// The same refusal, as the operations report it.
    pub fn into_provider_error(self) -> (r: ProviderError)
        ensures
            r@ == known_refusal(self@),
    {
        ProviderError {
            error: self.error,
            error_description: Some(self.error_description),
            error_codes: Some(self.error_codes),
        }
    }
}

/// What reads as an answer of this provider reads as the same answer by the
/// standard, as long as the address to visit is not given a second time under
/// its other name.
pub proof fn lemma_answers_are_standard(doc: Value)
    ensures
        token_answer_of(doc) is Ok ==> oauth::token_answer_of(doc) == Ok::<
            oauth::TokenAnswerView,
            DecodeError,
        >(standard_token_answer(token_answer_of(doc).unwrap())),
        device_code_of(doc) is Ok && lookup(doc, Field::VerificationUrl) is None
            ==> oauth::device_code_of(doc) == Ok::<oauth::DeviceCodeView, DecodeError>(
            standard_device_code(device_code_of(doc).unwrap()),
        ),
        error_of(doc) is Ok ==> provider_error_of(doc) == Ok::<ProviderErrorView, DecodeError>(
            known_refusal(error_of(doc).unwrap()),
        ),
{
}

} // verus!
