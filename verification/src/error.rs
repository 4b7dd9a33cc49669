//! What can go wrong, and the words in which it is reported.

use vstd::prelude::*;
use vstd::string::StringExecFns;
use serde_json::Value;
use crate::json::read_document;
use crate::schema::{of_text, optional_i32_list, optional_text, required_text, DecodeError, Field};
use crate::schema::{read_optional_i32_list, read_optional_text, read_text};
use crate::views::{option_view, viewed};

verus! {

/// A refusal as the provider worded it. Only the error code is sure to be
/// there: a description or a list of numeric codes that the provider did not
/// send is unknown, not empty.
#[derive(Debug, PartialEq, Eq)]
pub struct ProviderError {
    pub error: String,
    pub error_description: Option<String>,
    pub error_codes: Option<Vec<i32>>,
}

/// A refusal with its texts taken by their characters.
pub struct ProviderErrorView {
    pub error: Seq<char>,
    pub error_description: Option<Seq<char>>,
    pub error_codes: Option<Seq<i32>>,
}

impl View for ProviderError {
    type V = ProviderErrorView;

    open spec fn view(&self) -> ProviderErrorView {
        ProviderErrorView {
            error: self.error@,
            error_description: option_view(self.error_description),
            error_codes: option_view(self.error_codes),
        }
    }
}

impl Clone for ProviderError {
    fn clone(&self) -> (r: Self)
        ensures
            r@ == self@,
    {
        let error_description = match &self.error_description {
            Some(d) => Some(d.clone()),
            None => None,
        };
        let error_codes = match &self.error_codes {
            Some(c) => Some(c.clone()),
            None => None,
        };
        ProviderError { error: self.error.clone(), error_description, error_codes }
    }
}

/// The refusal that a document holds: `error` must be there, the other two
/// members may be missing. The first member that fails decides the error.
pub open spec fn provider_error_of(doc: Value) -> Result<ProviderErrorView, DecodeError> {
    match required_text(doc, Field::Error) {
        Err(e) => Err(e),
        Ok(error) => match optional_text(doc, Field::ErrorDescription) {
            Err(e) => Err(e),
            Ok(error_description) => match optional_i32_list(doc, Field::ErrorCodes) {
                Err(e) => Err(e),
                Ok(error_codes) => Ok(ProviderErrorView { error, error_description, error_codes }),
            },
        },
    }
}

impl ProviderError {
    /// Reads the value that a document holds.
    pub fn decode(doc: &Value) -> (r: Result<Self, DecodeError>)
        ensures
            viewed(r) == provider_error_of(*doc),
    {
        let error = read_text(doc, Field::Error)?;
        let error_description = read_optional_text(doc, Field::ErrorDescription)?;
        let error_codes = read_optional_i32_list(doc, Field::ErrorCodes)?;
        Ok(ProviderError { error, error_description, error_codes })
    }

    /// Reads the value from the text of a JSON document.
    pub fn from_json(text: &str) -> (r: Result<Self, DecodeError>)
        ensures
            viewed(r) == of_text(text@, |doc: Value| provider_error_of(doc)),
    {
        match read_document(text) {
            Some(doc) => Self::decode(&doc),
            None => Err(DecodeError::Syntax),
        }
    }

    /// The provider's own words: the error code, then the description where
    /// one was sent.
    pub fn message(&self) -> (r: String)
        ensures
            r@ == provider_message(self@),
    {
        let mut r = self.error.clone();
        match &self.error_description {
            Some(d) => {
                r.append(": ");
                r.append(d.as_str());
            },
            None => {},
        }
        r
    }
}

/// The provider's own words: the error code, then the description where one
/// was sent.
pub open spec fn provider_message(e: ProviderErrorView) -> Seq<char> {
    match e.error_description {
        Some(d) => e.error + ": "@ + d,
        None => e.error,
    }
}

/// The ways in which an operation on an account can fail.
#[derive(Debug, PartialEq, Eq)]
pub enum AuthError {
    /// The configuration file cannot be read or written. The crate touches no
    /// file: this kind is for the caller that does.
    ConfigIoError,
    /// The configuration file does not hold a list of account records.
    ConfigParseError(DecodeError),
    /// The provider refused the request and said why.
    ProviderRejected(ProviderError),
    /// The operation needs a token and the record has none.
    NotAuthorized,
    /// The provider did not accept the refresh token. Its reason is given where
    /// its answer could be read.
    RefreshFailed(Option<ProviderError>),
    /// No record carries the account name asked for.
    AccountNotFound,
    /// The operation asked for is none of those on offer.
    UnknownCommand,
    /// The provider's answer is not the document that the protocol asks for.
    ResponseParseError(DecodeError),
    /// The token's lifetime, counted from the time of the answer, ends before
    /// the epoch or beyond what a timestamp can hold.
    TimeOutOfRange,
    /// Polling was given up after as many refusals as the caller allows.
    PollLimitReached,
}

/// An error with its texts taken by their characters.
pub enum AuthErrorView {
    ConfigIoError,
    ConfigParseError(DecodeError),
    ProviderRejected(ProviderErrorView),
    NotAuthorized,
    RefreshFailed(Option<ProviderErrorView>),
    AccountNotFound,
    UnknownCommand,
    ResponseParseError(DecodeError),
    TimeOutOfRange,
    PollLimitReached,
}

impl View for AuthError {
    type V = AuthErrorView;

    open spec fn view(&self) -> AuthErrorView {
        match self {
            AuthError::ConfigIoError => AuthErrorView::ConfigIoError,
            AuthError::ConfigParseError(d) => AuthErrorView::ConfigParseError(*d),
            AuthError::ProviderRejected(p) => AuthErrorView::ProviderRejected(p@),
            AuthError::NotAuthorized => AuthErrorView::NotAuthorized,
            AuthError::RefreshFailed(p) => AuthErrorView::RefreshFailed(option_view(*p)),
            AuthError::AccountNotFound => AuthErrorView::AccountNotFound,
            AuthError::UnknownCommand => AuthErrorView::UnknownCommand,
            AuthError::ResponseParseError(d) => AuthErrorView::ResponseParseError(*d),
            AuthError::TimeOutOfRange => AuthErrorView::TimeOutOfRange,
            AuthError::PollLimitReached => AuthErrorView::PollLimitReached,
        }
    }
}

/// The report of an error: what went wrong, followed by the provider's or the
/// reader's own words where there are any.
pub open spec fn auth_message(e: AuthErrorView) -> Seq<char> {
    match e {
        AuthErrorView::ConfigIoError => "Failed to open file"@,
        AuthErrorView::ConfigParseError(d) => "Failure to parse configuration file: "@
            + d.message_spec(),
        AuthErrorView::ProviderRejected(p) =>
            "Request error, please check your OAuth2 configuration: "@ + provider_message(p),
        AuthErrorView::NotAuthorized =>
            "The token was not obtained. You need to run the `gen-token` command first to get the token!"@,
        AuthErrorView::RefreshFailed(Some(p)) => "Token endpoint call failed: "@
            + provider_message(p),
        AuthErrorView::RefreshFailed(None) => "Token endpoint call failed!"@,
        AuthErrorView::AccountNotFound =>
            "No OAuth2 account_name found. Please check the parameters!"@,
        AuthErrorView::UnknownCommand =>
            "Error: The command does not exist. Please check the parameters!"@,
        AuthErrorView::ResponseParseError(d) =>
            "Failed to parse the data returned from the provider: "@ + d.message_spec(),
        AuthErrorView::TimeOutOfRange => "Time calculation overflow"@,
        AuthErrorView::PollLimitReached => "The device was not authorized in time"@,
    }
}

impl AuthError {
    /// The report of the error.
    pub fn message(&self) -> (r: String)
        ensures
            r@ == auth_message(self@),
    {
        match self {
            AuthError::ConfigIoError => "Failed to open file".to_owned(),
            AuthError::ConfigParseError(d) => {
                let mut r = "Failure to parse configuration file: ".to_owned();
                r.append(d.message().as_str());
                r
            },
            AuthError::ProviderRejected(p) => {
                let mut r = "Request error, please check your OAuth2 configuration: ".to_owned();
                r.append(p.message().as_str());
                r
            },
            AuthError::NotAuthorized =>
                "The token was not obtained. You need to run the `gen-token` command first to get the token!".to_owned(),
            AuthError::RefreshFailed(Some(p)) => {
                let mut r = "Token endpoint call failed: ".to_owned();
                r.append(p.message().as_str());
                r
            },
            AuthError::RefreshFailed(None) => "Token endpoint call failed!".to_owned(),
            AuthError::AccountNotFound =>
                "No OAuth2 account_name found. Please check the parameters!".to_owned(),
            AuthError::UnknownCommand =>
                "Error: The command does not exist. Please check the parameters!".to_owned(),
            AuthError::ResponseParseError(d) => {
                let mut r = "Failed to parse the data returned from the provider: ".to_owned();
                r.append(d.message().as_str());
                r
            },
            AuthError::TimeOutOfRange => "Time calculation overflow".to_owned(),
            AuthError::PollLimitReached => "The device was not authorized in time".to_owned(),
        }
    }
}

} // verus!
