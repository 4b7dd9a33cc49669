//! Keeping the token of an authorized record valid.
//!
//! A token is renewed once the time at which it ends has come. As with the
//! grant itself, the crate sends nothing: `plan` says whether a request is due
//! and which, and `complete` takes the provider's answer.

use vstd::prelude::*;
use serde_json::Value;
use crate::config::{ConfigView, Oauth2Config, TokenView};
use crate::device::{fields_view, polled_token_of, read_poll, with_token, FormPost, FormPostView};
use crate::error::{provider_error_of, AuthError, AuthErrorView, ProviderError, ProviderErrorView};
use crate::json::{json_document, read_document};
use crate::views::{option_deref, option_view, outcome_view, result_view};

verus! {

/// The request that trades a refresh token for a new token, sent to the
/// record's token endpoint.
pub open spec fn refresh_request_of(record: ConfigView, refresh_token: Seq<char>) -> FormPostView {
    FormPostView {
        url: record.token_endpoint,
        fields: seq![
            ("grant_type"@, "refresh_token"@),
            ("client_id"@, record.app_id),
            ("refresh_token"@, refresh_token),
        ],
    }
}

/// Builds the request that trades a refresh token for a new token.
pub fn refresh_request(record: &Oauth2Config, refresh_token: &str) -> (r: FormPost)
    ensures
        r@ == refresh_request_of(record@, refresh_token@),
{
    let mut fields: Vec<(String, String)> = Vec::new();
    fields.push(("grant_type".to_owned(), "refresh_token".to_owned()));
    fields.push(("client_id".to_owned(), record.app_id.clone()));
    fields.push(("refresh_token".to_owned(), refresh_token.to_owned()));
    assert(fields_view(fields@) =~= refresh_request_of(record@, refresh_token@).fields);
    FormPost { url: record.token_endpoint.clone(), fields }
}

/// A token has expired once the clock has reached the time at which it ends.
pub open spec fn expired(token: TokenView, now: u64) -> bool {
    token.expires <= now
}

/// What has to be done to have a valid token.
#[derive(Debug, PartialEq, Eq)]
pub enum RefreshPlan {
    /// Nothing: the token has not expired.
    UpToDate,
    /// Post `request` and hand the answer to `complete`.
    Renew { request: FormPost },
}

/// A plan with its texts taken by their characters.
pub enum RefreshPlanView {
    UpToDate,
    Renew { request: FormPostView },
}

impl View for RefreshPlan {
    type V = RefreshPlanView;

    open spec fn view(&self) -> RefreshPlanView {
        match self {
            RefreshPlan::UpToDate => RefreshPlanView::UpToDate,
            RefreshPlan::Renew { request } => RefreshPlanView::Renew { request: request@ },
        }
    }
}

/// What is due for a record at time `now`: an error where the record was never
/// authorized, nothing while its token is valid, and a refresh request once it
/// has expired.
pub open spec fn plan_of(record: ConfigView, now: u64) -> Result<RefreshPlanView, AuthErrorView> {
    match record.token {
        None => Err(AuthErrorView::NotAuthorized),
        Some(token) => if expired(token, now) {
            Ok(RefreshPlanView::Renew { request: refresh_request_of(record, token.refresh_token) })
        } else {
            Ok(RefreshPlanView::UpToDate)
        },
    }
}

/// Says what is due for the record at time `now`. The record is only read.
pub fn plan(record: &Oauth2Config, now: u64) -> (r: Result<RefreshPlan, AuthError>)
    ensures
        result_view(r) == plan_of(record@, now),
{
    match &record.token {
        None => Err(AuthError::NotAuthorized),
        Some(token) => if token.expires <= now {
            Ok(RefreshPlan::Renew { request: refresh_request(record, token.refresh_token.as_str()) })
        } else {
            Ok(RefreshPlan::UpToDate)
        },
    }
}

/// The provider's reason for a refusal, where its answer can be read as one.
pub open spec fn reason_of(doc: Option<Value>) -> Option<ProviderErrorView> {
    match doc {
        Some(d) => match provider_error_of(d) {
            Ok(p) => Some(p),
            Err(_) => None,
        },
        None => None,
    }
}

/// The token that an answer to a refresh request brings, or why it brings
/// none.
pub open spec fn renewed_token_of(record: ConfigView, success: bool, doc: Option<Value>, now: u64) -> Result<
    TokenView,
    AuthErrorView,
> {
    if record.token is None {
        Err(AuthErrorView::NotAuthorized)
    } else if success {
        polled_token_of(true, doc, now)
    } else {
        Err(AuthErrorView::RefreshFailed(reason_of(doc)))
    }
}

/// The record after an answer to a refresh request: with the new token where
/// the answer brought one, as it was in every other case.
pub open spec fn after_refresh(record: ConfigView, success: bool, doc: Option<Value>, now: u64) -> ConfigView {
    match renewed_token_of(record, success, doc, now) {
        Ok(token) => with_token(record, Some(token)),
        Err(_) => record,
    }
}

/// The outcome of an answer to a refresh request, without the token.
pub open spec fn refresh_outcome(record: ConfigView, success: bool, doc: Option<Value>, now: u64) -> Result<
    (),
    AuthErrorView,
> {
    match renewed_token_of(record, success, doc, now) {
        Ok(_) => Ok(()),
        Err(e) => Err(e),
    }
}

fn read_reason(doc: Option<&Value>) -> (r: Option<ProviderError>)
    ensures
        option_view(r) == reason_of(option_deref(doc)),
{
    match doc {
        Some(d) => match ProviderError::decode(d) {
            Ok(p) => Some(p),
            Err(_) => None,
        },
        None => None,
    }
}

/// Takes the answer to a refresh request whose body has been read as a
/// document, or could not be.
pub fn complete_document(
    record: &mut Oauth2Config,
    success: bool,
    doc: Option<&Value>,
    now: u64,
) -> (r: Result<(), AuthError>)
    ensures
        outcome_view(r) == refresh_outcome(old(record)@, success, option_deref(doc), now),
        final(record)@ == after_refresh(old(record)@, success, option_deref(doc), now),
{
    if record.token.is_none() {
        return Err(AuthError::NotAuthorized);
    }
    if !success {
        return Err(AuthError::RefreshFailed(read_reason(doc)));
    }
    let token = read_poll(true, doc, now)?;
    record.token = Some(token);
    Ok(())
}

/// Takes the answer to a refresh request as it came: whether its status was
/// one of success, its body, and the time at which it arrived.
pub fn complete(record: &mut Oauth2Config, success: bool, body: &str, now: u64) -> (r: Result<
    (),
    AuthError,
>)
    ensures
        outcome_view(r) == refresh_outcome(old(record)@, success, json_document(body@), now),
        final(record)@ == after_refresh(old(record)@, success, json_document(body@), now),
{
    let parsed = read_document(body);
    let doc = match &parsed {
        Some(d) => Some(d),
        None => None,
    };
    complete_document(record, success, doc, now)
}

/// While the token has not expired there is nothing to do: no request is due.
pub proof fn lemma_valid_token_needs_no_request(record: ConfigView, now: u64)
    requires
        record.token is Some,
        record.token.unwrap().expires > now,
    ensures
        plan_of(record, now) == Ok::<RefreshPlanView, AuthErrorView>(RefreshPlanView::UpToDate),
{
}

/// A record that was never authorized cannot be refreshed: no request is due,
/// and an answer handed in all the same leaves the record as it was.
pub proof fn lemma_refresh_needs_a_token(
    record: ConfigView,
    success: bool,
    doc: Option<Value>,
    now: u64,
)
    requires
        record.token is None,
    ensures
        plan_of(record, now) == Err::<RefreshPlanView, AuthErrorView>(AuthErrorView::NotAuthorized),
        refresh_outcome(record, success, doc, now) == Err::<(), AuthErrorView>(
            AuthErrorView::NotAuthorized,
        ),
        after_refresh(record, success, doc, now) == record,
{
}

/// A refresh that the provider refuses leaves the record as it was, expired
/// token included.
pub proof fn lemma_refused_refresh_keeps_record(record: ConfigView, doc: Option<Value>, now: u64)
    ensures
        after_refresh(record, false, doc, now) == record,
        refresh_outcome(record, false, doc, now) is Err,
{
}

} // verus!
