//! The device authorization grant: ask for a device code, then ask for the
//! token until the user has approved the device or the provider gives up.
//!
//! The crate sends nothing. It says which request is due and what an answer
//! means; the caller posts the request, waits where a delay is asked for, and
//! hands the answer back.

use vstd::prelude::*;
use serde_json::Value;
use crate::config::{ConfigView, Oauth2Config, Oauth2Token, TokenView};
use crate::error::{provider_error_of, AuthError, AuthErrorView, ProviderError, ProviderErrorView};
use crate::json::{json_document, read_document};
use crate::oauth::{cached_token_of, device_code_of, token_answer_of, DeviceCodeView};
use crate::oauth::lemma_verification_address_under_either_name;
use crate::oauth::{deviceCodeEndpointResponse, tokenEndpointResponse};
use crate::schema::{lookup, required_text, same_text, DecodeError, Field};
use crate::views::{option_deref, option_view, result_view};

verus! {

/// A request to send: a POST to `url` whose body is `fields`, form-encoded in
/// this order.
#[derive(Debug, PartialEq, Eq)]
pub struct FormPost {
    pub url: String,
    pub fields: Vec<(String, String)>,
}

/// A request with its texts taken by their characters.
pub struct FormPostView {
    pub url: Seq<char>,
    pub fields: Seq<(Seq<char>, Seq<char>)>,
}

/// The fields of a form, each as a pair of name and value.
pub open spec fn fields_view(fields: Seq<(String, String)>) -> Seq<(Seq<char>, Seq<char>)> {
    Seq::new(fields.len(), |i: int| (fields[i].0@, fields[i].1@))
}

impl View for FormPost {
    type V = FormPostView;

    open spec fn view(&self) -> FormPostView {
        FormPostView { url: self.url@, fields: fields_view(self.fields@) }
    }
}

/// The seconds to wait between two requests for the token.
pub const POLL_INTERVAL_SECONDS: u64 = 1;

/// The request for a device code: the client's identity and the scopes asked
/// for, sent to the record's device code endpoint.
pub open spec fn device_code_request_of(record: ConfigView) -> FormPostView {
    FormPostView {
        url: record.device_code_endpoint,
        fields: seq![("client_id"@, record.app_id), ("scope"@, record.scopes)],
    }
}

/// The request for the token that belongs to a device code, sent to the
/// record's token endpoint.
pub open spec fn token_request_of(record: ConfigView, device_code: Seq<char>) -> FormPostView {
    FormPostView {
        url: record.token_endpoint,
        fields: seq![
            ("grant_type"@, "urn:ietf:params:oauth:grant-type:device_code"@),
            ("client_id"@, record.app_id),
            ("device_code"@, device_code),
        ],
    }
}

/// Builds the request for a device code.
pub fn device_code_request(record: &Oauth2Config) -> (r: FormPost)
    ensures
        r@ == device_code_request_of(record@),
{
    let mut fields: Vec<(String, String)> = Vec::new();
    fields.push(("client_id".to_owned(), record.app_id.clone()));
    fields.push(("scope".to_owned(), record.scopes.clone()));
    assert(fields_view(fields@) =~= device_code_request_of(record@).fields);
    FormPost { url: record.device_code_endpoint.clone(), fields }
}

/// Builds the request for the token that belongs to a device code.
pub fn token_request(record: &Oauth2Config, device_code: &str) -> (r: FormPost)
    ensures
        r@ == token_request_of(record@, device_code@),
{
    let mut fields: Vec<(String, String)> = Vec::new();
    fields.push(
        ("grant_type".to_owned(), "urn:ietf:params:oauth:grant-type:device_code".to_owned()),
    );
    fields.push(("client_id".to_owned(), record.app_id.clone()));
    fields.push(("device_code".to_owned(), device_code.to_owned()));
    assert(fields_view(fields@) =~= token_request_of(record@, device_code@).fields);
    FormPost { url: record.token_endpoint.clone(), fields }
}

/// How long to go on asking for the token.
///
/// The default asks for ever and takes every refusal as a sign that the user
/// has not approved yet.
#[derive(Clone, Copy, Debug, PartialEq, Eq)]
pub struct PollPolicy {
    /// Give up after this many refusals; `None` never gives up.
    pub max_attempts: Option<u64>,
    /// Give up at the first refusal that does not say to go on waiting.
    pub stop_on_fatal: bool,
}

impl Default for PollPolicy {
    fn default() -> (r: Self)
        ensures
            r == (PollPolicy { max_attempts: None, stop_on_fatal: false }),
    {
        PollPolicy { max_attempts: None, stop_on_fatal: false }
    }
}

/// The refusals with which a provider says to go on waiting.
pub open spec fn says_to_wait(code: Seq<char>) -> bool {
    code == "authorization_pending"@ || code == "slow_down"@
}

/// Whether a refusal says to go on waiting.
pub fn is_waiting(error: &ProviderError) -> (r: bool)
    ensures
        r == says_to_wait(error@.error),
{
    same_text(error.error.as_str(), "authorization_pending") || same_text(
        error.error.as_str(),
        "slow_down",
    )
}

/// What a refused request comes to: the provider's refusal where the answer
/// can be read as one.
pub open spec fn refusal_of(doc: Value) -> AuthErrorView {
    match provider_error_of(doc) {
        Ok(p) => AuthErrorView::ProviderRejected(p),
        Err(e) => AuthErrorView::ResponseParseError(e),
    }
}

/// What the answer to the request for a device code holds. `success` says
/// whether the answer's status was one of success, and `doc` is its body where
/// that is a JSON document.
pub open spec fn session_of(success: bool, doc: Option<Value>) -> Result<
    DeviceCodeView,
    AuthErrorView,
> {
    match doc {
        None => Err(AuthErrorView::ResponseParseError(DecodeError::Syntax)),
        Some(d) => if success {
            match device_code_of(d) {
                Ok(session) => Ok(session),
                Err(e) => Err(AuthErrorView::ResponseParseError(e)),
            }
        } else {
            Err(refusal_of(d))
        },
    }
}

/// What the answer to a request for the token holds, for an answer that
/// arrived at `now`: the token to keep, or why there is none. A refusal is
/// `ProviderRejected`, whether or not it only says to go on waiting.
pub open spec fn polled_token_of(success: bool, doc: Option<Value>, now: u64) -> Result<
    TokenView,
    AuthErrorView,
> {
    match doc {
        None => Err(AuthErrorView::ResponseParseError(DecodeError::Syntax)),
        Some(d) => if success {
            match token_answer_of(d) {
                Ok(answer) => match cached_token_of(answer, now) {
                    Some(token) => Ok(token),
                    None => Err(AuthErrorView::TimeOutOfRange),
                },
                Err(e) => Err(AuthErrorView::ResponseParseError(e)),
            }
        } else {
            Err(refusal_of(d))
        },
    }
}

fn read_refusal(doc: &Value) -> (r: AuthError)
    ensures
        r@ == refusal_of(*doc),
{
    match ProviderError::decode(doc) {
        Ok(p) => AuthError::ProviderRejected(p),
        Err(e) => AuthError::ResponseParseError(e),
    }
}

/// Reads the answer to the request for a device code.
pub fn read_session(success: bool, doc: Option<&Value>) -> (r: Result<
    deviceCodeEndpointResponse,
    AuthError,
>)
    ensures
        result_view(r) == session_of(success, option_deref(doc)),
{
    match doc {
        None => Err(AuthError::ResponseParseError(DecodeError::Syntax)),
        Some(d) => if success {
            match deviceCodeEndpointResponse::decode(d) {
                Ok(session) => Ok(session),
                Err(e) => Err(AuthError::ResponseParseError(e)),
            }
        } else {
            Err(read_refusal(d))
        },
    }
}

/// Reads the answer to a request for the token, which arrived at `now`.
pub fn read_poll(success: bool, doc: Option<&Value>, now: u64) -> (r: Result<Oauth2Token, AuthError>)
    ensures
        result_view(r) == polled_token_of(success, option_deref(doc), now),
{
    match doc {
        None => Err(AuthError::ResponseParseError(DecodeError::Syntax)),
        Some(d) => if success {
            match tokenEndpointResponse::decode(d) {
                Ok(answer) => match answer.into_token(now) {
                    Some(token) => Ok(token),
                    None => Err(AuthError::TimeOutOfRange),
                },
                Err(e) => Err(AuthError::ResponseParseError(e)),
            }
        } else {
            Err(read_refusal(d))
        },
    }
}

/// An accepted request for a device code yields the same session whether the
/// provider names the address to visit `verification_uri` or
/// `verification_url`: the address is found under either name.
pub proof fn lemma_session_under_either_name(with_uri: Value, with_url: Value)
    requires
        required_text(with_uri, Field::UserCode) is Ok,
        required_text(with_uri, Field::DeviceCode) is Ok,
        required_text(with_url, Field::UserCode) == required_text(with_uri, Field::UserCode),
        required_text(with_url, Field::DeviceCode) == required_text(with_uri, Field::DeviceCode),
        required_text(with_uri, Field::VerificationUri) is Ok,
        lookup(with_uri, Field::VerificationUrl) is None,
        required_text(with_url, Field::VerificationUrl) == required_text(
            with_uri,
            Field::VerificationUri,
        ),
        lookup(with_url, Field::VerificationUri) is None,
    ensures
        session_of(true, Some(with_uri)) is Ok,
        session_of(true, Some(with_url)) == session_of(true, Some(with_uri)),
        session_of(true, Some(with_uri)) matches Ok(session) && session.verification_uri
            == required_text(with_uri, Field::VerificationUri).unwrap(),
{
    lemma_verification_address_under_either_name(with_uri, with_url);
}

/// The time at which a token ends is the time at which the answer arrived
/// plus the lifetime that the answer gives; where that time cannot be told in
/// seconds since the epoch, there is no token.
pub proof fn lemma_expiry_is_arrival_plus_lifetime(doc: Value, now: u64)
    requires
        token_answer_of(doc) is Ok,
    ensures
        match polled_token_of(true, Some(doc), now) {
            Ok(token) => token.expires == now + token_answer_of(doc).unwrap().expires_in,
            Err(e) => e == AuthErrorView::TimeOutOfRange && !(0 <= now + token_answer_of(
                doc,
            ).unwrap().expires_in <= u64::MAX),
        },
{
}

/// Where the grant stands.
#[derive(Debug, PartialEq, Eq)]
pub enum FlowState {
    /// The device code has been asked for and not yet answered.
    Requesting,
    /// The user has been given a code; the token is being asked for. `attempts`
    /// counts the refusals so far and `last_error` is the latest of them.
    Pending { session: deviceCodeEndpointResponse, attempts: u64, last_error: Option<ProviderError> },
    /// The token has arrived and stands in the record.
    Authorized,
    /// The grant has ended without a token.
    Failed { error: AuthError },
}

/// A state with its texts taken by their characters.
pub enum FlowStateView {
    Requesting,
    Pending { session: DeviceCodeView, attempts: u64, last_error: Option<ProviderErrorView> },
    Authorized,
    Failed { error: AuthErrorView },
}

impl View for FlowState {
    type V = FlowStateView;

    open spec fn view(&self) -> FlowStateView {
        match self {
            FlowState::Requesting => FlowStateView::Requesting,
            FlowState::Pending { session, attempts, last_error } => FlowStateView::Pending {
                session: session@,
                attempts: *attempts,
                last_error: option_view(*last_error),
            },
            FlowState::Authorized => FlowStateView::Authorized,
            FlowState::Failed { error } => FlowStateView::Failed { error: error@ },
        }
    }
}

/// What the caller has to do next.
#[derive(Debug, PartialEq, Eq)]
pub enum FlowAction {
    /// Wait `delay_seconds`, post `request`, and hand the answer to `step`.
    Send { request: FormPost, delay_seconds: u64 },
    /// Nothing more: the grant has ended.
    Stop,
}

/// An action with its texts taken by their characters.
pub enum FlowActionView {
    Send { request: FormPostView, delay_seconds: u64 },
    Stop,
}

impl View for FlowAction {
    type V = FlowActionView;

    open spec fn view(&self) -> FlowActionView {
        match self {
            FlowAction::Send { request, delay_seconds } => FlowActionView::Send {
                request: request@,
                delay_seconds: *delay_seconds,
            },
            FlowAction::Stop => FlowActionView::Stop,
        }
    }
}

/// The outcome of one step: the state reached, what to do next, and the token
/// that the record holds afterwards.
pub struct StepView {
    pub state: FlowStateView,
    pub action: FlowActionView,
    pub token: Option<TokenView>,
}

/// The grant ends in failure; the record keeps the token it had.
pub open spec fn failed(record: ConfigView, error: AuthErrorView) -> StepView {
    StepView {
        state: FlowStateView::Failed { error },
        action: FlowActionView::Stop,
        token: record.token,
    }
}

/// One more refusal, counted without running over.
pub open spec fn one_more(attempts: u64) -> u64 {
    if attempts < u64::MAX {
        (attempts + 1) as u64
    } else {
        attempts
    }
}

/// What a refusal of the request for the token leads to: the end of the grant
/// where the policy says so, else another request after the interval.
pub open spec fn after_refusal(
    record: ConfigView,
    session: DeviceCodeView,
    attempts: u64,
    refusal: ProviderErrorView,
    policy: PollPolicy,
) -> StepView {
    if policy.stop_on_fatal && !says_to_wait(refusal.error) {
        failed(record, AuthErrorView::ProviderRejected(refusal))
    } else if policy.max_attempts is Some && one_more(attempts) >= policy.max_attempts.unwrap() {
        failed(record, AuthErrorView::PollLimitReached)
    } else {
        StepView {
            state: FlowStateView::Pending {
                session,
                attempts: one_more(attempts),
                last_error: Some(refusal),
            },
            action: FlowActionView::Send {
                request: token_request_of(record, session.device_code),
                delay_seconds: POLL_INTERVAL_SECONDS,
            },
            token: record.token,
        }
    }
}

/// Where the policy sets a limit, polling goes on only while the refusals
/// counted stay below it.
pub proof fn lemma_limit_bounds_refusals(
    record: ConfigView,
    session: DeviceCodeView,
    attempts: u64,
    refusal: ProviderErrorView,
    policy: PollPolicy,
)
    requires
        policy.max_attempts is Some,
    ensures
        after_refusal(record, session, attempts, refusal, policy).state matches FlowStateView::Pending {
            attempts: counted,
            ..
        } ==> counted == attempts + 1 && counted < policy.max_attempts.unwrap(),
{
}

/// The step that an answer leads to. `success` says whether the answer's
/// status was one of success, `doc` is its body where that is a JSON document,
/// and `now` is the time at which it arrived.
pub open spec fn next_step(
    record: ConfigView,
    state: FlowStateView,
    success: bool,
    doc: Option<Value>,
    now: u64,
    policy: PollPolicy,
) -> StepView {
    match state {
        FlowStateView::Requesting => match session_of(success, doc) {
            Ok(session) => StepView {
                state: FlowStateView::Pending { session, attempts: 0, last_error: None },
                action: FlowActionView::Send {
                    request: token_request_of(record, session.device_code),
                    delay_seconds: 0,
                },
                token: record.token,
            },
            Err(e) => failed(record, e),
        },
        FlowStateView::Pending { session, attempts, last_error } => match polled_token_of(
            success,
            doc,
            now,
        ) {
            Ok(token) => StepView {
                state: FlowStateView::Authorized,
                action: FlowActionView::Stop,
                token: Some(token),
            },
            Err(AuthErrorView::ProviderRejected(refusal)) => after_refusal(
                record,
                session,
                attempts,
                refusal,
                policy,
            ),
            Err(e) => failed(record, e),
        },
        FlowStateView::Authorized => StepView {
            state,
            action: FlowActionView::Stop,
            token: record.token,
        },
        FlowStateView::Failed { error } => StepView {
            state,
            action: FlowActionView::Stop,
            token: record.token,
        },
    }
}

/// The record with another token in place of its own.
pub open spec fn with_token(record: ConfigView, token: Option<TokenView>) -> ConfigView {
    ConfigView { token, ..record }
}

/// The start of the grant: the request for a device code is due at once.
pub fn begin(record: &Oauth2Config) -> (r: (FlowState, FlowAction))
    ensures
        r.0@ == FlowStateView::Requesting,
        r.1@ == (FlowActionView::Send {
            request: device_code_request_of(record@),
            delay_seconds: 0,
        }),
{
    (
        FlowState::Requesting,
        FlowAction::Send { request: device_code_request(record), delay_seconds: 0 },
    )
}

fn fail(error: AuthError) -> (r: (FlowState, FlowAction))
    ensures
        r.0@ == (FlowStateView::Failed { error: error@ }),
        r.1@ == FlowActionView::Stop,
{
    (FlowState::Failed { error }, FlowAction::Stop)
}

fn count(attempts: u64) -> (r: u64)
    ensures
        r == one_more(attempts),
{
    if attempts < u64::MAX {
        attempts + 1
    } else {
        attempts
    }
}

fn refused(
    record: &Oauth2Config,
    session: deviceCodeEndpointResponse,
    attempts: u64,
    refusal: ProviderError,
    policy: &PollPolicy,
) -> (r: (FlowState, FlowAction))
    ensures
        r.0@ == after_refusal(record@, session@, attempts, refusal@, *policy).state,
        r.1@ == after_refusal(record@, session@, attempts, refusal@, *policy).action,
{
    let attempts = count(attempts);
    let exhausted = match policy.max_attempts {
        Some(m) => attempts >= m,
        None => false,
    };
    if policy.stop_on_fatal && !is_waiting(&refusal) {
        fail(AuthError::ProviderRejected(refusal))
    } else if exhausted {
        fail(AuthError::PollLimitReached)
    } else {
        let request = token_request(record, session.device_code.as_str());
        (
            FlowState::Pending { session, attempts, last_error: Some(refusal) },
            FlowAction::Send { request, delay_seconds: POLL_INTERVAL_SECONDS },
        )
    }
}

/// Takes an answer whose body has been read as a document, or could not be.
///
/// The record changes in one case only: the answer carries the token, which
/// then stands in the record with the time at which it ends.
pub fn step_document(
    record: &mut Oauth2Config,
    state: FlowState,
    success: bool,
    doc: Option<&Value>,
    now: u64,
    policy: &PollPolicy,
) -> (r: (FlowState, FlowAction))
    ensures
        r.0@ == next_step(old(record)@, state@, success, option_deref(doc), now, *policy).state,
        r.1@ == next_step(old(record)@, state@, success, option_deref(doc), now, *policy).action,
        final(record)@ == with_token(
            old(record)@,
            next_step(old(record)@, state@, success, option_deref(doc), now, *policy).token,
        ),
{
    match state {
        FlowState::Requesting => match read_session(success, doc) {
            Ok(session) => {
                let request = token_request(record, session.device_code.as_str());
                (
                    FlowState::Pending { session, attempts: 0, last_error: None },
                    FlowAction::Send { request, delay_seconds: 0 },
                )
            },
            Err(e) => fail(e),
        },
        FlowState::Pending { session, attempts, last_error } => match read_poll(success, doc, now) {
            Ok(token) => {
                record.token = Some(token);
                (FlowState::Authorized, FlowAction::Stop)
            },
            Err(AuthError::ProviderRejected(refusal)) => refused(
                record,
                session,
                attempts,
                refusal,
                policy,
            ),
            Err(e) => fail(e),
        },
        FlowState::Authorized => (FlowState::Authorized, FlowAction::Stop),
        FlowState::Failed { error } => (FlowState::Failed { error }, FlowAction::Stop),
    }
}

/// Takes an answer as it came: whether its status was one of success, its
/// body, and the time at which it arrived.
pub fn step(
    record: &mut Oauth2Config,
    state: FlowState,
    success: bool,
    body: &str,
    now: u64,
    policy: &PollPolicy,
) -> (r: (FlowState, FlowAction))
    ensures
        r.0@ == next_step(old(record)@, state@, success, json_document(body@), now, *policy).state,
        r.1@ == next_step(old(record)@, state@, success, json_document(body@), now, *policy).action,
        final(record)@ == with_token(
            old(record)@,
            next_step(old(record)@, state@, success, json_document(body@), now, *policy).token,
        ),
{
    let parsed = read_document(body);
    let doc = match &parsed {
        Some(d) => Some(d),
        None => None,
    };
    step_document(record, state, success, doc, now, policy)
}

/// A step leaves the record's token alone unless it ends the grant with a
/// token, and then the record holds that token.
pub proof fn lemma_token_changes_on_authorization_only(
    record: ConfigView,
    state: FlowStateView,
    success: bool,
    doc: Option<Value>,
    now: u64,
    policy: PollPolicy,
)
    ensures
        next_step(record, state, success, doc, now, policy).state != FlowStateView::Authorized
            ==> next_step(record, state, success, doc, now, policy).token == record.token,
        state is Pending && next_step(record, state, success, doc, now, policy).state
            == FlowStateView::Authorized ==> next_step(
            record,
            state,
            success,
            doc,
            now,
            policy,
        ).token is Some && polled_token_of(success, doc, now) == Ok::<TokenView, AuthErrorView>(
            next_step(record, state, success, doc, now, policy).token.unwrap(),
        ),
{
}

/// A refused request for a device code ends the grant with the provider's
/// refusal and leaves the record's token as it was.
pub proof fn lemma_refused_device_code_ends_the_grant(
    record: ConfigView,
    doc: Value,
    now: u64,
    policy: PollPolicy,
)
    requires
        provider_error_of(doc) is Ok,
    ensures
        next_step(record, FlowStateView::Requesting, false, Some(doc), now, policy) == failed(
            record,
            AuthErrorView::ProviderRejected(provider_error_of(doc).unwrap()),
        ),
{
}

/// Under the default policy no refusal of the token ends the grant: whatever
/// the provider's reason, the token is asked for again after the interval.
pub proof fn lemma_default_policy_asks_again(
    record: ConfigView,
    session: DeviceCodeView,
    attempts: u64,
    last_error: Option<ProviderErrorView>,
    doc: Value,
    now: u64,
)
    requires
        provider_error_of(doc) is Ok,
    ensures
        next_step(
            record,
            FlowStateView::Pending { session, attempts, last_error },
            false,
            Some(doc),
            now,
            PollPolicy { max_attempts: None, stop_on_fatal: false },
        ) == (StepView {
            state: FlowStateView::Pending {
                session,
                attempts: one_more(attempts),
                last_error: Some(provider_error_of(doc).unwrap()),
            },
            action: FlowActionView::Send {
                request: token_request_of(record, session.device_code),
                delay_seconds: POLL_INTERVAL_SECONDS,
            },
            token: record.token,
        }),
{
}

/// A grant that has ended stays as it ended, and nothing more is asked of the
/// caller.
pub proof fn lemma_ended_grant_stays_ended(
    record: ConfigView,
    state: FlowStateView,
    success: bool,
    doc: Option<Value>,
    now: u64,
    policy: PollPolicy,
)
    requires
        state is Authorized || state is Failed,
    ensures
        next_step(record, state, success, doc, now, policy) == (StepView {
            state,
            action: FlowActionView::Stop,
            token: record.token,
        }),
{
}

} // verus!
