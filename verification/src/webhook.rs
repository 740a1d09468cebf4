//! The webhook endpoint: from a signed request to the answer that Slack
//! gets.
//!
//! A request passes through three steps in order. It is authenticated
//! ([`verify`]); a request that fails is answered with 401. Its body is
//! classified ([`normalize`]); a body that cannot be classified is answered
//! with 400. The event then decides ([`route`]): a URL verification is
//! answered with its challenge, a mention or a message for which a token is
//! at hand is given to the event handler, and everything else is
//! acknowledged with an empty 200.
//!
//! Which token is at hand depends on the [`Credentials`]: an endpoint that
//! serves one workspace uses its bot token for every event, and an endpoint
//! that serves many looks up the credential stored for the workspace that the
//! event names.
//!
//! Slack delivers again whatever it does not see acknowledged, so a mention
//! or a message is always answered with 200, whether the handler succeeds or
//! not.

use crate::events::{
    envelope_of, json_strings, normalize, normalized, text_or_empty, Event, EventView, ParseError,
    RequiredField,
};
use crate::oauth::{stored, TokenStorage};
use crate::signature::{header_bytes, verdict, verify, AuthError};
use crate::types::{SigningSecret, Token};
use vstd::prelude::*;
use vstd::string::StringExecFns;

verus! {

/// The path at which the endpoint is served unless another is asked for.
pub const DEFAULT_WEBHOOK_PATH: &'static str = "/push";

/// The status of an answer that acknowledges a request.
pub const STATUS_OK: u16 = 200;

/// The status of the answer to a body that cannot be classified.
pub const STATUS_BAD_REQUEST: u16 = 400;

/// The status of the answer to a request that is not authenticated.
pub const STATUS_UNAUTHORIZED: u16 = 401;

/// The answer to a request.
#[derive(Debug, PartialEq, Eq)]
pub struct Response {
    /// The HTTP status.
    pub status: u16,
    /// The content type, where the answer states one.
    pub content_type: Option<String>,
    /// The body.
    pub body: String,
}

/// The mathematical value of a [`Response`].
pub struct ResponseView {
    pub status: u16,
    pub content_type: Option<Seq<char>>,
    pub body: Seq<char>,
}

impl View for Response {
    type V = ResponseView;

    open spec fn view(&self) -> ResponseView {
        ResponseView {
            status: self.status,
            content_type: self.content_type.deep_view(),
            body: self.body@,
        }
    }
}

/// What an event handler reports when it fails.
#[derive(Debug, PartialEq, Eq)]
pub enum DispatchError {
    /// The handler could not deal with the event; the text says why. This
    /// never changes the answer that Slack gets.
    HandlerFailed(String),
}

/// What a failed authentication is told.
pub open spec fn auth_message(error: AuthError) -> Seq<char> {
    match error {
        AuthError::BadSignature => "Invalid signature"@,
        AuthError::StaleTimestamp => "Request timestamp is too old"@,
        AuthError::MalformedHeaders => "Missing or malformed signature headers"@,
    }
}

/// What a body that cannot be classified is told.
pub open spec fn parse_message(error: ParseError) -> Seq<char> {
    match error {
        ParseError::InvalidEnvelope => "Invalid JSON"@,
        ParseError::MissingChallenge => "Challenge value is missing"@,
        ParseError::MissingField(RequiredField::Channel) => "Missing required field: channel"@,
        ParseError::MissingField(RequiredField::Ts) => "Missing required field: ts"@,
    }
}

/// The answer to a request that is not authenticated.
pub open spec fn unauthorized(error: AuthError) -> ResponseView {
    ResponseView { status: STATUS_UNAUTHORIZED, content_type: None, body: auth_message(error) }
}

/// The answer to a body that cannot be classified.
pub open spec fn bad_request(error: ParseError) -> ResponseView {
    ResponseView { status: STATUS_BAD_REQUEST, content_type: None, body: parse_message(error) }
}

/// The answer that acknowledges a callback: status 200 and nothing else.
pub open spec fn acknowledged() -> ResponseView {
    ResponseView { status: STATUS_OK, content_type: None, body: Seq::empty() }
}

/// The answer to a URL verification: the challenge itself as plain text, or
/// a refusal where the challenge is empty.
pub open spec fn challenge_answer(challenge: Seq<char>) -> ResponseView {
    if challenge.len() == 0 {
        bad_request(ParseError::MissingChallenge)
    } else {
        ResponseView { status: STATUS_OK, content_type: Some("text/plain"@), body: challenge }
    }
}

/// Builds the answer to a request that is not authenticated.
pub fn respond_unauthorized(error: AuthError) -> (r: Response)
    ensures
        r@ == unauthorized(error),
{
    let body = match error {
        AuthError::BadSignature => "Invalid signature",
        AuthError::StaleTimestamp => "Request timestamp is too old",
        AuthError::MalformedHeaders => "Missing or malformed signature headers",
    };
    Response { status: STATUS_UNAUTHORIZED, content_type: None, body: String::from_str(body) }
}

/// Builds the answer to a body that cannot be classified.
pub fn respond_bad_request(error: ParseError) -> (r: Response)
    ensures
        r@ == bad_request(error),
{
    let body = match error {
        ParseError::InvalidEnvelope => "Invalid JSON",
        ParseError::MissingChallenge => "Challenge value is missing",
        ParseError::MissingField(RequiredField::Channel) => "Missing required field: channel",
        ParseError::MissingField(RequiredField::Ts) => "Missing required field: ts",
    };
    Response { status: STATUS_BAD_REQUEST, content_type: None, body: String::from_str(body) }
}

/// Builds the answer that acknowledges a callback.
pub fn respond_acknowledged() -> (r: Response)
    ensures
        r@ == acknowledged(),
{
    Response { status: STATUS_OK, content_type: None, body: String::new() }
}

/// Builds the answer to a URL verification.
pub fn respond_challenge(challenge: String) -> (r: Response)
    ensures
        r@ == challenge_answer(challenge@),
{
    if challenge.as_str().is_empty() {
        respond_bad_request(ParseError::MissingChallenge)
    } else {
        Response {
            status: STATUS_OK,
            content_type: Some(String::from_str("text/plain")),
            body: challenge,
        }
    }
}

/// Where the endpoint takes the token for an event from, borrowed for the
/// time of one request.
#[derive(Clone, Copy)]
pub enum Credentials<'a> {
    /// The endpoint serves one workspace, and its bot token goes with every
    /// event.
    SingleTenant(&'a Token),
    /// The endpoint serves many workspaces, and the token for an event is the
    /// credential stored for the workspace that the event names.
    MultiTenant(&'a TokenStorage),
}

/// The mathematical value of [`Credentials`].
pub enum CredentialsView {
    SingleTenant(Seq<char>),
    MultiTenant(Map<Seq<char>, Seq<char>>),
}

impl<'a> View for Credentials<'a> {
    type V = CredentialsView;

    open spec fn view(&self) -> CredentialsView {
        match self {
            Credentials::SingleTenant(token) => CredentialsView::SingleTenant(token@),
            Credentials::MultiTenant(store) => CredentialsView::MultiTenant(store@),
        }
    }
}

/// The token for an event that names the workspace `team_id`, if there is
/// one. With many workspaces, an event that names none, or one without a
/// stored credential, has no token.
pub open spec fn resolved(credentials: CredentialsView, team_id: Option<Seq<char>>) -> Option<
    Seq<char>,
> {
    match credentials {
        CredentialsView::SingleTenant(token) => Some(token),
        CredentialsView::MultiTenant(store) => match team_id {
            Some(team_id) => stored(store, team_id),
            None => None,
        },
    }
}

/// The view of an optional token.
pub open spec fn token_view(token: Option<Token>) -> Option<Seq<char>> {
    match token {
        Some(token) => Some(token@),
        None => None,
    }
}

impl<'a> Credentials<'a> {
    /// Finds the token for an event that names the workspace `team_id`.
    pub fn resolve(&self, team_id: &Option<String>) -> (r: Option<Token>)
        ensures
            token_view(r) == resolved(self@, team_id.deep_view()),
    {
        match self {
            Credentials::SingleTenant(token) => Some((*token).clone()),
            Credentials::MultiTenant(store) => match team_id {
                Some(team_id) => match store.get_token(team_id.as_str()) {
                    Some(credential) => Some(Token::new(credential.access_token.as_str())),
                    None => None,
                },
                None => None,
            },
        }
    }
}

/// A call of the event handler that is due.
#[derive(Debug, PartialEq, Eq)]
pub struct Invocation {
    /// The event to hand over.
    pub event: Event,
    /// The token that authorises calls on behalf of the workspace that the
    /// event comes from.
    pub token: Token,
}

/// What the endpoint does with a request.
#[derive(Debug, PartialEq, Eq)]
pub enum Dispatch {
    /// Answer at once.
    Respond(Response),
    /// Call the event handler; whatever it reports, answer as
    /// [`conclude`] says.
    Invoke(Invocation),
}

/// The mathematical value of a [`Dispatch`].
pub enum DispatchView {
    Respond(ResponseView),
    Invoke { event: EventView, token: Seq<char> },
}

impl View for Dispatch {
    type V = DispatchView;

    open spec fn view(&self) -> DispatchView {
        match self {
            Dispatch::Respond(response) => DispatchView::Respond(response@),
            Dispatch::Invoke(invocation) => DispatchView::Invoke {
                event: invocation.event@,
                token: invocation.token@,
            },
        }
    }
}

/// The workspace that an event comes from, where the event names one.
pub open spec fn event_team(event: EventView) -> Option<Seq<char>> {
    match event {
        EventView::AppMention { team_id, .. } => team_id,
        EventView::Message { team_id, .. } => team_id,
        _ => None,
    }
}

/// What becomes of a classified event.
///
/// A mention or a message goes to the handler where there is a token for it;
/// where there is none, the event is acknowledged and no handler is called.
pub open spec fn routed(event: EventView, credentials: CredentialsView) -> DispatchView {
    match event {
        EventView::UrlVerification { challenge } => DispatchView::Respond(
            challenge_answer(challenge),
        ),
        EventView::Other => DispatchView::Respond(acknowledged()),
        _ => match resolved(credentials, event_team(event)) {
            Some(token) => DispatchView::Invoke { event, token },
            None => DispatchView::Respond(acknowledged()),
        },
    }
}

/// Decides what becomes of a classified event.
pub fn route(event: Event, credentials: Credentials<'_>) -> (r: Dispatch)
    ensures
        r@ == routed(event@, credentials@),
{
    match event {
        Event::UrlVerification { challenge } => Dispatch::Respond(respond_challenge(challenge)),
        Event::Other => Dispatch::Respond(respond_acknowledged()),
        Event::AppMention { channel, ts, text, team_id } => {
            match credentials.resolve(&team_id) {
                Some(token) => Dispatch::Invoke(
                    Invocation { event: Event::AppMention { channel, ts, text, team_id }, token },
                ),
                None => Dispatch::Respond(respond_acknowledged()),
            }
        },
        Event::Message { channel, text, team_id } => {
            match credentials.resolve(&team_id) {
                Some(token) => Dispatch::Invoke(
                    Invocation { event: Event::Message { channel, text, team_id }, token },
                ),
                None => Dispatch::Respond(respond_acknowledged()),
            }
        },
    }
}

/// What the endpoint does with a request received at time `now`.
pub open spec fn dispatched(
    key: Seq<u8>,
    signature: Option<Seq<u8>>,
    timestamp: Option<Seq<u8>>,
    body: Seq<u8>,
    now: u64,
    credentials: CredentialsView,
) -> DispatchView {
    match verdict(key, signature, timestamp, body, now) {
        Err(error) => DispatchView::Respond(unauthorized(error)),
        Ok(_) => match normalized(body) {
            Err(error) => DispatchView::Respond(bad_request(error)),
            Ok(event) => routed(event, credentials),
        },
    }
}

/// Takes a request through authentication, classification and routing.
///
/// `now` is the current time in seconds since the Unix epoch. The result
/// says whether to answer at once or to call the event handler first.
pub fn dispatch(
    secret: &SigningSecret,
    credentials: Credentials<'_>,
    signature_header: Option<&str>,
    timestamp_header: Option<&str>,
    body: &[u8],
    now: u64,
) -> (r: Dispatch)
    ensures
        r@ == dispatched(
            secret.key(),
            header_bytes(signature_header),
            header_bytes(timestamp_header),
            body@,
            now,
            credentials@,
        ),
{
    match verify(secret, signature_header, timestamp_header, body, now) {
        Err(error) => Dispatch::Respond(respond_unauthorized(error)),
        Ok(_) => match normalize(body) {
            Err(error) => Dispatch::Respond(respond_bad_request(error)),
            Ok(event) => route(event, credentials),
        },
    }
}

/// The answer once the event handler has returned: the callback is
/// acknowledged whether the handler succeeded or failed.
pub fn conclude(outcome: &Result<(), DispatchError>) -> (r: Response)
    ensures
        r@ == acknowledged(),
{
    respond_acknowledged()
}

/// The answer that Slack gets in the end.
pub open spec fn final_answer(dispatch: DispatchView) -> ResponseView {
    match dispatch {
        DispatchView::Respond(response) => response,
        DispatchView::Invoke { .. } => acknowledged(),
    }
}

// ---------------------------------------------------------------------------
// The event handler
// ---------------------------------------------------------------------------

/// The application's own logic for events.
///
/// The endpoint calls the handler for a mention or a message once it has
/// the token for the workspace that the event comes from. Nothing is asked
/// of an implementation: whatever it returns, the answer to Slack is the
/// same. An implementation may promise something of its own result, and
/// [`handle_push_event`] hands that promise on.
pub trait SlackEventHandler: Send + Sync + Clone + 'static {
    /// Deals with one event. `token` authorises calls on behalf of the
    /// workspace that the event comes from.
    fn handle_event(&self, event: Event, token: &Token) -> Result<(), DispatchError>;
}

/// The handler that does nothing.
#[derive(Clone, Copy, Debug)]
pub struct NoopHandler;

impl SlackEventHandler for NoopHandler {
    fn handle_event(&self, event: Event, token: &Token) -> (r: Result<(), DispatchError>)
        ensures
            r is Ok,
    {
        Ok(())
    }
}

/// What the endpoint works with: the signing secret, the credentials and
/// the event handler.
pub struct AppState<'a, H: SlackEventHandler> {
    /// The secret under which Slack signs its requests.
    pub signing_secret: SigningSecret,
    /// Where the token for an event comes from.
    pub credentials: Credentials<'a>,
    /// The application's logic for events.
    pub handler: H,
}

/// Whether `outcome` is what remains of the handler's part in a request:
/// nothing where no call was due, and where one was due, a result that the
/// handler's own contract allows for a call with the event and the token of
/// the dispatch.
pub open spec fn handler_called<H: SlackEventHandler>(
    handler: H,
    dispatch: DispatchView,
    outcome: Option<Result<(), DispatchError>>,
) -> bool {
    match dispatch {
        DispatchView::Respond(_) => outcome is None,
        DispatchView::Invoke { event, token } => {
            &&& outcome is Some
            &&& exists|given: Event, with: Token|
                given@ == event && with@ == token && #[trigger] call_ensures(
                    H::handle_event,
                    (&handler, given, &with),
                    outcome->0,
                )
        },
    }
}

/// What became of one request.
#[derive(Debug, PartialEq, Eq)]
pub struct Handled {
    /// The answer for Slack.
    pub response: Response,
    /// What the event handler reported, where it was called. A failure has
    /// no part in the answer; it is handed back so that it can be logged.
    pub outcome: Option<Result<(), DispatchError>>,
}

/// Handles one request received at time `now`, given in seconds since the
/// Unix epoch: takes it through [`dispatch`], calls the event handler where
/// that is due, and returns the answer for Slack together with what the
/// handler reported.
pub fn handle_push_event<H: SlackEventHandler>(
    state: &AppState<'_, H>,
    signature_header: Option<&str>,
    timestamp_header: Option<&str>,
    body: &[u8],
    now: u64,
) -> (r: Handled)
    ensures
        r.response@ == final_answer(
            dispatched(
                state.signing_secret.key(),
                header_bytes(signature_header),
                header_bytes(timestamp_header),
                body@,
                now,
                state.credentials@,
            ),
        ),
        handler_called(
            state.handler,
            dispatched(
                state.signing_secret.key(),
                header_bytes(signature_header),
                header_bytes(timestamp_header),
                body@,
                now,
                state.credentials@,
            ),
            r.outcome,
        ),
{
    let step = dispatch(
        &state.signing_secret,
        state.credentials,
        signature_header,
        timestamp_header,
        body,
        now,
    );
    match step {
        Dispatch::Respond(response) => Handled { response, outcome: None },
        Dispatch::Invoke(invocation) => {
            let Invocation { event, token } = invocation;
            let ghost given = event;
            let outcome = state.handler.handle_event(event, &token);
            assert(exists|g: Event, w: Token|
                g@ == step@->event && w@ == step@->token && #[trigger] call_ensures(
                    H::handle_event,
                    (&state.handler, g, &w),
                    outcome,
                )) by {
                assert(given@ == step@->event && token@ == step@->token);
                assert(call_ensures(H::handle_event, (&state.handler, given, &token), outcome));
            }
            let ghost reported = Some(outcome);
            assert(reported->0 == outcome);
            assert(handler_called(state.handler, step@, reported));
            let response = conclude(&outcome);
            Handled { response, outcome: Some(outcome) }
        },
    }
}

// ---------------------------------------------------------------------------
// Laws
// ---------------------------------------------------------------------------

/// An answer with status 200 to a URL verification always carries the
/// challenge, which is not empty; an empty challenge is answered with 400.
pub proof fn lemma_challenge_answer_never_empty(challenge: Seq<char>)
    ensures
        challenge.len() == 0 ==> challenge_answer(challenge).status == STATUS_BAD_REQUEST,
        challenge.len() > 0 ==> challenge_answer(challenge) == (ResponseView {
            status: STATUS_OK,
            content_type: Some("text/plain"@),
            body: challenge,
        }),
        challenge_answer(challenge).status == STATUS_OK ==> challenge_answer(challenge).body.len()
            > 0,
{
}

/// A URL verification with an empty challenge is answered with 400 at the
/// routing step, whatever the credentials.
pub proof fn lemma_empty_challenge_routed_to_bad_request(credentials: CredentialsView)
    ensures
        routed(EventView::UrlVerification { challenge: Seq::empty() }, credentials)
            == DispatchView::Respond(bad_request(ParseError::MissingChallenge)),
{
}

/// An authenticated request whose envelope is a URL verification without a
/// challenge, or with an empty one, is answered with 400, never with 200.
pub proof fn lemma_missing_challenge_is_bad_request(
    key: Seq<u8>,
    signature: Option<Seq<u8>>,
    timestamp: Option<Seq<u8>>,
    body: Seq<u8>,
    now: u64,
    credentials: CredentialsView,
)
    requires
        verdict(key, signature, timestamp, body, now) is Ok,
        json_strings(body) is Some,
        envelope_of(json_strings(body)->0).kind == Some("url_verification"@),
        text_or_empty(envelope_of(json_strings(body)->0).challenge).len() == 0,
    ensures
        dispatched(key, signature, timestamp, body, now, credentials) == DispatchView::Respond(
            bad_request(ParseError::MissingChallenge),
        ),
        final_answer(dispatched(key, signature, timestamp, body, now, credentials)).status
            == STATUS_BAD_REQUEST,
{
}

/// A request that is not authenticated is answered with 401 whatever its
/// body holds, and no handler is called.
pub proof fn lemma_unauthenticated_is_unauthorized(
    key: Seq<u8>,
    signature: Option<Seq<u8>>,
    timestamp: Option<Seq<u8>>,
    body: Seq<u8>,
    now: u64,
    credentials: CredentialsView,
)
    requires
        verdict(key, signature, timestamp, body, now) is Err,
    ensures
        dispatched(key, signature, timestamp, body, now, credentials) is Respond,
        final_answer(dispatched(key, signature, timestamp, body, now, credentials)).status
            == STATUS_UNAUTHORIZED,
{
}

/// An authenticated request whose body can be classified is answered with
/// 200, unless it is a URL verification; for a mention or a message this
/// holds whether a handler is called or not.
pub proof fn lemma_classified_callback_is_acknowledged(
    key: Seq<u8>,
    signature: Option<Seq<u8>>,
    timestamp: Option<Seq<u8>>,
    body: Seq<u8>,
    now: u64,
    credentials: CredentialsView,
)
    requires
        verdict(key, signature, timestamp, body, now) is Ok,
        normalized(body) is Ok,
        !(normalized(body)->Ok_0 is UrlVerification),
    ensures
        final_answer(dispatched(key, signature, timestamp, body, now, credentials))
            == acknowledged(),
{
}

} // verus!
