//! Message dispatch routing: the single-request protocol that posts to a
//! named channel and the two-request protocol that first opens a
//! direct-message channel, as a step function from dispatch state and request
//! outcome to the next state and the next request, with the first failure
//! surfaced and nothing attempted after it.

use vstd::prelude::*;
use vstd::string::StringExecFns;
use crate::config::{ResolvedConfig, ResolvedConfigView};

verus! {

/// How the message is routed: through a freshly opened direct-message
/// channel, or straight to a named channel.
#[derive(Debug, Clone, Copy, PartialEq, Eq, Structural)]
pub enum DispatchMode {
    DirectMessage,
    Channel,
}

/// The two endpoints the dispatcher posts to.
#[derive(Debug)]
pub enum Endpoint {
    /// `POST /users/@me/channels`: opens a direct-message channel for the
    /// recipient named in the request body.
    OpenDirectChannel,
    /// `POST /channels/{channel_id}/messages`: posts the message carried in
    /// the request body to that channel.
    ChannelMessages { channel_id: String },
}

/// One outbound POST: the endpoint, the single key and value of its JSON
/// body, and the complete authorization header value.
#[derive(Debug)]
pub struct HttpRequest {
    pub endpoint: Endpoint,
    pub body_field: String,
    pub body_value: String,
    pub authorization: String,
}

/// What came back from one POST, as far as the dispatcher reads it: the
/// status code and the response text.
#[derive(Debug)]
pub struct HttpResponse {
    pub status: u16,
    pub body: String,
}

/// How one POST ended as the transport reports it: a response arrived, or
/// the transport failed before any status did, with its cause in words.
#[derive(Debug)]
pub enum HttpOutcome {
    Response(HttpResponse),
    TransportFailure(String),
}

/// Why a request did not complete: a status outside the success range, or a
/// transport failure with its cause in words.
#[derive(Debug)]
pub enum HttpFailure {
    Status(u16),
    Transport(String),
}

/// Why dispatch aborted.
#[derive(Debug)]
pub enum DispatchError {
    /// A request did not complete successfully.
    Http(HttpFailure),
    /// A successful open-channel response lacked the expected string field.
    MalformedResponse,
}

/// Where the dispatch sequence stands; the states with an outstanding
/// request carry what the following step needs.
#[derive(Debug)]
pub enum DispatchState {
    /// Direct-message mode: the open-channel POST is outstanding; the token
    /// and content are kept for the message POST that follows.
    AwaitingOpenChannel { token: String, content: String },
    /// The message POST is outstanding.
    AwaitingMessagePost,
    /// The whole sequence for the selected mode completed.
    Done,
    /// The sequence aborted with the first error encountered.
    Failed(DispatchError),
}

/// One step of the dispatch sequence: the state after the step and the
/// request the caller must send next, if one remains.
#[derive(Debug)]
pub struct DispatchStep {
    pub state: DispatchState,
    pub request: Option<HttpRequest>,
}

/// The mathematical content of an [`Endpoint`].
pub enum EndpointView {
    OpenDirectChannel,
    ChannelMessages { channel_id: Seq<char> },
}

impl View for Endpoint {
    type V = EndpointView;

    open spec fn view(&self) -> EndpointView {
        match self {
            Endpoint::OpenDirectChannel => EndpointView::OpenDirectChannel,
            Endpoint::ChannelMessages { channel_id } => (EndpointView::ChannelMessages {
                channel_id: channel_id@,
            }),
        }
    }
}

/// The mathematical content of an [`HttpRequest`].
pub struct HttpRequestView {
    pub endpoint: EndpointView,
    pub body_field: Seq<char>,
    pub body_value: Seq<char>,
    pub authorization: Seq<char>,
}

impl View for HttpRequest {
    type V = HttpRequestView;

    open spec fn view(&self) -> HttpRequestView {
        HttpRequestView {
            endpoint: self.endpoint@,
            body_field: self.body_field@,
            body_value: self.body_value@,
            authorization: self.authorization@,
        }
    }
}

/// The mathematical content of an [`HttpResponse`].
pub struct HttpResponseView {
    pub status: u16,
    pub body: Seq<char>,
}

impl View for HttpResponse {
    type V = HttpResponseView;

    open spec fn view(&self) -> HttpResponseView {
        HttpResponseView { status: self.status, body: self.body@ }
    }
}

/// The mathematical content of an [`HttpOutcome`].
pub enum HttpOutcomeView {
    Response(HttpResponseView),
    TransportFailure(Seq<char>),
}

impl View for HttpOutcome {
    type V = HttpOutcomeView;

    open spec fn view(&self) -> HttpOutcomeView {
        match self {
            HttpOutcome::Response(r) => HttpOutcomeView::Response(r@),
            HttpOutcome::TransportFailure(c) => HttpOutcomeView::TransportFailure(c@),
        }
    }
}

/// The mathematical content of an [`HttpFailure`].
pub enum HttpFailureView {
    Status(u16),
    Transport(Seq<char>),
}

impl View for HttpFailure {
    type V = HttpFailureView;

    open spec fn view(&self) -> HttpFailureView {
        match self {
            HttpFailure::Status(s) => HttpFailureView::Status(*s),
            HttpFailure::Transport(c) => HttpFailureView::Transport(c@),
        }
    }
}

/// The mathematical content of a [`DispatchError`].
pub enum DispatchErrorView {
    Http(HttpFailureView),
    MalformedResponse,
}

impl View for DispatchError {
    type V = DispatchErrorView;

    open spec fn view(&self) -> DispatchErrorView {
        match self {
            DispatchError::Http(f) => DispatchErrorView::Http(f@),
            DispatchError::MalformedResponse => DispatchErrorView::MalformedResponse,
        }
    }
}

/// The mathematical content of a [`DispatchState`].
pub enum DispatchStateView {
    AwaitingOpenChannel { token: Seq<char>, content: Seq<char> },
    AwaitingMessagePost,
    Done,
    Failed(DispatchErrorView),
}

impl View for DispatchState {
    type V = DispatchStateView;

    open spec fn view(&self) -> DispatchStateView {
        match self {
            DispatchState::AwaitingOpenChannel { token, content } => (
            DispatchStateView::AwaitingOpenChannel { token: token@, content: content@ }),
            DispatchState::AwaitingMessagePost => DispatchStateView::AwaitingMessagePost,
            DispatchState::Done => DispatchStateView::Done,
            DispatchState::Failed(e) => DispatchStateView::Failed(e@),
        }
    }
}

/// The mathematical content of a [`DispatchStep`].
pub struct DispatchStepView {
    pub state: DispatchStateView,
    pub request: Option<HttpRequestView>,
}

impl View for DispatchStep {
    type V = DispatchStepView;

    open spec fn view(&self) -> DispatchStepView {
        DispatchStepView {
            state: self.state@,
            request: match &self.request {
                Some(r) => Some(r@),
                None => None,
            },
        }
    }
}

/// The authorization header value carried by every outbound request: the
/// literal `"Bot "` before the token.
pub open spec fn spec_bot_auth(token: Seq<char>) -> Seq<char> {
    "Bot "@ + token
}

/// The open-channel request: it posts the resolved target id as the
/// recipient, under the resolved token's authorization.
pub open spec fn spec_open_channel_request(config: ResolvedConfigView) -> HttpRequestView {
    HttpRequestView {
        endpoint: EndpointView::OpenDirectChannel,
        body_field: "recipient_id"@,
        body_value: config.channel_or_user_id,
        authorization: spec_bot_auth(config.token),
    }
}

/// The message request: it posts the content to the messages endpoint of the
/// given channel, under the token's authorization.
pub open spec fn spec_message_request(
    token: Seq<char>,
    channel_id: Seq<char>,
    content: Seq<char>,
) -> HttpRequestView {
    HttpRequestView {
        endpoint: (EndpointView::ChannelMessages { channel_id }),
        body_field: "content"@,
        body_value: content,
        authorization: spec_bot_auth(token),
    }
}

/// A status in the HTTP success range.
pub open spec fn spec_is_success(status: u16) -> bool {
    200 <= status < 300
}

/// An aborted sequence: the failed state, with no further request.
pub open spec fn spec_failed_step(e: DispatchErrorView) -> DispatchStepView {
    DispatchStepView { state: DispatchStateView::Failed(e), request: None }
}

/// What parsing a text as JSON and reading its string member named `key`
/// yields: the member's characters where the text is a JSON object whose
/// `key` member is a string, and nothing otherwise.
pub uninterp spec fn json_string_field_of(body: Seq<char>, key: Seq<char>) -> Option<Seq<char>>;

/// Relies on serde_json::from_str, serde_json::Value::get and
/// serde_json::Value::as_str: parses `body` as JSON and extracts its string
/// member named `key`; the result is a function of the two texts alone.
#[verifier::external_body]
fn json_string_field(body: &str, key: &str) -> (r: Option<String>)
    ensures
        crate::config::opt_str_view(r) == json_string_field_of(body@, key@),
{
    match serde_json::from_str::<serde_json::Value>(body) {
        Ok(value) => value.get(key).and_then(|v| v.as_str()).map(|s| s.to_string()),
        Err(_) => None,
    }
}

/// The first step of the sequence for a mode: channel mode goes straight to
/// the message POST for the resolved target; direct-message mode first opens
/// a channel for the resolved target as recipient.
pub open spec fn spec_dispatch_start(
    mode: DispatchMode,
    config: ResolvedConfigView,
    content: Seq<char>,
) -> DispatchStepView {
    match mode {
        DispatchMode::Channel => DispatchStepView {
            state: DispatchStateView::AwaitingMessagePost,
            request: Some(
                spec_message_request(config.token, config.channel_or_user_id, content),
            ),
        },
        DispatchMode::DirectMessage => DispatchStepView {
            state: (DispatchStateView::AwaitingOpenChannel {
                token: config.token,
                content: content,
            }),
            request: Some(spec_open_channel_request(config)),
        },
    }
}

/// The step taken on the outcome of the outstanding POST. A transport
/// failure or a status outside the success range aborts with that failure
/// and no further request. A successful open-channel response yields the
/// message POST to the channel id extracted from its body, or aborts as
/// malformed when no such id is present; a successful message response ends
/// the sequence. A finished sequence takes no step.
pub open spec fn spec_dispatch_continue(
    state: DispatchStateView,
    outcome: HttpOutcomeView,
) -> DispatchStepView {
    match state {
        DispatchStateView::AwaitingOpenChannel { token, content } => match outcome {
            HttpOutcomeView::Response(resp) => if !spec_is_success(resp.status) {
                spec_failed_step(DispatchErrorView::Http(HttpFailureView::Status(resp.status)))
            } else {
                match json_string_field_of(resp.body, "id"@) {
                    Some(channel_id) => DispatchStepView {
                        state: DispatchStateView::AwaitingMessagePost,
                        request: Some(spec_message_request(token, channel_id, content)),
                    },
                    None => spec_failed_step(DispatchErrorView::MalformedResponse),
                }
            },
            HttpOutcomeView::TransportFailure(cause) => spec_failed_step(
                DispatchErrorView::Http(HttpFailureView::Transport(cause)),
            ),
        },
        DispatchStateView::AwaitingMessagePost => match outcome {
            HttpOutcomeView::Response(resp) => if spec_is_success(resp.status) {
                DispatchStepView { state: DispatchStateView::Done, request: None }
            } else {
                spec_failed_step(DispatchErrorView::Http(HttpFailureView::Status(resp.status)))
            },
            HttpOutcomeView::TransportFailure(cause) => spec_failed_step(
                DispatchErrorView::Http(HttpFailureView::Transport(cause)),
            ),
        },
        _ => DispatchStepView { state: state, request: None },
    }
}

/// Whether a status lies in the HTTP success range.
pub fn is_success_status(status: u16) -> (r: bool)
    ensures
        r == spec_is_success(status),
{
    200 <= status && status < 300
}

/// Builds the authorization header value for a token.
pub fn bot_auth(token: &String) -> (r: String)
    ensures
        r@ == spec_bot_auth(token@),
{
    let mut value = String::from_str("Bot ");
    value.append(token.as_str());
    value
}

/// Builds the open-channel request for the resolved configuration.
pub fn open_channel_request(config: &ResolvedConfig) -> (r: HttpRequest)
    ensures
        r@ == spec_open_channel_request(config@),
{
    HttpRequest {
        endpoint: Endpoint::OpenDirectChannel,
        body_field: String::from_str("recipient_id"),
        body_value: config.channel_or_user_id.clone(),
        authorization: bot_auth(&config.token),
    }
}

/// Builds the message request posting `content` to the given channel.
pub fn message_request(token: &String, channel_id: &String, content: &String) -> (r: HttpRequest)
    ensures
        r@ == spec_message_request(token@, channel_id@, content@),
{
    HttpRequest {
        endpoint: Endpoint::ChannelMessages { channel_id: channel_id.clone() },
        body_field: String::from_str("content"),
        body_value: content.clone(),
        authorization: bot_auth(token),
    }
}

fn failed(e: DispatchError) -> (r: DispatchStep)
    ensures
        r@ == spec_failed_step(e@),
{
    DispatchStep { state: DispatchState::Failed(e), request: None }
}

/// Begins the dispatch sequence for the chosen mode: yields the state to
/// resume from and the single request the caller must send first.
pub fn dispatch_start(mode: DispatchMode, config: ResolvedConfig, content: String) -> (r:
    DispatchStep)
    ensures
        r@ == spec_dispatch_start(mode, config@, content@),
{
    match mode {
        DispatchMode::Channel => {
            let request = message_request(&config.token, &config.channel_or_user_id, &content);
            DispatchStep { state: DispatchState::AwaitingMessagePost, request: Some(request) }
        },
        DispatchMode::DirectMessage => {
            let request = open_channel_request(&config);
            DispatchStep {
                state: DispatchState::AwaitingOpenChannel { token: config.token, content },
                request: Some(request),
            }
        },
    }
}

/// Advances the dispatch sequence on the outcome of the outstanding POST:
/// yields the state after the step and the next request, if one remains.
pub fn dispatch_continue(state: DispatchState, outcome: HttpOutcome) -> (r: DispatchStep)
    requires
        state is AwaitingOpenChannel || state is AwaitingMessagePost,
    ensures
        r@ == spec_dispatch_continue(state@, outcome@),
{
    match state {
        DispatchState::AwaitingOpenChannel { token, content } => match outcome {
            HttpOutcome::Response(resp) => {
                if !is_success_status(resp.status) {
                    failed(DispatchError::Http(HttpFailure::Status(resp.status)))
                } else {
                    match json_string_field(resp.body.as_str(), "id") {
                        Some(channel_id) => {
                            let request = message_request(&token, &channel_id, &content);
                            DispatchStep {
                                state: DispatchState::AwaitingMessagePost,
                                request: Some(request),
                            }
                        },
                        None => failed(DispatchError::MalformedResponse),
                    }
                }
            },
            HttpOutcome::TransportFailure(cause) => failed(
                DispatchError::Http(HttpFailure::Transport(cause)),
            ),
        },
        DispatchState::AwaitingMessagePost => match outcome {
            HttpOutcome::Response(resp) => {
                if is_success_status(resp.status) {
                    DispatchStep { state: DispatchState::Done, request: None }
                } else {
                    failed(DispatchError::Http(HttpFailure::Status(resp.status)))
                }
            },
            HttpOutcome::TransportFailure(cause) => failed(
                DispatchError::Http(HttpFailure::Transport(cause)),
            ),
        },
        DispatchState::Done => vstd::pervasive::unreached(),
        DispatchState::Failed(_) => vstd::pervasive::unreached(),
    }
}

/// Channel mode issues exactly one POST: the opening step posts to the
/// message endpoint for the resolved target id, and a success outcome for
/// that POST ends the sequence with no further request.
pub proof fn lemma_channel_mode_single_post(
    config: ResolvedConfigView,
    content: Seq<char>,
    status: u16,
    body: Seq<char>,
)
    requires
        spec_is_success(status),
    ensures
        ({
            let start = spec_dispatch_start(DispatchMode::Channel, config, content);
            let finish = spec_dispatch_continue(
                start.state,
                HttpOutcomeView::Response(HttpResponseView { status, body }),
            );
            &&& start.request == Some(
                spec_message_request(config.token, config.channel_or_user_id, content),
            )
            &&& start.request->Some_0.endpoint == (EndpointView::ChannelMessages {
                channel_id: config.channel_or_user_id,
            })
            &&& finish.state is Done
            &&& finish.request is None
        }),
{
}

/// Direct-message mode issues exactly two POSTs in order: first to the
/// open-channel endpoint naming the resolved target as recipient, then to
/// the message endpoint for the channel id extracted from the first
/// response's body — not for the original recipient id — after which the
/// sequence is done with no further request.
pub proof fn lemma_dm_mode_two_posts(
    config: ResolvedConfigView,
    content: Seq<char>,
    open_status: u16,
    open_body: Seq<char>,
    post_status: u16,
    post_body: Seq<char>,
)
    requires
        spec_is_success(open_status),
        json_string_field_of(open_body, "id"@) is Some,
        spec_is_success(post_status),
    ensures
        ({
            let start = spec_dispatch_start(DispatchMode::DirectMessage, config, content);
            let second = spec_dispatch_continue(
                start.state,
                HttpOutcomeView::Response(
                    HttpResponseView { status: open_status, body: open_body },
                ),
            );
            let finish = spec_dispatch_continue(
                second.state,
                HttpOutcomeView::Response(
                    HttpResponseView { status: post_status, body: post_body },
                ),
            );
            &&& start.request == Some(spec_open_channel_request(config))
            &&& second.request == Some(
                spec_message_request(
                    config.token,
                    json_string_field_of(open_body, "id"@)->Some_0,
                    content,
                ),
            )
            &&& second.request->Some_0.endpoint == (EndpointView::ChannelMessages {
                channel_id: json_string_field_of(open_body, "id"@)->Some_0,
            })
            &&& finish.state is Done
            &&& finish.request is None
        }),
{
}

/// An open-channel response without the expected id member fails the
/// direct-message sequence with the malformed-response error and issues no
/// second POST.
pub proof fn lemma_missing_id_aborts(
    token: Seq<char>,
    content: Seq<char>,
    status: u16,
    body: Seq<char>,
)
    requires
        spec_is_success(status),
        json_string_field_of(body, "id"@) is None,
    ensures
        ({
            let step = spec_dispatch_continue(
                (DispatchStateView::AwaitingOpenChannel { token, content }),
                HttpOutcomeView::Response(HttpResponseView { status, body }),
            );
            &&& step.state == DispatchStateView::Failed(DispatchErrorView::MalformedResponse)
            &&& step.request is None
        }),
{
}

/// Any status outside the success range aborts the sequence with the HTTP
/// error naming that status and issues no further request; in
/// direct-message mode a failing open-channel step therefore yields zero
/// message posts.
pub proof fn lemma_error_status_aborts(state: DispatchStateView, status: u16, body: Seq<char>)
    requires
        state is AwaitingOpenChannel || state is AwaitingMessagePost,
        !spec_is_success(status),
    ensures
        ({
            let step = spec_dispatch_continue(
                state,
                HttpOutcomeView::Response(HttpResponseView { status, body }),
            );
            &&& step.state == DispatchStateView::Failed(
                DispatchErrorView::Http(HttpFailureView::Status(status)),
            )
            &&& step.request is None
        }),
{
}

/// A transport failure at either step aborts the sequence with the HTTP
/// error naming its cause and issues no further request.
pub proof fn lemma_transport_failure_aborts(state: DispatchStateView, cause: Seq<char>)
    requires
        state is AwaitingOpenChannel || state is AwaitingMessagePost,
    ensures
        ({
            let step = spec_dispatch_continue(state, HttpOutcomeView::TransportFailure(cause));
            &&& step.state == DispatchStateView::Failed(
                DispatchErrorView::Http(HttpFailureView::Transport(cause)),
            )
            &&& step.request is None
        }),
{
}

} // verus!
