use discord_notifier::config::ResolvedConfig;
use discord_notifier::dispatch::{
    bot_auth, dispatch_continue, dispatch_start, is_success_status, DispatchError, DispatchMode,
    DispatchState, Endpoint, HttpFailure, HttpOutcome, HttpResponse,
};

fn config() -> ResolvedConfig {
    ResolvedConfig {
        token: String::from("tok"),
        channel_or_user_id: String::from("target-1"),
    }
}

fn response(status: u16, body: &str) -> HttpOutcome {
    HttpOutcome::Response(HttpResponse { status, body: String::from(body) })
}

#[test]
fn channel_mode_issues_exactly_one_post() {
    let start = dispatch_start(DispatchMode::Channel, config(), String::from("hello"));
    let mut posts = 0;

    let request = start.request.expect("channel mode must open with a request");
    posts += 1;
    match &request.endpoint {
        Endpoint::ChannelMessages { channel_id } => assert_eq!(channel_id, "target-1"),
        Endpoint::OpenDirectChannel => panic!("channel mode must not open a DM channel"),
    }
    assert_eq!(request.body_field, "content");
    assert_eq!(request.body_value, "hello");
    assert_eq!(request.authorization, "Bot tok");

    let finish = dispatch_continue(start.state, response(204, ""));
    assert!(matches!(finish.state, DispatchState::Done));
    assert!(finish.request.is_none());
    assert_eq!(posts, 1);
}

#[test]
fn dm_mode_issues_two_posts_in_order() {
    let start = dispatch_start(DispatchMode::DirectMessage, config(), String::from("hello"));
    let mut posts = 0;

    let first = start.request.expect("DM mode must open with a request");
    posts += 1;
    assert!(matches!(first.endpoint, Endpoint::OpenDirectChannel));
    assert_eq!(first.body_field, "recipient_id");
    assert_eq!(first.body_value, "target-1");
    assert_eq!(first.authorization, "Bot tok");

    let second_step = dispatch_continue(start.state, response(200, "{\"id\":\"99\"}"));
    let second = second_step.request.expect("a successful open must yield the message post");
    posts += 1;
    match &second.endpoint {
        Endpoint::ChannelMessages { channel_id } => {
            assert_eq!(channel_id, "99");
            assert_ne!(channel_id, "target-1");
        }
        Endpoint::OpenDirectChannel => panic!("the second post must target the opened channel"),
    }
    assert_eq!(second.body_field, "content");
    assert_eq!(second.body_value, "hello");
    assert_eq!(second.authorization, "Bot tok");

    let finish = dispatch_continue(second_step.state, response(200, ""));
    assert!(matches!(finish.state, DispatchState::Done));
    assert!(finish.request.is_none());
    assert_eq!(posts, 2);
}

#[test]
fn dm_open_response_without_id_is_malformed() {
    let start = dispatch_start(DispatchMode::DirectMessage, config(), String::from("hello"));
    let step = dispatch_continue(start.state, response(200, "{}"));
    assert!(matches!(step.state, DispatchState::Failed(DispatchError::MalformedResponse)));
    assert!(step.request.is_none());
}

#[test]
fn dm_open_response_with_non_string_id_is_malformed() {
    let start = dispatch_start(DispatchMode::DirectMessage, config(), String::from("hello"));
    let step = dispatch_continue(start.state, response(200, "{\"id\":5}"));
    assert!(matches!(step.state, DispatchState::Failed(DispatchError::MalformedResponse)));
    assert!(step.request.is_none());
}

#[test]
fn dm_open_response_with_unparsable_body_is_malformed() {
    let start = dispatch_start(DispatchMode::DirectMessage, config(), String::from("hello"));
    let step = dispatch_continue(start.state, response(200, "not json"));
    assert!(matches!(step.state, DispatchState::Failed(DispatchError::MalformedResponse)));
    assert!(step.request.is_none());
}

#[test]
fn channel_post_error_status_aborts_with_that_status() {
    let start = dispatch_start(DispatchMode::Channel, config(), String::from("hello"));
    let step = dispatch_continue(start.state, response(404, "missing"));
    match step.state {
        DispatchState::Failed(DispatchError::Http(HttpFailure::Status(s))) => assert_eq!(s, 404),
        other => panic!("expected an HTTP status failure, got {:?}", other),
    }
    assert!(step.request.is_none());
}

#[test]
fn dm_failing_open_step_yields_zero_message_posts() {
    let start = dispatch_start(DispatchMode::DirectMessage, config(), String::from("hello"));
    let step = dispatch_continue(start.state, response(500, "{\"id\":\"99\"}"));
    match step.state {
        DispatchState::Failed(DispatchError::Http(HttpFailure::Status(s))) => assert_eq!(s, 500),
        other => panic!("expected an HTTP status failure, got {:?}", other),
    }
    assert!(step.request.is_none());
}

#[test]
fn transport_failure_aborts_with_its_cause() {
    let start = dispatch_start(DispatchMode::Channel, config(), String::from("hello"));
    let step = dispatch_continue(
        start.state,
        HttpOutcome::TransportFailure(String::from("connection refused")),
    );
    match step.state {
        DispatchState::Failed(DispatchError::Http(HttpFailure::Transport(cause))) => {
            assert_eq!(cause, "connection refused")
        }
        other => panic!("expected a transport failure, got {:?}", other),
    }
    assert!(step.request.is_none());
}

#[test]
fn success_range_is_the_two_hundreds() {
    assert!(is_success_status(200));
    assert!(is_success_status(204));
    assert!(is_success_status(299));
    assert!(!is_success_status(199));
    assert!(!is_success_status(300));
    assert!(!is_success_status(404));
}

#[test]
fn authorization_header_is_bot_prefixed() {
    assert_eq!(bot_auth(&String::from("abc")), "Bot abc");
}
