//! Scenario tests for the authenticated-request coordinator: the single
//! refresh-and-retry cycle, passthrough of terminal outcomes, refresh
//! deduplication across concurrent requests, and scoped release of the
//! Refresh Gate.

use monzo::client::flow::{FirstDecision, RequestFlow};
use monzo::client::transport::ScriptedTransport;
use monzo::client::{ensure_fresh_token, execute_with_refresh, handle_response};
use monzo::endpoints::auth;
use monzo::endpoints::balance;
use monzo::inner_client::{Quick, Refreshable};
use monzo::{Client, Error};

fn refresh_response(access: &str, refresh: &str) -> auth::Response {
    auth::Response {
        access_token: String::from(access),
        client_id: String::from("client_id"),
        expires_in: 21600,
        refresh_token: String::from(refresh),
        token_type: String::from("bearer_auth"),
        user_id: String::from("user_1"),
    }
}

fn refreshable_client(access: &str) -> Refreshable {
    Refreshable::from_quick_client(
        Quick::new(String::from(access)),
        String::from("client_id"),
        String::from("client_secret"),
        String::from("refresh_0"),
    )
}

fn endpoint() -> monzo::endpoints::Endpoint {
    balance::Get::new("acc_1234").to_endpoint()
}

#[test]
fn success_on_first_call_never_refreshes() {
    let mut client = refreshable_client("token_0");
    let mut transport = ScriptedTransport::new(
        vec![Ok((200, b"{\"balance\":10}".to_vec()))],
        vec![Ok(refresh_response("unused", "unused"))],
    );
    let e = endpoint();
    let r = execute_with_refresh(&mut client, &e, &mut transport);
    assert_eq!(r, Ok(b"{\"balance\":10}".to_vec()));
    assert_eq!(transport.responses_remaining(), 0);
    assert_eq!(transport.refreshes_remaining(), 1);
    assert_eq!(client.access_token().as_str(), "token_0");
}

#[test]
fn auth_failure_refreshes_and_retries_once() {
    let mut client = refreshable_client("stale");
    let mut transport = ScriptedTransport::new(
        vec![Ok((401, Vec::new())), Ok((200, b"ok".to_vec()))],
        vec![Ok(refresh_response("fresh", "refresh_1"))],
    );
    let e = endpoint();
    let r = execute_with_refresh(&mut client, &e, &mut transport);
    assert_eq!(r, Ok(b"ok".to_vec()));
    assert_eq!(transport.responses_remaining(), 0);
    assert_eq!(transport.refreshes_remaining(), 0);
    assert_eq!(client.access_token().as_str(), "fresh");
    assert_eq!(client.refresh_token().as_str(), "refresh_1");
    assert!(!client.is_refresh_in_flight());
}

#[test]
fn second_auth_failure_is_terminal() {
    let mut client = refreshable_client("stale");
    let mut transport = ScriptedTransport::new(
        vec![Ok((401, Vec::new())), Ok((401, Vec::new()))],
        vec![Ok(refresh_response("fresh", "refresh_1"))],
    );
    let e = endpoint();
    let r = execute_with_refresh(&mut client, &e, &mut transport);
    assert_eq!(r, Err(Error::AuthExpired));
    // exactly two executor calls and exactly one refresh call
    assert_eq!(transport.responses_remaining(), 0);
    assert_eq!(transport.refreshes_remaining(), 0);
}

#[test]
fn server_error_is_terminal_and_never_refreshes() {
    let mut client = refreshable_client("token_0");
    let mut transport = ScriptedTransport::new(
        vec![Ok((500, Vec::new())), Ok((200, b"unreached".to_vec()))],
        vec![Ok(refresh_response("unused", "unused"))],
    );
    let e = endpoint();
    let r = execute_with_refresh(&mut client, &e, &mut transport);
    assert_eq!(r, Err(Error::Server(500)));
    assert_eq!(transport.responses_remaining(), 1);
    assert_eq!(transport.refreshes_remaining(), 1);
    assert_eq!(client.access_token().as_str(), "token_0");
}

#[test]
fn transport_error_is_terminal_and_never_refreshes() {
    let mut client = refreshable_client("token_0");
    let mut transport = ScriptedTransport::new(
        vec![Err(Error::Transport)],
        vec![Ok(refresh_response("unused", "unused"))],
    );
    let e = endpoint();
    let r = execute_with_refresh(&mut client, &e, &mut transport);
    assert_eq!(r, Err(Error::Transport));
    assert_eq!(transport.refreshes_remaining(), 1);
}

#[test]
fn failed_refresh_still_retries_and_reopens_the_refresh_gate() {
    let mut client = refreshable_client("stale");
    let mut transport = ScriptedTransport::new(
        vec![Ok((401, Vec::new())), Ok((401, Vec::new()))],
        vec![Err(Error::Transport)],
    );
    let e = endpoint();
    let r = execute_with_refresh(&mut client, &e, &mut transport);
    assert_eq!(r, Err(Error::AuthExpired));
    assert_eq!(transport.responses_remaining(), 0);
    assert_eq!(transport.refreshes_remaining(), 0);
    // the failed attempt left the tokens alone and reopened the Refresh Gate
    assert_eq!(client.access_token().as_str(), "stale");
    assert_eq!(client.refresh_token().as_str(), "refresh_0");
    assert!(!client.is_refresh_in_flight());
}

#[test]
fn concurrent_auth_failures_share_one_refresh_call() {
    // Two logical requests against one shared client fail with 401 at the
    // same time; their refresh attempts overlap, and only one network
    // refresh happens.
    let mut client = refreshable_client("stale");
    let mut transport = ScriptedTransport::new(
        vec![
            Ok((401, Vec::new())),
            Ok((401, Vec::new())),
            Ok((200, b"one".to_vec())),
            Ok((200, b"two".to_vec())),
        ],
        vec![Ok(refresh_response("fresh", "refresh_1"))],
    );
    let e = endpoint();

    let mut flow_1 = RequestFlow::new(true);
    let mut flow_2 = RequestFlow::new(true);
    flow_1.start();
    flow_2.start();

    let first_1 = transport.execute(&e, Some(client.access_token()));
    assert!(matches!(
        flow_1.on_first_result(first_1),
        FirstDecision::RefreshAndRetry
    ));
    let first_2 = transport.execute(&e, Some(client.access_token()));
    assert!(matches!(
        flow_2.on_first_result(first_2),
        FirstDecision::RefreshAndRetry
    ));

    // the first task takes the Refresh Gate
    assert!(client.try_begin_refresh());

    // the second task sees the Refresh Gate taken and defers: no call of its own
    assert_eq!(ensure_fresh_token(&mut client, &mut transport), Ok(()));
    assert_eq!(transport.refreshes_remaining(), 1);
    flow_2.on_refresh_complete();

    // the holder performs the one refresh call and commits
    let request = client.get_refresh_tokens();
    let outcome = transport.refresh(&request);
    assert_eq!(client.complete_refresh(outcome), Ok(()));
    flow_1.on_refresh_complete();

    // refresh call count across both requests: exactly one
    assert_eq!(transport.refreshes_remaining(), 0);
    assert!(!client.is_refresh_in_flight());
    assert_eq!(client.access_token().as_str(), "fresh");

    let retry_1 = transport.execute(&e, Some(client.access_token()));
    assert_eq!(flow_1.on_retry_result(retry_1), Ok(b"one".to_vec()));
    let retry_2 = transport.execute(&e, Some(client.access_token()));
    assert_eq!(flow_2.on_retry_result(retry_2), Ok(b"two".to_vec()));
}

#[test]
fn deferring_task_may_still_see_the_stale_token() {
    // The non-blocking Refresh Gate is best-effort: a task that defers does not
    // wait for the holder, so its retry may read the old token if it runs
    // before the holder commits.
    let mut client = refreshable_client("stale");
    let mut transport = ScriptedTransport::new(
        vec![Ok((401, Vec::new())), Ok((401, Vec::new()))],
        vec![Ok(refresh_response("fresh", "refresh_1"))],
    );
    let e = endpoint();

    // another task holds the Refresh Gate the whole time
    assert!(client.try_begin_refresh());

    let r = execute_with_refresh(&mut client, &e, &mut transport);
    // the deferring request retried with the stale token and failed again
    assert_eq!(r, Err(Error::AuthExpired));
    assert_eq!(transport.refreshes_remaining(), 1);
    assert_eq!(client.access_token().as_str(), "stale");
    assert!(client.is_refresh_in_flight());
}

#[test]
fn quick_client_surfaces_auth_failure_directly() {
    let mut client = Client::new(String::from("token_0"));
    let mut transport = ScriptedTransport::new(vec![Ok((401, Vec::new()))], Vec::new());
    let e = endpoint();
    let r = client.execute(&e, &mut transport);
    assert_eq!(r, Err(Error::AuthExpired));
    assert_eq!(transport.responses_remaining(), 0);
}

#[test]
fn client_level_coordinator_refreshes_when_upgraded() {
    let mut client = Client::new(String::from("stale")).with_refresh_tokens(
        String::from("client_id"),
        String::from("client_secret"),
        String::from("refresh_0"),
    );
    let mut transport = ScriptedTransport::new(
        vec![Ok((401, Vec::new())), Ok((200, b"ok".to_vec()))],
        vec![Ok(refresh_response("fresh", "refresh_1"))],
    );
    let e = endpoint();
    let r = client.execute(&e, &mut transport);
    assert_eq!(r, Ok(b"ok".to_vec()));
    assert_eq!(client.access_token().as_str(), "fresh");
    assert_eq!(client.refresh_token().as_str(), "refresh_1");
    assert_eq!(transport.refreshes_remaining(), 0);
}

#[test]
fn manual_refresh_applies_both_tokens_atomically() {
    let mut client = refreshable_client("stale");
    let expires = client.refresh_auth(refresh_response("fresh", "refresh_1"));
    assert_eq!(expires, 21600);
    assert_eq!(client.access_token().as_str(), "fresh");
    assert_eq!(client.refresh_token().as_str(), "refresh_1");
    assert!(!client.is_refresh_in_flight());
}

#[test]
fn handle_response_classifies_statuses() {
    assert_eq!(handle_response(200, b"body".to_vec()), Ok(b"body".to_vec()));
    assert_eq!(handle_response(204, Vec::new()), Ok(Vec::new()));
    assert_eq!(handle_response(299, Vec::new()), Ok(Vec::new()));
    assert_eq!(handle_response(401, Vec::new()), Err(Error::AuthExpired));
    assert_eq!(handle_response(404, Vec::new()), Err(Error::Client(404)));
    assert_eq!(handle_response(503, Vec::new()), Err(Error::Server(503)));
    assert_eq!(
        handle_response(302, Vec::new()),
        Err(Error::UnexpectedStatus(302))
    );
    assert_eq!(
        handle_response(199, Vec::new()),
        Err(Error::UnexpectedStatus(199))
    );
}

#[test]
fn failed_refresh_attempt_surfaces_refresh_failed() {
    let mut client = refreshable_client("stale");
    assert!(client.try_begin_refresh());
    let r = client.complete_refresh(Err(Error::Transport));
    assert_eq!(r, Err(Error::RefreshFailed));
    assert!(!client.is_refresh_in_flight());
    assert_eq!(client.access_token().as_str(), "stale");
    assert_eq!(client.refresh_token().as_str(), "refresh_0");
}

#[test]
fn error_classification_from_status() {
    assert_eq!(Error::from(401u16), Error::AuthExpired);
    assert_eq!(Error::from(400u16), Error::Client(400));
    assert_eq!(Error::from(499u16), Error::Client(499));
    assert_eq!(Error::from(500u16), Error::Server(500));
    assert_eq!(Error::from(599u16), Error::Server(599));
    assert_eq!(Error::from(100u16), Error::UnexpectedStatus(100));
}
