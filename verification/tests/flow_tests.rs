use loopback_auth::callback::HttpMethod;
use loopback_auth::callback::RequestOutcome;
use loopback_auth::flow::AuthFlow;
use loopback_auth::flow::Phase;
use loopback_auth::truelayer::ClientCredentials;
use loopback_auth::truelayer::TrueLayerAPI;
use loopback_auth::truelayer::TrueLayerSandboxAPI;

fn fresh_flow() -> AuthFlow {
    let credentials = ClientCredentials {
        client_id: "client-1".to_string(),
        client_secret: "SECRET-REDACTED".to_string(),
    };
    AuthFlow::new(TrueLayerAPI::Sandbox(TrueLayerSandboxAPI), credentials)
}

fn armed_flow() -> AuthFlow {
    let mut flow = fresh_flow();
    flow.on_listener_bound(3003);
    flow.arm("csrf-1".to_string(), "verifier-1".to_string(), "challenge-1".to_string());
    flow
}

fn query(raw: &[(&str, &str)]) -> Vec<(String, String)> {
    raw.iter().map(|(k, v)| (k.to_string(), v.to_string())).collect()
}

#[test]
fn the_flow_walks_its_phases_in_order() {
    let mut flow = fresh_flow();
    assert_eq!(flow.phase(), Phase::Idle);
    flow.on_listener_bound(17465);
    assert_eq!(flow.phase(), Phase::ListenerBound);
    assert_eq!(flow.redirect_uri().as_str(), "http://127.0.0.1:17465/redirect");
    flow.arm("s1".to_string(), "v1".to_string(), "c1".to_string());
    assert_eq!(flow.phase(), Phase::AwaitingCallback);
    let parsed = ("/redirect".to_string(), query(&[("code", "code-9"), ("state", "s1")]));
    let r = flow.on_request(&HttpMethod::Get, Some(&parsed));
    assert!(matches!(r, RequestOutcome::Accept(_)));
    assert_eq!(flow.phase(), Phase::CodeReceived);
    flow.on_listener_released();
    assert_eq!(flow.phase(), Phase::ListenerReleased);
}

#[test]
fn a_rejected_request_leaves_the_flow_waiting() {
    let mut flow = armed_flow();
    let parsed = ("/favicon.ico".to_string(), query(&[]));
    let r = flow.on_request(&HttpMethod::Get, Some(&parsed));
    assert!(matches!(r, RequestOutcome::Reject(_)));
    assert_eq!(flow.phase(), Phase::AwaitingCallback);

    // a later well-formed callback still goes through
    let good = ("/redirect".to_string(), query(&[("code", "code-2"), ("state", "csrf-1")]));
    let r = flow.on_request(&HttpMethod::Get, Some(&good));
    match r {
        RequestOutcome::Accept(code) => assert_eq!(code, "code-2"),
        RequestOutcome::Reject(_) => panic!("the valid callback after noise must be accepted"),
    }
    assert_eq!(flow.phase(), Phase::CodeReceived);
}

#[test]
fn a_mismatched_state_keeps_the_flow_alive() {
    let mut flow = armed_flow();
    let bad = ("/redirect".to_string(), query(&[("code", "c"), ("state", "forged")]));
    let r = flow.on_request(&HttpMethod::Get, Some(&bad));
    assert!(matches!(r, RequestOutcome::Reject(_)));
    assert_eq!(flow.phase(), Phase::AwaitingCallback);
}

#[test]
fn the_stream_ending_fails_the_flow() {
    let mut flow = armed_flow();
    flow.on_stream_ended();
    assert_eq!(flow.phase(), Phase::Failed);
}

#[test]
fn no_exchange_before_the_listener_is_released() {
    let mut flow = armed_flow();
    let parsed = ("/redirect".to_string(), query(&[("code", "code-7"), ("state", "csrf-1")]));
    let r = flow.on_request(&HttpMethod::Get, Some(&parsed));
    assert!(matches!(r, RequestOutcome::Accept(_)));

    // the port is still held: the exchange request is not available
    assert!(flow.token_request().is_none());

    flow.on_listener_released();
    let t = flow.token_request().expect("released flow must offer the exchange");
    assert_eq!(t.code, "code-7");
    assert_eq!(t.redirect_uri, "http://127.0.0.1:3003/redirect");
    assert_eq!(t.token_url, "https://auth.truelayer-sandbox.com/connect/token");
    assert_eq!(t.client_id, "client-1");
}

#[test]
fn the_exchange_presents_the_armed_verifier() {
    let mut flow = armed_flow();
    let parsed = ("/redirect".to_string(), query(&[("code", "c"), ("state", "csrf-1")]));
    flow.on_request(&HttpMethod::Get, Some(&parsed));
    flow.on_listener_released();
    let t = flow.token_request().unwrap();
    assert_eq!(t.verifier, "verifier-1");
}
