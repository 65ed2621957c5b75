use loopback_auth::callback::extract_authorization_code;
use loopback_auth::callback::handle_request;
use loopback_auth::callback::ExtractError;
use loopback_auth::callback::HttpMethod;
use loopback_auth::callback::RejectReason;
use loopback_auth::callback::RequestOutcome;

fn pairs(raw: &[(&str, &str)]) -> Vec<(String, String)> {
    raw.iter().map(|(k, v)| (k.to_string(), v.to_string())).collect()
}

#[test]
fn valid_callback_yields_the_code() {
    let q = pairs(&[("code", "Mac-dc6"), ("state", "DL7jz5YIW4WusaYdDZrXzA==")]);
    let csrf = "DL7jz5YIW4WusaYdDZrXzA==".to_string();
    assert_eq!(extract_authorization_code(&q, &csrf), Ok("Mac-dc6".to_string()));
}

#[test]
fn scope_is_ignored_but_not_rejected() {
    let q = pairs(&[("code", "c1"), ("state", "s1"), ("scope", "accounts balance")]);
    let csrf = "s1".to_string();
    assert_eq!(extract_authorization_code(&q, &csrf), Ok("c1".to_string()));
}

#[test]
fn missing_state_is_rejected() {
    let q = pairs(&[("code", "c1")]);
    let csrf = "s1".to_string();
    assert_eq!(extract_authorization_code(&q, &csrf), Err(ExtractError::MissingState));
}

#[test]
fn mismatched_state_is_rejected() {
    let q = pairs(&[("code", "c1"), ("state", "someone-elses")]);
    let csrf = "s1".to_string();
    assert_eq!(extract_authorization_code(&q, &csrf), Err(ExtractError::CsrfMismatch));
}

#[test]
fn missing_code_is_rejected() {
    let q = pairs(&[("state", "s1")]);
    let csrf = "s1".to_string();
    assert_eq!(extract_authorization_code(&q, &csrf), Err(ExtractError::MissingCode));
}

#[test]
fn duplicate_code_is_rejected_not_resolved() {
    let q = pairs(&[("code", "first"), ("state", "s1"), ("code", "second")]);
    let csrf = "s1".to_string();
    assert_eq!(extract_authorization_code(&q, &csrf), Err(ExtractError::DuplicateCode));
}

#[test]
fn duplicate_state_is_rejected_not_resolved() {
    let q = pairs(&[("state", "s1"), ("state", "s1"), ("code", "c1")]);
    let csrf = "s1".to_string();
    assert_eq!(extract_authorization_code(&q, &csrf), Err(ExtractError::DuplicateState));
}

#[test]
fn unexpected_parameter_is_rejected() {
    let q = pairs(&[("code", "c1"), ("state", "s1"), ("prompt", "none")]);
    let csrf = "s1".to_string();
    assert_eq!(extract_authorization_code(&q, &csrf), Err(ExtractError::UnexpectedParameter));
}

#[test]
fn empty_query_is_rejected_for_missing_state() {
    let q = pairs(&[]);
    let csrf = "s1".to_string();
    assert_eq!(extract_authorization_code(&q, &csrf), Err(ExtractError::MissingState));
}

#[test]
fn non_get_method_is_rejected() {
    let csrf = "s1".to_string();
    let parsed = ("/redirect".to_string(), pairs(&[("code", "c1"), ("state", "s1")]));
    let r = handle_request(&HttpMethod::Other, Some(&parsed), &csrf);
    assert!(matches!(r, RequestOutcome::Reject(RejectReason::UnsupportedMethod)));
}

#[test]
fn unrecognized_path_is_rejected() {
    let csrf = "s1".to_string();
    let parsed = ("/favicon.ico".to_string(), pairs(&[]));
    let r = handle_request(&HttpMethod::Get, Some(&parsed), &csrf);
    assert!(matches!(r, RequestOutcome::Reject(RejectReason::UnrecognizedPath)));
}

#[test]
fn malformed_target_is_rejected() {
    let csrf = "s1".to_string();
    let r = handle_request(&HttpMethod::Get, None, &csrf);
    assert!(matches!(r, RequestOutcome::Reject(RejectReason::MalformedTarget)));
}

#[test]
fn valid_request_is_accepted_with_the_code() {
    let csrf = "s1".to_string();
    let parsed = ("/redirect".to_string(), pairs(&[("code", "c1"), ("state", "s1")]));
    let r = handle_request(&HttpMethod::Get, Some(&parsed), &csrf);
    match r {
        RequestOutcome::Accept(code) => assert_eq!(code, "c1"),
        RequestOutcome::Reject(_) => panic!("a valid callback must be accepted"),
    }
}

#[test]
fn statuses_follow_the_outcome() {
    let accept = RequestOutcome::Accept("c1".to_string());
    let reject = RequestOutcome::Reject(RejectReason::UnrecognizedPath);
    assert_eq!(accept.status_code(), 200);
    assert_eq!(reject.status_code(), 404);
}
