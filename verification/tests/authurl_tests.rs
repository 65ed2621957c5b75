use loopback_auth::authurl::authorization_params;
use loopback_auth::strutil::join_with_spaces;
use loopback_auth::strutil::u16_to_decimal;

#[test]
fn decimal_rendering_is_exact() {
    assert_eq!(u16_to_decimal(0), "0");
    assert_eq!(u16_to_decimal(7), "7");
    assert_eq!(u16_to_decimal(3003), "3003");
    assert_eq!(u16_to_decimal(17465), "17465");
    assert_eq!(u16_to_decimal(65535), "65535");
}

#[test]
fn scopes_are_joined_with_single_spaces() {
    let scopes = vec!["accounts".to_string(), "balance".to_string()];
    assert_eq!(join_with_spaces(&scopes), "accounts balance");
    assert_eq!(join_with_spaces(&vec![]), "");
    assert_eq!(join_with_spaces(&vec!["accounts".to_string()]), "accounts");
}

#[test]
fn the_authorization_query_carries_each_parameter_once() {
    let params = authorization_params(
        "client-1",
        "http://127.0.0.1:3003/redirect",
        "state-1",
        "challenge-1",
        "accounts balance",
    );
    let expected: Vec<(String, String)> = vec![
        ("response_type".to_string(), "code".to_string()),
        ("client_id".to_string(), "client-1".to_string()),
        ("redirect_uri".to_string(), "http://127.0.0.1:3003/redirect".to_string()),
        ("scope".to_string(), "accounts balance".to_string()),
        ("state".to_string(), "state-1".to_string()),
        ("code_challenge".to_string(), "challenge-1".to_string()),
        ("code_challenge_method".to_string(), "S256".to_string()),
        (
            "providers".to_string(),
            "uk-ob-all uk-oauth-all uk-cs-mock".to_string(),
        ),
    ];
    assert_eq!(params, expected);
}

#[test]
fn the_challenge_method_is_always_sha256() {
    let params = authorization_params("c", "r", "s", "ch", "sc");
    let methods: Vec<&(String, String)> =
        params.iter().filter(|p| p.0 == "code_challenge_method").collect();
    assert_eq!(methods.len(), 1);
    assert_eq!(methods[0].1, "S256");
}

#[test]
fn the_state_parameter_is_the_flows_csrf_token() {
    let params = authorization_params("c", "r", "the-csrf-value", "ch", "sc");
    let states: Vec<&(String, String)> = params.iter().filter(|p| p.0 == "state").collect();
    assert_eq!(states.len(), 1);
    assert_eq!(states[0].1, "the-csrf-value");
}
