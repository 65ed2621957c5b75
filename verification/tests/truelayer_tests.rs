use loopback_auth::truelayer::TrueLayerAPI;
use loopback_auth::truelayer::TrueLayerLiveAPI;
use loopback_auth::truelayer::TrueLayerSandboxAPI;

#[test]
fn the_sandbox_environment_is_fixed() {
    let api = TrueLayerAPI::Sandbox(TrueLayerSandboxAPI);
    assert_eq!(api.auth_host(), "auth.truelayer-sandbox.com");
    assert_eq!(api.api_host(), "api.truelayer-sandbox.com");
    assert_eq!(api.credentials_file(), "truelayer-sandbox.json");
    assert_eq!(api.authorize_url(), "https://auth.truelayer-sandbox.com/");
    assert_eq!(api.token_url(), "https://auth.truelayer-sandbox.com/connect/token");
}

#[test]
fn the_live_environment_is_fixed() {
    let api = TrueLayerAPI::Live(TrueLayerLiveAPI);
    assert_eq!(api.auth_host(), "auth.truelayer.com");
    assert_eq!(api.api_host(), "api.truelayer.com");
    assert_eq!(api.credentials_file(), "truelayer-live.json");
    assert_eq!(api.authorize_url(), "https://auth.truelayer.com/");
    assert_eq!(api.token_url(), "https://auth.truelayer.com/connect/token");
}
