//! The two TrueLayer environments and what each one fixes: the
//! authorization and API hosts and the name of the credentials file.
//!
//! The set of environments is closed, so it is a plain enum; the caller
//! picks one and everything derived from it follows by computation.

use vstd::prelude::*;
use vstd::string::StringExecFns;

verus! {

/// A client identifier and secret, as read from the credentials file.
#[derive(Clone)]
pub struct ClientCredentials {
    pub client_id: String,
    pub client_secret: String,
}

/// The sandbox environment.
pub struct TrueLayerSandboxAPI;

/// The live environment.
pub struct TrueLayerLiveAPI;

/// The environment a flow talks to.
pub enum TrueLayerAPI {
    Sandbox(TrueLayerSandboxAPI),
    Live(TrueLayerLiveAPI),
}

impl TrueLayerAPI {
    /// The authorization server's host.
    pub open spec fn spec_auth_host(self) -> Seq<char> {
        match self {
            TrueLayerAPI::Sandbox(_) => "auth.truelayer-sandbox.com"@,
            TrueLayerAPI::Live(_) => "auth.truelayer.com"@,
        }
    }

    /// The REST API's host.
    pub open spec fn spec_api_host(self) -> Seq<char> {
        match self {
            TrueLayerAPI::Sandbox(_) => "api.truelayer-sandbox.com"@,
            TrueLayerAPI::Live(_) => "api.truelayer.com"@,
        }
    }

    /// The per-environment credentials file name.
    pub open spec fn spec_credentials_file(self) -> Seq<char> {
        match self {
            TrueLayerAPI::Sandbox(_) => "truelayer-sandbox.json"@,
            TrueLayerAPI::Live(_) => "truelayer-live.json"@,
        }
    }

    /// The URL the browser is sent to, before query parameters.
    pub open spec fn spec_authorize_url(self) -> Seq<char> {
        "https://"@ + self.spec_auth_host() + "/"@
    }

    /// The URL the authorization code is exchanged at.
    pub open spec fn spec_token_url(self) -> Seq<char> {
        "https://"@ + self.spec_auth_host() + "/connect/token"@
    }

    pub fn auth_host(&self) -> (r: &'static str)
        ensures
            r@ == self.spec_auth_host(),
    {
        match self {
            TrueLayerAPI::Sandbox(_) => "auth.truelayer-sandbox.com",
            TrueLayerAPI::Live(_) => "auth.truelayer.com",
        }
    }

    pub fn api_host(&self) -> (r: &'static str)
        ensures
            r@ == self.spec_api_host(),
    {
        match self {
            TrueLayerAPI::Sandbox(_) => "api.truelayer-sandbox.com",
            TrueLayerAPI::Live(_) => "api.truelayer.com",
        }
    }

    pub fn credentials_file(&self) -> (r: &'static str)
        ensures
            r@ == self.spec_credentials_file(),
    {
        match self {
            TrueLayerAPI::Sandbox(_) => "truelayer-sandbox.json",
            TrueLayerAPI::Live(_) => "truelayer-live.json",
        }
    }

    pub fn authorize_url(&self) -> (r: String)
        ensures
            r@ == self.spec_authorize_url(),
    {
        let mut s = String::from_str("https://");
        s.append(self.auth_host());
        s.append("/");
        s
    }

    pub fn token_url(&self) -> (r: String)
        ensures
            r@ == self.spec_token_url(),
    {
        let mut s = String::from_str("https://");
        s.append(self.auth_host());
        s.append("/connect/token");
        s
    }
}

} // verus!
