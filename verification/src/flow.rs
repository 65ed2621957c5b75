//! The authorization flow as an explicit state machine.
//!
//! One flow moves linearly: a listener is bound, the browser is armed
//! with the authorization URL, callback requests are judged one at a
//! time, the listener is released, and only then may the code be
//! exchanged.  A failure is terminal; nothing branches back.  The
//! sides that touch the world — binding the listener, opening the
//! browser, answering HTTP requests, posting the exchange — live with
//! the caller, which feeds events in and carries actions out.

use crate::callback::extract_spec;
use crate::callback::pair_views;
use crate::callback::handle_request;
use crate::callback::HttpMethod;
use crate::callback::RequestOutcome;
use crate::strutil::dec_digits;
use crate::strutil::u16_to_decimal;
use crate::truelayer::ClientCredentials;
use crate::truelayer::TrueLayerAPI;
use vstd::prelude::*;
use vstd::string::StringExecFns;

verus! {

/// Where a flow stands.  The order is linear; `Failed` is terminal.
#[derive(Clone, Copy, Debug, PartialEq, Eq, Structural)]
pub enum Phase {
    /// Nothing bound yet.
    Idle,
    /// A loopback port is bound; the redirect URI is fixed.
    ListenerBound,
    /// The browser has its URL; requests are being judged.
    AwaitingCallback,
    /// A valid callback arrived; the listener is still bound.
    CodeReceived,
    /// The port is free again; the exchange may be prepared.
    ListenerReleased,
    /// The code went out for a token; the flow is complete.
    TokenExchanged,
    /// A terminal failure; the caller must start a fresh flow.
    Failed,
}

/// The redirect URI registered for a bound port: the callback endpoint
/// on the IPv4 loopback address.
pub open spec fn redirect_uri_chars(port: u16) -> Seq<char> {
    "http://127.0.0.1:"@ + dec_digits(port as nat) + "/redirect"@
}

/// Everything the token endpoint needs for the exchange.
pub struct TokenRequest {
    pub token_url: String,
    pub client_id: String,
    pub client_secret: String,
    pub code: String,
    pub redirect_uri: String,
    pub verifier: String,
}

/// One authorization transaction.
pub struct AuthFlow {
    phase: Phase,
    api: TrueLayerAPI,
    client_id: String,
    client_secret: String,
    port: u16,
    redirect_uri: String,
    csrf: String,
    verifier: String,
    challenge: String,
    code: String,
}

impl AuthFlow {
    pub closed spec fn spec_phase(self) -> Phase {
        self.phase
    }

    pub closed spec fn spec_api(self) -> TrueLayerAPI {
        self.api
    }

    pub closed spec fn spec_client_id(self) -> Seq<char> {
        self.client_id@
    }

    pub closed spec fn spec_client_secret(self) -> Seq<char> {
        self.client_secret@
    }

    pub closed spec fn spec_port(self) -> u16 {
        self.port
    }

    pub closed spec fn spec_redirect_uri(self) -> Seq<char> {
        self.redirect_uri@
    }

    pub closed spec fn spec_csrf(self) -> Seq<char> {
        self.csrf@
    }

    pub closed spec fn spec_verifier(self) -> Seq<char> {
        self.verifier@
    }

    pub closed spec fn spec_challenge(self) -> Seq<char> {
        self.challenge@
    }

    pub closed spec fn spec_code(self) -> Seq<char> {
        self.code@
    }

    /// The fields a transition never touches.
    pub open spec fn same_client(self, other: AuthFlow) -> bool {
        &&& self.spec_api() == other.spec_api()
        &&& self.spec_client_id() == other.spec_client_id()
        &&& self.spec_client_secret() == other.spec_client_secret()
    }

    /// The secrets fixed when the flow was armed.
    pub open spec fn same_secrets(self, other: AuthFlow) -> bool {
        &&& self.spec_csrf() == other.spec_csrf()
        &&& self.spec_verifier() == other.spec_verifier()
        &&& self.spec_challenge() == other.spec_challenge()
    }

    /// The listener binding fixed when the port was acquired.
    pub open spec fn same_listener(self, other: AuthFlow) -> bool {
        &&& self.spec_port() == other.spec_port()
        &&& self.spec_redirect_uri() == other.spec_redirect_uri()
    }

    /// A fresh, idle flow for one environment and one set of client
    /// credentials.
    pub fn new(api: TrueLayerAPI, credentials: ClientCredentials) -> (f: AuthFlow)
        ensures
            f.spec_phase() == Phase::Idle,
            f.spec_api() == api,
            f.spec_client_id() == credentials.client_id@,
            f.spec_client_secret() == credentials.client_secret@,
    {
        AuthFlow {
            phase: Phase::Idle,
            api,
            client_id: credentials.client_id,
            client_secret: credentials.client_secret,
            port: 0,
            redirect_uri: String::new(),
            csrf: String::new(),
            verifier: String::new(),
            challenge: String::new(),
            code: String::new(),
        }
    }

    pub fn phase(&self) -> (p: Phase)
        ensures
            p == self.spec_phase(),
    {
        self.phase
    }

    /// The environment this flow talks to.
    pub fn api(&self) -> (r: &TrueLayerAPI)
        ensures
            *r == self.spec_api(),
    {
        &self.api
    }

    /// The client identifier the flow authorizes for.
    pub fn client_id(&self) -> (r: &String)
        ensures
            r@ == self.spec_client_id(),
    {
        &self.client_id
    }

    /// The redirect URI derived from the bound port.
    pub fn redirect_uri(&self) -> (r: &String)
        ensures
            r@ == self.spec_redirect_uri(),
    {
        &self.redirect_uri
    }

    /// Records the bound loopback port and fixes the redirect URI the
    /// authorization server must send the browser back to.
    pub fn on_listener_bound(&mut self, port: u16)
        requires
            old(self).spec_phase() == Phase::Idle,
        ensures
            final(self).spec_phase() == Phase::ListenerBound,
            final(self).spec_port() == port,
            final(self).spec_redirect_uri() == redirect_uri_chars(port),
            final(self).same_client(*old(self)),
    {
        let mut uri = String::from_str("http://127.0.0.1:");
        let digits = u16_to_decimal(port);
        uri.append(digits.as_str());
        uri.append("/redirect");
        self.port = port;
        self.redirect_uri = uri;
        self.phase = Phase::ListenerBound;
    }

    /// Arms the flow with the secrets of this run: the CSRF state sent
    /// with the authorization URL, and the PKCE verifier whose
    /// challenge went out with it.  From here the flow waits for the
    /// callback.
    pub fn arm(&mut self, csrf: String, verifier: String, challenge: String)
        requires
            old(self).spec_phase() == Phase::ListenerBound,
        ensures
            final(self).spec_phase() == Phase::AwaitingCallback,
            final(self).spec_csrf() == csrf@,
            final(self).spec_verifier() == verifier@,
            final(self).spec_challenge() == challenge@,
            final(self).same_client(*old(self)),
            final(self).same_listener(*old(self)),
    {
        self.csrf = csrf;
        self.verifier = verifier;
        self.challenge = challenge;
        self.phase = Phase::AwaitingCallback;
    }

    /// Judges one callback request.  Only a GET of the redirect path
    /// whose query passes validation against this flow's CSRF token is
    /// accepted; it carries the code, and the flow stops listening.  A
    /// rejected request leaves the flow exactly as it was, still
    /// waiting — stray traffic on the loopback port never ends a
    /// pending flow.
    pub fn on_request(
        &mut self,
        method: &HttpMethod,
        parsed: Option<&(String, Vec<(String, String)>)>,
    ) -> (r: RequestOutcome)
        requires
            old(self).spec_phase() == Phase::AwaitingCallback,
        ensures
            method is Other ==> r is Reject,
            method is Get && parsed is None ==> r is Reject,
            parsed matches Some(t) ==> (method is Get && t.0@ != "/redirect"@ ==> r is Reject),
            parsed matches Some(t) ==> (method is Get && t.0@ == "/redirect"@ ==> {
                let s = extract_spec(pair_views(t.1@), old(self).spec_csrf());
                &&& (r is Accept <==> s is Ok)
                &&& (r matches RequestOutcome::Accept(c) ==> c@ == s->Ok_0)
            }),
            r is Accept ==> final(self).spec_phase() == Phase::CodeReceived
                && final(self).spec_code() == r->Accept_0@,
            r is Reject ==> *final(self) == *old(self),
            final(self).same_client(*old(self)),
            final(self).same_listener(*old(self)),
            final(self).same_secrets(*old(self)),
    {
        let outcome = handle_request(method, parsed, &self.csrf);
        match &outcome {
            RequestOutcome::Accept(code) => {
                self.code = code.clone();
                self.phase = Phase::CodeReceived;
            },
            RequestOutcome::Reject(_) => {},
        }
        outcome
    }

    /// The incoming-request stream ended before a valid callback: the
    /// flow fails terminally.
    pub fn on_stream_ended(&mut self)
        requires
            old(self).spec_phase() == Phase::AwaitingCallback,
        ensures
            final(self).spec_phase() == Phase::Failed,
            final(self).same_client(*old(self)),
            final(self).same_listener(*old(self)),
            final(self).same_secrets(*old(self)),
    {
        self.phase = Phase::Failed;
    }

    /// Records that the listener is torn down and its port released.
    /// Only this step opens the way to the token exchange.
    pub fn on_listener_released(&mut self)
        requires
            old(self).spec_phase() == Phase::CodeReceived,
        ensures
            final(self).spec_phase() == Phase::ListenerReleased,
            final(self).same_client(*old(self)),
            final(self).same_listener(*old(self)),
            final(self).same_secrets(*old(self)),
            final(self).spec_code() == old(self).spec_code(),
    {
        self.phase = Phase::ListenerReleased;
    }

    /// The exchange request, available exactly once the listener is
    /// released — never while the port is still held.  It carries the
    /// same verifier the flow was armed with, the accepted code, and
    /// the redirect URI of the bound port, as the token endpoint
    /// demands.
    pub fn token_request(&self) -> (r: Option<TokenRequest>)
        ensures
            r is Some <==> self.spec_phase() == Phase::ListenerReleased,
            r matches Some(t) ==> {
                &&& t.token_url@ == self.spec_api().spec_token_url()
                &&& t.client_id@ == self.spec_client_id()
                &&& t.client_secret@ == self.spec_client_secret()
                &&& t.code@ == self.spec_code()
                &&& t.redirect_uri@ == self.spec_redirect_uri()
                &&& t.verifier@ == self.spec_verifier()
            },
    {
        match self.phase {
            Phase::ListenerReleased => Some(
                TokenRequest {
                    token_url: self.api.token_url(),
                    client_id: self.client_id.clone(),
                    client_secret: self.client_secret.clone(),
                    code: self.code.clone(),
                    redirect_uri: self.redirect_uri.clone(),
                    verifier: self.verifier.clone(),
                },
            ),
            _ => None,
        }
    }

    /// Marks the exchange as done; the flow is complete.
    pub fn on_token_exchanged(&mut self)
        requires
            old(self).spec_phase() == Phase::ListenerReleased,
        ensures
            final(self).spec_phase() == Phase::TokenExchanged,
            final(self).same_client(*old(self)),
            final(self).same_listener(*old(self)),
            final(self).same_secrets(*old(self)),
            final(self).spec_code() == old(self).spec_code(),
    {
        self.phase = Phase::TokenExchanged;
    }

    /// A fatal step outside the flow's own decisions (a bind error, a
    /// failed exchange): the flow ends.
    pub fn on_fatal_error(&mut self)
        ensures
            final(self).spec_phase() == Phase::Failed,
            final(self).same_client(*old(self)),
            final(self).same_listener(*old(self)),
            final(self).same_secrets(*old(self)),
    {
        self.phase = Phase::Failed;
    }
}

} // verus!
