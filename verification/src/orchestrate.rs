//! The two steps of the flow that lean on URL handling: arming the
//! browser with the authorization URL, and reading a raw callback
//! request target.
//!
//! Serializing and parsing URLs is the url crate's work, taken on its
//! contracts; every decision on the parsed pieces is made by the
//! verified functions these steps call.

use crate::authurl::auth_params_model;
use crate::authurl::authorization_params;
use crate::callback::extract_spec;
use crate::callback::pair_views;
use crate::callback::HttpMethod;
use crate::callback::RequestOutcome;
use crate::flow::AuthFlow;
use crate::flow::Phase;
use crate::pkce::challenge_of;
use crate::pkce::fresh_secrets;
use crate::strutil::join_with_spaces;
use crate::strutil::space_joined;
use crate::strutil::views_of;
use vstd::prelude::*;
use vstd::string::StringExecFns;

verus! {

/// The URL the url crate serializes from a base and query pairs: the
/// base with each pair percent-encoded into the query string.
pub uninterp spec fn serialized_url(base: Seq<char>, params: Seq<(Seq<char>, Seq<char>)>) -> Seq<
    char,
>;

/// Whether the url crate accepts a string as an absolute base URL.
pub uninterp spec fn base_parses(base: Seq<char>) -> bool;

/// Whether the url crate reads a string as a request target against
/// the loopback base.
pub uninterp spec fn target_parses(target: Seq<char>) -> bool;

/// The path component the url crate reads from a request target.
pub uninterp spec fn path_of(target: Seq<char>) -> Seq<char>;

/// The decoded query pairs the url crate reads from a request target,
/// in order, duplicates kept.
pub uninterp spec fn query_pairs_of(target: Seq<char>) -> Seq<(Seq<char>, Seq<char>)>;

/// Relies on url::Url::parse_with_params: the base URL with the pairs
/// appended as its percent-encoded query.  Appending pairs cannot
/// fail, so it succeeds exactly when the base parses as an absolute
/// URL.
#[verifier::external_body]
fn serialize_with_params(base: &str, params: &Vec<(String, String)>) -> (r: Option<String>)
    ensures
        r is Some <==> base_parses(base@),
        r matches Some(u) ==> u@ == serialized_url(base@, pair_views(params@)),
{
    let pairs = params.iter().map(|p| (p.0.as_str(), p.1.as_str()));
    match url::Url::parse_with_params(base, pairs) {
        Ok(u) => Some(String::from(u)),
        Err(_) => None,
    }
}

/// Relies on url::Url::join on a fixed loopback base, and on Url::path
/// and Url::query_pairs: whether the target reads as a URL at all, the
/// path it names, and its decoded query pairs in order, duplicates
/// kept.  The base is constant, so all three are functions of the
/// target alone.
#[verifier::external_body]
fn parse_request_target(target: &str) -> (r: Option<(String, Vec<(String, String)>)>)
    ensures
        r is Some <==> target_parses(target@),
        r matches Some(t) ==> t.0@ == path_of(target@) && pair_views(t.1@) == query_pairs_of(
            target@,
        ),
{
    let base = match url::Url::parse("http://127.0.0.1:3003/") {
        Ok(b) => b,
        Err(_) => {
            return None;
        },
    };
    match base.join(target) {
        Ok(u) => {
            let pairs = u.query_pairs().map(|p| (p.0.into_owned(), p.1.into_owned())).collect();
            Some((u.path().to_string(), pairs))
        },
        Err(_) => None,
    }
}

/// The scopes requested for every flow.
pub fn requested_scopes() -> (r: Vec<String>)
    ensures
        views_of(r@) == seq!["accounts"@, "balance"@],
{
    let mut v: Vec<String> = Vec::new();
    v.push(String::from_str("accounts"));
    v.push(String::from_str("balance"));
    proof {
        assert(views_of(v@) =~= seq!["accounts"@, "balance"@]);
    }
    v
}

/// Arms a flow that holds a bound listener: draws fresh secrets,
/// builds the authorization query, and serializes the URL the browser
/// is sent to.  The URL carries the flow's CSRF state and the
/// challenge of the verifier the flow will present at exchange time.
/// Fails only when the environment's authorization endpoint is no
/// absolute URL, and then the flow is terminally failed.
pub fn begin_authorization(flow: &mut AuthFlow) -> (r: Option<String>)
    requires
        old(flow).spec_phase() == Phase::ListenerBound,
    ensures
        final(flow).same_client(*old(flow)),
        final(flow).same_listener(*old(flow)),
        r is Some <==> base_parses(old(flow).spec_api().spec_authorize_url()),
        r matches Some(u) ==> {
            &&& final(flow).spec_phase() == Phase::AwaitingCallback
            &&& final(flow).spec_challenge() == challenge_of(final(flow).spec_verifier())
            &&& u@ == serialized_url(
                old(flow).spec_api().spec_authorize_url(),
                auth_params_model(
                    old(flow).spec_client_id(),
                    old(flow).spec_redirect_uri(),
                    final(flow).spec_csrf(),
                    final(flow).spec_challenge(),
                    space_joined(seq!["accounts"@, "balance"@]),
                ),
            )
        },
        r is None ==> final(flow).spec_phase() == Phase::Failed,
{
    let secrets = fresh_secrets();
    let scopes = requested_scopes();
    let scope = join_with_spaces(&scopes);
    let params = authorization_params(
        flow.client_id().as_str(),
        flow.redirect_uri().as_str(),
        secrets.csrf.as_str(),
        secrets.challenge.as_str(),
        scope.as_str(),
    );
    let base = flow.api().authorize_url();
    let url = serialize_with_params(base.as_str(), &params);
    match url {
        Some(u) => {
            flow.arm(secrets.csrf, secrets.verifier, secrets.challenge);
            Some(u)
        },
        None => {
            flow.on_fatal_error();
            None
        },
    }
}

/// Judges one raw callback request against a waiting flow: the target
/// is read by the url crate, and the parsed method, path and query are
/// validated.  An accepted request carries the code of a valid
/// callback for the flow's CSRF token and moves the flow on; any
/// rejected request leaves the flow waiting, unchanged.
pub fn on_callback_request(flow: &mut AuthFlow, method: &HttpMethod, target: &str) -> (r:
    RequestOutcome)
    requires
        old(flow).spec_phase() == Phase::AwaitingCallback,
    ensures
        final(flow).same_client(*old(flow)),
        final(flow).same_listener(*old(flow)),
        final(flow).same_secrets(*old(flow)),
        method is Other ==> r is Reject,
        r is Accept <==> {
            &&& method is Get
            &&& target_parses(target@)
            &&& path_of(target@) == "/redirect"@
            &&& extract_spec(query_pairs_of(target@), old(flow).spec_csrf()) is Ok
        },
        r matches RequestOutcome::Accept(c) ==> {
            &&& c@ == extract_spec(query_pairs_of(target@), old(flow).spec_csrf())->Ok_0
            &&& final(flow).spec_phase() == Phase::CodeReceived
            &&& final(flow).spec_code() == c@
        },
        r is Reject ==> *final(flow) == *old(flow),
{
    let parsed = parse_request_target(target);
    flow.on_request(method, parsed.as_ref())
}

} // verus!
