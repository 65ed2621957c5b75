//! The per-flow secrets: the CSRF token and the PKCE verifier and
//! challenge.
//!
//! Both are drawn fresh for every flow from the process's
//! cryptographic generator.  What SHA-256-with-base64url computes is
//! not restated here; the challenge of a verifier is a named, opaque
//! function, and the one fact the library builds on is that generated
//! pairs and recomputed challenges agree on it.

use vstd::prelude::*;
use vstd::string::StringSliceAdditionalSpecFns;

verus! {

/// The PKCE challenge of a verifier: base64url, unpadded, of the
/// SHA-256 digest.  A function of the verifier alone.
pub uninterp spec fn challenge_of(verifier: Seq<char>) -> Seq<char>;

/// The secrets a flow is armed with.
pub struct FlowSecrets {
    pub csrf: String,
    pub verifier: String,
    pub challenge: String,
}

/// Relies on oauth2's CsrfToken::new_random: a fresh random token;
/// nothing is assumed of its value.
#[verifier::external_body]
fn new_csrf_token() -> (r: String) {
    oauth2::CsrfToken::new_random().secret().clone()
}

/// Relies on oauth2's PkceCodeChallenge::new_random_sha256: a fresh
/// random verifier paired with its SHA-256 challenge.  The verifier is
/// the base64url form of 32 random bytes: 43 ASCII characters.
#[verifier::external_body]
fn new_pkce_pair() -> (r: (String, String))
    ensures
        r.1@ == challenge_of(r.0@),
        vstd::utf8::encode_utf8(r.0@).len() == 43,
{
    let (challenge, verifier) = oauth2::PkceCodeChallenge::new_random_sha256();
    (verifier.secret().clone(), challenge.as_str().to_string())
}

/// Relies on oauth2's PkceCodeChallenge::from_code_verifier_sha256:
/// the SHA-256 challenge of the given verifier, a function of the
/// verifier alone.  It panics on a verifier outside the 43 to 128
/// bytes a verifier may have, so those lengths are excluded here.
#[verifier::external_body]
fn challenge_from_verifier(verifier: &str) -> (r: String)
    requires
        43 <= verifier.spec_bytes().len() <= 128,
    ensures
        r@ == challenge_of(verifier@),
{
    let v = oauth2::PkceCodeVerifier::new(verifier.to_string());
    oauth2::PkceCodeChallenge::from_code_verifier_sha256(&v).as_str().to_string()
}

/// Draws the secrets of one flow: a fresh CSRF token and a fresh PKCE
/// pair whose challenge is the challenge of its verifier.  The
/// verifier has the 43 bytes a fresh one always has, so it is of a
/// length the exchange accepts.
pub fn fresh_secrets() -> (s: FlowSecrets)
    ensures
        s.challenge@ == challenge_of(s.verifier@),
        vstd::utf8::encode_utf8(s.verifier@).len() == 43,
{
    let (verifier, challenge) = new_pkce_pair();
    FlowSecrets { csrf: new_csrf_token(), verifier, challenge }
}

/// Whether `challenge` is the PKCE challenge of `verifier`: what the
/// authorization server itself checks at exchange time.  A verifier
/// outside the lengths a verifier may have matches nothing.
pub fn matches_challenge(verifier: &str, challenge: &String) -> (b: bool)
    ensures
        43 <= verifier.spec_bytes().len() <= 128 ==> b == (challenge@ == challenge_of(
            verifier@,
        )),
        !(43 <= verifier.spec_bytes().len() <= 128) ==> b == false,
{
    let n = verifier.as_bytes().len();
    if n < 43 || 128 < n {
        return false;
    }
    let recomputed = challenge_from_verifier(verifier);
    recomputed == *challenge
}

} // verus!
