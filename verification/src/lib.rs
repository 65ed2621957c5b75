//! Local OAuth2 Authorization-Code-with-PKCE flow for a native client.
//!
//! The flow stands up a temporary loopback HTTP listener, directs the
//! user's browser to the authorization server, validates the redirect
//! callback against CSRF and PKCE invariants, and prepares the exchange
//! of the authorization code for a bearer token.  The listener, browser
//! and network sides live outside this crate; everything that decides
//! or computes is here, with contracts.

pub mod authurl;
pub mod callback;
pub mod flow;
pub mod orchestrate;
pub mod pkce;
pub mod ports;
pub mod strutil;
pub mod truelayer;
