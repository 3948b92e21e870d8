//! Client-side core of an OAuth 2.0 Authorization Code flow with PKCE.
//!
//! The crate holds the verified logic of the flow: generating a code
//! verifier and its derived challenge, keeping the single pending verifier
//! in a session store with at-most-one-in-flight semantics, building the
//! authorization redirect URL, and deciding the outcome of the callback
//! and token exchange. Network and file plumbing stay outside.

pub mod callback;
pub mod encoding;
pub mod generator;
pub mod login;
pub mod session;
