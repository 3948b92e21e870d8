//! Callback handling: validating the callback query, consuming the
//! pending session, building the token-exchange request, and deciding
//! the outcome of the exchange.
//!
//! The outbound POST itself is plumbing and stays outside; the logic
//! here is split around it. `handle_callback_request` runs before the
//! call and yields the exact request URL; `complete_exchange` decides
//! from what came back; `handle_callback` is the whole decision, given
//! the token endpoint's reply.

use vstd::prelude::*;
use vstd::string::StringSliceAdditionalSpecFns;
use vstd::utf8::{encode_utf8, valid_utf8};
use crate::encoding::{append_encoded, append_encoded_str, append_literal, pe, utf8_string};
use crate::session::SessionStore;

verus! {

/// The externally issued result of a successful token exchange.
pub struct TokenResponse {
    pub access_token: String,
    pub refresh_token: String,
    pub expires_in: u32,
}

/// Why a token exchange failed.
#[derive(Debug)]
pub enum ExchangeError {
    /// The outbound call never produced an HTTP response.
    Transport,
    /// The token endpoint answered with the carried non-2xx status.
    HttpStatus(u16),
    /// The response body did not hold the expected token fields.
    Schema,
}

/// Why a callback was rejected.
#[derive(Debug)]
pub enum CallbackError {
    /// The callback query carried no `code` parameter.
    MissingCode,
    /// No authorization attempt was pending: a replayed, orphaned or
    /// spoofed callback.
    NoPendingSession,
    /// The exchange with the token endpoint failed.
    Exchange(ExchangeError),
}

/// What the token endpoint answered: either no HTTP response at all, or
/// a status together with the token fields, if the body parsed.
pub enum ExchangeReply {
    TransportFailure,
    Http { status: u16, tokens: Option<TokenResponse> },
}

/// A 2xx status.
pub open spec fn spec_is_success(status: u16) -> bool {
    200 <= status < 300
}

/// The token-exchange URL, byte for byte: the fixed token endpoint
/// followed by the query parameters in order, each value
/// percent-encoded.
pub open spec fn spec_token_url(code: Seq<u8>, client_id: Seq<u8>, verifier: Seq<u8>) -> Seq<u8> {
    "https://accounts.spotify.com/api/token?grant_type=authorization_code".spec_bytes()
        + "&code=".spec_bytes()
        + pe(code)
        + "&redirect_uri=".spec_bytes()
        + pe("https://campbellowen.github.io/redirect_to_local".spec_bytes())
        + "&client_id=".spec_bytes()
        + pe(client_id)
        + "&code_verifier=".spec_bytes()
        + pe(verifier)
        + "&response_type=code".spec_bytes()
}

/// Builds the token-exchange URL for an authorization `code`, the
/// configured client identifier and the pending verifier.
pub fn build_token_url(code: &str, client_id: &str, verifier: &Vec<u8>) -> (url: String)
    ensures
        encode_utf8(url@) == spec_token_url(code.spec_bytes(), client_id.spec_bytes(), verifier@),
{
    let mut out: Vec<u8> = Vec::new();
    proof {
        assert(valid_utf8(out@));
    }
    append_literal(&mut out, "https://accounts.spotify.com/api/token?grant_type=authorization_code");
    append_literal(&mut out, "&code=");
    append_encoded_str(&mut out, code);
    append_literal(&mut out, "&redirect_uri=");
    append_encoded_str(&mut out, "https://campbellowen.github.io/redirect_to_local");
    append_literal(&mut out, "&client_id=");
    append_encoded_str(&mut out, client_id);
    append_literal(&mut out, "&code_verifier=");
    append_encoded(&mut out, verifier);
    append_literal(&mut out, "&response_type=code");
    proof {
        assert(out@ =~= spec_token_url(code.spec_bytes(), client_id.spec_bytes(), verifier@));
    }
    utf8_string(out)
}

/// The part of the callback that runs before the outbound call: checks
/// that the query carried a `code`, consumes the pending session, and
/// builds the token-exchange URL from the code and the verifier.
/// Fails exactly when the code is missing (session untouched) or when
/// no session was pending.
pub fn handle_callback_request(store: &mut SessionStore, code: Option<String>, client_id: &str)
    -> (r: Result<String, CallbackError>)
    ensures
        r is Ok <==> (code is Some && old(store).pending() is Some),
        match r {
            Ok(url) => {
                &&& final(store).pending() is None
                &&& encode_utf8(url@) == spec_token_url(
                    encode_utf8((code->0)@),
                    client_id.spec_bytes(),
                    old(store).pending()->0,
                )
            },
            Err(e) => match e {
                CallbackError::MissingCode => code is None && *final(store) == *old(store),
                CallbackError::NoPendingSession => code is Some && old(store).pending() is None
                    && final(store).pending() is None,
                CallbackError::Exchange(_) => false,
            },
        },
{
    let code = match code {
        Some(c) => c,
        None => {
            return Err(CallbackError::MissingCode);
        },
    };
    let verifier = match store.take_session() {
        Some(v) => v,
        None => {
            return Err(CallbackError::NoPendingSession);
        },
    };
    Ok(build_token_url(code.as_str(), client_id, &verifier))
}

/// Decides the outcome of the token exchange from the endpoint's reply:
/// a transport failure, a non-2xx status and a body without the token
/// fields are each an error; otherwise the tokens are surfaced.
pub fn complete_exchange(reply: ExchangeReply) -> (r: Result<TokenResponse, ExchangeError>)
    ensures
        match reply {
            ExchangeReply::TransportFailure => r matches Err(e) && e is Transport,
            ExchangeReply::Http { status, tokens } => {
                if !spec_is_success(status) {
                    r matches Err(e) && e matches ExchangeError::HttpStatus(s) && s == status
                } else {
                    match tokens {
                        Some(t) => r matches Ok(got) && got == t,
                        None => r matches Err(e) && e is Schema,
                    }
                }
            },
        },
{
    match reply {
        ExchangeReply::TransportFailure => Err(ExchangeError::Transport),
        ExchangeReply::Http { status, tokens } => {
            if !(200 <= status && status < 300) {
                Err(ExchangeError::HttpStatus(status))
            } else {
                match tokens {
                    Some(t) => Ok(t),
                    None => Err(ExchangeError::Schema),
                }
            }
        },
    }
}

/// The whole callback decision, given what the token endpoint replied
/// to the exchange request: the missing-code and orphan-callback errors
/// come first and leave the exchange untried; otherwise the session is
/// consumed and the reply decides between tokens and an exchange error.
pub fn handle_callback(
    store: &mut SessionStore,
    code: Option<String>,
    client_id: &str,
    reply: ExchangeReply,
) -> (r: Result<TokenResponse, CallbackError>)
    ensures
        match r {
            Ok(t) => {
                &&& code is Some
                &&& old(store).pending() is Some
                &&& final(store).pending() is None
                &&& reply matches ExchangeReply::Http { status, tokens }
                &&& spec_is_success(status)
                &&& tokens matches Some(got) && got == t
            },
            Err(e) => match e {
                CallbackError::MissingCode => code is None && *final(store) == *old(store),
                CallbackError::NoPendingSession => code is Some && old(store).pending() is None
                    && final(store).pending() is None,
                CallbackError::Exchange(x) => {
                    &&& code is Some
                    &&& old(store).pending() is Some
                    &&& final(store).pending() is None
                    &&& match x {
                        ExchangeError::Transport => reply is TransportFailure,
                        ExchangeError::HttpStatus(s) => reply matches ExchangeReply::Http {
                            status,
                            tokens,
                        } && s == status && !spec_is_success(status),
                        ExchangeError::Schema => reply matches ExchangeReply::Http {
                            status,
                            tokens,
                        } && spec_is_success(status) && tokens is None,
                    }
                },
            },
        },
{
    match handle_callback_request(store, code, client_id) {
        Err(e) => Err(e),
        Ok(_url) => match complete_exchange(reply) {
            Ok(t) => Ok(t),
            Err(x) => Err(CallbackError::Exchange(x)),
        },
    }
}

} // verus!
