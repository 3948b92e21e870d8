//! Login initiation: a fresh verifier goes into the session store and the
//! authorization redirect URL is built around its challenge.
//!
//! The URL is pinned byte for byte by `spec_authorize_url`; the two proof
//! functions at the end state that it always carries
//! `code_challenge_method=S256` and the challenge itself.

use vstd::prelude::*;
use vstd::string::StringSliceAdditionalSpecFns;
use vstd::utf8::{encode_utf8, valid_utf8};
use base64::Engine;
use crate::encoding::{append_encoded, append_encoded_str, append_literal, contains_seq, pe,
    utf8_string, lemma_pe_unreserved_identity, lemma_contains_extend, lemma_contains_at_end};
use crate::generator::{all_unreserved, challenge_of, derive_challenge, generate_verifier};
use crate::session::SessionStore;

verus! {

/// Length in bytes of every verifier this flow generates, per current
/// policy (RFC 7636 admits 43 to 128).
pub const VERIFIER_LEN: usize = 100;

/// What the standard, padded base64 encoding returns for the given
/// bytes: a function of them alone, named here because spelling it out
/// would restate the whole alphabet table.
pub uninterp spec fn base64_of(s: Seq<u8>) -> Seq<u8>;

/// Relies on the base64 crate's `STANDARD` engine `encode`: the
/// standard-alphabet, padded base64 encoding of the input bytes,
/// depending on nothing but them.
#[verifier::external_body]
fn base64_encode(b: &Vec<u8>) -> (r: Vec<u8>)
    ensures
        r@ == base64_of(b@),
{
    base64::engine::general_purpose::STANDARD.encode(b.as_slice()).into_bytes()
}

/// The plain text carried by the `state` parameter before base64:
/// the local server's address as `ip:port`.
pub open spec fn spec_state_plain(ip: &str, port: &str) -> Seq<u8> {
    ip.spec_bytes() + ":".spec_bytes() + port.spec_bytes()
}

/// The authorization redirect URL, byte for byte: the fixed `/authorize`
/// endpoint followed by the query parameters in order, each value
/// percent-encoded.
pub open spec fn spec_authorize_url(challenge: Seq<u8>, client_id: Seq<u8>, state_param: Seq<u8>) -> Seq<u8> {
    "https://accounts.spotify.com/authorize?".spec_bytes()
        + "code_challenge_method=S256".spec_bytes()
        + "&".spec_bytes()
        + "code_challenge=".spec_bytes()
        + pe(challenge)
        + "&client_id=".spec_bytes()
        + pe(client_id)
        + "&response_type=code".spec_bytes()
        + "&redirect_uri=".spec_bytes()
        + pe("https://campbellowen.github.io/redirect_to_local".spec_bytes())
        + "&scope=".spec_bytes()
        + pe("user-read-playback-state user-read-currently-playing".spec_bytes())
        + "&state=".spec_bytes()
        + pe(state_param)
}

/// Initiates a login attempt: generates a fresh verifier, stores it as
/// the pending session (silently discarding any prior one), and returns
/// the authorization URL to redirect to, built around the verifier's
/// challenge, the client identifier, and the local `ip:port` address
/// carried base64-encoded in `state`.
pub fn initiate_login(store: &mut SessionStore, client_id: &str, ip: &str, port: &str) -> (url: String)
    ensures
        final(store).pending() is Some,
        ({
            let v = final(store).pending()->0;
            &&& v.len() == VERIFIER_LEN
            &&& all_unreserved(v)
            &&& all_unreserved(challenge_of(v))
            &&& challenge_of(v).len() == 43
            &&& encode_utf8(url@) == spec_authorize_url(
                challenge_of(v),
                client_id.spec_bytes(),
                base64_of(spec_state_plain(ip, port)),
            )
        }),
{
    let verifier = generate_verifier(VERIFIER_LEN);
    let challenge = derive_challenge(&verifier);

    let mut plain: Vec<u8> = Vec::new();
    append_literal(&mut plain, ip);
    append_literal(&mut plain, ":");
    append_literal(&mut plain, port);
    proof {
        assert(plain@ =~= spec_state_plain(ip, port));
    }
    let state_b64 = base64_encode(&plain);

    let ghost vview = verifier@;
    store.begin_session(verifier);

    let mut out: Vec<u8> = Vec::new();
    proof {
        assert(valid_utf8(out@));
    }
    append_literal(&mut out, "https://accounts.spotify.com/authorize?");
    append_literal(&mut out, "code_challenge_method=S256");
    append_literal(&mut out, "&");
    append_literal(&mut out, "code_challenge=");
    append_encoded(&mut out, &challenge);
    append_literal(&mut out, "&client_id=");
    append_encoded_str(&mut out, client_id);
    append_literal(&mut out, "&response_type=code");
    append_literal(&mut out, "&redirect_uri=");
    append_encoded_str(&mut out, "https://campbellowen.github.io/redirect_to_local");
    append_literal(&mut out, "&scope=");
    append_encoded_str(&mut out, "user-read-playback-state user-read-currently-playing");
    append_literal(&mut out, "&state=");
    append_encoded(&mut out, &state_b64);
    proof {
        assert(out@ =~= spec_authorize_url(
            challenge_of(vview),
            client_id.spec_bytes(),
            base64_of(spec_state_plain(ip, port)),
        ));
    }
    utf8_string(out)
}

/// Law: the authorization URL always contains `code_challenge_method=S256`,
/// whatever the challenge, client identifier and state parameter.
pub proof fn lemma_authorize_url_has_method(challenge: Seq<u8>, client_id: Seq<u8>, state_param: Seq<u8>)
    ensures
        contains_seq(
            spec_authorize_url(challenge, client_id, state_param),
            "code_challenge_method=S256".spec_bytes(),
        ),
{
    let u = spec_authorize_url(challenge, client_id, state_param);
    let pre = "https://accounts.spotify.com/authorize?".spec_bytes();
    let m = "code_challenge_method=S256".spec_bytes();
    let off = pre.len() as int;
    assert(u.subrange(off, off + m.len()) =~= m);
}

/// Law: when the challenge is made of unreserved bytes — as every
/// challenge the generator yields is — the authorization URL contains
/// `code_challenge=` followed by exactly that challenge.
pub proof fn lemma_authorize_url_has_challenge(challenge: Seq<u8>, client_id: Seq<u8>, state_param: Seq<u8>)
    requires
        all_unreserved(challenge),
    ensures
        contains_seq(
            spec_authorize_url(challenge, client_id, state_param),
            "code_challenge=".spec_bytes() + challenge,
        ),
{
    lemma_pe_unreserved_identity(challenge);
    let u = spec_authorize_url(challenge, client_id, state_param);
    let pre = "https://accounts.spotify.com/authorize?".spec_bytes();
    let m = "code_challenge_method=S256".spec_bytes();
    let amp = "&".spec_bytes();
    let lab = "code_challenge=".spec_bytes();
    let n = lab + challenge;

    let t2 = pre + m + amp;
    let t4 = t2 + lab + pe(challenge);
    assert(t4 =~= t2 + n);
    lemma_contains_at_end(t2, n);
    assert(contains_seq(t4, n));

    let t5 = t4 + "&client_id=".spec_bytes();
    lemma_contains_extend(t4, "&client_id=".spec_bytes(), n);
    let t6 = t5 + pe(client_id);
    lemma_contains_extend(t5, pe(client_id), n);
    let t7 = t6 + "&response_type=code".spec_bytes();
    lemma_contains_extend(t6, "&response_type=code".spec_bytes(), n);
    let t8 = t7 + "&redirect_uri=".spec_bytes();
    lemma_contains_extend(t7, "&redirect_uri=".spec_bytes(), n);
    let t9 = t8 + pe("https://campbellowen.github.io/redirect_to_local".spec_bytes());
    lemma_contains_extend(t8, pe("https://campbellowen.github.io/redirect_to_local".spec_bytes()), n);
    let t10 = t9 + "&scope=".spec_bytes();
    lemma_contains_extend(t9, "&scope=".spec_bytes(), n);
    let t11 = t10 + pe("user-read-playback-state user-read-currently-playing".spec_bytes());
    lemma_contains_extend(
        t10,
        pe("user-read-playback-state user-read-currently-playing".spec_bytes()),
        n,
    );
    let t12 = t11 + "&state=".spec_bytes();
    lemma_contains_extend(t11, "&state=".spec_bytes(), n);
    lemma_contains_extend(t12, pe(state_param), n);
    assert(u == t12 + pe(state_param));
}

} // verus!
