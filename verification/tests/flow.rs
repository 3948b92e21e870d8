use pkce_flow::callback::{
    build_token_url, complete_exchange, handle_callback, handle_callback_request, CallbackError,
    ExchangeError, ExchangeReply, TokenResponse,
};
use pkce_flow::generator::{derive_challenge, generate_verifier};
use pkce_flow::login::initiate_login;
use pkce_flow::session::SessionStore;

fn is_unreserved(b: u8) -> bool {
    b.is_ascii_alphanumeric() || b == b'-' || b == b'.' || b == b'_' || b == b'~'
}

#[test]
fn verifier_has_requested_length_and_charset() {
    for &len in &[43usize, 100, 128] {
        let v = generate_verifier(len);
        assert_eq!(v.len(), len);
        assert!(v.iter().all(|&b| is_unreserved(b)));
    }
}

#[test]
fn successive_verifiers_differ() {
    let a = generate_verifier(100);
    let b = generate_verifier(100);
    assert_ne!(a, b);
}

#[test]
fn challenge_is_deterministic_and_idempotent() {
    let v = b"verifier123verifier123verifier123verifier12".to_vec();
    let c1 = derive_challenge(&v);
    let c2 = derive_challenge(&v);
    assert_eq!(c1, c2);
}

#[test]
fn challenge_changes_when_verifier_changes() {
    let v1 = b"AAAAAAAAAAAAAAAAAAAAAAAAAAAAAAAAAAAAAAAAAAA".to_vec();
    let mut v2 = v1.clone();
    v2[0] = b'B';
    assert_ne!(derive_challenge(&v1), derive_challenge(&v2));
}

#[test]
fn challenge_is_43_bytes_of_base64url() {
    let v = b"some-verifier".to_vec();
    let c = derive_challenge(&v);
    assert_eq!(c.len(), 43);
    assert!(c.iter().all(|&b| b.is_ascii_alphanumeric() || b == b'-' || b == b'_'));
    // A challenge is a digest encoding, never the verifier handed back.
    assert_ne!(c, v);
}

#[test]
fn take_returns_stored_verifier_exactly_once() {
    let mut store = SessionStore::new();
    store.begin_session(b"v".to_vec());
    assert_eq!(store.take_session(), Some(b"v".to_vec()));
    assert_eq!(store.take_session(), None);
}

#[test]
fn second_begin_overwrites_first() {
    let mut store = SessionStore::new();
    store.begin_session(b"v1".to_vec());
    store.begin_session(b"v2".to_vec());
    assert_eq!(store.take_session(), Some(b"v2".to_vec()));
    assert_eq!(store.take_session(), None);
}

#[test]
fn fresh_store_is_empty() {
    let mut store = SessionStore::new();
    assert_eq!(store.take_session(), None);
}

fn ok_reply() -> ExchangeReply {
    ExchangeReply::Http {
        status: 200,
        tokens: Some(TokenResponse {
            access_token: "AT".to_string(),
            refresh_token: "RT".to_string(),
            expires_in: 3600,
        }),
    }
}

#[test]
fn callback_without_pending_session_is_orphan() {
    let mut store = SessionStore::new();
    let r = handle_callback(&mut store, Some("abc".to_string()), "cid", ok_reply());
    assert!(matches!(r, Err(CallbackError::NoPendingSession)));
}

#[test]
fn callback_without_pending_session_is_orphan_for_any_code() {
    let mut store = SessionStore::new();
    let r = handle_callback(&mut store, Some("".to_string()), "cid", ok_reply());
    assert!(matches!(r, Err(CallbackError::NoPendingSession)));
    let r = handle_callback(&mut store, Some("zzz&x=1".to_string()), "cid", ok_reply());
    assert!(matches!(r, Err(CallbackError::NoPendingSession)));
}

#[test]
fn callback_without_code_leaves_session_untouched() {
    let mut store = SessionStore::new();
    store.begin_session(b"keepme".to_vec());
    let r = handle_callback(&mut store, None, "cid", ok_reply());
    assert!(matches!(r, Err(CallbackError::MissingCode)));
    assert_eq!(store.take_session(), Some(b"keepme".to_vec()));
}

#[test]
fn successful_exchange_surfaces_tokens() {
    let mut store = SessionStore::new();
    store.begin_session(b"verifier123".to_vec());
    let r = handle_callback(&mut store, Some("abc".to_string()), "cid", ok_reply());
    let t = r.unwrap();
    assert_eq!(t.access_token, "AT");
    assert_eq!(t.refresh_token, "RT");
    assert_eq!(t.expires_in, 3600);
    // The session was consumed by the exchange.
    assert_eq!(store.take_session(), None);
}

#[test]
fn exchange_reply_decides_the_error() {
    assert!(matches!(
        complete_exchange(ExchangeReply::TransportFailure),
        Err(ExchangeError::Transport)
    ));
    assert!(matches!(
        complete_exchange(ExchangeReply::Http { status: 404, tokens: None }),
        Err(ExchangeError::HttpStatus(404))
    ));
    assert!(matches!(
        complete_exchange(ExchangeReply::Http { status: 500, tokens: None }),
        Err(ExchangeError::HttpStatus(500))
    ));
    assert!(matches!(
        complete_exchange(ExchangeReply::Http { status: 200, tokens: None }),
        Err(ExchangeError::Schema)
    ));
    let r = complete_exchange(ok_reply());
    assert_eq!(r.unwrap().access_token, "AT");
}

#[test]
fn status_2xx_boundaries() {
    let t = || Some(TokenResponse {
        access_token: "a".to_string(),
        refresh_token: "r".to_string(),
        expires_in: 1,
    });
    assert!(complete_exchange(ExchangeReply::Http { status: 299, tokens: t() }).is_ok());
    assert!(matches!(
        complete_exchange(ExchangeReply::Http { status: 300, tokens: t() }),
        Err(ExchangeError::HttpStatus(300))
    ));
    assert!(matches!(
        complete_exchange(ExchangeReply::Http { status: 199, tokens: t() }),
        Err(ExchangeError::HttpStatus(199))
    ));
}

#[test]
fn token_url_is_exact() {
    let url = build_token_url("abc", "cid", &b"verifier123".to_vec());
    assert_eq!(
        url,
        "https://accounts.spotify.com/api/token?grant_type=authorization_code\
         &code=abc\
         &redirect_uri=https%3A%2F%2Fcampbellowen.github.io%2Fredirect_to_local\
         &client_id=cid\
         &code_verifier=verifier123\
         &response_type=code"
    );
}

#[test]
fn token_url_percent_encodes_the_code() {
    let url = build_token_url("a b&c=d", "cid", &b"v".to_vec());
    assert!(url.contains("&code=a%20b%26c%3Dd&"));
}

#[test]
fn callback_request_builds_url_from_pending_verifier() {
    let mut store = SessionStore::new();
    store.begin_session(b"verifier123".to_vec());
    let r = handle_callback_request(&mut store, Some("abc".to_string()), "cid");
    let url = r.unwrap();
    assert!(url.contains("&code_verifier=verifier123&"));
    assert!(url.contains("&code=abc&"));
    assert_eq!(store.take_session(), None);
}

#[test]
fn redirect_url_carries_method_and_challenge() {
    let mut store = SessionStore::new();
    let url = initiate_login(&mut store, "myclient", "a", "bc");
    assert!(url.starts_with(
        "https://accounts.spotify.com/authorize?code_challenge_method=S256&code_challenge="
    ));
    // The challenge in the URL is exactly the one derived from the
    // verifier that was just stored.
    let verifier = store.take_session().expect("login stores a verifier");
    assert_eq!(verifier.len(), 100);
    let challenge = String::from_utf8(derive_challenge(&verifier)).unwrap();
    assert!(url.contains(&format!("&code_challenge={}&client_id=myclient&", challenge)));
}

#[test]
fn redirect_url_fixed_parameters_are_exact() {
    let mut store = SessionStore::new();
    let url = initiate_login(&mut store, "myclient", "a", "bc");
    assert!(url.contains(
        "&client_id=myclient&response_type=code\
         &redirect_uri=https%3A%2F%2Fcampbellowen.github.io%2Fredirect_to_local\
         &scope=user-read-playback-state%20user-read-currently-playing\
         &state="
    ));
    // base64("a:bc") is "YTpiYw==", whose padding percent-encodes.
    assert!(url.ends_with("&state=YTpiYw%3D%3D"));
}

#[test]
fn login_overwrites_the_pending_verifier() {
    let mut store = SessionStore::new();
    store.begin_session(b"old".to_vec());
    let _url = initiate_login(&mut store, "c", "ip", "1");
    let v = store.take_session().expect("a verifier is pending");
    assert_ne!(v, b"old".to_vec());
    assert_eq!(v.len(), 100);
}
