//! Short-lived credentials for the media relay: a user name that carries
//! its own expiry, a credential that proves the name was issued with the
//! shared secret, and the addresses of the relay.
//!
//! The moment of issue is the caller's reading of the wall clock, in
//! seconds since the Unix epoch.

use crate::config::WebConfig;
use crate::decimal::decimal;
use crate::decimal::decimal_i64;
use crate::state::AppState;
use base64::Engine;
use hmac::Mac;
use vstd::prelude::*;
use vstd::string::StringExecFns;
use vstd::utf8::encode_utf8;

verus! {

/// The authentication code of `message` under `key`, as HMAC with SHA-1
/// defines it.
pub uninterp spec fn hmac_sha1_tag(key: Seq<u8>, message: Seq<u8>) -> Seq<u8>;

/// The base64 text of `bytes`, in the standard alphabet with padding.
pub uninterp spec fn base64_standard(bytes: Seq<u8>) -> Seq<char>;

/// Computes the HMAC-SHA1 code of `message` under `key` with
/// `hmac::Hmac<sha1::Sha1>`: `new_from_slice`, which takes a key of any
/// length, then `update` and `finalize`. The contract names the code and
/// claims its length, the 20 bytes of a SHA-1 output.
#[verifier::external_body]
fn hmac_sha1(key: &[u8], message: &[u8]) -> (tag: Vec<u8>)
    ensures
        tag@ == hmac_sha1_tag(key@, message@),
        tag@.len() == 20,
{
    let mut mac = hmac::Hmac::<sha1::Sha1>::new_from_slice(key).unwrap();
    mac.update(message);
    mac.finalize().into_bytes().to_vec()
}

/// Encodes `bytes` with `base64::engine::general_purpose::STANDARD.encode`.
/// The encoder fails only where the length of the text would not fit a
/// `usize`, which the bound on the input rules out. The contract names the
/// text.
#[verifier::external_body]
fn base64_encode(bytes: &[u8]) -> (text: String)
    requires
        bytes@.len() <= usize::MAX / 2,
    ensures
        text@ == base64_standard(bytes@),
{
    base64::engine::general_purpose::STANDARD.encode(bytes)
}

/// What a client needs to use the relay.
#[derive(Debug)]
pub struct TurnCredentials {
    pub username: String,
    pub credential: String,
    pub urls: Vec<String>,
}

/// A request for relay credentials.
#[derive(Debug)]
pub struct TurnRequest {
    pub client_id: String,
}

/// The answer to a [`TurnRequest`].
#[derive(Debug)]
pub struct TurnResponse {
    pub turn: TurnCredentials,
}

/// Why no credentials were issued.
#[derive(Copy, Clone, Debug, PartialEq, Eq, Structural)]
pub enum TurnError {
    /// The client that asks has no session.
    SessionNotFound,
    /// The moment of expiry is not a number of seconds that fits 64 bits.
    ExpiryOutOfRange,
}

/// The user name of a credential that expires at `expiry`, in seconds
/// since the Unix epoch: the expiry in decimal, a colon, and the name.
pub open spec fn turn_username(expiry: int, name: Seq<char>) -> Seq<char> {
    decimal(expiry) + seq![':'] + name
}

/// The credential for `username`: the base64 text of the HMAC-SHA1 code of
/// the user name under the secret, both taken as UTF-8.
pub open spec fn turn_credential(secret: Seq<char>, username: Seq<char>) -> Seq<char> {
    base64_standard(hmac_sha1_tag(encode_utf8(secret), encode_utf8(username)))
}

/// The relay's address for one transport: `turn:`, the realm, a colon, the
/// port in decimal, `?transport=` and the transport.
pub open spec fn turn_url(realm: Seq<char>, port: int, transport: Seq<char>) -> Seq<char> {
    seq!['t', 'u', 'r', 'n', ':'] + realm + seq![':'] + decimal(port) + seq![
        '?',
        't',
        'r',
        'a',
        'n',
        's',
        'p',
        'o',
        'r',
        't',
        '=',
    ] + transport
}

/// Whether `issued` is what `config` issues at `now`, in seconds since the
/// Unix epoch: a credential that expires the configured time after `now`,
/// and the relay's UDP and TCP addresses, in that order.
pub open spec fn issued_at(config: WebConfig, now: i64, issued: TurnCredentials) -> bool {
    &&& issued.username@ == turn_username(now + config.turn_ttl, config.turn_user_name@)
    &&& issued.credential@ == turn_credential(config.turn_secret_key@, issued.username@)
    &&& issued.urls@.len() == 2
    &&& issued.urls@[0]@ == turn_url(
        config.turn_realm@,
        config.turn_port as int,
        seq!['u', 'd', 'p'],
    )
    &&& issued.urls@[1]@ == turn_url(
        config.turn_realm@,
        config.turn_port as int,
        seq!['t', 'c', 'p'],
    )
}

/// Whether the moment of expiry of credentials issued at `now` fits 64
/// bits.
pub open spec fn expiry_fits(config: WebConfig, now: i64) -> bool {
    i64::MIN <= now + config.turn_ttl <= i64::MAX
}

/// The relay's address for `transport`.
fn relay_url(config: &WebConfig, transport: &str) -> (url: String)
    ensures
        url@ == turn_url(config.turn_realm@, config.turn_port as int, transport@),
{
    proof {
        reveal_strlit("turn:");
        reveal_strlit(":");
        reveal_strlit("?transport=");
    }
    let mut url = String::from_str("turn:");
    url.append(config.turn_realm.as_str());
    url.append(":");
    let port = decimal_i64(config.turn_port);
    url.append(port.as_str());
    url.append("?transport=");
    url.append(transport);
    assert(url@ =~= turn_url(config.turn_realm@, config.turn_port as int, transport@));
    url
}

/// Issues the credentials of `config` at `now`, in seconds since the Unix
/// epoch.
pub fn turn_credentials_at(config: &WebConfig, now: i64) -> (issued: TurnCredentials)
    requires
        expiry_fits(*config, now),
    ensures
        issued_at(*config, now, issued),
{
    let expiry: i64 = now + config.turn_ttl;
    proof {
        reveal_strlit(":");
        reveal_strlit("udp");
        reveal_strlit("tcp");
    }
    let mut username = decimal_i64(expiry);
    username.append(":");
    username.append(config.turn_user_name.as_str());
    assert(username@ =~= turn_username(expiry as int, config.turn_user_name@));
    let tag = hmac_sha1(config.turn_secret_key.as_str().as_bytes(), username.as_str().as_bytes());
    let credential = base64_encode(tag.as_slice());
    let mut urls: Vec<String> = Vec::new();
    urls.push(relay_url(config, "udp"));
    urls.push(relay_url(config, "tcp"));
    assert("udp"@ =~= seq!['u', 'd', 'p']);
    assert("tcp"@ =~= seq!['t', 'c', 'p']);
    TurnCredentials { username, credential, urls }
}

/// Issues the credentials of `config` at `now`, in seconds since the Unix
/// epoch, if their moment of expiry fits 64 bits, and nothing otherwise.
pub fn generate_turn_credentials(config: WebConfig, now: i64) -> (issued: Option<TurnCredentials>)
    ensures
        match issued {
            Some(credentials) => expiry_fits(config, now) && issued_at(config, now, credentials),
            None => !expiry_fits(config, now),
        },
{
    match now.checked_add(config.turn_ttl) {
        Some(_) => Some(turn_credentials_at(&config, now)),
        None => None,
    }
}

/// Answers a request for relay credentials at `now`, in seconds since the
/// Unix epoch: a client without a session gets none, and neither does
/// anyone if the moment of expiry does not fit 64 bits.
pub fn get_turn_credentials(
    state: &AppState,
    config: &WebConfig,
    request: &TurnRequest,
    now: i64,
) -> (answer: Result<TurnResponse, TurnError>)
    requires
        state.wf(),
    ensures
        match answer {
            Ok(response) => {
                &&& state@.users.dom().contains(request.client_id@)
                &&& expiry_fits(*config, now)
                &&& issued_at(*config, now, response.turn)
            },
            Err(TurnError::SessionNotFound) => !state@.users.dom().contains(request.client_id@),
            Err(TurnError::ExpiryOutOfRange) => {
                &&& state@.users.dom().contains(request.client_id@)
                &&& !expiry_fits(*config, now)
            },
        },
{
    if state.get_user(request.client_id.as_str()).is_none() {
        return Err(TurnError::SessionNotFound);
    }
    match now.checked_add(config.turn_ttl) {
        Some(_) => Ok(TurnResponse { turn: turn_credentials_at(config, now) }),
        None => Err(TurnError::ExpiryOutOfRange),
    }
}

} // verus!
