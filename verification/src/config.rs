//! The runtime configuration of the restricted client: a fixed service
//! endpoint and a Bearer credential built from the API key.

use vstd::prelude::*;
use vstd::utf8::encode_utf8;
use crate::error::Error;
use crate::headers::HeaderTable;
use crate::text::{lemma_trimmed_idempotent, trim, trimmed};

verus! {

/// The service endpoint; it is fixed and cannot be overridden.
pub const OPENVIKING_COMPILE_URL: &'static str = "https://api.vikingdb.cn-beijing.volces.com/openviking";

/// The environment variable that holds the API key.
pub const OPENVIKING_API_KEY_ENV: &'static str = "OPENVIKING_API_KEY";

/// The header that carries the Bearer credential.
pub const AUTHORIZATION_HEADER: &'static str = "authorization";

/// The HTTP header value type of the HTTP stack.
#[verifier::external_type_specification]
#[verifier::external_body]
pub struct ExHeaderValue(reqwest::header::HeaderValue);

/// The error of a rejected HTTP header value.
#[verifier::external_type_specification]
#[verifier::external_body]
pub struct ExInvalidHeaderValue(reqwest::header::InvalidHeaderValue);

/// A byte that an HTTP header value may hold: a tab, or anything from the
/// space upwards but the delete character.
pub open spec fn header_value_byte_ok(b: u8) -> bool {
    (b >= 32 && b != 127) || b == 9
}

/// Whether text, encoded as UTF-8, is a valid HTTP header value.
pub open spec fn header_value_ok(text: Seq<char>) -> bool {
    forall|i: int| 0 <= i < encode_utf8(text).len() ==> #[trigger] header_value_byte_ok(encode_utf8(text)[i])
}

/// Calls `str::parse::<reqwest::header::HeaderValue>`, that is
/// `HeaderValue::from_str` of the `http` crate, which accepts the text exactly
/// when each of its UTF-8 bytes passes the crate's `is_valid` test. The contract
/// claims no more than when the parse succeeds.
#[verifier::external_body]
fn parse_header_value(text: &str) -> (r: Result<reqwest::header::HeaderValue, reqwest::header::InvalidHeaderValue>)
    ensures
        r is Ok <==> header_value_ok(text@),
{
    text.parse::<reqwest::header::HeaderValue>()
}

/// Calls `reqwest::header::AUTHORIZATION.as_str()`; the `http` crate defines
/// that standard header name as the lower-case text `authorization`.
#[verifier::external_body]
fn authorization_header_name() -> (r: String)
    ensures
        r@ == AUTHORIZATION_HEADER@,
{
    reqwest::header::AUTHORIZATION.as_str().to_string()
}

/// The settings the client runs with.
#[derive(Debug)]
pub struct Config {
    pub url: String,
    pub api_key: Option<String>,
    pub root_api_key: Option<String>,
    pub account: Option<String>,
    pub user: Option<String>,
    pub actor_peer_id: Option<String>,
    pub extra_headers: Option<HeaderTable>,
    pub echo_command: bool,
}

/// The settings, taken by their views.
#[verifier::ext_equal]
pub struct ConfigView {
    pub url: Seq<char>,
    pub api_key: Option<Seq<char>>,
    pub root_api_key: Option<Seq<char>>,
    pub account: Option<Seq<char>>,
    pub user: Option<Seq<char>>,
    pub actor_peer_id: Option<Seq<char>>,
    pub extra_headers: Option<Map<Seq<char>, Seq<char>>>,
    pub echo_command: bool,
}

pub open spec fn opt_text(o: Option<String>) -> Option<Seq<char>> {
    match o {
        Some(s) => Some(s@),
        None => None,
    }
}

impl View for Config {
    type V = ConfigView;

    open spec fn view(&self) -> ConfigView {
        ConfigView {
            url: self.url@,
            api_key: opt_text(self.api_key),
            root_api_key: opt_text(self.root_api_key),
            account: opt_text(self.account),
            user: opt_text(self.user),
            actor_peer_id: opt_text(self.actor_peer_id),
            extra_headers: match self.extra_headers {
                Some(h) => Some(h@),
                None => None,
            },
            echo_command: self.echo_command,
        }
    }
}

/// Whether an API key holds anything but whitespace.
pub open spec fn key_present(key: Seq<char>) -> bool {
    trimmed(key).len() > 0
}

/// The Bearer credential for an API key: the key without surrounding
/// whitespace, after `Bearer `.
pub open spec fn bearer_credential(key: Seq<char>) -> Seq<char> {
    "Bearer "@ + trimmed(key)
}

/// Whether `runtime_config` accepts a key.
pub open spec fn key_accepted(api_key: Option<String>) -> bool {
    &&& api_key is Some
    &&& key_present(api_key->0@)
    &&& header_value_ok(bearer_credential(api_key->0@))
}

/// The configuration that an accepted key gives: the fixed endpoint, no
/// other credential or identity, and the credential as the only extra header.
pub open spec fn compile_config(credential: Seq<char>) -> ConfigView {
    ConfigView {
        url: OPENVIKING_COMPILE_URL@,
        api_key: None,
        root_api_key: None,
        account: None,
        user: None,
        actor_peer_id: None,
        extra_headers: Some(Map::empty().insert(AUTHORIZATION_HEADER@, credential)),
        echo_command: false,
    }
}

/// The message when no usable key was supplied.
pub open spec fn missing_key_message() -> Seq<char> {
    OPENVIKING_API_KEY_ENV@ + " is required. Export it before running ov."@
}

/// The message when the key cannot be sent in an HTTP header.
pub open spec fn invalid_key_message() -> Seq<char> {
    OPENVIKING_API_KEY_ENV@ + " is not a valid API key"@
}

/// The error message `runtime_config` gives for a key it refuses.
pub open spec fn refusal_message(api_key: Option<String>) -> Seq<char> {
    if api_key is Some && key_present(api_key->0@) {
        invalid_key_message()
    } else {
        missing_key_message()
    }
}

fn missing_key_error() -> (e: Error)
    ensures
        e matches Error::Config(m) && m@ == missing_key_message(),
{
    Error::Config(String::from_str(OPENVIKING_API_KEY_ENV).concat(" is required. Export it before running ov."))
}

fn invalid_key_error() -> (e: Error)
    ensures
        e matches Error::Config(m) && m@ == invalid_key_message(),
{
    Error::Config(String::from_str(OPENVIKING_API_KEY_ENV).concat(" is not a valid API key"))
}

/// Builds the configuration from the API key: the key, trimmed of surrounding
/// whitespace, must be non-empty and, after `Bearer `, a valid HTTP header
/// value; it is then sent as the `authorization` header to the fixed endpoint.
pub fn runtime_config(api_key: Option<String>) -> (r: Result<Config, Error>)
    ensures
        r is Ok <==> key_accepted(api_key),
        r matches Ok(c) ==> c@ =~= compile_config(bearer_credential(api_key->0@)),
        r matches Err(e) ==> (e matches Error::Config(m) && m@ == refusal_message(api_key)),
{
    let key = match api_key {
        Some(k) => k,
        None => return Err(missing_key_error()),
    };
    let trimmed_key = trim(key.as_str());
    if trimmed_key.is_empty() {
        return Err(missing_key_error());
    }
    let mut authorization = String::from_str("Bearer ");
    authorization.append(trimmed_key);
    match parse_header_value(authorization.as_str()) {
        Ok(_) => {},
        Err(_) => return Err(invalid_key_error()),
    }
    let mut headers = HeaderTable::new();
    headers.insert(authorization_header_name(), authorization);
    Ok(
        Config {
            url: String::from_str(OPENVIKING_COMPILE_URL),
            api_key: None,
            root_api_key: None,
            account: None,
            user: None,
            actor_peer_id: None,
            extra_headers: Some(headers),
            echo_command: false,
        },
    )
}

} // verus!

verus! {

/// A key and the same key without its surrounding whitespace are accepted or
/// refused alike, give the same configuration, and are refused with the same
/// message.
pub proof fn law_surrounding_whitespace_is_ignored(a: String, b: String)
    requires
        b@ == trimmed(a@),
    ensures
        key_accepted(Some(a)) == key_accepted(Some(b)),
        compile_config(bearer_credential(a@)) == compile_config(bearer_credential(b@)),
        refusal_message(Some(a)) == refusal_message(Some(b)),
{
    lemma_trimmed_idempotent(a@);
}

/// A key with no surrounding whitespace is sent unchanged after `Bearer `.
pub proof fn law_key_is_sent_unchanged(key: Seq<char>)
    requires
        trimmed(key) == key,
    ensures
        compile_config(bearer_credential(key)).extra_headers == Some(
            Map::empty().insert(AUTHORIZATION_HEADER@, "Bearer "@ + key),
        ),
{
}

/// Whatever the key, an accepted configuration talks to the fixed endpoint
/// and carries no other credential or identity.
pub proof fn law_endpoint_is_fixed(key: Seq<char>)
    ensures
        compile_config(bearer_credential(key)).url == OPENVIKING_COMPILE_URL@,
        compile_config(bearer_credential(key)).api_key is None,
        compile_config(bearer_credential(key)).root_api_key is None,
        compile_config(bearer_credential(key)).account is None,
        compile_config(bearer_credential(key)).user is None,
        !compile_config(bearer_credential(key)).echo_command,
{
}

/// Every refusal names the environment variable that holds the key.
pub proof fn law_refusal_names_the_key_variable(api_key: Option<String>)
    ensures
        refusal_message(api_key).subrange(0, OPENVIKING_API_KEY_ENV@.len() as int)
            == OPENVIKING_API_KEY_ENV@,
{
    let env = OPENVIKING_API_KEY_ENV@;
    assert(missing_key_message().subrange(0, env.len() as int) =~= env);
    assert(invalid_key_message().subrange(0, env.len() as int) =~= env);
}

} // verus!

verus! {

/// A key is accepted exactly when, without its surrounding whitespace, it is
/// non-empty and `Bearer ` followed by it is a valid header value, whatever
/// its length or content otherwise; it is then sent as that header value.
pub proof fn law_every_sendable_key_is_accepted(key: String)
    ensures
        key_accepted(Some(key)) <==> (trimmed(key@).len() > 0 && header_value_ok(
            "Bearer "@ + trimmed(key@),
        )),
        compile_config(bearer_credential(key@)).extra_headers == Some(
            Map::<Seq<char>, Seq<char>>::empty().insert("authorization"@, "Bearer "@ + trimmed(key@)),
        ),
        !key_accepted(None),
{
}

} // verus!
