//! What the HTTPS client of the League Client API computes: its authorization header,
//! its base URLs and the reading of plain-text replies.
use crate::text::{self, TrimSet};
use base64::Engine;
use vstd::prelude::*;

verus! {

/// A digit of the standard base64 alphabet: `A`-`Z`, `a`-`z`, `0`-`9`, `+`, `/`.
pub open spec fn base64_digit(d: int) -> char {
    if d < 26 {
        (65 + d) as char
    } else if d < 52 {
        (97 + d - 26) as char
    } else if d < 62 {
        (48 + d - 52) as char
    } else if d == 62 {
        '+'
    } else {
        '/'
    }
}

/// The standard base64 text (RFC 4648) of `bytes`: each group of three bytes becomes
/// four digits of six bits each, most significant first; a last group of one or two
/// bytes gives two or three digits, padded with `=` to four characters.
pub open spec fn base64_standard(bytes: Seq<u8>) -> Seq<char>
    decreases bytes.len(),
{
    if bytes.len() == 0 {
        Seq::<char>::empty()
    } else if bytes.len() == 1 {
        let a = bytes[0] as int;
        seq![base64_digit(a / 4), base64_digit((a % 4) * 16), '=', '=']
    } else if bytes.len() == 2 {
        let a = bytes[0] as int;
        let b = bytes[1] as int;
        seq![base64_digit(a / 4), base64_digit((a % 4) * 16 + b / 16), base64_digit((b % 16) * 4), '=']
    } else {
        let a = bytes[0] as int;
        let b = bytes[1] as int;
        let c = bytes[2] as int;
        seq![
            base64_digit(a / 4),
            base64_digit((a % 4) * 16 + b / 16),
            base64_digit((b % 16) * 4 + c / 64),
            base64_digit(c % 64),
        ] + base64_standard(bytes.skip(3))
    }
}

/// Calls `base64::engine::general_purpose::STANDARD.encode`. Claimed: the result is the
/// standard padded base64 text of `bytes`, as `base64_standard` states it. The encoder
/// panics when the length of its output overflows `usize`, which the `requires` leaves
/// out.
#[verifier::external_body]
fn encode_base64(bytes: &[u8]) -> (r: String)
    requires
        bytes@.len() <= usize::MAX / 2,
    ensures
        r@ == base64_standard(bytes@),
{
    base64::engine::general_purpose::STANDARD.encode(bytes)
}

/// The user name that the League client expects in Basic authentication.
pub open spec fn auth_user() -> Seq<char> {
    "riot:"@
}

/// The value of the `Authorization` header for `token`: `Basic ` and the base64 text of
/// the UTF-8 bytes of `riot:<token>`.
pub open spec fn basic_auth_value(token: Seq<char>) -> Seq<char> {
    "Basic "@ + base64_standard(vstd::utf8::encode_utf8("riot:"@ + token))
}

/// The `Authorization` header value for the client's token.
pub fn basic_auth(token: &str) -> (r: String)
    requires
        vstd::utf8::encode_utf8("riot:"@ + token@).len() <= usize::MAX / 2,
    ensures
        r@ == basic_auth_value(token@),
{
    let mut credentials = "riot:".to_owned();
    credentials.push_str(token);
    let bytes = credentials.as_str().as_bytes();
    let encoded = encode_base64(bytes);
    let mut header = "Basic ".to_owned();
    header.push_str(encoded.as_str());
    header
}

/// `https://127.0.0.1:<port>`, where the client serves its REST API.
pub open spec fn base_url_value(port: u16) -> Seq<char> {
    "https://127.0.0.1:"@ + text::decimal_chars(port as nat)
}

/// The base of every REST request to the client on `port`.
pub fn base_url(port: u16) -> (r: String)
    ensures
        r@ == base_url_value(port),
{
    let mut url = "https://127.0.0.1:".to_owned();
    text::push_decimal(&mut url, port);
    url
}

/// `wss://127.0.0.1:<port>/`, where the client serves its event socket.
pub open spec fn ws_url_value(port: u16) -> Seq<char> {
    "wss://127.0.0.1:"@ + text::decimal_chars(port as nat) + "/"@
}

/// The address of the client's event socket on `port`.
pub fn ws_url(port: u16) -> (r: String)
    ensures
        r@ == ws_url_value(port),
{
    let mut url = "wss://127.0.0.1:".to_owned();
    text::push_decimal(&mut url, port);
    url.push_str("/");
    url
}

/// A plain-text reply of the client with surrounding white space and quotes removed:
/// the gameflow phase comes back as a JSON string such as `"Matchmaking"`.
pub open spec fn reply_text(body: Seq<char>) -> Seq<char> {
    text::trim_seq(text::trim_seq(body, TrimSet::Whitespace), TrimSet::Char('"'))
}

/// What `get_text` hands back of a reply body.
pub fn unquote_reply(body: &str) -> (r: String)
    ensures
        r@ == reply_text(body@),
{
    let trimmed = text::trim_in(body, TrimSet::Whitespace);
    let unquoted = text::trim_in(trimmed, TrimSet::Char('"'));
    unquoted.to_owned()
}

/// The REST endpoint that reports the ready check.
pub fn ready_check_path() -> (r: &'static str)
    ensures
        r@ == "/lol-matchmaking/v1/ready-check"@,
{
    "/lol-matchmaking/v1/ready-check"
}

/// The REST endpoint that an accept request is posted to.
pub fn accept_path() -> (r: &'static str)
    ensures
        r@ == "/lol-matchmaking/v1/ready-check/accept"@,
{
    "/lol-matchmaking/v1/ready-check/accept"
}

/// The REST endpoint that reports the gameflow phase (as a JSON string).
pub fn gameflow_phase_path() -> (r: &'static str)
    ensures
        r@ == "/lol-gameflow/v1/gameflow-phase"@,
{
    "/lol-gameflow/v1/gameflow-phase"
}

/// The message that subscribes the event socket to every API event.
pub fn subscribe_message() -> (r: &'static str)
    ensures
        r@ == "[5,\"OnJsonApiEvent\"]"@,
{
    "[5,\"OnJsonApiEvent\"]"
}

/// Whether an HTTP status code is a success (2xx), as `StatusCode::is_success` decides.
pub fn is_success(status: u16) -> (r: bool)
    ensures
        r == (200 <= status <= 299),
{
    200 <= status && status <= 299
}

} // verus!
