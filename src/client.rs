//! Requests to the bridge: headers, and the transport that sends them.
use vstd::prelude::*;

use crate::error::{CoreError, CoreResult};

verus! {

#[verifier::external_type_specification]
#[verifier::external_body]
pub struct ExHeaderName(reqwest::header::HeaderName);

#[verifier::external_type_specification]
#[verifier::external_body]
pub struct ExHeaderValue(reqwest::header::HeaderValue);

/// A header of a request, as the caller writes it.
pub struct Header {
    pub name: String,
    pub value: String,
}

impl Header {
    pub fn new(name: &str, value: &str) -> (r: Self)
        ensures
            r.name@ == name@,
            r.value@ == value@,
    {
        Header { name: name.to_owned(), value: value.to_owned() }
    }
}

/// A character that may stand in a header name: the token characters of
/// HTTP.
pub open spec fn is_token_char(c: char) -> bool {
    ('a' <= c <= 'z') || ('A' <= c <= 'Z') || ('0' <= c <= '9') || c == '!' || c == '#' || c
        == '$' || c == '%' || c == '&' || c == '\'' || c == '*' || c == '+' || c == '-' || c == '.'
        || c == '^' || c == '_' || c == '`' || c == '|' || c == '~'
}

/// A header name that HTTP accepts: one to 65535 token characters.
pub open spec fn valid_header_name(s: Seq<char>) -> bool {
    0 < s.len() <= 65535 && forall|i: int| 0 <= i < s.len() ==> is_token_char(#[trigger] s[i])
}

/// A character that may stand in a header value: a tab, or anything but
/// the other control characters.
pub open spec fn is_value_char(c: char) -> bool {
    c == '\t' || (' ' <= c && c != '\x7f')
}

pub open spec fn valid_header_value(s: Seq<char>) -> bool {
    forall|i: int| 0 <= i < s.len() ==> is_value_char(#[trigger] s[i])
}

pub open spec fn header_ok(h: Header) -> bool {
    valid_header_name(h.name@) && valid_header_value(h.value@)
}

/// Relies on `HeaderName::from_bytes`, which accepts one to 65535 bytes
/// that its table maps to a token character. A character outside ASCII is
/// written as bytes of 128 and above, which the table rejects, so over the
/// characters of a text the test is the one stated.
#[verifier::external_body]
fn header_name(name: &str) -> (r: Result<reqwest::header::HeaderName, reqwest::header::InvalidHeaderName>)
    ensures
        r is Ok <==> valid_header_name(name@),
{
    reqwest::header::HeaderName::from_bytes(name.as_bytes())
}

/// Relies on `HeaderValue::from_str`, which accepts a text whose bytes are
/// all a tab or at least 32 and not 127. The bytes of a character outside
/// ASCII are all 128 and above, so over characters the test is the one
/// stated.
#[verifier::external_body]
fn header_value(value: &str) -> (r: Result<reqwest::header::HeaderValue, reqwest::header::InvalidHeaderValue>)
    ensures
        r is Ok <==> valid_header_value(value@),
{
    reqwest::header::HeaderValue::from_str(value)
}

/// Checks each header against the grammar of HTTP, before anything is sent.
/// The first header that fails decides the error: an invalid name, or else
/// an invalid value.
pub fn validate_headers(headers: &Vec<Header>) -> (r: CoreResult<Vec<(reqwest::header::HeaderName, reqwest::header::HeaderValue)>>)
    ensures
        r is Ok <==> forall|i: int| 0 <= i < headers@.len() ==> header_ok(#[trigger] headers@[i]),
        r matches Ok(v) ==> v@.len() == headers@.len(),
        r matches Err(e) ==> exists|k: int|
            0 <= k < headers@.len() && (forall|i: int| 0 <= i < k ==> header_ok(#[trigger] headers@[i]))
                && !header_ok(#[trigger] headers@[k]) && if valid_header_name(headers@[k].name@) {
                e is InvalidReqwestHeaderValue
            } else {
                e is InvalidReqwestHeaderName
            },
{
    let mut out: Vec<(reqwest::header::HeaderName, reqwest::header::HeaderValue)> = Vec::new();
    let mut i: usize = 0;
    while i < headers.len()
        invariant
            i <= headers@.len(),
            out@.len() == i,
            forall|k: int| 0 <= k < i ==> header_ok(#[trigger] headers@[k]),
        decreases headers@.len() - i,
    {
        let name = match header_name(headers[i].name.as_str()) {
            Ok(n) => n,
            Err(e) => {
                return Err(CoreError::InvalidReqwestHeaderName(e));
            },
        };
        let value = match header_value(headers[i].value.as_str()) {
            Ok(v) => v,
            Err(e) => {
                return Err(CoreError::InvalidReqwestHeaderValue(e));
            },
        };
        out.push((name, value));
        i = i + 1;
    }
    Ok(out)
}

/// A request that a transport was asked to send, with what it returned.
pub enum ClientCall {
    Post { url: Seq<char>, body: Seq<char>, headers: Seq<Header>, result: CoreResult<String> },
    Get { url: Seq<char>, headers: Seq<Header>, result: CoreResult<String> },
    Put { url: Seq<char>, body: Seq<char>, headers: Seq<Header>, result: CoreResult<String> },
}

/// Sends requests to the bridge. Any text that comes back is handed on;
/// only a failure to reach the bridge is an error. Each call is recorded,
/// with its arguments and its result, so that callers can state what they
/// sent and how they used the answer.
pub trait HueClient {
    /// The requests sent so far, oldest first. Callers know it only through
    /// the contracts below; an implementation outside verified code may
    /// leave this default.
    closed spec fn calls(&self) -> Seq<ClientCall> {
        Seq::empty()
    }

    fn post_json(&mut self, url: &str, body: &str, headers: Vec<Header>) -> (r: CoreResult<String>)
        ensures
            final(self).calls() == old(self).calls().push(
                ClientCall::Post { url: url@, body: body@, headers: headers@, result: r },
            ),
    ;

    fn get(&mut self, url: &str, headers: Vec<Header>) -> (r: CoreResult<String>)
        ensures
            final(self).calls() == old(self).calls().push(
                ClientCall::Get { url: url@, headers: headers@, result: r },
            ),
    ;

    fn put_json(&mut self, url: &str, body: &str, headers: Vec<Header>) -> (r: CoreResult<String>)
        ensures
            final(self).calls() == old(self).calls().push(
                ClientCall::Put { url: url@, body: body@, headers: headers@, result: r },
            ),
    ;
}

} // verus!
