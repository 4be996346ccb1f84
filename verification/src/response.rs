//! The one response that the interceptor writes itself: the uniform refusal.

use crate::outcome::Reason;
use crate::request::{header_views, Header};
use vstd::prelude::*;
use vstd::string::StrSliceExecFns;
use vstd::utf8::encode_utf8;

verus! {

/// A response with an owned body.
#[derive(Debug, PartialEq, Eq)]
pub struct Response {
    pub status: u16,
    pub headers: Vec<Header>,
    pub body: Vec<u8>,
}

/// The mathematical value of a [`Response`].
pub struct ResponseView {
    pub status: int,
    pub headers: Seq<(Seq<char>, Seq<u8>)>,
    pub body: Seq<u8>,
}

impl View for Response {
    type V = ResponseView;

    open spec fn view(&self) -> ResponseView {
        ResponseView {
            status: self.status as int,
            headers: header_views(self.headers@),
            body: self.body@,
        }
    }
}

/// A character that JSON writes inside a string as it is.
pub open spec fn is_plain(c: char) -> bool {
    c != '"' && c != '\\' && ' ' <= c
}

/// True when no character of the text needs a JSON escape.
pub open spec fn needs_no_escape(text: Seq<char>) -> bool {
    forall|i: int| 0 <= i < text.len() ==> is_plain(#[trigger] text[i])
}

/// True when the first key starts with an earlier character than the second,
/// which puts it first in every ordering of object members.
pub open spec fn opens_earlier(first: Seq<char>, second: Seq<char>) -> bool {
    first.len() > 0 && second.len() > 0 && first[0] < second[0]
}

/// The text between double quotes.
pub open spec fn quoted(text: Seq<char>) -> Seq<char> {
    seq!['"'] + text + seq!['"']
}

/// The compact JSON text of an object with one member, whose value is an
/// object of two string members.
pub open spec fn nested_object_text(
    outer_key: Seq<char>,
    first_key: Seq<char>,
    first: Seq<char>,
    second_key: Seq<char>,
    second: Seq<char>,
) -> Seq<char> {
    seq!['{'] + quoted(outer_key) + seq![':', '{'] + quoted(first_key) + seq![':'] + quoted(first)
        + seq![','] + quoted(second_key) + seq![':'] + quoted(second) + seq!['}', '}']
}

/// `serde_json::Value::to_string` on the object `{outer_key: {first_key:
/// first, second_key: second}}`. The text is compact, members come in key
/// order, and a string without quote, backslash or control character is
/// written unescaped between double quotes; the contract speaks of such
/// strings only, with keys whose order the first character decides.
#[verifier::external_body]
fn nested_object_json(
    outer_key: &str,
    first_key: &str,
    first: &str,
    second_key: &str,
    second: &str,
) -> (text: String)
    ensures
        needs_no_escape(outer_key@) && needs_no_escape(first_key@) && needs_no_escape(first@)
            && needs_no_escape(second_key@) && needs_no_escape(second@) && opens_earlier(
            first_key@,
            second_key@,
        ) ==> text@ == nested_object_text(outer_key@, first_key@, first@, second_key@, second@),
{
    let mut inner = serde_json::Map::new();
    inner.insert(first_key.to_string(), serde_json::Value::from(first));
    inner.insert(second_key.to_string(), serde_json::Value::from(second));
    let mut document = serde_json::Map::new();
    document.insert(outer_key.to_string(), serde_json::Value::Object(inner));
    serde_json::Value::Object(document).to_string()
}

/// `http::StatusCode::UNAUTHORIZED`, as the number that `as_u16` gives: 401.
#[verifier::external_body]
fn unauthorized_status() -> (code: u16)
    ensures
        code == 401,
{
    http::StatusCode::UNAUTHORIZED.as_u16()
}

/// The body of every refusal.
pub open spec fn failure_body_text() -> Seq<char> {
    "{\"Error\":{\"Code\":\"NotAuthorized\",\"Message\":\"SigV4 validation failed\"}}"@
}

/// The refusal, the same for every reason.
pub open spec fn failure_response() -> ResponseView {
    ResponseView {
        status: 401,
        headers: seq![("Content-Type"@, encode_utf8("application/json"@))],
        body: encode_utf8(failure_body_text()),
    }
}

/// Builds the response to a request that was not authenticated: status 401,
/// the JSON content type, and a fixed JSON body. The reason does not show in
/// it.
pub fn build_failure_response(reason: Reason) -> (response: Response)
    ensures
        response@ == failure_response(),
{
    let text = nested_object_json(
        "Error",
        "Code",
        "NotAuthorized",
        "Message",
        "SigV4 validation failed",
    );
    proof {
        reveal_strlit("Error");
        reveal_strlit("Code");
        reveal_strlit("NotAuthorized");
        reveal_strlit("Message");
        reveal_strlit("SigV4 validation failed");
        reveal_strlit(
            "{\"Error\":{\"Code\":\"NotAuthorized\",\"Message\":\"SigV4 validation failed\"}}",
        );
        assert(text@ =~= failure_body_text());
    }
    let mut headers: Vec<Header> = Vec::new();
    headers.push(
        Header { name: "Content-Type".to_owned(), value: "application/json".as_bytes_vec() },
    );
    let response = Response {
        status: unauthorized_status(),
        headers,
        body: text.as_str().as_bytes_vec(),
    };
    proof {
        assert(response@.headers =~= failure_response().headers);
    }
    response
}

} // verus!
