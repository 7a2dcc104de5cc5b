//! One API request made outside the webview, so that the session cookie travels with it.
//!
//! Only the transport lives here. Which server to talk to, what to send and what to do with the
//! answer are all decided by the web app, exactly as they are in a browser. A request goes through
//! three steps: [`api_fetch`] says what to send, [`receive`] takes the answer's head, and
//! [`finish`] its body.

use crate::headers::{collect_headers, headers_are_told_as_they_arrived, is_listing, is_readable};
use crate::headers::{last_readable_header_wins, lower, raw_headers, told_of, Headers, RawHeader};
use crate::text::join;
use vstd::prelude::*;

verus! {

/// The header by which a server changes the cookie jar.
pub const SET_COOKIE: &'static str = "set-cookie";

/// One request from the web app, mirroring the shape of `fetch`.
#[derive(Debug)]
pub struct ApiRequest {
    pub url: String,
    pub method: String,
    pub headers: Headers,
    /// Bytes, so an upload is not corrupted on the way through.
    pub body: Option<Vec<u8>>,
}

/// A request as it is to be sent.
#[derive(Debug)]
pub struct Outgoing {
    pub method: String,
    pub url: String,
    pub headers: Vec<(String, String)>,
    pub body: Option<Vec<u8>>,
}

/// The head of an answer, as it arrived.
#[derive(Debug)]
pub struct Incoming {
    pub status: u16,
    pub headers: Vec<RawHeader>,
}

/// The head of an answer, as the web app is told of it.
#[derive(Debug)]
pub struct ResponseHead {
    pub status: u16,
    pub status_text: String,
    pub headers: Headers,
    /// Whether the answer changed the cookie jar, so that it has to be written out. Signing in and
    /// signing out are the only responses that do, so this is rare.
    pub saves_jar: bool,
}

/// Enough of a `Response` for the web app to rebuild one.
#[derive(Debug)]
pub struct ApiResponse {
    pub status: u16,
    pub status_text: String,
    pub headers: Headers,
    /// Bytes rather than text: attachments, images and avatars are not valid UTF-8, and decoding
    /// them as a string replaces every byte it does not understand.
    pub body: Vec<u8>,
}

/// A character that may stand in the name of an HTTP method.
pub open spec fn is_token(c: char) -> bool {
    ||| 'a' <= c <= 'z'
    ||| 'A' <= c <= 'Z'
    ||| '0' <= c <= '9'
    ||| c == '!' || c == '#' || c == '$' || c == '%' || c == '&' || c == '\''
    ||| c == '*' || c == '+' || c == '-' || c == '.' || c == '^' || c == '_'
    ||| c == '`' || c == '|' || c == '~'
}

/// Whether text names an HTTP method.
pub open spec fn is_method(text: Seq<char>) -> bool {
    text.len() > 0 && forall|i: int| 0 <= i < text.len() ==> is_token(#[trigger] text[i])
}

/// The reason phrase that is standard for a status code, where there is one.
pub uninterp spec fn standard_reason(status: u16) -> Option<Seq<char>>;

/// The text of an optional phrase, empty where there is none.
pub open spec fn phrase(reason: Option<Seq<char>>) -> Seq<char> {
    match reason {
        Some(text) => text,
        None => Seq::empty(),
    }
}

/// [`reqwest::Method::from_bytes`]: takes a method's name as it is, letter for letter, where it is
/// one or more characters of a token, and refuses it otherwise.
#[verifier::external_body]
fn parse_method(method: &str) -> (r: Option<String>)
    ensures
        r is Some <==> is_method(method@),
        r matches Some(name) ==> name@ == method@,
{
    let parsed = reqwest::Method::from_bytes(method.as_bytes()).ok()?;
    Some(parsed.as_str().to_string())
}

/// [`reqwest::StatusCode::canonical_reason`]: a phrase from a fixed table, by the code alone.
#[verifier::external_body]
fn canonical_reason(status: u16) -> (r: Option<String>)
    ensures
        r is Some <==> standard_reason(status) is Some,
        r matches Some(text) ==> standard_reason(status) == Some(text@),
{
    let code = reqwest::StatusCode::from_u16(status).ok()?;
    code.canonical_reason().map(|text| text.to_string())
}

/// Performs one API request outside the webview: what to send, or why nothing can be sent.
pub fn api_fetch(request: ApiRequest) -> (r: Result<Outgoing, String>)
    requires
        request.headers.wf(),
    ensures
        match r {
            Ok(outgoing) => {
                &&& is_method(request.method@)
                &&& outgoing.method@ == request.method@
                &&& outgoing.url@ == request.url@
                &&& is_listing(outgoing.headers@, request.headers@)
                &&& outgoing.body == request.body
            },
            Err(message) => {
                &&& !is_method(request.method@)
                &&& message@ == "unsupported method: "@ + request.method@
            },
        },
{
    match parse_method(request.method.as_str()) {
        Some(method) => Ok(
            Outgoing {
                method,
                url: request.url,
                headers: request.headers.into_entries(),
                body: request.body,
            },
        ),
        None => Err(join("unsupported method: ", request.method.as_str())),
    }
}

/// The head of an answer whose status code has the standard phrase `reason`.
pub fn respond(incoming: Incoming, reason: Option<String>) -> (r: ResponseHead)
    ensures
        r.status == incoming.status,
        r.status_text@ == match reason {
            Some(text) => text@,
            None => Seq::empty(),
        },
        r.headers.wf(),
        r.headers@ == told_of(raw_headers(incoming.headers@)),
        r.saves_jar == told_of(raw_headers(incoming.headers@)).contains_key(SET_COOKIE@),
{
    let headers = collect_headers(&incoming.headers);
    let saves_jar = headers.contains_key(SET_COOKIE);
    let status_text = match reason {
        Some(text) => text,
        None => String::new(),
    };
    ResponseHead { status: incoming.status, status_text, headers, saves_jar }
}

/// Takes what came of sending a request: the head of the answer, or why there is none.
///
/// A failure to reach the server is reported as an error string, which the web app turns into the
/// same "could not connect" state a browser would show.
pub fn receive(sent: Result<Incoming, String>) -> (r: Result<ResponseHead, String>)
    ensures
        match sent {
            Ok(incoming) => {
                &&& r matches Ok(head)
                &&& head.status == incoming.status
                &&& head.status_text@ == phrase(standard_reason(incoming.status))
                &&& head.headers.wf()
                &&& head.headers@ == told_of(raw_headers(incoming.headers@))
                &&& head.saves_jar == told_of(raw_headers(incoming.headers@)).contains_key(
                    SET_COOKIE@,
                )
            },
            Err(error) => {
                &&& r matches Err(message)
                &&& message@ == "request failed: "@ + error@
            },
        },
{
    match sent {
        Ok(incoming) => {
            let reason = canonical_reason(incoming.status);
            Ok(respond(incoming, reason))
        },
        Err(error) => Err(join("request failed: ", error.as_str())),
    }
}

/// Takes what came of reading the answer's body: the answer, or why it could not be read.
pub fn finish(head: ResponseHead, body: Result<Vec<u8>, String>) -> (r: Result<ApiResponse, String>)
    requires
        head.headers.wf(),
    ensures
        match body {
            Ok(bytes) => {
                &&& r matches Ok(response)
                &&& response.status == head.status
                &&& response.status_text@ == head.status_text@
                &&& response.headers.wf()
                &&& response.headers@ == head.headers@
                &&& response.body@ == bytes@
            },
            Err(error) => {
                &&& r matches Err(message)
                &&& message@ == "could not read the response: "@ + error@
            },
        },
{
    match body {
        Ok(body) => Ok(
            ApiResponse {
                status: head.status,
                status_text: head.status_text,
                headers: head.headers,
                body,
            },
        ),
        Err(error) => Err(join("could not read the response: ", error.as_str())),
    }
}

/// The jar is written out after exactly those answers that carry a `Set-Cookie` header, in
/// whatever case its name was sent, with a value that is text.
pub proof fn jar_is_saved_after_set_cookie(headers: Seq<(Seq<char>, Seq<u8>)>)
    ensures
        told_of(headers).contains_key(SET_COOKIE@) <==> exists|i: int|
            0 <= i < headers.len() && lower((#[trigger] headers[i]).0) == SET_COOKIE@
                && is_readable(headers[i].1),
{
    last_readable_header_wins(headers, SET_COOKIE@);
}

/// The jar is written out after exactly those answers of which some header, wherever it stands
/// among them, is called `set-cookie` in lower case and has a value that is text.
pub proof fn every_header_may_save_the_jar(headers: Seq<RawHeader>)
    ensures
        told_of(raw_headers(headers)).contains_key(SET_COOKIE@) <==> exists|i: int|
            0 <= i < headers.len() && lower((#[trigger] headers[i]).name@) == "set-cookie"@
                && is_readable(headers[i].value@),
{
    headers_are_told_as_they_arrived(headers, "set-cookie"@);
}

/// A method is named by one or more visible ASCII characters, none of which is a delimiter: a
/// double quote, a round, square or curly bracket, a comma, a slash of either kind, a colon, a
/// semicolon, `<`, `=`, `>`, `?` or `@`.
pub proof fn methods_hold_no_delimiters(method: Seq<char>)
    ensures
        is_method(method) <==> method.len() > 0 && forall|i: int|
            0 <= i < method.len() ==> {
                let c = #[trigger] method[i];
                &&& '!' <= c <= '~'
                &&& c != '"' && c != '(' && c != ')' && c != ',' && c != '/' && c != ':' && c != ';'
                &&& c != '<' && c != '=' && c != '>' && c != '?' && c != '@' && c != '['
                &&& c != '\\' && c != ']' && c != '{' && c != '}'
            },
{
    assert forall|i: int| 0 <= i < method.len() implies is_token(#[trigger] method[i]) == ({
        let c = method[i];
        &&& '!' <= c <= '~'
        &&& c != '"' && c != '(' && c != ')' && c != ',' && c != '/' && c != ':' && c != ';'
        &&& c != '<' && c != '=' && c != '>' && c != '?' && c != '@' && c != '['
        &&& c != '\\' && c != ']' && c != '{' && c != '}'
    }) by {}
}

/// The phrase for a status is the standard one, and empty only where there is none or it is empty
/// itself.
pub proof fn status_text_is_the_standard_phrase(status: u16)
    ensures
        standard_reason(status) matches Some(text) ==> phrase(standard_reason(status)) == text,
        standard_reason(status) is None ==> phrase(standard_reason(status)).len() == 0,
{
}

} // verus!
