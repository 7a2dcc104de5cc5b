use scalar_desktop::api::{api_fetch, finish, receive, respond, ApiRequest, Incoming};
use scalar_desktop::headers::{collect_headers, Headers, RawHeader};

fn headers(pairs: &[(&str, &str)]) -> Headers {
    let mut headers = Headers::new();
    for (name, value) in pairs {
        headers.insert(name.to_string(), value.to_string());
    }
    headers
}

fn raw(pairs: &[(&str, &[u8])]) -> Vec<RawHeader> {
    pairs
        .iter()
        .map(|(name, value)| RawHeader { name: name.to_string(), value: value.to_vec() })
        .collect()
}

fn request(method: &str, body: Option<Vec<u8>>) -> ApiRequest {
    ApiRequest {
        url: "http://localhost:4000/api/v1/me".to_string(),
        method: method.to_string(),
        headers: headers(&[("accept", "application/json"), ("x-a", "1"), ("x-a", "2")]),
        body,
    }
}

#[test]
fn a_request_goes_out_as_it_was_asked_for() {
    let body: Vec<u8> = (0u8..=255).collect();
    let outgoing = api_fetch(request("PATCH", Some(body.clone()))).expect("a known method");
    assert_eq!(outgoing.method, "PATCH");
    assert_eq!(outgoing.url, "http://localhost:4000/api/v1/me");
    assert_eq!(outgoing.body, Some(body));
    let mut sent = outgoing.headers;
    sent.sort();
    assert_eq!(
        sent,
        vec![
            ("accept".to_string(), "application/json".to_string()),
            ("x-a".to_string(), "2".to_string()),
        ]
    );
}

#[test]
fn a_request_without_a_body_has_none() {
    assert_eq!(api_fetch(request("GET", None)).expect("a known method").body, None);
}

#[test]
fn a_method_of_ones_own_is_passed_on() {
    let outgoing = api_fetch(request("x-Purge_1!", None)).expect("a token");
    assert_eq!(outgoing.method, "x-Purge_1!");
}

#[test]
fn what_is_no_method_is_refused() {
    assert_eq!(api_fetch(request("", None)).unwrap_err(), "unsupported method: ");
    assert_eq!(api_fetch(request("GET IT", None)).unwrap_err(), "unsupported method: GET IT");
    assert_eq!(api_fetch(request("G\u{e9}T", None)).unwrap_err(), "unsupported method: G\u{e9}T");
    assert_eq!(api_fetch(request("a/b", None)).unwrap_err(), "unsupported method: a/b");
}

#[test]
fn headers_are_told_in_lower_case() {
    let told = collect_headers(&raw(&[("Content-Type", b"text/plain"), ("X-\u{c9}A", b"1")]));
    assert_eq!(told.get("content-type").map(|v| v.as_str()), Some("text/plain"));
    assert!(!told.contains_key("Content-Type"));
    assert!(told.contains_key("x-\u{c9}a"));
}

#[test]
fn the_last_of_several_headers_is_told() {
    let told = collect_headers(&raw(&[("a", b"1"), ("b", b"2"), ("A", b"3")]));
    let mut entries = told.into_entries();
    entries.sort();
    assert_eq!(
        entries,
        vec![("a".to_string(), "3".to_string()), ("b".to_string(), "2".to_string())]
    );
}

#[test]
fn a_value_that_is_not_text_is_left_out() {
    let told = collect_headers(&raw(&[("a", b"1"), ("a", b"\xff"), ("b", b"\x01"), ("c", b"x\ty ~")]));
    assert_eq!(told.get("a").map(|v| v.as_str()), Some("1"));
    assert!(told.get("b").is_none());
    assert_eq!(told.get("c").map(|v| v.as_str()), Some("x\ty ~"));
}

#[test]
fn a_status_is_told_with_its_standard_phrase() {
    let head = receive(Ok(Incoming { status: 404, headers: raw(&[]) })).expect("an answer");
    assert_eq!(head.status, 404);
    assert_eq!(head.status_text, "Not Found");
    let odd = receive(Ok(Incoming { status: 799, headers: raw(&[]) })).expect("an answer");
    assert_eq!(odd.status, 799);
    assert_eq!(odd.status_text, "");
}

#[test]
fn a_given_phrase_is_the_status_text() {
    let head = respond(Incoming { status: 200, headers: raw(&[]) }, Some("Fine".to_string()));
    assert_eq!(head.status_text, "Fine");
    assert_eq!(respond(Incoming { status: 200, headers: raw(&[]) }, None).status_text, "");
}

#[test]
fn setting_a_cookie_saves_the_jar() {
    let signed_in = raw(&[("Set-Cookie", b"scalar_session=abc123; Path=/")]);
    assert!(receive(Ok(Incoming { status: 200, headers: signed_in })).expect("an answer").saves_jar);
    let plain = raw(&[("content-length", b"0"), ("cookie", b"a=b")]);
    assert!(!receive(Ok(Incoming { status: 200, headers: plain })).expect("an answer").saves_jar);
    let unreadable = raw(&[("set-cookie", b"a=\xc3\xa9")]);
    assert!(!receive(Ok(Incoming { status: 200, headers: unreadable })).expect("an answer").saves_jar);
}

#[test]
fn a_server_that_cannot_be_reached_is_an_error() {
    let error = receive(Err("connection refused".to_string())).unwrap_err();
    assert_eq!(error, "request failed: connection refused");
}

#[test]
fn a_body_comes_back_byte_for_byte() {
    let head = receive(Ok(Incoming { status: 200, headers: raw(&[("A", b"1")]) })).expect("an answer");
    let body: Vec<u8> = (0u8..=255).rev().collect();
    let response = finish(head, Ok(body.clone())).expect("a body");
    assert_eq!(response.status, 200);
    assert_eq!(response.status_text, "OK");
    assert_eq!(response.body, body);
    assert_eq!(response.headers.get("a").map(|v| v.as_str()), Some("1"));
}

#[test]
fn a_body_that_cannot_be_read_is_an_error() {
    let head = receive(Ok(Incoming { status: 200, headers: raw(&[]) })).expect("an answer");
    let error = finish(head, Err("timed out".to_string())).unwrap_err();
    assert_eq!(error, "could not read the response: timed out");
}

#[test]
fn every_character_of_a_method_is_judged_by_itself() {
    for code in 0u32..=0x17f {
        let c = char::from_u32(code).expect("a character");
        let token = c.is_ascii_alphanumeric() || "!#$%&'*+-.^_`|~".contains(c);
        for method in [format!("{c}"), format!("GE{c}"), format!("A-METHOD-THAT-IS-LONG{c}")] {
            assert_eq!(api_fetch(request(&method, None)).is_ok(), token, "{method:?}");
        }
    }
}

#[test]
fn every_byte_of_a_value_is_judged_by_itself() {
    for byte in 0u8..=255 {
        let told = collect_headers(&raw(&[("a", &[b'x', byte])]));
        let text = (32..127).contains(&byte) || byte == 9;
        assert_eq!(told.contains_key("a"), text, "{byte}");
        if text {
            assert_eq!(told.get("a").map(|v| v.as_bytes()), Some([b'x', byte].as_slice()));
        }
    }
}
