use emote_resolver::http::{HttpRequest, HttpVerb, HttpVersion};

fn text(value: Option<&String>) -> Option<&str> {
    value.map(|v| v.as_str())
}

#[test]
fn parse_reads_request_line_headers_and_body() {
    let input = b"GET /forsen/pog.gif HTTP/1.1\r\nHost: example.org\r\nAccept: */*\r\n\r\nbody";
    let request = HttpRequest::parse(input).unwrap();
    assert_eq!(request.verb, HttpVerb::Get);
    assert_eq!(request.version, HttpVersion::v1_1);
    assert_eq!(request.pathname, "/forsen/pog.gif");
    assert_eq!(text(request.header("Host")), Some("example.org"));
    assert_eq!(text(request.header("Accept")), Some("*/*"));
    assert_eq!(request.header("Missing"), None);
    assert_eq!(request.headers.len(), 2);
    assert_eq!(request.body, b"body".to_vec());
}

#[test]
fn parse_needs_a_byte_after_the_blank_line() {
    let input = b"GET / HTTP/1.1\r\nHost: a\r\n\r\n";
    let error = HttpRequest::parse(input).err().unwrap();
    assert_eq!(error, "Couldn't find header separator");
    let input = b"GET / HTTP/1.1\r\nHost: a\r\n\r\n\0";
    let request = HttpRequest::parse(input).unwrap();
    assert_eq!(request.body, vec![0u8]);
}

#[test]
fn parse_without_blank_line_fails() {
    let error = HttpRequest::parse(b"GET / HTTP/1.1\r\nHost: a\r\n").err().unwrap();
    assert_eq!(error, "Couldn't find header separator");
    let error = HttpRequest::parse(b"").err().unwrap();
    assert_eq!(error, "Couldn't find header separator");
}

#[test]
fn read_head_keeps_the_separator() {
    let input = b"abc\r\n\r\nrest";
    let head = HttpRequest::read_head(input).unwrap();
    assert_eq!(head, b"abc\r\n\r\n");
}

#[test]
fn read_head_stops_at_the_first_blank_line() {
    let input = b"a\r\n\r\nb\r\n\r\nc";
    let head = HttpRequest::read_head(input).unwrap();
    assert_eq!(head, b"a\r\n\r\n");
}

#[test]
fn read_head_does_not_look_twice_at_a_byte() {
    // The second carriage return ends the first attempt and starts none.
    let input = b"a\r\r\n\r\nb";
    assert_eq!(
        HttpRequest::read_head(input).err().unwrap(),
        "Couldn't find header separator"
    );
    let input = b"a\r\r\n\r\nb\r\n\r\nc";
    assert_eq!(HttpRequest::read_head(input).unwrap(), b"a\r\r\n\r\nb\r\n\r\n");
}

#[test]
fn parse_rejects_a_head_that_is_not_utf8() {
    let mut input = b"GET /".to_vec();
    input.push(0xff);
    input.extend_from_slice(b" HTTP/1.1\r\n\r\nx");
    assert_eq!(HttpRequest::parse(&input).err().unwrap(), "Failed to parse http head");
}

#[test]
fn parse_accepts_a_body_that_is_not_utf8() {
    let mut input = b"GET / HTTP/1.0\r\n\r\n".to_vec();
    input.extend_from_slice(&[0xff, 0xfe]);
    let request = HttpRequest::parse(&input).unwrap();
    assert_eq!(request.version, HttpVersion::v1_0);
    assert_eq!(request.body, vec![0xff, 0xfe]);
}

#[test]
fn request_line_names_verb_path_and_version() {
    let (verb, path, version) = HttpRequest::parse_request_line("POST /a/b HTTP/2.0").unwrap();
    assert_eq!(verb, HttpVerb::Post);
    assert_eq!(path, "/a/b");
    assert_eq!(version, HttpVersion::v2_0);
    let (verb, _, version) = HttpRequest::parse_request_line("UPDATE / HTTP/0.9").unwrap();
    assert_eq!(verb, HttpVerb::Update);
    assert_eq!(version, HttpVersion::v0_9);
    let (verb, _, _) = HttpRequest::parse_request_line("DELETE / HTTP/1.1").unwrap();
    assert_eq!(verb, HttpVerb::Delete);
}

#[test]
fn request_line_takes_the_verb_in_any_case() {
    let (verb, path, _) = HttpRequest::parse_request_line("gEt /x HTTP/1.1").unwrap();
    assert_eq!(verb, HttpVerb::Get);
    assert_eq!(path, "/x");
}

#[test]
fn request_line_takes_the_version_in_one_case_only() {
    assert!(HttpRequest::parse_request_line("GET /x http/1.1").is_none());
}

#[test]
fn request_line_rejects_unknown_words() {
    assert!(HttpRequest::parse_request_line("PUT /x HTTP/1.1").is_none());
    assert!(HttpRequest::parse_request_line("GET /x HTTP/3.0").is_none());
    assert!(HttpRequest::parse_request_line("GET /x").is_none());
    assert!(HttpRequest::parse_request_line("GET").is_none());
    assert!(HttpRequest::parse_request_line("").is_none());
}

#[test]
fn request_line_words_are_parted_by_single_spaces() {
    // Two spaces leave an empty word between them, which is then the path.
    assert!(HttpRequest::parse_request_line("GET  /x HTTP/1.1").is_none());
    let (_, path, _) = HttpRequest::parse_request_line("GET  HTTP/1.1").unwrap();
    assert_eq!(path, "");
}

#[test]
fn request_line_ignores_words_after_the_third() {
    let (verb, path, version) =
        HttpRequest::parse_request_line("GET /x HTTP/1.1 and more").unwrap();
    assert_eq!(verb, HttpVerb::Get);
    assert_eq!(path, "/x");
    assert_eq!(version, HttpVersion::v1_1);
}

#[test]
fn headers_are_trimmed_and_split_at_the_first_colon() {
    let headers = HttpRequest::parse_headers(vec![
        "  Host :  example.org:8080  ",
        "X-Empty:",
        "",
        "   ",
        "no colon here",
        ": nameless",
    ]);
    assert_eq!(text(headers.get("Host")), Some("example.org:8080"));
    assert_eq!(text(headers.get("X-Empty")), Some(""));
    assert_eq!(text(headers.get("")), Some("nameless"));
    assert_eq!(headers.len(), 3);
}

#[test]
fn headers_trim_unicode_whitespace() {
    let headers = HttpRequest::parse_headers(vec!["\u{a0}Key\u{2003}:\u{3000}value\t\u{85}"]);
    assert_eq!(text(headers.get("Key")), Some("value"));
    // A zero-width space is no whitespace.
    let headers = HttpRequest::parse_headers(vec!["\u{200b}Key: v"]);
    assert_eq!(text(headers.get("\u{200b}Key")), Some("v"));
}

#[test]
fn a_later_header_replaces_an_earlier_one() {
    let headers = HttpRequest::parse_headers(vec!["A: 1", "B: 2", "A: 3"]);
    assert_eq!(text(headers.get("A")), Some("3"));
    assert_eq!(text(headers.get("B")), Some("2"));
    assert_eq!(headers.len(), 2);
}

#[test]
fn parse_of_no_lines_gives_no_headers() {
    let headers = HttpRequest::parse_headers(Vec::new());
    assert!(headers.is_empty());
}

#[test]
fn parse_takes_the_request_line_from_the_first_line_only() {
    let input = b"\r\nGET / HTTP/1.1\r\n\r\nx";
    assert_eq!(HttpRequest::parse(input).err().unwrap(), "Failed to parse http head");
}

#[test]
fn parse_reads_a_zero_filled_buffer() {
    let mut input = b"GET /LUL HTTP/1.1\r\nUser-Agent: t\r\n\r\n".to_vec();
    input.resize(1000, 0);
    let request = HttpRequest::parse(&input).unwrap();
    assert_eq!(request.pathname, "/LUL");
    assert_eq!(text(request.header("User-Agent")), Some("t"));
    assert_eq!(request.body.len(), 1000 - 36);
}
