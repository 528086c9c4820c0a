use emote_resolver::failure::Failure;
use emote_resolver::route::{
    mime_type, parse_request, push_decimal, response_head, route_request,
};
use emote_resolver::seventv::SevenUserEmote;

fn emote(id: &str, animated: bool) -> SevenUserEmote {
    SevenUserEmote { id: id.to_owned(), name: "n".to_owned(), animated }
}

#[test]
fn one_segment_is_a_global_keyword() {
    let parsed = parse_request("/LUL").unwrap();
    assert_eq!(parsed.emotes, vec!["LUL".to_owned()]);
    assert_eq!(parsed.twitch_username, None);
}

#[test]
fn two_segments_are_broadcaster_and_keyword() {
    let parsed = parse_request("/forsen/pog").unwrap();
    assert_eq!(parsed.emotes, vec!["pog".to_owned()]);
    assert_eq!(parsed.twitch_username, Some("forsen".to_owned()));
}

#[test]
fn gif_suffix_is_dropped_from_the_keyword_only() {
    let parsed = parse_request("/LUL.gif").unwrap();
    assert_eq!(parsed.emotes, vec!["LUL".to_owned()]);
    let parsed = parse_request("/name.gif/kappa.gif").unwrap();
    assert_eq!(parsed.emotes, vec!["kappa".to_owned()]);
    assert_eq!(parsed.twitch_username, Some("name.gif".to_owned()));
}

#[test]
fn every_trailing_gif_suffix_is_dropped() {
    let parsed = parse_request("/a.gif.gif.gif").unwrap();
    assert_eq!(parsed.emotes, vec!["a".to_owned()]);
    let parsed = parse_request("/.gif").unwrap();
    assert_eq!(parsed.emotes, vec!["".to_owned()]);
    let parsed = parse_request("/a.gifx").unwrap();
    assert_eq!(parsed.emotes, vec!["a.gifx".to_owned()]);
    let parsed = parse_request("/a.GIF").unwrap();
    assert_eq!(parsed.emotes, vec!["a.GIF".to_owned()]);
}

#[test]
fn slashes_at_both_ends_do_not_count() {
    let parsed = parse_request("///user/emote///").unwrap();
    assert_eq!(parsed.emotes, vec!["emote".to_owned()]);
    assert_eq!(parsed.twitch_username, Some("user".to_owned()));
    let parsed = parse_request("emote").unwrap();
    assert_eq!(parsed.emotes, vec!["emote".to_owned()]);
}

#[test]
fn an_empty_path_names_the_empty_keyword() {
    let parsed = parse_request("").unwrap();
    assert_eq!(parsed.emotes, vec!["".to_owned()]);
    assert_eq!(parsed.twitch_username, None);
    let parsed = parse_request("/").unwrap();
    assert_eq!(parsed.emotes, vec!["".to_owned()]);
}

#[test]
fn three_segments_ask_for_nothing() {
    assert!(parse_request("/a/b/c").is_none());
    assert!(parse_request("/a//b").is_none());
}

#[test]
fn path_with_other_letters() {
    let parsed = parse_request("/st\u{e4}dte/\u{1f600}.gif").unwrap();
    assert_eq!(parsed.emotes, vec!["\u{1f600}".to_owned()]);
    assert_eq!(parsed.twitch_username, Some("st\u{e4}dte".to_owned()));
}

#[test]
fn route_of_a_global_request() {
    let target = route_request(b"GET /LUL.gif HTTP/1.1\r\nHost: a\r\n\r\n\0").unwrap();
    assert_eq!(target.keyword, "LUL");
    assert_eq!(target.twitch_username, None);
}

#[test]
fn route_of_a_broadcaster_request() {
    let target = route_request(b"GET /forsen/pog HTTP/1.1\r\n\r\n\0").unwrap();
    assert_eq!(target.keyword, "pog");
    assert_eq!(target.twitch_username, Some("forsen".to_owned()));
}

#[test]
fn route_of_a_malformed_request() {
    match route_request(b"GET /a HTTP/1.1\r\n") {
        Err(Failure::MalformedRequest(reason)) => {
            assert_eq!(reason, "Couldn't find header separator")
        }
        other => panic!("unexpected {:?}", other),
    }
    match route_request(b"FETCH /a HTTP/1.1\r\n\r\n\0") {
        Err(Failure::MalformedRequest(reason)) => assert_eq!(reason, "Failed to parse http head"),
        other => panic!("unexpected {:?}", other),
    }
    match route_request(b"GET /a/b/c HTTP/1.1\r\n\r\n\0") {
        Err(failure) => {
            assert_eq!(failure.message(), "[ERROR]: Couldn't parse request pathname")
        }
        other => panic!("unexpected {:?}", other),
    }
}

#[test]
fn mime_follows_the_animated_flag() {
    assert_eq!(mime_type(&emote("abc", true)), "image/gif");
    assert_eq!(mime_type(&emote("abc", false)), "image/webp");
}

#[test]
fn decimal_numerals() {
    for (n, expected) in [
        (0usize, "0"),
        (7, "7"),
        (9, "9"),
        (10, "10"),
        (99, "99"),
        (100, "100"),
        (1024, "1024"),
        (9876543210, "9876543210"),
    ] {
        let mut out = String::from(">");
        push_decimal(&mut out, n);
        assert_eq!(out, format!(">{}", expected));
    }
    let mut out = String::new();
    push_decimal(&mut out, usize::MAX);
    assert_eq!(out, format!("{}", usize::MAX));
}

#[test]
fn response_head_of_an_animated_emote() {
    assert_eq!(
        response_head(&emote("abc", true), 1234),
        "HTTP/1.1 200 OK\r\nContent-Type: image/gif\r\nContent-Length: 1234\r\n\r\n"
    );
}

#[test]
fn response_head_of_a_still_emote() {
    assert_eq!(
        response_head(&emote("abc", false), 0),
        "HTTP/1.1 200 OK\r\nContent-Type: image/webp\r\nContent-Length: 0\r\n\r\n"
    );
}
