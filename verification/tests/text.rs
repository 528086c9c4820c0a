use emote_resolver::failure::Failure;
use emote_resolver::text::{
    chars_of, find_in, occurs, span_is, span_is_ignoring_case, span_string, split_in,
    strip_trailing_in, trim_in, CharClass, Span,
};
use emote_resolver::utils::now_secs;

fn whole(chars: &Vec<char>) -> Span {
    Span { lo: 0, hi: chars.len() }
}

fn pieces(text: &str, pat: &str) -> Vec<String> {
    let chars = chars_of(text);
    split_in(&chars, whole(&chars), &chars_of(pat))
        .into_iter()
        .map(|span| span_string(text, span))
        .collect()
}

#[test]
fn chars_of_counts_characters_not_bytes() {
    assert_eq!(chars_of("a\u{e4}\u{1f600}"), vec!['a', '\u{e4}', '\u{1f600}']);
    assert!(chars_of("").is_empty());
}

#[test]
fn span_string_cuts_by_characters() {
    assert_eq!(span_string("a\u{e4}\u{1f600}b", Span { lo: 1, hi: 3 }), "\u{e4}\u{1f600}");
    assert_eq!(span_string("abc", Span { lo: 3, hi: 3 }), "");
}

#[test]
fn occurs_checks_one_place() {
    let s = chars_of("abcabc");
    assert!(occurs(&s, &chars_of("bc"), 1));
    assert!(occurs(&s, &chars_of("bc"), 4));
    assert!(!occurs(&s, &chars_of("bc"), 0));
    assert!(!occurs(&s, &chars_of("bc"), 5));
    assert!(!occurs(&s, &chars_of("bc"), 100));
    assert!(occurs(&s, &chars_of(""), 6));
    assert!(!occurs(&s, &chars_of(""), 7));
    assert!(!occurs(&s, &chars_of("abcabcd"), 0));
}

#[test]
fn find_gives_the_first_occurrence_in_the_span() {
    let s = chars_of("abcabc");
    assert_eq!(find_in(&s, whole(&s), &chars_of("bc")), Some(1));
    assert_eq!(find_in(&s, Span { lo: 2, hi: 6 }, &chars_of("bc")), Some(4));
    assert_eq!(find_in(&s, Span { lo: 2, hi: 5 }, &chars_of("bc")), None);
    assert_eq!(find_in(&s, whole(&s), &chars_of("x")), None);
    assert_eq!(find_in(&s, Span { lo: 3, hi: 3 }, &chars_of("")), Some(3));
}

#[test]
fn split_keeps_empty_pieces() {
    assert_eq!(pieces("a b c", " "), vec!["a", "b", "c"]);
    assert_eq!(pieces(" a  b ", " "), vec!["", "a", "", "b", ""]);
    assert_eq!(pieces("", " "), vec![""]);
    assert_eq!(pieces("abc", "/"), vec!["abc"]);
}

#[test]
fn split_by_a_longer_pattern_does_not_overlap() {
    assert_eq!(pieces("a\r\nb\r\n\r\n", "\r\n"), vec!["a", "b", "", ""]);
    assert_eq!(pieces("aaaa", "aa"), vec!["", "", ""]);
    assert_eq!(pieces("aaa", "aa"), vec!["", "a"]);
}

#[test]
fn trim_takes_the_class_from_both_ends() {
    let s = chars_of("//a/b///");
    let span = trim_in(&s, whole(&s), CharClass::Slash);
    assert_eq!((span.lo, span.hi), (2, 5));
    let s = chars_of("////");
    let span = trim_in(&s, whole(&s), CharClass::Slash);
    assert_eq!(span.lo, span.hi);
    let s = chars_of(" \t a b \r\n");
    let span = trim_in(&s, whole(&s), CharClass::Whitespace);
    assert_eq!(span_string(" \t a b \r\n", span), "a b");
}

#[test]
fn whitespace_is_what_the_standard_library_calls_whitespace() {
    let mut code = 0u32;
    while code <= 0x10ffff {
        if let Some(c) = char::from_u32(code) {
            assert_eq!(CharClass::Whitespace.has(c), c.is_whitespace(), "U+{:04X}", code);
            assert_eq!(CharClass::Slash.has(c), c == '/');
        }
        code += 1;
    }
}

#[test]
fn strip_trailing_takes_every_repetition() {
    let s = chars_of("a.gif.gif");
    let span = strip_trailing_in(&s, whole(&s), &chars_of(".gif"));
    assert_eq!((span.lo, span.hi), (0, 1));
    let s = chars_of("gif");
    let span = strip_trailing_in(&s, whole(&s), &chars_of(".gif"));
    assert_eq!((span.lo, span.hi), (0, 3));
    let s = chars_of("x.gif.gif");
    let span = strip_trailing_in(&s, Span { lo: 3, hi: 9 }, &chars_of(".gif"));
    assert_eq!((span.lo, span.hi), (3, 5));
}

#[test]
fn span_comparison() {
    let s = chars_of("xGeTx");
    let word = Span { lo: 1, hi: 4 };
    assert!(span_is(&s, word, &chars_of("GeT")));
    assert!(!span_is(&s, word, &chars_of("GET")));
    assert!(!span_is(&s, word, &chars_of("GeTx")));
    assert!(span_is_ignoring_case(&s, word, &chars_of("GET")));
    assert!(!span_is_ignoring_case(&s, word, &chars_of("get")));
    assert!(!span_is_ignoring_case(&s, word, &chars_of("GE")));
    let s = chars_of("\u{e4}");
    assert!(!span_is_ignoring_case(&s, whole(&s), &chars_of("\u{c4}")));
}

#[test]
fn failure_messages() {
    assert_eq!(Failure::NotFound.message(), "Emote not found");
    assert_eq!(Failure::Upstream("a".to_owned()).message(), "a");
    assert_eq!(Failure::Pipeline("b".to_owned()).message(), "b");
    assert_eq!(Failure::MalformedRequest("c".to_owned()).clone().message(), "c");
}

#[test]
fn now_secs_is_after_2020() {
    assert!(now_secs().unwrap() > 1_577_836_800);
}
