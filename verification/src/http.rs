//! The head of an HTTP request: where it ends, its request line, its headers.

use crate::text::{
    chars_of, find, find_in, is_first_occurrence, span_is, span_is_ignoring_case, span_string,
    spans_of, split, split_in, to_ascii_upper, trim, trim_in, CharClass, Span,
};
use vstd::hash_map::StringHashMap;
use vstd::prelude::*;
use vstd::slice::{slice_subrange, slice_to_vec};
use vstd::string::{StrSliceExecFns, StringSliceAdditionalSpecFns};
use vstd::utf8::{decode_utf8, encode_utf8_decode_utf8, valid_utf8};

verus! {

/// The request methods that a request line can name.
#[derive(Debug, Clone, Copy, PartialEq, Eq, Structural)]
pub enum HttpVerb {
    Get,
    Post,
    Update,
    Put,
    Delete,
}

/// The protocol versions that a request line can name.
#[allow(non_camel_case_types)]
#[derive(Debug, Clone, Copy, PartialEq, Eq, Structural)]
pub enum HttpVersion {
    v0_9,
    v1_0,
    v1_1,
    v2_0,
    v3_0,
}

/// A parsed request: the request line, the headers and what follows the head.
pub struct HttpRequest {
    pub verb: HttpVerb,
    pub version: HttpVersion,
    pub pathname: String,
    pub headers: StringHashMap<String>,
    pub body: Vec<u8>,
}

/// What a request is to the specifications.
pub struct RequestView {
    pub verb: HttpVerb,
    pub version: HttpVersion,
    pub pathname: Seq<char>,
    pub headers: Map<Seq<char>, Seq<char>>,
    pub body: Seq<u8>,
}

impl View for HttpRequest {
    type V = RequestView;

    open spec fn view(&self) -> RequestView {
        RequestView {
            verb: self.verb,
            version: self.version,
            pathname: self.pathname@,
            headers: self.headers@.map_values(|value: String| value@),
            body: self.body@,
        }
    }
}

/// The blank line that ends a head: carriage return, line feed, twice.
pub open spec fn separator() -> Seq<u8> {
    seq![13u8, 10u8, 13u8, 10u8]
}

/// How many bytes of the separator the scanner holds after reading `bytes`.
///
/// The scanner reads byte by byte. A byte that continues the separator
/// advances it by one; any other byte sends it back to the start, and that
/// byte is not looked at again. So of `\r\r\n\r\n` only `\r\n` is held at the
/// end, not the whole separator.
pub open spec fn separator_progress(bytes: Seq<u8>) -> nat
    decreases bytes.len(),
{
    if bytes.len() == 0 {
        0
    } else {
        let held = separator_progress(bytes.drop_last());
        if held < 4 && bytes.last() == separator()[held as int] {
            held + 1
        } else {
            0
        }
    }
}

/// After `n` bytes of `input` the scanner holds the whole separator, and
/// `input` goes on after them.
pub open spec fn is_head_end(input: Seq<u8>, n: int) -> bool {
    0 <= n < input.len() && separator_progress(input.take(n)) == 4
}

/// `n` is the least length at which the head of `input` can end.
pub open spec fn is_head_len(input: Seq<u8>, n: int) -> bool {
    is_head_end(input, n) && forall|m: int| 0 <= m < n ==> !is_head_end(input, m)
}

/// The length of the head of `input`, separator included, if `input` has a
/// head. A separator that ends `input`, with no byte after it, is not seen.
pub open spec fn head_len(input: Seq<u8>) -> Option<int> {
    if exists|n: int| is_head_len(input, n) {
        Some(choose|n: int| is_head_len(input, n))
    } else {
        None
    }
}

/// There is one head length at most.
pub proof fn lemma_head_len_is(input: Seq<u8>, n: int)
    requires
        is_head_len(input, n),
    ensures
        head_len(input) == Some(n),
{
    let w = choose|k: int| is_head_len(input, k);
    assert(is_head_len(input, w));
    if w < n {
        assert(!is_head_end(input, w));
    }
    if n < w {
        assert(!is_head_end(input, n));
    }
}

/// Where the scanner holds the whole separator, the bytes just read are the
/// separator.
proof fn lemma_progress_is_what_was_read(bytes: Seq<u8>)
    requires
        separator_progress(bytes) == 4,
    ensures
        bytes.len() >= 4,
        bytes.subrange(bytes.len() - 4, bytes.len() as int) == separator(),
{
    let b3 = bytes.drop_last();
    let b2 = b3.drop_last();
    let b1 = b2.drop_last();
    assert(separator_progress(b3) == 3);
    assert(separator_progress(b2) == 2);
    assert(separator_progress(b1) == 1);
    assert(bytes.subrange(bytes.len() - 4, bytes.len() as int) =~= separator());
}

/// A head ends with the blank line, and the input goes on after it.
pub proof fn lemma_head_ends_with_separator(input: Seq<u8>)
    requires
        head_len(input) is Some,
    ensures
        4 <= head_len(input)->0 < input.len(),
        input.subrange(head_len(input)->0 - 4, head_len(input)->0) == separator(),
{
    let n = head_len(input)->0;
    assert(is_head_len(input, n));
    lemma_progress_is_what_was_read(input.take(n));
    assert(input.take(n).subrange(n - 4, n) =~= input.subrange(n - 4, n));
}

/// The method that the first word of a request line names, whatever the
/// case of its letters.
pub open spec fn verb_of(word: Seq<char>) -> Option<HttpVerb> {
    let upper = to_ascii_upper(word);
    if upper == "GET"@ {
        Some(HttpVerb::Get)
    } else if upper == "POST"@ {
        Some(HttpVerb::Post)
    } else if upper == "UPDATE"@ {
        Some(HttpVerb::Update)
    } else if upper == "DELETE"@ {
        Some(HttpVerb::Delete)
    } else {
        None
    }
}

/// The version that the third word of a request line names.
pub open spec fn version_of(word: Seq<char>) -> Option<HttpVersion> {
    if word == "HTTP/0.9"@ {
        Some(HttpVersion::v0_9)
    } else if word == "HTTP/1.0"@ {
        Some(HttpVersion::v1_0)
    } else if word == "HTTP/1.1"@ {
        Some(HttpVersion::v1_1)
    } else if word == "HTTP/2.0"@ {
        Some(HttpVersion::v2_0)
    } else {
        None
    }
}

/// What a request line says: its words are parted by single spaces; the
/// first names the method, the second is the path, the third names the
/// version. Words after the third are not looked at.
pub open spec fn request_line(line: Seq<char>) -> Option<(HttpVerb, Seq<char>, HttpVersion)> {
    let words = split(line, " "@);
    if words.len() < 3 {
        None
    } else {
        match (verb_of(words[0]), version_of(words[2])) {
            (Some(verb), Some(version)) => Some((verb, words[1], version)),
            _ => None,
        }
    }
}

/// The name and the value that a header line gives: what stands before and
/// after its first colon, each without the whitespace around it. A line
/// without a colon gives none.
pub open spec fn header_entry(line: Seq<char>) -> Option<(Seq<char>, Seq<char>)> {
    let text = trim(line, CharClass::Whitespace);
    match find(text, ":"@) {
        Some(colon) => Some(
            (
                trim(text.take(colon), CharClass::Whitespace),
                trim(text.skip(colon + 1), CharClass::Whitespace),
            ),
        ),
        None => None,
    }
}

/// The headers that `lines` give. Where a name comes twice, the later line
/// counts.
pub open spec fn headers_of(lines: Seq<Seq<char>>) -> Map<Seq<char>, Seq<char>>
    decreases lines.len(),
{
    if lines.len() == 0 {
        Map::empty()
    } else {
        let earlier = headers_of(lines.drop_last());
        match header_entry(lines.last()) {
            Some((name, value)) => earlier.insert(name, value),
            None => earlier,
        }
    }
}

/// The request that `input` holds, or the reason why it holds none.
pub open spec fn parse_spec(input: Seq<u8>) -> Result<RequestView, Seq<char>> {
    match head_len(input) {
        None => Err("Couldn't find header separator"@),
        Some(n) => {
            let head = input.take(n);
            if !valid_utf8(head) {
                Err("Failed to parse http head"@)
            } else {
                let lines = split(decode_utf8(head), "\r\n"@);
                match request_line(lines[0]) {
                    None => Err("Failed to parse http head"@),
                    Some((verb, pathname, version)) => Ok(
                        RequestView {
                            verb,
                            version,
                            pathname,
                            headers: headers_of(lines.skip(1)),
                            body: input.skip(n),
                        },
                    ),
                }
            }
        },
    }
}

/// The bytes `bytes` as text, if they are text (`std::str::from_utf8`).
///
/// What is taken on trust: the call gives a text exactly when the bytes are
/// valid UTF-8, and the text it gives is made of those same bytes.
#[verifier::external_body]
fn utf8_text(bytes: &[u8]) -> (r: Option<&str>)
    ensures
        r is Some <==> valid_utf8(bytes@),
        r matches Some(text) ==> text.spec_bytes() == bytes@,
{
    std::str::from_utf8(bytes).ok()
}

/// The name and the value that one header line gives.
fn header_entry_of(line: &str) -> (r: Option<(String, String)>)
    ensures
        match r {
            Some((name, value)) => header_entry(line@) == Some((name@, value@)),
            None => header_entry(line@) is None,
        },
{
    let chars = chars_of(line);
    let colon_pat = chars_of(":");
    proof {
        reveal_strlit(":");
    }
    let whole = Span { lo: 0, hi: chars.len() };
    assert(whole.of(chars@) =~= line@);
    let text = trim_in(&chars, whole, CharClass::Whitespace);
    match find_in(&chars, text, &colon_pat) {
        Some(colon) => {
            let ghost at = colon - text.lo;
            assert(is_first_occurrence(text.of(chars@), ":"@, at));
            let before = Span { lo: text.lo, hi: colon };
            let after = Span { lo: colon + 1, hi: text.hi };
            assert(before.of(chars@) =~= text.of(chars@).take(at));
            assert(after.of(chars@) =~= text.of(chars@).skip(at + 1));
            let name = trim_in(&chars, before, CharClass::Whitespace);
            let value = trim_in(&chars, after, CharClass::Whitespace);
            Some((span_string(line, name), span_string(line, value)))
        },
        None => None,
    }
}

impl HttpRequest {
    /// The head of `input`: everything up to and including the first blank
    /// line that the scanner sees.
    pub fn read_head(input: &[u8]) -> (r: Result<&[u8], String>)
        ensures
            match r {
                Ok(head) => head_len(input@) == Some(head@.len() as int) && head@ == input@.take(
                    head@.len() as int,
                ),
                Err(message) => head_len(input@) is None && message@
                    == "Couldn't find header separator"@,
            },
    {
        let mut i: usize = 0;
        let mut held: usize = 0;
        while i < input.len()
            invariant
                i <= input@.len(),
                held == separator_progress(input@.take(i as int)),
                held <= 4,
                forall|m: int| 0 <= m < i ==> !is_head_end(input@, m),
            decreases input.len() - i,
        {
            if held == 4 {
                proof {
                    lemma_head_len_is(input@, i as int);
                }
                return Ok(slice_subrange(input, 0, i));
            }
            let byte = input[i];
            proof {
                assert(input@.take(i + 1).drop_last() =~= input@.take(i as int));
            }
            let expected: u8 = if held == 1 || held == 3 {
                10
            } else {
                13
            };
            if byte == expected {
                held += 1;
            } else {
                held = 0;
            }
            i += 1;
        }
        assert(forall|n: int| !is_head_len(input@, n));
        Err("Couldn't find header separator".to_owned())
    }

    /// The method, the path and the version that a request line gives.
    pub fn parse_request_line(input: &str) -> (r: Option<(HttpVerb, String, HttpVersion)>)
        ensures
            match r {
                Some((verb, pathname, version)) => request_line(input@) == Some(
                    (verb, pathname@, version),
                ),
                None => request_line(input@) is None,
            },
    {
        let chars = chars_of(input);
        let space = chars_of(" ");
        proof {
            reveal_strlit(" ");
        }
        let whole = Span { lo: 0, hi: chars.len() };
        assert(whole.of(chars@) =~= input@);
        let words = split_in(&chars, whole, &space);
        let ghost word_texts = split(input@, " "@);
        assert(word_texts == spans_of(chars@, words@));
        if words.len() < 3 {
            return None;
        }
        assert(word_texts[0] == words@[0].of(chars@));
        assert(word_texts[1] == words@[1].of(chars@));
        assert(word_texts[2] == words@[2].of(chars@));
        let verb = if span_is_ignoring_case(&chars, words[0], &chars_of("GET")) {
            HttpVerb::Get
        } else if span_is_ignoring_case(&chars, words[0], &chars_of("POST")) {
            HttpVerb::Post
        } else if span_is_ignoring_case(&chars, words[0], &chars_of("UPDATE")) {
            HttpVerb::Update
        } else if span_is_ignoring_case(&chars, words[0], &chars_of("DELETE")) {
            HttpVerb::Delete
        } else {
            return None;
        };
        let version = if span_is(&chars, words[2], &chars_of("HTTP/0.9")) {
            HttpVersion::v0_9
        } else if span_is(&chars, words[2], &chars_of("HTTP/1.0")) {
            HttpVersion::v1_0
        } else if span_is(&chars, words[2], &chars_of("HTTP/1.1")) {
            HttpVersion::v1_1
        } else if span_is(&chars, words[2], &chars_of("HTTP/2.0")) {
            HttpVersion::v2_0
        } else {
            return None;
        };
        Some((verb, span_string(input, words[1]), version))
    }

    /// The headers that `lines` give: one for each line that holds a colon.
    pub fn parse_headers(lines: Vec<&str>) -> (headers: StringHashMap<String>)
        ensures
            headers@.map_values(|value: String| value@) == headers_of(lines.deep_view()),
    {
        let mut headers: StringHashMap<String> = StringHashMap::new();
        let ghost texts = lines.deep_view();
        let mut i: usize = 0;
        assert(headers@.map_values(|value: String| value@) =~= headers_of(texts.take(0)));
        while i < lines.len()
            invariant
                i <= lines.len(),
                texts == lines.deep_view(),
                headers@.map_values(|value: String| value@) == headers_of(texts.take(i as int)),
            decreases lines.len() - i,
        {
            let ghost before = headers@;
            proof {
                assert(texts.take(i + 1).drop_last() =~= texts.take(i as int));
                assert(texts.take(i + 1).last() == lines@[i as int]@);
            }
            match header_entry_of(lines[i]) {
                Some((name, value)) => {
                    headers.insert(name, value);
                    assert(headers@.map_values(|value: String| value@) =~= before.map_values(
                        |value: String| value@,
                    ).insert(name@, value@));
                },
                None => {},
            }
            i += 1;
        }
        assert(texts.take(i as int) =~= texts);
        headers
    }

    /// Parses the request that `input` holds.
    ///
    /// The head must end with a blank line that at least one more byte
    /// follows, it must be valid UTF-8, and its first line must be a request
    /// line. The lines after the first give the headers; what follows the
    /// head is the body.
    pub fn parse(input: &[u8]) -> (r: Result<HttpRequest, String>)
        ensures
            match r {
                Ok(request) => parse_spec(input@) == Ok::<RequestView, Seq<char>>(request@),
                Err(message) => parse_spec(input@) == Err::<RequestView, Seq<char>>(message@),
            },
    {
        let head_bin = match Self::read_head(input) {
            Ok(head) => head,
            Err(message) => {
                return Err(message);
            },
        };
        let head = match utf8_text(head_bin) {
            Some(text) => text,
            None => {
                return Err("Failed to parse http head".to_owned());
            },
        };
        proof {
            encode_utf8_decode_utf8(head@);
        }
        let chars = chars_of(head);
        let line_break = chars_of("\r\n");
        proof {
            reveal_strlit("\r\n");
        }
        let whole = Span { lo: 0, hi: chars.len() };
        assert(whole.of(chars@) =~= head@);
        let spans = split_in(&chars, whole, &line_break);
        let ghost texts = split(head@, "\r\n"@);
        assert(texts == spans_of(chars@, spans@));
        assert(texts[0] == spans@[0].of(chars@));
        let (verb, pathname, version) = match Self::parse_request_line(
            head.substring_char(spans[0].lo, spans[0].hi),
        ) {
            Some(parts) => parts,
            None => {
                return Err("Failed to parse http head".to_owned());
            },
        };
        let mut header_part: Vec<&str> = Vec::new();
        let mut i: usize = 1;
        while i < spans.len()
            invariant
                1 <= i <= spans.len(),
                chars@ == head@,
                texts == spans_of(chars@, spans@),
                forall|k: int|
                    0 <= k < spans@.len() ==> (#[trigger] spans@[k]).within(chars@.len()),
                header_part.deep_view() == texts.subrange(1, i as int),
            decreases spans.len() - i,
        {
            let ghost before = header_part.deep_view();
            let line = head.substring_char(spans[i].lo, spans[i].hi);
            header_part.push(line);
            assert(texts[i as int] == spans@[i as int].of(chars@));
            assert(header_part.deep_view() =~= before.push(line@));
            assert(texts.subrange(1, i + 1) =~= texts.subrange(1, i as int).push(texts[i as int]));
            i += 1;
        }
        assert(texts.subrange(1, i as int) =~= texts.skip(1));
        let headers = Self::parse_headers(header_part);
        let body = slice_to_vec(slice_subrange(input, head_bin.len(), input.len()));
        assert(input@.subrange(head_bin@.len() as int, input@.len() as int) =~= input@.skip(
            head_bin@.len() as int,
        ));
        Ok(HttpRequest { verb, version, pathname, headers, body })
    }

    /// The value of the header `name`, if the request has it.
    pub fn header(&self, name: &str) -> (r: Option<&String>)
        ensures
            match r {
                Some(value) => self@.headers.contains_key(name@) && self@.headers[name@]
                    == value@,
                None => !self@.headers.contains_key(name@),
            },
    {
        self.headers.get(name)
    }
}

} // verus!
