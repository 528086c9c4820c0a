//! From the bytes of a request to what has to be resolved, and from the
//! resolved emote to the head of the response.

use crate::failure::{Failure, FailureView};
use crate::http::{parse_spec, HttpRequest};
use crate::seventv::{EmoteView, SevenUserEmote};
use crate::text::{
    chars_of, span_string, spans_of, split, split_in, strip_trailing, strip_trailing_in, trim,
    trim_in, CharClass, Span,
};
use vstd::prelude::*;
use vstd::string::{StrSliceExecFns, StringExecFns};

verus! {

/// What a request path asks for.
#[derive(Debug)]
pub struct ParsedRequest {
    /// The keywords of the emotes asked for. A path names one.
    pub emotes: Vec<String>,
    /// The broadcaster whose emotes are meant; `None` for a global search.
    pub twitch_username: Option<String>,
}

/// What a parsed path is to the specifications.
pub struct ParsedRequestView {
    pub emotes: Seq<Seq<char>>,
    pub twitch_username: Option<Seq<char>>,
}

impl View for ParsedRequest {
    type V = ParsedRequestView;

    open spec fn view(&self) -> ParsedRequestView {
        ParsedRequestView {
            emotes: self.emotes.deep_view(),
            twitch_username: match self.twitch_username {
                Some(username) => Some(username@),
                None => None,
            },
        }
    }
}

/// What the path `pathname` asks for.
///
/// The slashes at both ends of the path do not count. A path of one segment
/// names a keyword for global search; a path of two segments names a
/// broadcaster and then a keyword. Every `.gif` at the end of the keyword is
/// dropped. Any other path asks for nothing.
pub open spec fn parse_request_spec(pathname: Seq<char>) -> Option<ParsedRequestView> {
    let segments = split(trim(pathname, CharClass::Slash), "/"@);
    if segments.len() == 1 {
        Some(
            ParsedRequestView {
                emotes: seq![strip_trailing(segments[0], ".gif"@)],
                twitch_username: None,
            },
        )
    } else if segments.len() == 2 {
        Some(
            ParsedRequestView {
                emotes: seq![strip_trailing(segments[1], ".gif"@)],
                twitch_username: Some(segments[0]),
            },
        )
    } else {
        None
    }
}

/// Parses a request path.
pub fn parse_request(pathname: &str) -> (r: Option<ParsedRequest>)
    ensures
        match r {
            Some(parsed) => parse_request_spec(pathname@) == Some(parsed@),
            None => parse_request_spec(pathname@) is None,
        },
{
    let chars = chars_of(pathname);
    let slash = chars_of("/");
    let suffix = chars_of(".gif");
    proof {
        reveal_strlit("/");
        reveal_strlit(".gif");
    }
    let whole = Span { lo: 0, hi: chars.len() };
    assert(whole.of(chars@) =~= pathname@);
    let path = trim_in(&chars, whole, CharClass::Slash);
    let segments = split_in(&chars, path, &slash);
    let ghost texts = split(trim(pathname@, CharClass::Slash), "/"@);
    assert(texts == spans_of(chars@, segments@));
    if segments.len() == 1 {
        assert(texts[0] == segments@[0].of(chars@));
        let keyword = span_string(pathname, strip_trailing_in(&chars, segments[0], &suffix));
        let mut emotes: Vec<String> = Vec::new();
        emotes.push(keyword);
        assert(emotes.deep_view() =~= seq![keyword@]);
        Some(ParsedRequest { emotes, twitch_username: None })
    } else if segments.len() == 2 {
        assert(texts[0] == segments@[0].of(chars@));
        assert(texts[1] == segments@[1].of(chars@));
        let username = span_string(pathname, segments[0]);
        let keyword = span_string(pathname, strip_trailing_in(&chars, segments[1], &suffix));
        let mut emotes: Vec<String> = Vec::new();
        emotes.push(keyword);
        assert(emotes.deep_view() =~= seq![keyword@]);
        Some(ParsedRequest { emotes, twitch_username: Some(username) })
    } else {
        None
    }
}

/// What has to be resolved for one request.
#[derive(Debug)]
pub struct Target {
    /// The keyword of the emote.
    pub keyword: String,
    /// The broadcaster whose emotes are meant; `None` for a global search.
    pub twitch_username: Option<String>,
}

/// What a target is to the specifications.
pub struct TargetView {
    pub keyword: Seq<char>,
    pub twitch_username: Option<Seq<char>>,
}

impl View for Target {
    type V = TargetView;

    open spec fn view(&self) -> TargetView {
        TargetView {
            keyword: self.keyword@,
            twitch_username: match self.twitch_username {
                Some(username) => Some(username@),
                None => None,
            },
        }
    }
}

/// What the request in `input` asks to resolve: the request is parsed, then
/// its path. Either can fail, each with its reason.
pub open spec fn route_spec(input: Seq<u8>) -> Result<TargetView, FailureView> {
    match parse_spec(input) {
        Err(reason) => Err(FailureView::MalformedRequest(reason)),
        Ok(request) => match parse_request_spec(request.pathname) {
            None => Err(FailureView::MalformedRequest("[ERROR]: Couldn't parse request pathname"@)),
            Some(parsed) => Ok(
                TargetView { keyword: parsed.emotes[0], twitch_username: parsed.twitch_username },
            ),
        },
    }
}

/// Tells what the request in `input` asks to resolve.
pub fn route_request(input: &[u8]) -> (r: Result<Target, Failure>)
    ensures
        match r {
            Ok(target) => route_spec(input@) == Ok::<TargetView, FailureView>(target@),
            Err(failure) => route_spec(input@) == Err::<TargetView, FailureView>(failure@),
        },
{
    let request = match HttpRequest::parse(input) {
        Ok(request) => request,
        Err(reason) => {
            return Err(Failure::MalformedRequest(reason));
        },
    };
    let parsed = match parse_request(request.pathname.as_str()) {
        Some(parsed) => parsed,
        None => {
            return Err(
                Failure::MalformedRequest("[ERROR]: Couldn't parse request pathname".to_owned()),
            );
        },
    };
    let ParsedRequest { mut emotes, twitch_username } = parsed;
    assert(emotes.deep_view().len() == 1);
    let ghost first = emotes@[0];
    assert(emotes.deep_view()[0] == first@);
    let keyword = emotes.remove(0);
    Ok(Target { keyword, twitch_username })
}

/// The media type under which an emote is served.
pub open spec fn mime_of(emote: EmoteView) -> Seq<char> {
    if emote.animated {
        "image/gif"@
    } else {
        "image/webp"@
    }
}

/// The media type under which `emote` is served.
pub fn mime_type(emote: &SevenUserEmote) -> (mime: &'static str)
    ensures
        mime@ == mime_of(emote@),
{
    if emote.animated {
        "image/gif"
    } else {
        "image/webp"
    }
}

/// The decimal digit for `d`, which is below ten.
pub open spec fn digit(d: nat) -> char {
    "0123456789"@[d as int]
}

/// The decimal numeral of `n`, without leading zeros.
pub open spec fn decimal(n: nat) -> Seq<char>
    decreases n,
{
    if n < 10 {
        seq![digit(n)]
    } else {
        decimal(n / 10).push(digit(n % 10))
    }
}

/// The number that a decimal digit stands for.
pub open spec fn digit_value(c: char) -> nat {
    (c as u32 - '0' as u32) as nat
}

/// The number that a decimal numeral stands for.
pub open spec fn decimal_value(digits: Seq<char>) -> nat
    decreases digits.len(),
{
    if digits.len() == 0 {
        0
    } else {
        decimal_value(digits.drop_last()) * 10 + digit_value(digits.last())
    }
}

/// A numeral stands for its number: reading `decimal(n)` gives `n` again.
/// It has at least one digit, and no leading zero unless `n` is zero.
pub proof fn lemma_decimal_reads_back(n: nat)
    ensures
        decimal_value(decimal(n)) == n,
        decimal(n).len() >= 1,
        forall|i: int| 0 <= i < decimal(n).len() ==> '0' <= #[trigger] decimal(n)[i] <= '9',
        n > 0 ==> decimal(n)[0] != '0',
    decreases n,
{
    let last = n % 10;
    assert(digit_value(digit(last)) == last && '0' <= digit(last) <= '9' && (last > 0 ==> digit(
        last,
    ) != '0')) by {
        reveal_strlit("0123456789");
    }
    if n < 10 {
        assert(decimal(n).drop_last() =~= Seq::<char>::empty());
        assert(decimal_value(decimal(n).drop_last()) == 0);
    } else {
        lemma_decimal_reads_back(n / 10);
        assert(decimal(n).drop_last() =~= decimal(n / 10));
        assert(decimal(n).last() == digit(last));
        assert(decimal(n)[0] == decimal(n / 10)[0]);
    }
}

/// Appends the decimal numeral of `n` to `out`.
pub fn push_decimal(out: &mut String, n: usize)
    ensures
        final(out)@ == old(out)@ + decimal(n as nat),
    decreases n,
{
    if n >= 10 {
        push_decimal(out, n / 10);
    }
    let d = n % 10;
    proof {
        reveal_strlit("0123456789");
    }
    let ghost before = out@;
    out.append("0123456789".substring_char(d, d + 1));
    proof {
        assert("0123456789"@.subrange(d as int, d + 1) =~= seq![digit(d as nat)]);
        if n >= 10 {
            assert(out@ =~= old(out)@ + decimal((n / 10) as nat).push(digit((n % 10) as nat)));
        } else {
            assert(out@ =~= old(out)@ + seq![digit(n as nat)]);
        }
    }
}

/// The head of the response that serves an emote of `size` bytes: the
/// status line, the media type, the length of the body, a blank line.
pub open spec fn response_head_spec(emote: EmoteView, size: nat) -> Seq<char> {
    "HTTP/1.1 200 OK\r\nContent-Type: "@ + mime_of(emote) + "\r\nContent-Length: "@ + decimal(size)
        + "\r\n\r\n"@
}

/// The head of the response that serves `emote` from a file of `size` bytes.
pub fn response_head(emote: &SevenUserEmote, size: usize) -> (head: String)
    ensures
        head@ == response_head_spec(emote@, size as nat),
{
    let mut head = String::from_str("HTTP/1.1 200 OK\r\nContent-Type: ");
    head.append(mime_type(emote));
    head.append("\r\nContent-Length: ");
    push_decimal(&mut head, size);
    head.append("\r\n\r\n");
    head
}

} // verus!
