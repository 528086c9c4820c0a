//! Searching, splitting and trimming of character sequences.
//!
//! The specifications speak of `Seq<char>`. The executable functions work on
//! the characters of one source text and hand out spans of it, so that no
//! piece is copied before it is needed as a `String`.

use vstd::prelude::*;
use vstd::string::StrSliceExecFns;

verus! {

/// `pat` stands in `s` at index `i`.
pub open spec fn occurs_at(s: Seq<char>, pat: Seq<char>, i: int) -> bool {
    &&& 0 <= i
    &&& i + pat.len() <= s.len()
    &&& s.subrange(i, i + pat.len()) == pat
}

/// `pat` stands in `s` at index `i` and nowhere before.
pub open spec fn is_first_occurrence(s: Seq<char>, pat: Seq<char>, i: int) -> bool {
    &&& occurs_at(s, pat, i)
    &&& forall|j: int| 0 <= j < i ==> !occurs_at(s, pat, j)
}

/// The index of the first occurrence of `pat` in `s`, if there is one.
pub open spec fn find(s: Seq<char>, pat: Seq<char>) -> Option<int> {
    if exists|i: int| is_first_occurrence(s, pat, i) {
        Some(choose|i: int| is_first_occurrence(s, pat, i))
    } else {
        None
    }
}

/// The pieces of `s` between the occurrences of the non-empty pattern `pat`,
/// taken from left to right without overlap. There is always at least one
/// piece; a pattern at either end leaves an empty piece there.
pub open spec fn split(s: Seq<char>, pat: Seq<char>) -> Seq<Seq<char>>
    decreases s.len(),
{
    match find(s, pat) {
        Some(i) if pat.len() > 0 => seq![s.take(i)] + split(s.skip(i + pat.len()), pat),
        _ => seq![s],
    }
}

/// `s` ends with `pat`.
pub open spec fn ends_with(s: Seq<char>, pat: Seq<char>) -> bool {
    occurs_at(s, pat, s.len() - pat.len())
}

/// `s` without every trailing repetition of the non-empty pattern `pat`.
pub open spec fn strip_trailing(s: Seq<char>, pat: Seq<char>) -> Seq<char>
    decreases s.len(),
{
    if pat.len() > 0 && ends_with(s, pat) {
        strip_trailing(s.take(s.len() - pat.len()), pat)
    } else {
        s
    }
}

/// The classes of characters that are trimmed from the ends of a text.
#[derive(Clone, Copy, Debug)]
pub enum CharClass {
    /// The character `/`.
    Slash,
    /// The characters with the Unicode property `White_Space`.
    Whitespace,
}

/// `c` has the Unicode property `White_Space`.
pub open spec fn is_whitespace(c: char) -> bool {
    let n = c as u32;
    ||| 0x09 <= n <= 0x0d
    ||| n == 0x20
    ||| n == 0x85
    ||| n == 0xa0
    ||| n == 0x1680
    ||| 0x2000 <= n <= 0x200a
    ||| n == 0x2028
    ||| n == 0x2029
    ||| n == 0x202f
    ||| n == 0x205f
    ||| n == 0x3000
}

impl CharClass {
    /// `c` belongs to the class.
    pub open spec fn holds(self, c: char) -> bool {
        match self {
            CharClass::Slash => c == '/',
            CharClass::Whitespace => is_whitespace(c),
        }
    }

    /// Tells whether `c` belongs to the class.
    pub fn has(self, c: char) -> (b: bool)
        ensures
            b == self.holds(c),
    {
        match self {
            CharClass::Slash => c == '/',
            CharClass::Whitespace => {
                let n: u32 = c as u32;
                (0x09 <= n && n <= 0x0d) || n == 0x20 || n == 0x85 || n == 0xa0 || n == 0x1680 || (
                0x2000 <= n && n <= 0x200a) || n == 0x2028 || n == 0x2029 || n == 0x202f || n
                    == 0x205f || n == 0x3000
            },
        }
    }
}

/// `s` without its leading characters of `class`.
pub open spec fn trim_start(s: Seq<char>, class: CharClass) -> Seq<char>
    decreases s.len(),
{
    if s.len() > 0 && class.holds(s.first()) {
        trim_start(s.drop_first(), class)
    } else {
        s
    }
}

/// `s` without its trailing characters of `class`.
pub open spec fn trim_end(s: Seq<char>, class: CharClass) -> Seq<char>
    decreases s.len(),
{
    if s.len() > 0 && class.holds(s.last()) {
        trim_end(s.drop_last(), class)
    } else {
        s
    }
}

/// `s` without its leading and trailing characters of `class`.
pub open spec fn trim(s: Seq<char>, class: CharClass) -> Seq<char> {
    trim_end(trim_start(s, class), class)
}

/// The upper-case form of an ASCII letter; any other character unchanged.
pub open spec fn ascii_upper(c: char) -> char {
    if 'a' <= c <= 'z' {
        ((c as u32) - 32) as char
    } else {
        c
    }
}

/// `s` with every ASCII letter in upper case.
pub open spec fn to_ascii_upper(s: Seq<char>) -> Seq<char> {
    s.map_values(|c: char| ascii_upper(c))
}

/// A part of a text: the characters from index `lo` up to, not including, `hi`.
#[derive(Clone, Copy, Debug)]
pub struct Span {
    pub lo: usize,
    pub hi: usize,
}

impl Span {
    /// The span lies within a text of `len` characters.
    pub open spec fn within(self, len: nat) -> bool {
        self.lo <= self.hi <= len
    }

    /// The characters of `s` that the span covers.
    pub open spec fn of(self, s: Seq<char>) -> Seq<char> {
        s.subrange(self.lo as int, self.hi as int)
    }
}

/// The texts that a sequence of spans covers in `s`.
pub open spec fn spans_of(s: Seq<char>, spans: Seq<Span>) -> Seq<Seq<char>> {
    spans.map_values(|span: Span| span.of(s))
}

/// The characters of `s`, in order.
pub fn chars_of(s: &str) -> (chars: Vec<char>)
    ensures
        chars@ == s@,
{
    let mut chars: Vec<char> = Vec::new();
    for c in it: s.chars()
        invariant
            chars@ == it.seq().take(it.index() as int),
            it.seq() == s@,
    {
        chars.push(c);
    }
    chars
}

/// The part of `source` that `span` covers, as an owned string.
pub fn span_string(source: &str, span: Span) -> (r: String)
    requires
        span.within(source@.len()),
    ensures
        r@ == span.of(source@),
{
    source.substring_char(span.lo, span.hi).to_owned()
}

/// Tells whether `pat` stands in `s` at index `i`.
pub fn occurs(s: &Vec<char>, pat: &Vec<char>, i: usize) -> (b: bool)
    ensures
        b == occurs_at(s@, pat@, i as int),
{
    if pat.len() > s.len() || i > s.len() - pat.len() {
        return false;
    }
    let mut k: usize = 0;
    while k < pat.len()
        invariant
            k <= pat.len(),
            i + pat.len() <= s.len(),
            forall|j: int| 0 <= j < k ==> s@[i + j] == pat@[j],
        decreases pat.len() - k,
    {
        if s[i + k] != pat[k] {
            assert(s@.subrange(i as int, i + pat.len())[k as int] != pat@[k as int]);
            return false;
        }
        k += 1;
    }
    assert(s@.subrange(i as int, i + pat.len()) =~= pat@);
    true
}

/// What `occurs_at` says of a part of `s` is what it says of `s` itself,
/// as long as the occurrence lies within the part.
pub proof fn lemma_occurs_in_span(s: Seq<char>, span: Span, pat: Seq<char>, i: int)
    requires
        span.within(s.len()),
    ensures
        occurs_at(span.of(s), pat, i) <==> (occurs_at(s, pat, span.lo + i) && 0 <= i && span.lo
            + i + pat.len() <= span.hi),
{
    let part = span.of(s);
    if 0 <= i && i + pat.len() <= part.len() {
        assert(part.subrange(i, i + pat.len()) =~= s.subrange(
            span.lo + i,
            span.lo + i + pat.len(),
        ));
    }
}

/// The first occurrence of `pat` within `span` of `s`, as an index into `s`.
pub fn find_in(s: &Vec<char>, span: Span, pat: &Vec<char>) -> (r: Option<usize>)
    requires
        span.within(s@.len()),
    ensures
        match r {
            Some(p) => span.lo <= p <= span.hi && find(span.of(s@), pat@) == Some(p - span.lo),
            None => find(span.of(s@), pat@) is None,
        },
{
    let ghost part = span.of(s@);
    if pat.len() == 0 {
        proof {
            assert(part.subrange(0, 0) =~= pat@);
            lemma_first_occurrence_is_found(part, pat@, 0);
        }
        return Some(span.lo);
    }
    if pat.len() > span.hi - span.lo {
        assert(forall|i: int| !occurs_at(part, pat@, i));
        return None;
    }
    let last: usize = span.hi - pat.len();
    let mut p: usize = span.lo;
    while p <= last
        invariant
            span.within(s@.len()),
            part == span.of(s@),
            pat.len() > 0,
            last == span.hi - pat.len(),
            span.lo <= p <= last + 1,
            forall|j: int| 0 <= j < p - span.lo ==> !occurs_at(part, pat@, j),
        decreases last + 1 - p,
    {
        proof {
            lemma_occurs_in_span(s@, span, pat@, p - span.lo);
        }
        if occurs(s, pat, p) {
            proof {
                lemma_first_occurrence_is_found(part, pat@, p - span.lo);
            }
            return Some(p);
        }
        p += 1;
    }
    assert(forall|i: int| !occurs_at(part, pat@, i));
    None
}

/// A first occurrence is the one that `find` gives.
pub proof fn lemma_first_occurrence_is_found(s: Seq<char>, pat: Seq<char>, i: int)
    requires
        is_first_occurrence(s, pat, i),
    ensures
        find(s, pat) == Some(i),
{
    let w = choose|k: int| is_first_occurrence(s, pat, k);
    assert(is_first_occurrence(s, pat, w));
    if w < i {
        assert(!occurs_at(s, pat, w));
    }
    if i < w {
        assert(!occurs_at(s, pat, i));
    }
}

/// Where `pat` occurs in `s` at all, it has a first occurrence.
proof fn lemma_occurrence_has_a_first(s: Seq<char>, pat: Seq<char>, i: int)
    requires
        occurs_at(s, pat, i),
    ensures
        exists|j: int| is_first_occurrence(s, pat, j),
    decreases i,
{
    if exists|j: int| 0 <= j < i && occurs_at(s, pat, j) {
        let j = choose|j: int| 0 <= j < i && occurs_at(s, pat, j);
        lemma_occurrence_has_a_first(s, pat, j);
    } else {
        assert(is_first_occurrence(s, pat, i));
    }
}

/// What `find` gives is the first occurrence, and it gives none only where
/// `pat` does not occur in `s`.
pub proof fn lemma_find_is_first(s: Seq<char>, pat: Seq<char>)
    ensures
        match find(s, pat) {
            Some(i) => is_first_occurrence(s, pat, i),
            None => forall|i: int| !occurs_at(s, pat, i),
        },
{
    if find(s, pat) is None {
        assert forall|i: int| !occurs_at(s, pat, i) by {
            if occurs_at(s, pat, i) {
                lemma_occurrence_has_a_first(s, pat, i);
            }
        }
    }
}

/// The pieces `parts` put together again, with `sep` between each two.
pub open spec fn join(parts: Seq<Seq<char>>, sep: Seq<char>) -> Seq<char>
    decreases parts.len(),
{
    if parts.len() == 0 {
        Seq::empty()
    } else if parts.len() == 1 {
        parts[0]
    } else {
        parts[0] + sep + join(parts.drop_first(), sep)
    }
}

/// Splitting loses nothing: the pieces of `s`, joined by the pattern, are
/// `s` again. And no piece holds the pattern.
pub proof fn lemma_split_joins_back(s: Seq<char>, pat: Seq<char>)
    requires
        pat.len() > 0,
    ensures
        split(s, pat).len() >= 1,
        join(split(s, pat), pat) == s,
        forall|k: int, i: int|
            0 <= k < split(s, pat).len() ==> !#[trigger] occurs_at(split(s, pat)[k], pat, i),
    decreases s.len(),
{
    lemma_find_is_first(s, pat);
    let pieces = split(s, pat);
    match find(s, pat) {
        Some(at) => {
            let rest = s.skip(at + pat.len());
            lemma_split_joins_back(rest, pat);
            assert(pieces.drop_first() =~= split(rest, pat));
            assert(s.take(at) + pat + rest =~= s) by {
                assert(s.subrange(at, at + pat.len()) == pat);
            }
            assert forall|k: int, i: int| 0 <= k < pieces.len() implies !#[trigger] occurs_at(
                pieces[k],
                pat,
                i,
            ) by {
                if k == 0 {
                    if occurs_at(s.take(at), pat, i) {
                        assert(s.take(at).subrange(i, i + pat.len()) =~= s.subrange(
                            i,
                            i + pat.len(),
                        ));
                        assert(occurs_at(s, pat, i));
                    }
                } else {
                    assert(pieces[k] == split(rest, pat)[k - 1]);
                }
            }
        },
        None => {},
    }
}

/// The pieces of `span` between the occurrences of `pat`, as spans of `s`.
pub fn split_in(s: &Vec<char>, span: Span, pat: &Vec<char>) -> (parts: Vec<Span>)
    requires
        span.within(s@.len()),
        pat@.len() > 0,
    ensures
        spans_of(s@, parts@) == split(span.of(s@), pat@),
        parts@.len() >= 1,
        forall|k: int| 0 <= k < parts@.len() ==> (#[trigger] parts@[k]).within(s@.len()),
{
    let mut parts: Vec<Span> = Vec::new();
    let mut rest = span;
    loop
        invariant
            span.within(s@.len()),
            rest.within(s@.len()),
            rest.hi == span.hi,
            pat@.len() > 0,
            split(span.of(s@), pat@) == spans_of(s@, parts@) + split(rest.of(s@), pat@),
            forall|k: int| 0 <= k < parts@.len() ==> (#[trigger] parts@[k]).within(s@.len()),
        decreases rest.hi - rest.lo,
    {
        let ghost before = parts@;
        match find_in(s, rest, pat) {
            Some(p) => {
                let piece = Span { lo: rest.lo, hi: p };
                let next = Span { lo: p + pat.len(), hi: rest.hi };
                proof {
                    let i = p - rest.lo;
                    assert(is_first_occurrence(rest.of(s@), pat@, i));
                    assert(rest.of(s@).take(i) =~= piece.of(s@));
                    assert(rest.of(s@).skip(i + pat@.len()) =~= next.of(s@));
                    assert(spans_of(s@, before.push(piece)) =~= spans_of(s@, before) + seq![
                        piece.of(s@),
                    ]);
                    assert(split(span.of(s@), pat@) =~= spans_of(s@, before.push(piece)) + split(
                        next.of(s@),
                        pat@,
                    ));
                }
                parts.push(piece);
                rest = next;
            },
            None => {
                proof {
                    assert(spans_of(s@, before.push(rest)) =~= spans_of(s@, before) + seq![
                        rest.of(s@),
                    ]);
                }
                parts.push(rest);
                return parts;
            },
        }
    }
}

/// Stripping leaves a text that does not end with the pattern, and it
/// takes characters from the end only.
pub proof fn lemma_strip_trailing_is_done(s: Seq<char>, pat: Seq<char>)
    requires
        pat.len() > 0,
    ensures
        !ends_with(strip_trailing(s, pat), pat),
        strip_trailing(s, pat).is_prefix_of(s),
    decreases s.len(),
{
    if ends_with(s, pat) {
        lemma_strip_trailing_is_done(s.take(s.len() - pat.len()), pat);
    }
}

/// What `trim_start` leaves is the end of the text and does not begin with
/// a character of the class.
proof fn lemma_trim_start_is_done(s: Seq<char>, class: CharClass)
    ensures
        trim_start(s, class).is_suffix_of(s),
        trim_start(s, class).len() > 0 ==> !class.holds(trim_start(s, class).first()),
    decreases s.len(),
{
    if s.len() > 0 && class.holds(s.first()) {
        lemma_trim_start_is_done(s.drop_first(), class);
        let t = trim_start(s, class);
        assert(t =~= s.skip(s.len() - t.len())) by {
            assert(t == s.drop_first().skip(s.drop_first().len() - t.len()));
        }
    } else {
        assert(s =~= s.skip(0));
    }
}

/// What `trim_end` leaves is the beginning of the text and does not end
/// with a character of the class.
proof fn lemma_trim_end_is_done(s: Seq<char>, class: CharClass)
    ensures
        trim_end(s, class).is_prefix_of(s),
        trim_end(s, class).len() > 0 ==> !class.holds(trim_end(s, class).last()),
    decreases s.len(),
{
    if s.len() > 0 && class.holds(s.last()) {
        lemma_trim_end_is_done(s.drop_last(), class);
    }
}

/// Trimming leaves a piece from within the text that neither begins nor
/// ends with a character of the class.
pub proof fn lemma_trim_is_done(s: Seq<char>, class: CharClass)
    ensures
        exists|lo: int, hi: int| 0 <= lo <= hi <= s.len() && trim(s, class) == s.subrange(lo, hi),
        trim(s, class).len() > 0 ==> !class.holds(trim(s, class).first()) && !class.holds(
            trim(s, class).last(),
        ),
{
    let started = trim_start(s, class);
    let t = trim(s, class);
    lemma_trim_start_is_done(s, class);
    lemma_trim_end_is_done(started, class);
    let lo = s.len() - started.len();
    assert(t =~= s.subrange(lo, lo + t.len()));
    if t.len() > 0 {
        assert(t.first() == started.first());
    }
}

/// Trimming the first character of a text that begins with one of `class`
/// changes nothing of what `trim_start` gives.
proof fn lemma_trim_start_step(s: Seq<char>, span: Span, class: CharClass)
    requires
        span.within(s.len()),
        span.lo < span.hi,
        class.holds(s[span.lo as int]),
    ensures
        trim_start(span.of(s), class) == trim_start(
            (Span { lo: (span.lo + 1) as usize, hi: span.hi }).of(s),
            class,
        ),
{
    assert(span.of(s).drop_first() =~= (Span { lo: (span.lo + 1) as usize, hi: span.hi }).of(s));
}

/// The counterpart of `lemma_trim_start_step` at the end of the text.
proof fn lemma_trim_end_step(s: Seq<char>, span: Span, class: CharClass)
    requires
        span.within(s.len()),
        span.lo < span.hi,
        class.holds(s[span.hi - 1]),
    ensures
        trim_end(span.of(s), class) == trim_end(
            (Span { lo: span.lo, hi: (span.hi - 1) as usize }).of(s),
            class,
        ),
{
    assert(span.of(s).drop_last() =~= (Span { lo: span.lo, hi: (span.hi - 1) as usize }).of(s));
}

/// The part of `span` that is left when the characters of `class` are
/// trimmed from both of its ends.
pub fn trim_in(s: &Vec<char>, span: Span, class: CharClass) -> (r: Span)
    requires
        span.within(s@.len()),
    ensures
        r.within(s@.len()),
        span.lo <= r.lo,
        r.hi <= span.hi,
        r.of(s@) == trim(span.of(s@), class),
{
    let mut lo: usize = span.lo;
    while lo < span.hi && class.has(s[lo])
        invariant
            span.within(s@.len()),
            span.lo <= lo <= span.hi,
            trim_start(span.of(s@), class) == trim_start(
                (Span { lo, hi: span.hi }).of(s@),
                class,
            ),
        decreases span.hi - lo,
    {
        proof {
            lemma_trim_start_step(s@, Span { lo, hi: span.hi }, class);
        }
        lo += 1;
    }
    let ghost started = Span { lo, hi: span.hi };
    assert(trim_start(span.of(s@), class) == started.of(s@));
    let mut hi: usize = span.hi;
    while hi > lo && class.has(s[hi - 1])
        invariant
            span.within(s@.len()),
            span.lo <= lo <= hi <= span.hi,
            started == (Span { lo, hi: span.hi }),
            trim_end(started.of(s@), class) == trim_end((Span { lo, hi }).of(s@), class),
        decreases hi - lo,
    {
        proof {
            lemma_trim_end_step(s@, Span { lo, hi }, class);
        }
        hi -= 1;
    }
    Span { lo, hi }
}

/// The part of `span` that is left when every trailing repetition of `pat`
/// is taken away.
pub fn strip_trailing_in(s: &Vec<char>, span: Span, pat: &Vec<char>) -> (r: Span)
    requires
        span.within(s@.len()),
        pat@.len() > 0,
    ensures
        r.within(s@.len()),
        r.lo == span.lo,
        r.hi <= span.hi,
        r.of(s@) == strip_trailing(span.of(s@), pat@),
{
    let mut hi: usize = span.hi;
    while hi - span.lo >= pat.len() && occurs(s, pat, hi - pat.len())
        invariant
            span.within(s@.len()),
            pat@.len() > 0,
            span.lo <= hi <= span.hi,
            strip_trailing(span.of(s@), pat@) == strip_trailing(
                (Span { lo: span.lo, hi }).of(s@),
                pat@,
            ),
        decreases hi - span.lo,
    {
        let ghost cur = Span { lo: span.lo, hi };
        let ghost cut = Span { lo: span.lo, hi: (hi - pat.len()) as usize };
        proof {
            lemma_occurs_in_span(s@, cur, pat@, hi - pat@.len() - span.lo);
            assert(cur.of(s@).take(cur.of(s@).len() - pat@.len()) =~= cut.of(s@));
        }
        hi -= pat.len();
    }
    proof {
        let cur = Span { lo: span.lo, hi };
        if hi - span.lo >= pat@.len() {
            lemma_occurs_in_span(s@, cur, pat@, hi - pat@.len() - span.lo);
        }
    }
    Span { lo: span.lo, hi }
}

/// Tells whether `span` of `s` reads exactly `text`.
pub fn span_is(s: &Vec<char>, span: Span, text: &Vec<char>) -> (b: bool)
    requires
        span.within(s@.len()),
    ensures
        b == (span.of(s@) == text@),
{
    if span.hi - span.lo != text.len() {
        return false;
    }
    let b = occurs(s, text, span.lo);
    proof {
        assert(span.of(s@) =~= s@.subrange(span.lo as int, span.lo + text@.len()));
    }
    b
}

/// The code point of the upper-case form of `c`.
fn upper_code(c: char) -> (n: u32)
    ensures
        n == ascii_upper(c) as u32,
{
    if 'a' <= c && c <= 'z' {
        c as u32 - 32
    } else {
        c as u32
    }
}

/// Tells whether `span` of `s` reads `text` once its ASCII letters are put
/// in upper case.
pub fn span_is_ignoring_case(s: &Vec<char>, span: Span, text: &Vec<char>) -> (b: bool)
    requires
        span.within(s@.len()),
    ensures
        b == (to_ascii_upper(span.of(s@)) == text@),
{
    if span.hi - span.lo != text.len() {
        return false;
    }
    let ghost upper = to_ascii_upper(span.of(s@));
    let mut k: usize = 0;
    while k < text.len()
        invariant
            span.within(s@.len()),
            span.hi - span.lo == text@.len(),
            upper == to_ascii_upper(span.of(s@)),
            k <= text@.len(),
            forall|j: int| 0 <= j < k ==> upper[j] == text@[j],
        decreases text.len() - k,
    {
        assert(upper[k as int] == ascii_upper(s@[span.lo + k]));
        if upper_code(s[span.lo + k]) != text[k] as u32 {
            return false;
        }
        proof {
            let n = text@[k as int] as u32;
            vstd::utf8::char_u32_cast(upper[k as int], n);
            vstd::utf8::char_u32_cast(text@[k as int], n);
        }
        k += 1;
    }
    assert(upper =~= text@);
    true
}

} // verus!
