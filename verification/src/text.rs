//! Character-level text operations: whitespace, trimming, line splitting and
//! substring search, each with its mathematical model over `Seq<char>`.
//!
//! The executable functions work on a vector of characters and on spans into
//! it, so that a result is always a piece of the text it was taken from.

use vstd::prelude::*;

verus! {

/// Whether `c` has the Unicode property `White_Space`.
pub open spec fn is_whitespace(c: char) -> bool {
    let n = c as u32;
    ||| 0x09 <= n <= 0x0D
    ||| n == 0x20
    ||| n == 0x85
    ||| n == 0xA0
    ||| n == 0x1680
    ||| 0x2000 <= n <= 0x200A
    ||| n == 0x2028
    ||| n == 0x2029
    ||| n == 0x202F
    ||| n == 0x205F
    ||| n == 0x3000
}

/// `s` without its leading whitespace.
pub open spec fn skip_leading(s: Seq<char>) -> Seq<char>
    decreases s.len(),
{
    if s.len() > 0 && is_whitespace(s[0]) {
        skip_leading(s.drop_first())
    } else {
        s
    }
}

/// `s` without its trailing whitespace.
pub open spec fn skip_trailing(s: Seq<char>) -> Seq<char>
    decreases s.len(),
{
    if s.len() > 0 && is_whitespace(s.last()) {
        skip_trailing(s.drop_last())
    } else {
        s
    }
}

/// `s` without leading and trailing whitespace.
pub open spec fn trimmed(s: Seq<char>) -> Seq<char> {
    skip_trailing(skip_leading(s))
}

/// The number of characters before the first line feed of `s`; the length of
/// `s` where it holds none.
pub open spec fn first_newline(s: Seq<char>) -> nat
    decreases s.len(),
{
    if s.len() == 0 || s[0] == '\n' {
        0
    } else {
        1 + first_newline(s.drop_first())
    }
}

/// `s` without one trailing carriage return.
pub open spec fn strip_cr(s: Seq<char>) -> Seq<char> {
    if s.len() > 0 && s.last() == '\r' {
        s.drop_last()
    } else {
        s
    }
}

/// The lines of `s`. A line ends at a line feed, or at a carriage return
/// directly followed by a line feed; neither belongs to the line. Text after
/// the last line feed is a line of its own, kept as it is; there is no empty
/// line after a final line feed.
pub open spec fn lines(s: Seq<char>) -> Seq<Seq<char>>
    decreases s.len(),
{
    if s.len() == 0 {
        Seq::empty()
    } else {
        let n = first_newline(s) as int;
        if n >= s.len() {
            seq![s]
        } else {
            seq![strip_cr(s.take(n))] + lines(s.skip(n + 1))
        }
    }
}

/// Whether `pat` stands in `s` at index `i`.
pub open spec fn occurs_at(s: Seq<char>, pat: Seq<char>, i: int) -> bool {
    &&& 0 <= i
    &&& i + pat.len() <= s.len()
    &&& s.subrange(i, i + pat.len()) == pat
}

/// The least index at or after `from` at which `pat` stands in `s`.
pub open spec fn find_from(s: Seq<char>, pat: Seq<char>, from: int) -> Option<int>
    decreases s.len() + 1 - from,
{
    if from < 0 || from + pat.len() > s.len() {
        None
    } else if occurs_at(s, pat, from) {
        Some(from)
    } else {
        find_from(s, pat, from + 1)
    }
}

/// The least index at which `pat` stands in `s`.
pub open spec fn first_occurrence(s: Seq<char>, pat: Seq<char>) -> Option<int> {
    find_from(s, pat, 0)
}

/// A half-open range of positions in a text.
#[derive(Debug, Clone, Copy, PartialEq, Eq, Structural)]
pub struct Span {
    pub start: usize,
    pub end: usize,
}

impl Span {
    /// Whether the span lies inside a text of `len` characters.
    pub open spec fn fits(self, len: nat) -> bool {
        self.start <= self.end <= len
    }

    /// The piece of `text` that the span covers.
    pub open spec fn of(self, text: Seq<char>) -> Seq<char> {
        text.subrange(self.start as int, self.end as int)
    }
}

/// The pieces of `text` that `spans` cover, in order.
pub open spec fn pieces(text: Seq<char>, spans: Seq<Span>) -> Seq<Seq<char>> {
    Seq::new(spans.len(), |k: int| spans[k].of(text))
}

/// What a search finds is an occurrence, and the first one; it finds nothing
/// only where there is none.
pub proof fn lemma_first_occurrence(s: Seq<char>, pat: Seq<char>)
    ensures
        first_occurrence(s, pat) matches Some(i) ==> occurs_at(s, pat, i) && forall|j: int|
            j < i ==> !occurs_at(s, pat, j),
        first_occurrence(s, pat) is None ==> forall|j: int| !occurs_at(s, pat, j),
{
    lemma_find_from(s, pat, 0);
}

proof fn lemma_find_from(s: Seq<char>, pat: Seq<char>, from: int)
    requires
        0 <= from,
    ensures
        find_from(s, pat, from) matches Some(i) ==> from <= i && occurs_at(s, pat, i)
            && forall|j: int| from <= j < i ==> !occurs_at(s, pat, j),
        find_from(s, pat, from) is None ==> forall|j: int| from <= j ==> !occurs_at(s, pat, j),
    decreases s.len() + 1 - from,
{
    if from + pat.len() > s.len() {
    } else if occurs_at(s, pat, from) {
    } else {
        lemma_find_from(s, pat, from + 1);
    }
}

proof fn lemma_find_skips(s: Seq<char>, pat: Seq<char>, from: int, to: int)
    requires
        0 <= from <= to,
        forall|j: int| from <= j < to ==> !occurs_at(s, pat, j),
    ensures
        find_from(s, pat, from) == find_from(s, pat, to),
    decreases to - from,
{
    if from < to {
        lemma_find_skips(s, pat, from + 1, to);
        if from + pat.len() > s.len() {
            assert(to + pat.len() > s.len());
        }
    }
}

proof fn lemma_skip_leading(s: Seq<char>, k: int)
    requires
        0 <= k <= s.len(),
        forall|i: int| 0 <= i < k ==> is_whitespace(s[i]),
        k == s.len() || !is_whitespace(s[k]),
    ensures
        skip_leading(s) == s.skip(k),
    decreases k,
{
    if k == 0 {
        assert(s.skip(0) =~= s);
    } else {
        let t = s.drop_first();
        assert forall|i: int| 0 <= i < k - 1 implies is_whitespace(t[i]) by {
            assert(t[i] == s[i + 1]);
        }
        lemma_skip_leading(t, k - 1);
        assert(t.skip(k - 1) =~= s.skip(k));
    }
}

proof fn lemma_skip_trailing(s: Seq<char>, k: int)
    requires
        0 <= k <= s.len(),
        forall|i: int| k <= i < s.len() ==> is_whitespace(s[i]),
        k == 0 || !is_whitespace(s[k - 1]),
    ensures
        skip_trailing(s) == s.take(k),
    decreases s.len() - k,
{
    if k == s.len() {
        assert(s.take(k) =~= s);
    } else {
        let t = s.drop_last();
        lemma_skip_trailing(t, k);
        assert(t.take(k) =~= s.take(k));
    }
}

proof fn lemma_first_newline(s: Seq<char>, k: int)
    requires
        0 <= k <= s.len(),
        forall|i: int| 0 <= i < k ==> s[i] != '\n',
        k == s.len() || s[k] == '\n',
    ensures
        first_newline(s) == k,
    decreases k,
{
    if k > 0 {
        let t = s.drop_first();
        assert forall|i: int| 0 <= i < k - 1 implies t[i] != '\n' by {
            assert(t[i] == s[i + 1]);
        }
        lemma_first_newline(t, k - 1);
    }
}

/// The characters of `s`, in order.
pub fn chars_of(s: &str) -> (chars: Vec<char>)
    ensures
        chars@ == s@,
{
    let mut chars: Vec<char> = Vec::new();
    for c in it: s.chars()
        invariant
            chars@ == it.seq().take(it.index() as int),
            it.seq() == s@,
    {
        chars.push(c);
    }
    chars
}

/// Tests `c` for the Unicode property `White_Space`.
pub fn char_is_whitespace(c: char) -> (b: bool)
    ensures
        b == is_whitespace(c),
{
    let n: u32 = c as u32;
    (0x09 <= n && n <= 0x0D) || n == 0x20 || n == 0x85 || n == 0xA0 || n == 0x1680 || (0x2000 <= n
        && n <= 0x200A) || n == 0x2028 || n == 0x2029 || n == 0x202F || n == 0x205F || n == 0x3000
}

/// Narrows `span` to what is left of its piece after trimming.
pub fn trim_span(text: &Vec<char>, span: Span) -> (inner: Span)
    requires
        span.fits(text@.len()),
    ensures
        inner.fits(text@.len()),
        span.start <= inner.start,
        inner.end <= span.end,
        inner.of(text@) == trimmed(span.of(text@)),
{
    let ghost piece = span.of(text@);
    let mut start: usize = span.start;
    while start < span.end && char_is_whitespace(text[start])
        invariant
            span.fits(text@.len()),
            span.start <= start <= span.end,
            forall|i: int| span.start <= i < start ==> is_whitespace(#[trigger] text@[i]),
        decreases span.end - start,
    {
        start += 1;
    }
    let mut end: usize = span.end;
    while end > start && char_is_whitespace(text[end - 1])
        invariant
            span.fits(text@.len()),
            span.start <= start <= end <= span.end,
            forall|i: int| end <= i < span.end ==> is_whitespace(#[trigger] text@[i]),
        decreases end - start,
    {
        end -= 1;
    }
    proof {
        let lead = start - span.start;
        assert forall|i: int| 0 <= i < lead implies is_whitespace(piece[i]) by {
            assert(piece[i] == text@[span.start + i]);
        }
        lemma_skip_leading(piece, lead);
        let rest = piece.skip(lead);
        let keep = end - start;
        assert forall|i: int| keep <= i < rest.len() implies is_whitespace(rest[i]) by {
            assert(rest[i] == text@[start + i]);
        }
        if keep > 0 {
            assert(rest[keep - 1] == text@[end - 1]);
        }
        lemma_skip_trailing(rest, keep);
        assert(rest.take(keep) =~= text@.subrange(start as int, end as int));
    }
    Span { start, end }
}

/// Whether `pat` stands in `text` at position `at`.
fn matches_at(text: &Vec<char>, pat: &Vec<char>, at: usize) -> (b: bool)
    requires
        at + pat@.len() <= text@.len(),
    ensures
        b == (text@.subrange(at as int, at + pat@.len()) == pat@),
{
    let len = text.len();
    let mut k: usize = 0;
    while k < pat.len()
        invariant
            len == text@.len(),
            at + pat@.len() <= text@.len(),
            k <= pat@.len(),
            forall|i: int| 0 <= i < k ==> text@[at + i] == pat@[i],
        decreases pat@.len() - k,
    {
        if text[at + k] != pat[k] {
            proof {
                let window = text@.subrange(at as int, at + pat@.len());
                assert(window[k as int] != pat@[k as int]);
            }
            return false;
        }
        k += 1;
    }
    assert(text@.subrange(at as int, at + pat@.len()) =~= pat@);
    true
}

/// Searches the piece of `text` under `span` for `pat`; the index found
/// counts from the start of the piece.
pub fn find_in_span(text: &Vec<char>, span: Span, pat: &Vec<char>) -> (found: Option<usize>)
    requires
        span.fits(text@.len()),
    ensures
        found is Some <==> first_occurrence(span.of(text@), pat@) is Some,
        found matches Some(i) ==> first_occurrence(span.of(text@), pat@) == Some(i as int)
            && span.start + i + pat@.len() <= span.end,
{
    let ghost piece = span.of(text@);
    let width = span.end - span.start;
    if pat.len() > width {
        return None;
    }
    let last = width - pat.len();
    let mut i: usize = 0;
    loop
        invariant
            span.fits(text@.len()),
            piece == span.of(text@),
            width == span.end - span.start,
            pat@.len() <= width,
            last == width - pat@.len(),
            i <= last,
            forall|j: int| 0 <= j < i ==> !occurs_at(piece, pat@, j),
        decreases last - i,
    {
        if matches_at(text, pat, span.start + i) {
            proof {
                assert(piece.subrange(i as int, i + pat@.len()) =~= text@.subrange(
                    span.start + i,
                    span.start + i + pat@.len(),
                ));
                lemma_find_skips(piece, pat@, 0, i as int);
            }
            return Some(i);
        }
        proof {
            assert(piece.subrange(i as int, i + pat@.len()) =~= text@.subrange(
                span.start + i,
                span.start + i + pat@.len(),
            ));
        }
        if i == last {
            proof {
                lemma_find_skips(piece, pat@, 0, last + 1);
            }
            return None;
        }
        i += 1;
    }
}

/// The spans of the lines of `text`, in order.
pub fn line_spans(text: &Vec<char>) -> (spans: Vec<Span>)
    ensures
        pieces(text@, spans@) == lines(text@),
        forall|k: int| 0 <= k < spans@.len() ==> (#[trigger] spans@[k]).fits(text@.len()),
{
    let mut spans: Vec<Span> = Vec::new();
    let mut start: usize = 0;
    let mut i: usize = 0;
    proof {
        assert(text@.skip(0) =~= text@);
        assert(pieces(text@, spans@) + lines(text@) =~= lines(text@));
    }
    while i < text.len()
        invariant
            start <= i <= text@.len(),
            forall|j: int| start <= j < i ==> text@[j] != '\n',
            pieces(text@, spans@) + lines(text@.skip(start as int)) == lines(text@),
            forall|k: int| 0 <= k < spans@.len() ==> (#[trigger] spans@[k]).fits(text@.len()),
        decreases text@.len() - i,
    {
        if text[i] == '\n' {
            let end = if i > start && text[i - 1] == '\r' {
                i - 1
            } else {
                i
            };
            let span = Span { start, end };
            proof {
                let rest = text@.skip(start as int);
                let n = i - start;
                assert forall|j: int| 0 <= j < n implies rest[j] != '\n' by {
                    assert(rest[j] == text@[start + j]);
                }
                lemma_first_newline(rest, n);
                assert(rest.skip(n + 1) =~= text@.skip(i + 1));
                assert(strip_cr(rest.take(n)) =~= span.of(text@));
                assert(lines(rest) == seq![span.of(text@)] + lines(text@.skip(i + 1)));
                assert(pieces(text@, spans@.push(span)) =~= pieces(text@, spans@) + seq![
                    span.of(text@),
                ]);
            }
            spans.push(span);
            start = i + 1;
        }
        i += 1;
    }
    if start < text.len() {
        let span = Span { start, end: text.len() };
        proof {
            let rest = text@.skip(start as int);
            assert forall|j: int| 0 <= j < rest.len() implies rest[j] != '\n' by {
                assert(rest[j] == text@[start + j]);
            }
            lemma_first_newline(rest, rest.len() as int);
            assert(rest =~= span.of(text@));
            assert(pieces(text@, spans@.push(span)) =~= pieces(text@, spans@) + seq![
                span.of(text@),
            ]);
        }
        spans.push(span);
    } else {
        assert(pieces(text@, spans@) + Seq::<Seq<char>>::empty() =~= pieces(text@, spans@));
    }
    spans
}

} // verus!
