//! The result-extraction rule: what one step of a chain hands to the next.
//!
//! A plugin may log many lines. The value it computed follows the marker
//! `"Result = "`: on the line after the marker line, or else behind the marker
//! on the same line. Where no line holds the marker, the value is the last
//! line that is not blank.

use vstd::prelude::*;
use vstd::string::StrSliceExecFns;
use crate::text::{
    Span,
    chars_of,
    find_in_span,
    first_occurrence,
    line_spans,
    lines,
    pieces,
    trim_span,
    trimmed,
};

verus! {

/// The literal that announces a plugin's result.
pub const RESULT_MARKER: &'static str = "Result = ";

/// The marker as a sequence of characters.
pub open spec fn marker() -> Seq<char> {
    RESULT_MARKER@
}

/// Whether `line` holds the marker.
pub open spec fn has_marker(line: Seq<char>) -> bool {
    first_occurrence(line, marker()) is Some
}

/// The trimmed text behind the first marker of `line`; empty where `line`
/// holds no marker.
pub open spec fn after_marker(line: Seq<char>) -> Seq<char> {
    match first_occurrence(line, marker()) {
        Some(at) => trimmed(line.skip(at + marker().len())),
        None => Seq::empty(),
    }
}

/// The trimmed line that follows line `i`; empty where line `i` is the last.
pub open spec fn following_line(ls: Seq<Seq<char>>, i: int) -> Seq<char> {
    if i + 1 < ls.len() {
        trimmed(ls[i + 1])
    } else {
        Seq::empty()
    }
}

/// What the marker on line `i` announces: the following line if that is not
/// blank, else the rest of line `i` itself.
pub open spec fn marker_result(ls: Seq<Seq<char>>, i: int) -> Seq<char> {
    if following_line(ls, i).len() > 0 {
        following_line(ls, i)
    } else {
        after_marker(ls[i])
    }
}

/// Whether line `i` holds a marker that announces a result that is not empty.
pub open spec fn announces(ls: Seq<Seq<char>>, i: int) -> bool {
    has_marker(ls[i]) && marker_result(ls, i).len() > 0
}

/// The first line at or after `from` whose marker announces a result.
pub open spec fn first_announcing(ls: Seq<Seq<char>>, from: int) -> Option<int>
    decreases ls.len() - from,
{
    if from < 0 || from >= ls.len() {
        None
    } else if announces(ls, from) {
        Some(from)
    } else {
        first_announcing(ls, from + 1)
    }
}

/// The last line before `upto` that is not blank.
pub open spec fn last_text_line(ls: Seq<Seq<char>>, upto: int) -> Option<int>
    decreases upto,
{
    if upto <= 0 || upto > ls.len() {
        None
    } else if trimmed(ls[upto - 1]).len() > 0 {
        Some(upto - 1)
    } else {
        last_text_line(ls, upto - 1)
    }
}

/// Whether some line holds the marker.
pub open spec fn any_marker(ls: Seq<Seq<char>>) -> bool {
    exists|i: int| 0 <= i < ls.len() && has_marker(#[trigger] ls[i])
}

/// The result that the lines `ls` carry.
pub open spec fn extracted_from(ls: Seq<Seq<char>>) -> Seq<char> {
    match first_announcing(ls, 0) {
        Some(i) => marker_result(ls, i),
        None => if any_marker(ls) {
            Seq::empty()
        } else {
            match last_text_line(ls, ls.len() as int) {
                Some(k) => trimmed(ls[k]),
                None => Seq::empty(),
            }
        },
    }
}

/// The result that the output `output` of a plugin carries.
pub open spec fn extracted(output: Seq<char>) -> Seq<char> {
    extracted_from(lines(output))
}

/// The scan for an announcing line finds the first one, and finds none only
/// where there is none.
pub proof fn lemma_first_announcing(ls: Seq<Seq<char>>, from: int)
    requires
        0 <= from,
    ensures
        first_announcing(ls, from) matches Some(i) ==> from <= i < ls.len() && announces(ls, i)
            && forall|j: int| from <= j < i ==> !announces(ls, j),
        first_announcing(ls, from) is None ==> forall|j: int|
            from <= j < ls.len() ==> !announces(ls, j),
    decreases ls.len() - from,
{
    if from < ls.len() && !announces(ls, from) {
        lemma_first_announcing(ls, from + 1);
    }
}

/// The scan for a line that is not blank finds the last one, and finds none
/// only where every line is blank.
pub proof fn lemma_last_text_line(ls: Seq<Seq<char>>, upto: int)
    requires
        upto <= ls.len(),
    ensures
        last_text_line(ls, upto) matches Some(k) ==> 0 <= k < upto && trimmed(ls[k]).len() > 0
            && forall|j: int| k < j < upto ==> trimmed(ls[j]).len() == 0,
        last_text_line(ls, upto) is None ==> forall|j: int|
            0 <= j < upto ==> trimmed(ls[j]).len() == 0,
    decreases upto,
{
    if upto > 0 && trimmed(ls[upto - 1]).len() == 0 {
        lemma_last_text_line(ls, upto - 1);
    }
}

/// An empty output carries the empty result.
pub proof fn lemma_extracted_empty()
    ensures
        extracted(Seq::empty()) == Seq::<char>::empty(),
{
    let ls = lines(Seq::<char>::empty());
    assert(ls.len() == 0);
    assert(!any_marker(ls));
}

/// An output of one line that holds the marker, with nothing but blanks
/// behind it, carries the empty result.
pub proof fn lemma_marker_alone(output: Seq<char>)
    requires
        lines(output).len() == 1,
        has_marker(lines(output)[0]),
        after_marker(lines(output)[0]).len() == 0,
    ensures
        extracted(output) == Seq::<char>::empty(),
{
    let ls = lines(output);
    reveal_with_fuel(first_announcing, 2);
    assert(!announces(ls, 0));
    assert(first_announcing(ls, 0) is None);
    assert(any_marker(ls));
}

proof fn lemma_skip_unannouncing(ls: Seq<Seq<char>>, from: int, to: int)
    requires
        0 <= from <= to <= ls.len(),
        forall|j: int| from <= j < to ==> !announces(ls, j),
    ensures
        first_announcing(ls, from) == first_announcing(ls, to),
    decreases to - from,
{
    if from < to {
        lemma_skip_unannouncing(ls, from + 1, to);
    }
}

proof fn lemma_skip_blank(ls: Seq<Seq<char>>, upto: int, down: int)
    requires
        0 <= down <= upto <= ls.len(),
        forall|j: int| down <= j < upto ==> trimmed(ls[j]).len() == 0,
    ensures
        last_text_line(ls, upto) == last_text_line(ls, down),
    decreases upto - down,
{
    if down < upto {
        lemma_skip_blank(ls, upto - 1, down);
    }
}

/// The piece of `output` under `span`, as a string of its own.
fn piece_of(output: &str, span: Span) -> (piece: String)
    requires
        span.fits(output@.len()),
    ensures
        piece@ == span.of(output@),
{
    output.substring_char(span.start, span.end).to_owned()
}

/// Applies the extraction rule to the output of a plugin.
///
/// The first line that holds the marker and announces a result decides: the
/// result is the trimmed line after it, or, where that is blank or missing,
/// the trimmed text behind the marker. Where lines hold the marker but none
/// announces anything, the result is empty. Where no line holds the marker,
/// the result is the last line that is not blank, trimmed; empty where there
/// is none.
pub fn extract_result(output: &str) -> (result: String)
    ensures
        result@ == extracted(output@),
{
    let text = chars_of(output);
    let spans = line_spans(&text);
    let pat = chars_of(RESULT_MARKER);
    let ghost ls = lines(output@);
    let count = spans.len();
    let mut seen = false;
    let mut i: usize = 0;
    while i < count
        invariant
            text@ == output@,
            pat@ == marker(),
            ls == lines(output@),
            pieces(text@, spans@) == ls,
            count == spans@.len(),
            forall|k: int| 0 <= k < spans@.len() ==> (#[trigger] spans@[k]).fits(text@.len()),
            i <= count,
            forall|j: int| 0 <= j < i ==> !announces(ls, j),
            seen <==> exists|j: int| 0 <= j < i && has_marker(#[trigger] ls[j]),
        decreases count - i,
    {
        let line = spans[i];
        assert(ls[i as int] == line.of(text@));
        match find_in_span(&text, line, &pat) {
            Some(at) => {
                seen = true;
                assert(has_marker(ls[i as int]));
                if i + 1 < count {
                    let next = spans[i + 1];
                    assert(ls[i + 1] == next.of(text@));
                    let inner = trim_span(&text, next);
                    if inner.start < inner.end {
                        proof {
                            assert(announces(ls, i as int));
                            lemma_skip_unannouncing(ls, 0, i as int);
                        }
                        return piece_of(output, inner);
                    }
                }
                let rest = Span { start: line.start + at + pat.len(), end: line.end };
                assert(rest.of(text@) =~= line.of(text@).skip(at + marker().len()));
                let inner = trim_span(&text, rest);
                if inner.start < inner.end {
                    proof {
                        assert(announces(ls, i as int));
                        lemma_skip_unannouncing(ls, 0, i as int);
                    }
                    return piece_of(output, inner);
                }
                assert(!announces(ls, i as int));
            },
            None => {
                assert(!has_marker(ls[i as int]));
            },
        }
        i += 1;
    }
    proof {
        lemma_skip_unannouncing(ls, 0, count as int);
        assert(first_announcing(ls, 0) is None);
        assert(seen == any_marker(ls));
    }
    if seen {
        return String::new();
    }
    let mut k: usize = count;
    while k > 0
        invariant
            text@ == output@,
            ls == lines(output@),
            pieces(text@, spans@) == ls,
            count == spans@.len(),
            forall|j: int| 0 <= j < spans@.len() ==> (#[trigger] spans@[j]).fits(text@.len()),
            k <= count,
            forall|j: int| k <= j < count ==> trimmed(ls[j]).len() == 0,
            first_announcing(ls, 0) is None,
            !any_marker(ls),
        decreases k,
    {
        k -= 1;
        let line = spans[k];
        assert(ls[k as int] == line.of(text@));
        let inner = trim_span(&text, line);
        if inner.start < inner.end {
            proof {
                lemma_skip_blank(ls, count as int, k + 1);
            }
            return piece_of(output, inner);
        }
    }
    proof {
        lemma_skip_blank(ls, count as int, 0);
    }
    String::new()
}

} // verus!
