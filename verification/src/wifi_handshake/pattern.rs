//! Regular expressions, as the `regex` crate provides them.
//!
//! What is here is believed, not proved: the crate is called, and each call
//! has a name for what it returns. The rest of the library reasons about the
//! names and never about what a pattern matches.

use regex::Regex;
use vstd::prelude::*;

verus! {

/// Whether `Regex::new` accepts `pattern`, with the options and the size
/// limit that it always uses.
pub uninterp spec fn compiles(pattern: Seq<char>) -> bool;

/// The matches in `haystack` that `find_iter` yields for what `Regex::new`
/// makes of `pattern`, each as the byte offsets of its start and its end.
pub uninterp spec fn match_spans(pattern: Seq<char>, haystack: Seq<char>) -> Seq<(int, int)>;

/// The byte offsets of what group `group` holds in the first match in
/// `haystack` of what `Regex::new` makes of `pattern`, if there is a match
/// and the group took part.
pub uninterp spec fn capture_span(pattern: Seq<char>, haystack: Seq<char>, group: int) -> Option<
    (int, int),
>;

/// The plain form of a span of byte offsets.
pub open spec fn span_view(span: (usize, usize)) -> (int, int) {
    (span.0 as int, span.1 as int)
}

/// The plain form of a list of spans.
pub open spec fn spans_view(spans: Seq<(usize, usize)>) -> Seq<(int, int)> {
    Seq::new(spans.len(), |i: int| span_view(spans[i]))
}

/// `Regex::new` and `Regex::find_iter`: the pattern is compiled as it is,
/// and the successive matches in `haystack` that do not overlap are handed
/// out as the offsets that `Match::start` and `Match::end` give. There is a
/// result exactly when the pattern is accepted, and it depends on the two
/// texts alone.
#[verifier::external_body]
pub(crate) fn find_spans(pattern: &str, haystack: &str) -> (r: Option<Vec<(usize, usize)>>)
    ensures
        r is Some <==> compiles(pattern@),
        r matches Some(spans) ==> spans_view(spans@) == match_spans(pattern@, haystack@),
{
    let regex = Regex::new(pattern).ok()?;
    Some(regex.find_iter(haystack).map(|m| (m.start(), m.end())).collect())
}

/// `Regex::new`, `Regex::captures` and `Captures::get`: the pattern is
/// compiled as it is, and the offsets of group `group` in the first match
/// are handed out. There is a result exactly when the pattern is accepted,
/// and it depends on the two texts and the group alone.
#[verifier::external_body]
pub(crate) fn find_capture(pattern: &str, haystack: &str, group: usize) -> (r: Option<
    Option<(usize, usize)>,
>)
    ensures
        r is Some <==> compiles(pattern@),
        r matches Some(found) ==> match found {
            Some(span) => capture_span(pattern@, haystack@, group as int) == Some(span_view(span)),
            None => capture_span(pattern@, haystack@, group as int) is None,
        },
{
    let regex = Regex::new(pattern).ok()?;
    Some(regex.captures(haystack).and_then(|c| c.get(group)).map(|m| (m.start(), m.end())))
}

} // verus!
