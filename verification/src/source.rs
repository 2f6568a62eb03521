use vstd::prelude::*;
use vstd::string::StrSliceExecFns;

verus! {

/// A half-open character range into the original source text, with a mark
/// saying whether the text it locates came out of a macro expansion.
#[derive(Clone, Copy, PartialEq, Eq, Structural, Debug)]
pub struct Span {
    pub lo: usize,
    pub hi: usize,
    pub from_expansion: bool,
}

/// What `snippet` returns: the text under the span when the span fits the
/// source, and the fallback text otherwise.
pub open spec fn spec_snippet(src: Seq<char>, sp: Span, fallback: Seq<char>) -> Seq<char> {
    if sp.lo <= sp.hi && sp.hi <= src.len() {
        src.subrange(sp.lo as int, sp.hi as int)
    } else {
        fallback
    }
}

/// Extracts the literal source text a span covers. A span that does not fit
/// the available source degrades to the given fallback text rather than
/// failing the analysis.
pub fn snippet<'a>(source: &'a str, sp: Span, fallback: &'a str) -> (r: &'a str)
    ensures
        r@ == spec_snippet(source@, sp, fallback@),
{
    let n = source.unicode_len();
    if sp.lo <= sp.hi && sp.hi <= n {
        source.substring_char(sp.lo, sp.hi)
    } else {
        fallback
    }
}

} // verus!
