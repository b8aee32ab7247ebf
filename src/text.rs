//! Text predicates that the analysis relies on, and their meaning.
use vstd::prelude::*;

verus! {

/// `p` occurs as a contiguous run of characters somewhere in `t`.
pub open spec fn has_substring(t: Seq<char>, p: Seq<char>) -> bool {
    exists|i: int| 0 <= i && i + p.len() <= t.len() && #[trigger] t.subrange(i, i + p.len()) == p
}

/// Relies on `str::contains` with a `&str` pattern: true exactly when
/// `pat` matches a sub-slice of `text`.
#[verifier::external_body]
pub(crate) fn text_contains(text: &str, pat: &str) -> (r: bool)
    ensures
        r == has_substring(text@, pat@),
{
    text.contains(pat)
}

/// Relies on `==` on `str`: true exactly when both hold the same characters.
#[verifier::external_body]
pub(crate) fn same_text(a: &str, b: &str) -> (r: bool)
    ensures
        r == (a@ == b@),
{
    a == b
}

/// Indentation for `levels` levels of nesting: two spaces per level.
pub open spec fn indent(levels: nat) -> Seq<char> {
    Seq::new(2 * levels, |i: int| ' ')
}

/// The outline line of a node of kind `kind` at depth `depth`.
pub open spec fn outline_text(depth: nat, kind: Seq<char>) -> Seq<char> {
    indent(depth) + kind
}

/// Renders one outline line: `depth` indentation units, then the kind.
pub fn outline_line(depth: usize, kind: &str) -> (r: String)
    ensures
        r@ == outline_text(depth as nat, kind@),
{
    let mut s = String::new();
    let mut k: usize = 0;
    while k < depth
        invariant
            k <= depth,
            s@ == indent(k as nat),
        decreases depth - k,
    {
        s.append("  ");
        proof {
            reveal_strlit("  ");
        }
        assert(s@ =~= indent((k + 1) as nat));
        k = k + 1;
    }
    s.append(kind);
    s
}

} // verus!
