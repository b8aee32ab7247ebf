//! The one-line summary of a verdict.
use vstd::prelude::*;
use crate::verdict::{tag_label, RiskTag};

verus! {

/// The decimal digit `d`.
pub open spec fn digit_char(d: nat) -> char {
    "0123456789"@[d as int]
}

/// `n` written in decimal, without leading zeros.
pub open spec fn decimal(n: nat) -> Seq<char>
    decreases n,
{
    if n < 10 {
        seq![digit_char(n)]
    } else {
        decimal(n / 10) + seq![digit_char(n % 10)]
    }
}

/// Writes `n` in decimal.
pub fn decimal_text(n: u64) -> (r: String)
    ensures
        r@ == decimal(n as nat),
    decreases n,
{
    let digits = "0123456789";
    proof {
        reveal_strlit("0123456789");
    }
    let d: usize = (n % 10) as usize;
    let mut s = if n < 10 { String::new() } else { decimal_text(n / 10) };
    let one = digits.substring_char(d, d + 1);
    assert(one@ =~= seq![digit_char(d as nat)]);
    s.append(one);
    assert(n < 10 ==> s@ =~= decimal(n as nat));
    s
}

/// The labels of the tags, separated by a comma and a space.
pub open spec fn tags_text(tags: Seq<RiskTag>) -> Seq<char>
    decreases tags.len(),
{
    if tags.len() == 0 {
        Seq::empty()
    } else if tags.len() == 1 {
        tag_label(tags[0])
    } else {
        tags_text(tags.drop_last()) + ", "@ + tag_label(tags.last())
    }
}

/// The summary line: the tags, then the function and decision counts.
pub open spec fn summary_text(tags: Seq<RiskTag>, functions: nat, decisions: nat) -> Seq<char> {
    "Tags: ["@ + tags_text(tags) + "] | Methods: "@ + decimal(functions) + " | Decision Points: "@
        + decimal(decisions)
}

/// Renders the summary line of a verdict's tags and counts.
pub fn summary_line(tags: &Vec<RiskTag>, functions: u64, decisions: u64) -> (r: String)
    ensures
        r@ == summary_text(tags@, functions as nat, decisions as nat),
{
    let mut s = String::new();
    s.append("Tags: [");
    let mut i: usize = 0;
    while i < tags.len()
        invariant
            i <= tags.len(),
            s@ == "Tags: ["@ + tags_text(tags@.subrange(0, i as int)),
        decreases tags.len() - i,
    {
        let ghost before = s@;
        if i > 0 {
            s.append(", ");
        }
        s.append(tags[i].label());
        proof {
            let sub = tags@.subrange(0, i + 1);
            assert(sub.drop_last() =~= tags@.subrange(0, i as int));
            if i == 0 {
                assert(tags@.subrange(0, 0) =~= Seq::<RiskTag>::empty());
            }
            assert(s@ =~= "Tags: ["@ + tags_text(sub));
        }
        i = i + 1;
    }
    assert(tags@.subrange(0, i as int) =~= tags@);
    s.append("] | Methods: ");
    let f = decimal_text(functions);
    s.append(f.as_str());
    s.append(" | Decision Points: ");
    let d = decimal_text(decisions);
    s.append(d.as_str());
    assert(s@ =~= summary_text(tags@, functions as nat, decisions as nat));
    s
}

} // verus!
