//! Properties of the analysis as a whole.
use vstd::prelude::*;
use crate::report::{report_of, Report};
use crate::signals::{
    decisions_in, forest_decisions, forest_functions, forest_shape, functions_in,
    is_decision_kind, is_function_kind, preview_of, shape, PREVIEW_DEPTH,
};
use crate::text::outline_text;
use crate::tree::{forest_node_count, node_count, SyntaxNode};
use crate::verdict::{verdict_of, Verdict};
use crate::walk::{lines_of, TraversalState};

verus! {

/// Classification is a function of the state: two verdicts for one state
/// agree in severity, tags and counts.
pub proof fn lemma_classify_deterministic(s: TraversalState, a: Verdict, b: Verdict)
    requires
        verdict_of(s, a),
        verdict_of(s, b),
    ensures
        a.severity == b.severity,
        a.tags@ == b.tags@,
        a.function_count == b.function_count,
        a.decision_count == b.decision_count,
{
}

/// The analysis is a function of the file name and the tree: two reports of
/// one tree agree in everything they hold.
pub proof fn lemma_analysis_deterministic(name: Seq<char>, root: SyntaxNode, a: Report, b: Report)
    requires
        report_of(a, name, root),
        report_of(b, name, root),
    ensures
        a.filename@ == b.filename@,
        a.verdict.severity == b.verdict.severity,
        a.verdict.tags@ == b.verdict.tags@,
        a.verdict.function_count == b.verdict.function_count,
        a.verdict.decision_count == b.verdict.decision_count,
        a.summary@ == b.summary@,
        lines_of(a.preview_lines@) == lines_of(b.preview_lines@),
{
}

/// Nodes of the tree rooted at `n`, placed at depth `depth`, that lie above
/// the preview depth.
pub open spec fn shallow_count(n: SyntaxNode, depth: nat) -> nat
    decreases n, 1nat,
{
    if depth < PREVIEW_DEPTH { 1 + forest_shallow_count(n.children@, depth + 1) } else { 0 }
}

/// The same, over a sequence of sibling trees.
pub open spec fn forest_shallow_count(s: Seq<SyntaxNode>, depth: nat) -> nat
    decreases s, 0nat,
{
    if s.len() == 0 {
        0
    } else {
        forest_shallow_count(s.drop_last(), depth) + shallow_count(s.last(), depth)
    }
}

/// Every entry of an outline placed at `depth` lies at `depth` or deeper,
/// above the preview depth, and there is one entry per node above it.
pub proof fn lemma_shape_bound(n: SyntaxNode, depth: nat)
    ensures
        shape(n, depth).len() == shallow_count(n, depth),
        forall|i: int|
            0 <= i < shape(n, depth).len() ==> depth <= #[trigger] shape(n, depth)[i].0
                < PREVIEW_DEPTH,
    decreases n, 1nat,
{
    if depth < PREVIEW_DEPTH {
        lemma_forest_shape_bound(n.children@, depth + 1);
    }
}

/// The same, over a sequence of sibling trees.
pub proof fn lemma_forest_shape_bound(s: Seq<SyntaxNode>, depth: nat)
    ensures
        forest_shape(s, depth).len() == forest_shallow_count(s, depth),
        forall|i: int|
            0 <= i < forest_shape(s, depth).len() ==> depth <= #[trigger] forest_shape(s, depth)[i].0
                < PREVIEW_DEPTH,
    decreases s, 0nat,
{
    if s.len() > 0 {
        lemma_forest_shape_bound(s.drop_last(), depth);
        lemma_shape_bound(s.last(), depth);
        let a = forest_shape(s.drop_last(), depth);
        let b = shape(s.last(), depth);
        assert forall|i: int| 0 <= i < (a + b).len() implies depth <= #[trigger] (a + b)[i].0
            < PREVIEW_DEPTH by {
            if i >= a.len() {
                assert((a + b)[i] == b[i - a.len()]);
            }
        }
    }
}

/// The outline of a whole tree has one line per node above the preview
/// depth, and each line is the kind of such a node indented by fewer than
/// that many levels.
pub proof fn lemma_preview_bound(root: SyntaxNode)
    ensures
        preview_of(root, 0).len() == shallow_count(root, 0),
        forall|i: int|
            0 <= i < preview_of(root, 0).len() ==> {
                let e = #[trigger] shape(root, 0)[i];
                &&& e.0 < PREVIEW_DEPTH
                &&& preview_of(root, 0)[i] == outline_text(e.0, e.1)
            },
{
    lemma_shape_bound(root, 0);
}

/// All nodes of the tree rooted at `n`, in pre-order.
pub open spec fn preorder(n: SyntaxNode) -> Seq<SyntaxNode>
    decreases n, 1nat,
{
    seq![n] + forest_preorder(n.children@)
}

/// The same, over a sequence of sibling trees.
pub open spec fn forest_preorder(s: Seq<SyntaxNode>) -> Seq<SyntaxNode>
    decreases s, 0nat,
{
    if s.len() == 0 {
        Seq::empty()
    } else {
        forest_preorder(s.drop_last()) + preorder(s.last())
    }
}

/// The node is function-like.
pub open spec fn function_node() -> spec_fn(SyntaxNode) -> bool {
    |m: SyntaxNode| is_function_kind(m.kind@)
}

/// The node is a conditional.
pub open spec fn decision_node() -> spec_fn(SyntaxNode) -> bool {
    |m: SyntaxNode| is_decision_kind(m.kind@)
}

/// A one-element sequence keeps its element under a filter exactly when
/// the element passes it.
proof fn lemma_filter_single(n: SyntaxNode, p: spec_fn(SyntaxNode) -> bool)
    ensures
        seq![n].filter(p).len() == if p(n) { 1nat } else { 0nat },
{
    reveal(Seq::filter);
    assert(seq![n].drop_last() =~= Seq::<SyntaxNode>::empty());
    assert(Seq::<SyntaxNode>::empty().filter(p) =~= Seq::<SyntaxNode>::empty());
}

/// The counters cover the whole tree, at every depth: pre-order lists each
/// node once, and the function and decision counts are the numbers of
/// function-like and conditional nodes in that list.
pub proof fn lemma_counts_complete(n: SyntaxNode)
    ensures
        preorder(n).len() == node_count(n),
        functions_in(n) == preorder(n).filter(function_node()).len(),
        decisions_in(n) == preorder(n).filter(decision_node()).len(),
    decreases n, 1nat,
{
    lemma_forest_counts_complete(n.children@);
    let rest = forest_preorder(n.children@);
    Seq::filter_distributes_over_add(seq![n], rest, function_node());
    Seq::filter_distributes_over_add(seq![n], rest, decision_node());
    lemma_filter_single(n, function_node());
    lemma_filter_single(n, decision_node());
}

/// The same, over a sequence of sibling trees.
pub proof fn lemma_forest_counts_complete(s: Seq<SyntaxNode>)
    ensures
        forest_preorder(s).len() == forest_node_count(s),
        forest_functions(s) == forest_preorder(s).filter(function_node()).len(),
        forest_decisions(s) == forest_preorder(s).filter(decision_node()).len(),
    decreases s, 0nat,
{
    if s.len() == 0 {
        reveal(Seq::filter);
    } else {
        lemma_forest_counts_complete(s.drop_last());
        lemma_counts_complete(s.last());
        let a = forest_preorder(s.drop_last());
        let b = preorder(s.last());
        Seq::filter_distributes_over_add(a, b, function_node());
        Seq::filter_distributes_over_add(a, b, decision_node());
    }
}

} // verus!
