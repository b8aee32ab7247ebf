//! The traversal state and the pre-order walk that fills it.
use vstd::prelude::*;
use crate::signals::{
    decisions_in, dom_in, forest_decisions, forest_dom, forest_functions, forest_remote,
    forest_shape, functions_in, lemma_outline_of_add, node_dom, node_remote, outline_of,
    own_decision, own_function, preview_of, remote_in, shape, PREVIEW_DEPTH,
};
use crate::text::{outline_line, same_text, text_contains};
use crate::tree::SyntaxNode;

verus! {

/// What a walk has gathered so far.
pub struct TraversalState {
    pub function_count: u64,
    pub decision_count: u64,
    pub uses_remote_api: bool,
    pub uses_dom_mutation: bool,
    pub preview_lines: Vec<String>,
}

/// The characters of each line.
pub open spec fn lines_of(v: Seq<String>) -> Seq<Seq<char>> {
    v.map_values(|s: String| s@)
}

/// Everything the second state holds of the first, and maybe more:
/// counters have not gone down, flags have not been cleared, and the outline
/// has only grown at its end.
pub open spec fn state_grows(a: TraversalState, b: TraversalState) -> bool {
    &&& a.function_count <= b.function_count
    &&& a.decision_count <= b.decision_count
    &&& a.uses_remote_api ==> b.uses_remote_api
    &&& a.uses_dom_mutation ==> b.uses_dom_mutation
    &&& a.preview_lines@.len() <= b.preview_lines@.len()
    &&& lines_of(b.preview_lines@).subrange(0, a.preview_lines@.len() as int) == lines_of(a.preview_lines@)
}

/// The prefix sums of the counters over a sequence of trees never exceed
/// the sums over the whole sequence.
pub proof fn lemma_forest_prefix_le(s: Seq<SyntaxNode>, i: int)
    requires
        0 <= i <= s.len(),
    ensures
        forest_functions(s.subrange(0, i)) <= forest_functions(s),
        forest_decisions(s.subrange(0, i)) <= forest_decisions(s),
    decreases s.len(),
{
    if i < s.len() {
        assert(s.drop_last().subrange(0, i) =~= s.subrange(0, i));
        lemma_forest_prefix_le(s.drop_last(), i);
    } else {
        assert(s.subrange(0, i) =~= s);
    }
}

impl TraversalState {
    /// The state at the start of an analysis: no counts, no flags, no outline.
    pub fn new() -> (r: TraversalState)
        ensures
            r.function_count == 0,
            r.decision_count == 0,
            !r.uses_remote_api,
            !r.uses_dom_mutation,
            r.preview_lines@.len() == 0,
    {
        TraversalState {
            function_count: 0,
            decision_count: 0,
            uses_remote_api: false,
            uses_dom_mutation: false,
            preview_lines: Vec::new(),
        }
    }

    /// Records what one node contributes: its kind counts toward the function
    /// or decision counters, and its own text may raise either flag.
    pub fn observe(&mut self, node: &SyntaxNode)
        requires
            old(self).function_count + own_function(*node) <= u64::MAX,
            old(self).decision_count + own_decision(*node) <= u64::MAX,
        ensures
            final(self).function_count == old(self).function_count + own_function(*node),
            final(self).decision_count == old(self).decision_count + own_decision(*node),
            final(self).uses_remote_api == (old(self).uses_remote_api || node_remote(*node)),
            final(self).uses_dom_mutation == (old(self).uses_dom_mutation || node_dom(*node)),
            final(self).preview_lines@ == old(self).preview_lines@,
    {
        let kind = node.kind.as_str();
        if same_text(kind, "method_definition") || same_text(kind, "function_declaration") {
            self.function_count = self.function_count + 1;
        }
        if same_text(kind, "if_statement") {
            self.decision_count = self.decision_count + 1;
        }
        match &node.text {
            Some(t) => {
                let t = t.as_str();
                if text_contains(t, "spHttpClient") || text_contains(t, "graphClient") {
                    self.uses_remote_api = true;
                }
                if text_contains(t, "document.") || text_contains(t, ".innerHTML") {
                    self.uses_dom_mutation = true;
                }
            },
            None => {},
        }
    }

    /// Visits `node` at depth `depth` and then each of its children, in
    /// order, one level deeper. Every node is observed; those above the
    /// preview depth also add their outline line.
    pub fn walk(&mut self, node: &SyntaxNode, depth: usize)
        requires
            old(self).function_count + functions_in(*node) <= u64::MAX,
            old(self).decision_count + decisions_in(*node) <= u64::MAX,
        ensures
            final(self).function_count == old(self).function_count + functions_in(*node),
            final(self).decision_count == old(self).decision_count + decisions_in(*node),
            final(self).uses_remote_api == (old(self).uses_remote_api || remote_in(*node)),
            final(self).uses_dom_mutation == (old(self).uses_dom_mutation || dom_in(*node)),
            lines_of(final(self).preview_lines@) == lines_of(old(self).preview_lines@) + preview_of(
                *node,
                depth as nat,
            ),
            state_grows(*old(self), *final(self)),
        decreases node,
    {
        let ghost start = *self;
        if depth < PREVIEW_DEPTH {
            let line = outline_line(depth, node.kind.as_str());
            self.preview_lines.push(line);
        }
        self.observe(node);
        let ghost mid = *self;
        let ghost kids = node.children@;
        let child_depth: usize = if depth < PREVIEW_DEPTH { depth + 1 } else { depth };
        let ghost spec_depth: nat = depth as nat + 1;
        let ghost own_line = seq![(depth as nat, node.kind@)];
        proof {
            if depth < PREVIEW_DEPTH {
                lemma_outline_of_add(own_line, forest_shape(kids, spec_depth));
                assert(lines_of(mid.preview_lines@) =~= lines_of(start.preview_lines@) + outline_of(
                    own_line,
                ));
                assert(kids.subrange(0, 0) =~= Seq::<SyntaxNode>::empty());
                assert(lines_of(mid.preview_lines@) =~= lines_of(mid.preview_lines@) + outline_of(
                    forest_shape(kids.subrange(0, 0), spec_depth),
                ));
            }
        }
        let mut i: usize = 0;
        while i < node.children.len()
            invariant
                i <= node.children.len(),
                kids == node.children@,
                start.function_count + functions_in(*node) <= u64::MAX,
                start.decision_count + decisions_in(*node) <= u64::MAX,
                self.function_count == mid.function_count + forest_functions(
                    kids.subrange(0, i as int),
                ),
                self.decision_count == mid.decision_count + forest_decisions(
                    kids.subrange(0, i as int),
                ),
                self.uses_remote_api == (mid.uses_remote_api || forest_remote(
                    kids.subrange(0, i as int),
                )),
                self.uses_dom_mutation == (mid.uses_dom_mutation || forest_dom(
                    kids.subrange(0, i as int),
                )),
                mid.function_count == start.function_count + own_function(*node),
                mid.decision_count == start.decision_count + own_decision(*node),
                spec_depth == depth + 1,
                depth < PREVIEW_DEPTH ==> child_depth == spec_depth,
                depth < PREVIEW_DEPTH ==> lines_of(self.preview_lines@) == lines_of(
                    mid.preview_lines@,
                ) + outline_of(forest_shape(kids.subrange(0, i as int), spec_depth)),
                depth >= PREVIEW_DEPTH ==> child_depth == depth,
                depth >= PREVIEW_DEPTH ==> lines_of(self.preview_lines@) == lines_of(start.preview_lines@),
                depth < PREVIEW_DEPTH ==> lines_of(mid.preview_lines@) == lines_of(
                    start.preview_lines@,
                ) + outline_of(own_line),
            decreases node.children.len() - i,
        {
            proof {
                lemma_forest_prefix_le(kids, i + 1);
                assert(kids.subrange(0, i + 1).drop_last() =~= kids.subrange(0, i as int));
            }
            self.walk(&node.children[i], child_depth);
            proof {
                if depth < PREVIEW_DEPTH {
                    lemma_outline_of_add(
                        forest_shape(kids.subrange(0, i as int), spec_depth),
                        shape(kids[i as int], spec_depth),
                    );
                }
            }
            i = i + 1;
        }
        proof {
            assert(kids.subrange(0, i as int) =~= kids);
            assert(lines_of(self.preview_lines@).subrange(0, start.preview_lines@.len() as int)
                =~= lines_of(start.preview_lines@));
        }
    }
}

} // verus!
