//! What each node contributes to the analysis, and the sums over a tree.
use vstd::prelude::*;
use crate::text::{has_substring, outline_text};
use crate::tree::SyntaxNode;

verus! {

/// Depth from which nodes are still analysed but no longer outlined.
pub const PREVIEW_DEPTH: usize = 5;

/// Kinds of function and method definitions.
pub open spec fn is_function_kind(k: Seq<char>) -> bool {
    k == "method_definition"@ || k == "function_declaration"@
}

/// The kind of a conditional construct.
pub open spec fn is_decision_kind(k: Seq<char>) -> bool {
    k == "if_statement"@
}

/// Text that mentions one of the remote-service clients.
pub open spec fn mentions_remote_api(t: Seq<char>) -> bool {
    has_substring(t, "spHttpClient"@) || has_substring(t, "graphClient"@)
}

/// Text that reaches the document object or injects raw markup.
pub open spec fn mentions_dom_mutation(t: Seq<char>) -> bool {
    has_substring(t, "document."@) || has_substring(t, ".innerHTML"@)
}

/// The node's own text is known and mentions a remote-service client.
pub open spec fn node_remote(n: SyntaxNode) -> bool {
    match n.text {
        Some(t) => mentions_remote_api(t@),
        None => false,
    }
}

/// The node's own text is known and mentions DOM mutation.
pub open spec fn node_dom(n: SyntaxNode) -> bool {
    match n.text {
        Some(t) => mentions_dom_mutation(t@),
        None => false,
    }
}

/// 1 for a function-like node, else 0.
pub open spec fn own_function(n: SyntaxNode) -> nat {
    if is_function_kind(n.kind@) { 1 } else { 0 }
}

/// 1 for a conditional node, else 0.
pub open spec fn own_decision(n: SyntaxNode) -> nat {
    if is_decision_kind(n.kind@) { 1 } else { 0 }
}

/// Function-like nodes anywhere in the tree, at any depth.
pub open spec fn functions_in(n: SyntaxNode) -> nat
    decreases n, 1nat,
{
    own_function(n) + forest_functions(n.children@)
}

/// The same, over a sequence of sibling trees.
pub open spec fn forest_functions(s: Seq<SyntaxNode>) -> nat
    decreases s, 0nat,
{
    if s.len() == 0 { 0 } else { forest_functions(s.drop_last()) + functions_in(s.last()) }
}

/// Conditional nodes anywhere in the tree, at any depth.
pub open spec fn decisions_in(n: SyntaxNode) -> nat
    decreases n, 1nat,
{
    own_decision(n) + forest_decisions(n.children@)
}

/// The same, over a sequence of sibling trees.
pub open spec fn forest_decisions(s: Seq<SyntaxNode>) -> nat
    decreases s, 0nat,
{
    if s.len() == 0 { 0 } else { forest_decisions(s.drop_last()) + decisions_in(s.last()) }
}

/// Some node of the tree mentions a remote-service client.
pub open spec fn remote_in(n: SyntaxNode) -> bool
    decreases n, 1nat,
{
    node_remote(n) || forest_remote(n.children@)
}

/// The same, over a sequence of sibling trees.
pub open spec fn forest_remote(s: Seq<SyntaxNode>) -> bool
    decreases s, 0nat,
{
    if s.len() == 0 { false } else { forest_remote(s.drop_last()) || remote_in(s.last()) }
}

/// Some node of the tree mentions DOM mutation.
pub open spec fn dom_in(n: SyntaxNode) -> bool
    decreases n, 1nat,
{
    node_dom(n) || forest_dom(n.children@)
}

/// The same, over a sequence of sibling trees.
pub open spec fn forest_dom(s: Seq<SyntaxNode>) -> bool
    decreases s, 0nat,
{
    if s.len() == 0 { false } else { forest_dom(s.drop_last()) || dom_in(s.last()) }
}

/// The outline of the tree rooted at `n`, placed at depth `depth`: pairs of
/// depth and kind, in pre-order, for the nodes above the preview depth.
pub open spec fn shape(n: SyntaxNode, depth: nat) -> Seq<(nat, Seq<char>)>
    decreases n, 1nat,
{
    if depth < PREVIEW_DEPTH {
        seq![(depth, n.kind@)] + forest_shape(n.children@, depth + 1)
    } else {
        Seq::empty()
    }
}

/// The same, over a sequence of sibling trees.
pub open spec fn forest_shape(s: Seq<SyntaxNode>, depth: nat) -> Seq<(nat, Seq<char>)>
    decreases s, 0nat,
{
    if s.len() == 0 {
        Seq::empty()
    } else {
        forest_shape(s.drop_last(), depth) + shape(s.last(), depth)
    }
}

/// The lines that render an outline.
pub open spec fn outline_of(s: Seq<(nat, Seq<char>)>) -> Seq<Seq<char>> {
    s.map_values(|e: (nat, Seq<char>)| outline_text(e.0, e.1))
}

/// The outline lines of the tree rooted at `n`, placed at depth `depth`.
pub open spec fn preview_of(n: SyntaxNode, depth: nat) -> Seq<Seq<char>> {
    outline_of(shape(n, depth))
}

/// Rendering an outline distributes over concatenation.
pub proof fn lemma_outline_of_add(a: Seq<(nat, Seq<char>)>, b: Seq<(nat, Seq<char>)>)
    ensures
        outline_of(a + b) == outline_of(a) + outline_of(b),
{
    assert(outline_of(a + b) =~= outline_of(a) + outline_of(b));
}

} // verus!
