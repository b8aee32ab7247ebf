//! The syntax tree that the analysis reads, and its mathematical model.
use vstd::prelude::*;

verus! {

/// One node of a parsed syntax tree: its grammar kind, its own source text
/// (`None` when the text could not be recovered from the node's span), and
/// its children in document order.
pub struct SyntaxNode {
    pub kind: String,
    pub text: Option<String>,
    pub children: Vec<SyntaxNode>,
}

impl SyntaxNode {
    /// A node with the given kind, text and children.
    pub fn new(kind: String, text: Option<String>, children: Vec<SyntaxNode>) -> (r: SyntaxNode)
        ensures
            r.kind@ == kind@,
            r.text == text,
            r.children@ == children@,
    {
        SyntaxNode { kind, text, children }
    }
}

/// Number of nodes in the tree rooted at `n`, `n` included.
pub open spec fn node_count(n: SyntaxNode) -> nat
    decreases n, 1nat,
{
    1 + forest_node_count(n.children@)
}

/// Number of nodes in a sequence of trees.
pub open spec fn forest_node_count(s: Seq<SyntaxNode>) -> nat
    decreases s, 0nat,
{
    if s.len() == 0 {
        0
    } else {
        forest_node_count(s.drop_last()) + node_count(s.last())
    }
}

} // verus!
