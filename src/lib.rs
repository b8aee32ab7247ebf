//! Static risk classification of one source file's syntax tree.
//!
//! The tree is walked in pre-order; each node feeds counters and marker
//! flags, the first levels of the tree are rendered as an indented outline,
//! and the collected signals are folded into a severity and a list of tags.
use vstd::prelude::*;

pub mod laws;
pub mod report;
pub mod signals;
pub mod summary;
pub mod text;
pub mod tree;
pub mod verdict;
pub mod walk;

verus! {

} // verus!
