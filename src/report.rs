//! The analysis report of one file, and the list that collects reports.
use vstd::prelude::*;
use crate::signals::{
    decisions_in, dom_in, forest_decisions, forest_functions, functions_in, preview_of,
    remote_in,
};
use crate::summary::{summary_line, summary_text};
use crate::tree::{forest_node_count, node_count, SyntaxNode};
use crate::verdict::{classify, severity_for, tags_for, Verdict};
use crate::walk::{lines_of, TraversalState};

verus! {

/// What the analysis of one file produced.
pub struct Report {
    pub filename: String,
    pub verdict: Verdict,
    pub summary: String,
    pub preview_lines: Vec<String>,
}

/// `r` packages exactly the given name, verdict fields and outline lines,
/// with the summary of that verdict.
pub open spec fn assembled(r: Report, filename: Seq<char>, verdict: Verdict, lines: Seq<Seq<char>>) -> bool {
    &&& r.filename@ == filename
    &&& r.verdict.severity == verdict.severity
    &&& r.verdict.tags@ == verdict.tags@
    &&& r.verdict.function_count == verdict.function_count
    &&& r.verdict.decision_count == verdict.decision_count
    &&& r.summary@ == summary_text(verdict.tags@, verdict.function_count as nat, verdict.decision_count as nat)
    &&& lines_of(r.preview_lines@) == lines
}

/// `r` is the report of the file `filename` whose syntax tree is `root`.
pub open spec fn report_of(r: Report, filename: Seq<char>, root: SyntaxNode) -> bool {
    &&& r.filename@ == filename
    &&& r.verdict.severity == severity_for(remote_in(root), decisions_in(root), dom_in(root))
    &&& r.verdict.tags@ == tags_for(remote_in(root), decisions_in(root), dom_in(root))
    &&& r.verdict.function_count == functions_in(root)
    &&& r.verdict.decision_count == decisions_in(root)
    &&& r.summary@ == summary_text(r.verdict.tags@, functions_in(root), decisions_in(root))
    &&& lines_of(r.preview_lines@) == preview_of(root, 0)
}

/// A tree has no more function-like or conditional nodes than nodes.
pub proof fn lemma_counts_le_nodes(n: SyntaxNode)
    ensures
        functions_in(n) <= node_count(n),
        decisions_in(n) <= node_count(n),
    decreases n, 1nat,
{
    lemma_forest_counts_le_nodes(n.children@);
}

/// A sequence of trees has no more function-like or conditional nodes than
/// nodes.
pub proof fn lemma_forest_counts_le_nodes(s: Seq<SyntaxNode>)
    ensures
        forest_functions(s) <= forest_node_count(s),
        forest_decisions(s) <= forest_node_count(s),
    decreases s, 0nat,
{
    if s.len() > 0 {
        lemma_forest_counts_le_nodes(s.drop_last());
        lemma_counts_le_nodes(s.last());
    }
}

/// Packages a file name, its verdict and its outline into a report.
pub fn assemble(filename: String, verdict: Verdict, preview_lines: Vec<String>) -> (r: Report)
    ensures
        assembled(r, filename@, verdict, lines_of(preview_lines@)),
{
    let summary = summary_line(&verdict.tags, verdict.function_count, verdict.decision_count);
    Report { filename, verdict, summary, preview_lines }
}

/// Analyses the syntax tree of one file: walks it from its root at depth 0,
/// classifies what the walk gathered, and assembles the report.
pub fn analyze(filename: String, root: &SyntaxNode) -> (r: Report)
    requires
        node_count(*root) <= u64::MAX,
    ensures
        report_of(r, filename@, *root),
{
    proof {
        lemma_counts_le_nodes(*root);
    }
    let mut state = TraversalState::new();
    assert(lines_of(state.preview_lines@) =~= Seq::<Seq<char>>::empty());
    state.walk(root, 0);
    assert(lines_of(state.preview_lines@) =~= preview_of(*root, 0));
    let verdict = classify(&state);
    let TraversalState { preview_lines, .. } = state;
    assemble(filename, verdict, preview_lines)
}

/// Puts a new report in front of the earlier ones: the list runs from the
/// most recent report to the oldest.
pub fn prepend(results: &mut Vec<Report>, report: Report)
    ensures
        final(results)@ == seq![report] + old(results)@,
{
    results.insert(0, report);
    assert(results@ =~= seq![report] + old(results)@);
}

} // verus!
