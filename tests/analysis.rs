use spfx_recon::report::{analyze, assemble, prepend, Report};
use spfx_recon::summary::{decimal_text, summary_line};
use spfx_recon::text::outline_line;
use spfx_recon::tree::SyntaxNode;
use spfx_recon::verdict::{classify, RiskTag, Severity, Verdict};
use spfx_recon::walk::TraversalState;

fn leaf(kind: &str, text: &str) -> SyntaxNode {
    SyntaxNode::new(kind.to_string(), Some(text.to_string()), Vec::new())
}

fn node(kind: &str, text: &str, children: Vec<SyntaxNode>) -> SyntaxNode {
    SyntaxNode::new(kind.to_string(), Some(text.to_string()), children)
}

fn run(root: &SyntaxNode) -> Report {
    analyze("file.ts".to_string(), root)
}

#[test]
fn plain_source_is_low_with_no_tags() {
    let root = node(
        "program",
        "let a = 1;",
        vec![node(
            "lexical_declaration",
            "let a = 1;",
            vec![leaf("let", "let"), leaf("variable_declarator", "a = 1")],
        )],
    );
    let r = run(&root);
    assert_eq!(r.verdict.severity, Severity::Low);
    assert!(r.verdict.tags.is_empty());
    assert_eq!(r.verdict.function_count, 0);
    assert_eq!(r.verdict.decision_count, 0);
    assert_eq!(r.filename, "file.ts");
    assert_eq!(
        r.preview_lines,
        vec!["program", "  lexical_declaration", "    let", "    variable_declarator"]
    );
    assert_eq!(r.summary, "Tags: [] | Methods: 0 | Decision Points: 0");
}

#[test]
fn remote_marker_gives_api_active_and_medium() {
    let root = node(
        "program",
        "this.spHttpClient.get(url);",
        vec![leaf("expression_statement", "this.spHttpClient.get(url);")],
    );
    let r = run(&root);
    assert_eq!(r.verdict.tags, vec![RiskTag::ApiActive]);
    assert_eq!(r.verdict.severity, Severity::Medium);
}

#[test]
fn graph_client_marker_counts_as_remote() {
    let root = leaf("identifier", "graphClient");
    let r = run(&root);
    assert_eq!(r.verdict.tags, vec![RiskTag::ApiActive]);
    assert_eq!(r.verdict.severity, Severity::Medium);
}

#[test]
fn six_conditionals_give_complex_logic_and_high() {
    let mut kids = Vec::new();
    for _ in 0..6 {
        kids.push(leaf("if_statement", "if (a) {}"));
    }
    let root = node("program", "", kids);
    let r = run(&root);
    assert_eq!(r.verdict.decision_count, 6);
    assert_eq!(r.verdict.tags, vec![RiskTag::ComplexLogic]);
    assert_eq!(r.verdict.severity, Severity::High);
}

#[test]
fn five_conditionals_are_not_complex() {
    let mut kids = Vec::new();
    for _ in 0..5 {
        kids.push(leaf("if_statement", "if (a) {}"));
    }
    let root = node("program", "", kids);
    let r = run(&root);
    assert_eq!(r.verdict.decision_count, 5);
    assert!(r.verdict.tags.is_empty());
    assert_eq!(r.verdict.severity, Severity::Low);
}

#[test]
fn dom_and_remote_give_both_tags_and_high() {
    let root = node(
        "program",
        "",
        vec![
            leaf("expression_statement", "this.spHttpClient.get(u);"),
            leaf("expression_statement", "el.innerHTML = x;"),
        ],
    );
    let r = run(&root);
    assert_eq!(r.verdict.tags, vec![RiskTag::ApiActive, RiskTag::DomManipulation]);
    assert_eq!(r.verdict.severity, Severity::High);
    assert_eq!(r.summary, "Tags: [API-ACTIVE, DOM-MANIPULATION] | Methods: 0 | Decision Points: 0");
}

#[test]
fn document_reference_is_dom_mutation() {
    let root = leaf("member_expression", "document.body");
    let r = run(&root);
    assert_eq!(r.verdict.tags, vec![RiskTag::DomManipulation]);
    assert_eq!(r.verdict.severity, Severity::High);
}

#[test]
fn empty_source_gives_root_line_only() {
    let root = leaf("program", "");
    let r = run(&root);
    assert_eq!(r.verdict.function_count, 0);
    assert_eq!(r.verdict.decision_count, 0);
    assert_eq!(r.verdict.severity, Severity::Low);
    assert_eq!(r.preview_lines, vec!["program"]);
}

#[test]
fn deep_function_is_counted_but_not_outlined() {
    let mut cur = leaf("identifier", "x");
    for level in (0..10).rev() {
        let kind = if level == 7 { "function_declaration" } else { "statement_block" };
        cur = node(kind, "", vec![cur]);
    }
    let r = run(&cur);
    assert_eq!(r.verdict.function_count, 1);
    assert_eq!(r.preview_lines.len(), 5);
    assert_eq!(r.preview_lines[4], "        statement_block");
    assert!(r.preview_lines.iter().all(|l| !l.contains("function_declaration")));
}

#[test]
fn outline_counts_nodes_above_depth_five() {
    // a root with two chains of depth 7 each
    let mut a = leaf("identifier", "a");
    let mut b = leaf("identifier", "b");
    for _ in 0..6 {
        a = node("parenthesized_expression", "", vec![a]);
        b = node("parenthesized_expression", "", vec![b]);
    }
    let root = node("program", "", vec![a, b]);
    let r = run(&root);
    assert_eq!(r.preview_lines.len(), 1 + 4 + 4);
    assert_eq!(r.preview_lines[1], "  parenthesized_expression");
    assert_eq!(r.preview_lines[5], "  parenthesized_expression");
}

#[test]
fn methods_and_functions_are_counted() {
    let root = node(
        "program",
        "",
        vec![
            leaf("function_declaration", "function f() {}"),
            node("class_declaration", "", vec![leaf("method_definition", "m() {}")]),
            leaf("arrow_function", "() => 1"),
        ],
    );
    let r = run(&root);
    assert_eq!(r.verdict.function_count, 2);
    assert_eq!(r.summary, "Tags: [] | Methods: 2 | Decision Points: 0");
}

#[test]
fn kind_must_match_exactly() {
    let root = node("program", "", vec![leaf("if_statements", ""), leaf("if_statement", "")]);
    let r = run(&root);
    assert_eq!(r.verdict.decision_count, 1);
}

#[test]
fn node_without_text_raises_no_flag() {
    let root = node(
        "program",
        "",
        vec![SyntaxNode::new("identifier".to_string(), None, Vec::new())],
    );
    let r = run(&root);
    assert!(r.verdict.tags.is_empty());
    assert_eq!(r.preview_lines, vec!["program", "  identifier"]);
}

#[test]
fn analysis_is_repeatable() {
    let root = node(
        "program",
        "graphClient; document.x",
        vec![leaf("if_statement", ""), leaf("method_definition", "")],
    );
    let a = run(&root);
    let b = run(&root);
    assert_eq!(a.verdict.severity, b.verdict.severity);
    assert_eq!(a.verdict.tags, b.verdict.tags);
    assert_eq!(a.verdict.function_count, b.verdict.function_count);
    assert_eq!(a.verdict.decision_count, b.verdict.decision_count);
    assert_eq!(a.summary, b.summary);
    assert_eq!(a.preview_lines, b.preview_lines);
}

#[test]
fn walk_only_grows_the_state() {
    let mut st = TraversalState::new();
    st.walk(&leaf("if_statement", "spHttpClient"), 0);
    st.walk(&leaf("identifier", "x"), 1);
    assert_eq!(st.decision_count, 1);
    assert!(st.uses_remote_api);
    assert!(!st.uses_dom_mutation);
    assert_eq!(st.preview_lines, vec!["if_statement", "  identifier"]);
}

#[test]
fn walk_below_preview_depth_adds_no_lines() {
    let mut st = TraversalState::new();
    st.walk(&node("function_declaration", "", vec![leaf("if_statement", "")]), 5);
    assert_eq!(st.function_count, 1);
    assert_eq!(st.decision_count, 1);
    assert!(st.preview_lines.is_empty());
}

#[test]
fn observe_reads_kind_and_text() {
    let mut st = TraversalState::new();
    st.observe(&leaf("method_definition", "x.innerHTML = y"));
    assert_eq!(st.function_count, 1);
    assert!(st.uses_dom_mutation);
    assert!(!st.uses_remote_api);
    assert!(st.preview_lines.is_empty());
}

#[test]
fn classify_applies_rules_in_order() {
    let mut st = TraversalState::new();
    st.uses_remote_api = true;
    st.decision_count = 9;
    st.function_count = 4;
    let v: Verdict = classify(&st);
    assert_eq!(v.severity, Severity::High);
    assert_eq!(v.tags, vec![RiskTag::ApiActive, RiskTag::ComplexLogic]);
    assert_eq!(v.function_count, 4);
    assert_eq!(v.decision_count, 9);
    st.uses_dom_mutation = true;
    let w = classify(&st);
    assert_eq!(
        w.tags,
        vec![RiskTag::ApiActive, RiskTag::ComplexLogic, RiskTag::DomManipulation]
    );
    assert_eq!(w.severity, Severity::High);
}

#[test]
fn severity_colours() {
    assert_eq!(Severity::Low.rgb(), (0, 255, 0));
    assert_eq!(Severity::Medium.rgb(), (255, 165, 0));
    assert_eq!(Severity::High.rgb(), (255, 0, 0));
}

#[test]
fn tag_labels() {
    assert_eq!(RiskTag::ApiActive.label(), "API-ACTIVE");
    assert_eq!(RiskTag::ComplexLogic.label(), "COMPLEX-LOGIC");
    assert_eq!(RiskTag::DomManipulation.label(), "DOM-MANIPULATION");
}

#[test]
fn decimal_rendering() {
    assert_eq!(decimal_text(0), "0");
    assert_eq!(decimal_text(7), "7");
    assert_eq!(decimal_text(10), "10");
    assert_eq!(decimal_text(907), "907");
    assert_eq!(decimal_text(u64::MAX), "18446744073709551615");
}

#[test]
fn summary_rendering() {
    let tags = vec![RiskTag::ComplexLogic];
    assert_eq!(summary_line(&tags, 12, 6), "Tags: [COMPLEX-LOGIC] | Methods: 12 | Decision Points: 6");
}

#[test]
fn outline_line_rendering() {
    assert_eq!(outline_line(0, "program"), "program");
    assert_eq!(outline_line(3, "identifier"), "      identifier");
}

#[test]
fn assemble_and_prepend_keep_most_recent_first() {
    let mut results: Vec<Report> = Vec::new();
    let first = run(&leaf("program", ""));
    prepend(&mut results, first);
    let v = classify(&TraversalState::new());
    let second = assemble("b.ts".to_string(), v, vec!["program".to_string()]);
    assert_eq!(second.summary, "Tags: [] | Methods: 0 | Decision Points: 0");
    prepend(&mut results, second);
    assert_eq!(results.len(), 2);
    assert_eq!(results[0].filename, "b.ts");
    assert_eq!(results[1].filename, "file.ts");
}
