use fmt_layout::buf::Buf;
use fmt_layout::node::Braces;
use fmt_layout::node::Node;
use fmt_layout::prec::Newlines;
use fmt_layout::prec::NodeInfo;
use fmt_layout::prec::Parens;
use fmt_layout::prec::Prec;
use fmt_layout::prec::parens_around_node;
use fmt_layout::spacing::CommentOrNewline;

fn lit3(s: &str) -> Node {
    Node::Literal(String::from(s))
}

fn info(prec: Prec) -> NodeInfo {
    NodeInfo { before: Vec::new(), node: lit3("t"), after: Vec::new(), needs_indent: true, prec }
}

fn all_contexts() -> Vec<Parens> {
    vec![
        Parens::NotNeeded,
        Parens::InClosurePattern,
        Parens::InApply,
        Parens::InApplyLastArg,
        Parens::InCollection,
        Parens::InFunctionType,
        Parens::InOperator,
        Parens::InAsPattern,
    ]
}

fn is_wrapped(r: &NodeInfo) -> bool {
    match &r.node {
        Node::DelimitedSequence { braces, indent_items, items, after } => {
            *braces == Braces::Round
                && *indent_items
                && items.len() == 1
                && !items[0].newline
                && !items[0].space
                && !items[0].comma_after
                && !after.is_multiline()
        }
        _ => false,
    }
}

#[test]
fn precedence_order_is_total() {
    assert!(Prec::Term < Prec::Apply);
    assert!(Prec::Apply < Prec::AsType);
    assert!(Prec::AsType < Prec::FunctionType);
    assert!(Prec::FunctionType < Prec::Outer);
}

#[test]
fn context_table_maps_as_fixed() {
    assert_eq!(Prec::from(Parens::NotNeeded), Prec::Outer);
    assert_eq!(Prec::from(Parens::InClosurePattern), Prec::Outer);
    assert_eq!(Prec::from(Parens::InApply), Prec::Apply);
    assert_eq!(Prec::from(Parens::InApplyLastArg), Prec::Apply);
    assert_eq!(Prec::from(Parens::InCollection), Prec::FunctionType);
    assert_eq!(Prec::from(Parens::InFunctionType), Prec::FunctionType);
    assert_eq!(Prec::from(Parens::InOperator), Prec::FunctionType);
    assert_eq!(Prec::from(Parens::InAsPattern), Prec::AsType);
}

#[test]
fn term_is_never_parenthesized() {
    for ctx in all_contexts() {
        let r = info(Prec::Term).add_parens(ctx);
        assert!(matches!(r.node, Node::Literal(_)));
        assert_eq!(r.prec, Prec::Term);
    }
}

#[test]
fn equal_precedence_adds_parens() {
    let r = info(Prec::Apply).add_parens(Parens::InApply);
    assert!(is_wrapped(&r));
    assert_eq!(r.prec, Prec::Term);
}

#[test]
fn wrapping_function_type_in_apply_context_yields_round_group() {
    let r = info(Prec::FunctionType).add_parens(Parens::InApply);
    assert!(is_wrapped(&r));
    assert_eq!(r.prec, Prec::Term);
    assert!(r.needs_indent);
    match &r.node {
        Node::DelimitedSequence { items, .. } => {
            assert!(matches!(&items[0].node, Node::Literal(s) if s == "t"));
        }
        _ => panic!("expected a delimited sequence"),
    }
}

#[test]
fn lower_precedence_than_context_is_left_alone() {
    let r = info(Prec::Apply).add_parens(Parens::InCollection);
    assert!(matches!(r.node, Node::Literal(_)));
    assert_eq!(r.prec, Prec::Apply);
}

#[test]
fn wrapped_node_renders_in_round_brackets() {
    let r = info(Prec::FunctionType).add_parens(Parens::InApply);
    let mut buf = Buf::new();
    r.node.format_with_options(&mut buf, Parens::NotNeeded, Newlines::Yes, 0);
    assert_eq!(buf.into_text(), "(t)");
}

#[test]
fn add_parens_moves_leading_trivia_outside_the_group() {
    let mut i = info(Prec::Outer);
    i.before = vec![CommentOrNewline::LineComment(String::from(" lead"))];
    let r = i.add_parens(Parens::InApply);
    assert!(is_wrapped(&r));
    assert_eq!(r.before.len(), 1);
    match &r.node {
        Node::DelimitedSequence { items, .. } => assert!(items[0].before.is_empty()),
        _ => panic!("expected a delimited sequence"),
    }
}

#[test]
fn ty_ext_parens_leave_bare_terms_alone() {
    let r = info(Prec::Term).add_ty_ext_parens();
    assert!(matches!(r.node, Node::Literal(_)));
}

#[test]
fn ty_ext_parens_wrap_higher_precedence() {
    let r = info(Prec::Apply).add_ty_ext_parens();
    assert!(is_wrapped(&r));
    assert_eq!(r.prec, Prec::Term);
}

#[test]
fn ty_ext_parens_wrap_comment_bearing_terms_and_pin_trivia_inside() {
    let mut i = info(Prec::Term);
    i.before = vec![CommentOrNewline::LineComment(String::from(" lead"))];
    let r = i.add_ty_ext_parens();
    assert!(is_wrapped(&r));
    assert!(r.before.is_empty());
    match &r.node {
        Node::DelimitedSequence { items, .. } => assert_eq!(items[0].before.len(), 1),
        _ => panic!("expected a delimited sequence"),
    }
}

#[test]
fn node_info_item_is_a_bare_term() {
    let r = NodeInfo::item(lit3("v"));
    assert!(r.before.is_empty() && r.after.is_empty());
    assert!(r.needs_indent);
    assert_eq!(r.prec, Prec::Term);
}

#[test]
fn parens_around_node_keeps_trailing_trivia_outside() {
    let mut i = info(Prec::Outer);
    i.after = vec![CommentOrNewline::LineComment(String::from(" tail"))];
    let r = parens_around_node(i, true);
    assert!(is_wrapped(&r));
    assert_eq!(r.after.len(), 1);
    assert_eq!(r.prec, Prec::Term);
}
