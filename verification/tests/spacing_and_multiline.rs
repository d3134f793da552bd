use fmt_layout::buf::Buf;
use fmt_layout::node::Braces;
use fmt_layout::node::DelimitedItem;
use fmt_layout::node::Item;
use fmt_layout::node::Node;
use fmt_layout::prec::Newlines;
use fmt_layout::prec::Parens;
use fmt_layout::spacing::CommentOrNewline;
use fmt_layout::spacing::Sp;

fn lit2(s: &str) -> Node {
    Node::Literal(String::from(s))
}

fn render2(node: &Node) -> String {
    let mut buf = Buf::new();
    node.format_with_options(&mut buf, Parens::NotNeeded, Newlines::Yes, 0);
    buf.into_text()
}

fn one_comment() -> Vec<CommentOrNewline> {
    vec![CommentOrNewline::LineComment(String::from(" c"))]
}

fn gap_seq(sp: Sp) -> Node {
    Node::Sequence {
        first: Box::new(lit2("a")),
        extra_indent_for_rest: false,
        rest: vec![(sp, lit2("b"))],
    }
}

#[test]
fn sp_constructors_set_their_fields() {
    let e = Sp::empty();
    assert!(!e.default_space && !e.force_newline && e.comments.is_empty());
    let s = Sp::space();
    assert!(s.default_space && !s.force_newline && s.comments.is_empty());
    let w = Sp::with_space(one_comment());
    assert!(w.default_space && !w.force_newline && w.comments.len() == 1);
    let m = Sp::maybe_with_space(false, one_comment());
    assert!(!m.default_space && !m.force_newline && m.comments.len() == 1);
    let f = Sp::force_newline(one_comment());
    assert!(!f.default_space && f.force_newline && f.comments.len() == 1);
    let c = Sp::from(one_comment());
    assert!(!c.default_space && !c.force_newline && c.comments.len() == 1);
}

#[test]
fn sp_is_multiline_iff_break_or_trivia() {
    assert!(!Sp::empty().is_multiline());
    assert!(!Sp::space().is_multiline());
    assert!(Sp::force_newline(Vec::new()).is_multiline());
    assert!(Sp::from(one_comment()).is_multiline());
    assert!(Sp::with_space(one_comment()).is_multiline());
}

#[test]
fn comments_dominate_spacing_flags() {
    let with_newline = render2(&gap_seq(Sp::force_newline(one_comment())));
    let with_space = render2(&gap_seq(Sp::with_space(one_comment())));
    let bare = render2(&gap_seq(Sp::from(one_comment())));
    assert_eq!(with_newline, "a # c\nb");
    assert_eq!(with_space, with_newline);
    assert_eq!(bare, with_newline);
}

#[test]
fn comment_replay_keeps_order_and_count() {
    let toks = vec![
        CommentOrNewline::LineComment(String::from(" one")),
        CommentOrNewline::LineComment(String::from(" two")),
        CommentOrNewline::Newline,
        CommentOrNewline::LineComment(String::from(" three")),
    ];
    let out = render2(&gap_seq(Sp::from(toks)));
    assert_eq!(out, "a # one\n# two\n\n# three\nb");
}

#[test]
fn doc_comments_use_double_marker() {
    let toks = vec![CommentOrNewline::DocComment(String::from(" docs"))];
    let out = render2(&gap_seq(Sp::from(toks)));
    assert_eq!(out, "a ## docs\nb");
}

#[test]
fn comment_at_line_start_is_indented_not_spaced() {
    let node = Node::Sequence {
        first: Box::new(lit2("a")),
        extra_indent_for_rest: true,
        rest: vec![(
            Sp::from(vec![CommentOrNewline::Newline, CommentOrNewline::LineComment(String::from(" c"))]),
            lit2("b"),
        )],
    };
    assert_eq!(render2(&node), "a\n    # c\n    b");
}

#[test]
fn literal_is_never_multiline() {
    assert!(!lit2("a").is_multiline());
    assert!(!lit2("").is_multiline());
}

#[test]
fn sequence_multiline_follows_gaps_and_children() {
    assert!(!gap_seq(Sp::space()).is_multiline());
    assert!(gap_seq(Sp::force_newline(Vec::new())).is_multiline());
    assert!(gap_seq(Sp::from(one_comment())).is_multiline());
}

#[test]
fn comment_on_leaf_forces_every_ancestor_multiline() {
    let leaf_gap = |sp: Sp| Node::Sequence {
        first: Box::new(lit2("x")),
        extra_indent_for_rest: false,
        rest: vec![(sp, lit2("y"))],
    };
    let wrap = |inner: Node| Node::DelimitedSequence {
        braces: Braces::Round,
        indent_items: true,
        items: vec![DelimitedItem {
            before: Vec::new(),
            newline: false,
            space: false,
            node: inner,
            comma_after: false,
        }],
        after: Sp::empty(),
    };
    let plain_root = wrap(wrap(leaf_gap(Sp::space())));
    assert!(!plain_root.is_multiline());
    let commented_root = wrap(wrap(leaf_gap(Sp::with_space(one_comment()))));
    assert!(commented_root.is_multiline());
}

#[test]
fn delimited_multiline_follows_items_and_trailer() {
    let plain = Node::DelimitedSequence {
        braces: Braces::Round,
        indent_items: true,
        items: vec![DelimitedItem {
            before: Vec::new(),
            newline: false,
            space: false,
            node: lit2("x"),
            comma_after: false,
        }],
        after: Sp::empty(),
    };
    assert!(!plain.is_multiline());
    let with_trailer = Node::DelimitedSequence {
        braces: Braces::Round,
        indent_items: true,
        items: Vec::new(),
        after: Sp::from(one_comment()),
    };
    assert!(with_trailer.is_multiline());
    let with_item_break = Node::DelimitedSequence {
        braces: Braces::Round,
        indent_items: true,
        items: vec![DelimitedItem {
            before: Vec::new(),
            newline: true,
            space: false,
            node: lit2("x"),
            comma_after: false,
        }],
        after: Sp::empty(),
    };
    assert!(with_item_break.is_multiline());
}

#[test]
fn comma_sequence_multiline_follows_items() {
    let mk = |before: Vec<CommentOrNewline>| Node::CommaSequence {
        allow_blank_lines: true,
        allow_newlines: true,
        indent_rest: false,
        first: Box::new(lit2("a")),
        rest: vec![Item { comma_before: true, before, newline: false, space: false, node: lit2("b") }],
    };
    assert!(!mk(Vec::new()).is_multiline());
    assert!(mk(one_comment()).is_multiline());
}

#[test]
fn buffer_newline_is_idempotent_and_drops_pending_spaces() {
    let mut buf = Buf::new();
    buf.ensure_ends_with_newline();
    assert_eq!(buf.as_str(), "");
    buf.push_str("a");
    buf.space();
    buf.ensure_ends_with_newline();
    buf.ensure_ends_with_newline();
    assert_eq!(buf.as_str(), "a\n");
}

#[test]
fn buffer_ensures_at_most_one_separating_space() {
    let mut buf = Buf::new();
    buf.push_str("a");
    buf.ensure_ends_with_whitespace();
    buf.ensure_ends_with_whitespace();
    buf.push_str("b");
    assert_eq!(buf.as_str(), "a b");
}

#[test]
fn buffer_indent_only_acts_at_line_start() {
    let mut buf = Buf::new();
    buf.indent(2);
    buf.push_str("a");
    buf.indent(6);
    buf.push_str("b");
    assert_eq!(buf.as_str(), "  ab");
    assert_eq!(buf.cur_line_indent(), 2);
    buf.newline();
    buf.indent(4);
    buf.push_str("c");
    assert_eq!(buf.as_str(), "  ab\n    c");
    assert_eq!(buf.cur_line_indent(), 4);
}
