use fmt_layout::buf::Buf;
use fmt_layout::builder::NodeSequenceBuilder;
use fmt_layout::node::Braces;
use fmt_layout::node::DelimitedItem;
use fmt_layout::node::Item;
use fmt_layout::node::Node;
use fmt_layout::prec::Newlines;
use fmt_layout::prec::Parens;
use fmt_layout::spacing::CommentOrNewline;
use fmt_layout::spacing::Sp;

fn lit(s: &str) -> Node {
    Node::Literal(String::from(s))
}

fn render(node: &Node) -> String {
    let mut buf = Buf::new();
    node.format_with_options(&mut buf, Parens::NotNeeded, Newlines::Yes, 0);
    buf.into_text()
}

fn ditem(node: Node, comma_after: bool) -> DelimitedItem {
    DelimitedItem { before: Vec::new(), newline: false, space: false, node, comma_after }
}

#[test]
fn sequence_of_three_literals_renders_with_spaces() {
    let node = Node::Sequence {
        first: Box::new(lit("a")),
        extra_indent_for_rest: false,
        rest: vec![(Sp::space(), lit("b")), (Sp::space(), lit("c"))],
    };
    assert_eq!(render(&node), "a b c");
}

#[test]
fn space_seq_3_renders_with_spaces() {
    let node = Node::space_seq_3(lit("a"), Vec::new(), lit("b"), Vec::new(), lit("c"));
    assert_eq!(render(&node), "a b c");
}

#[test]
fn builder_accumulates_pairs_in_order() {
    let mut b = NodeSequenceBuilder::new(lit("x"), 2, false);
    b.push(Sp::space(), lit("y"));
    b.push(Sp::space(), lit("z"));
    let node = b.build();
    assert_eq!(render(&node), "x y z");
}

#[test]
fn empty_spacing_juxtaposes_tightly() {
    let node = Node::Sequence {
        first: Box::new(lit("a")),
        extra_indent_for_rest: false,
        rest: vec![(Sp::empty(), lit("b"))],
    };
    assert_eq!(render(&node), "ab");
}

#[test]
fn forced_newline_indents_rest_one_unit() {
    let node = Node::Sequence {
        first: Box::new(lit("a")),
        extra_indent_for_rest: true,
        rest: vec![(Sp::force_newline(Vec::new()), lit("b"))],
    };
    assert_eq!(render(&node), "a\n    b");
}

#[test]
fn delimited_sequence_renders_on_one_line() {
    let node = Node::DelimitedSequence {
        braces: Braces::Round,
        indent_items: true,
        items: vec![ditem(lit("x"), true), ditem(lit("y"), false)],
        after: Sp::empty(),
    };
    assert_eq!(render(&node), "(x,y)");
}

#[test]
fn delimited_sequence_breaks_items_onto_indented_lines() {
    let mut item_x = ditem(lit("x"), true);
    item_x.newline = true;
    let mut item_y = ditem(lit("y"), false);
    item_y.newline = true;
    let node = Node::DelimitedSequence {
        braces: Braces::Round,
        indent_items: true,
        items: vec![item_x, item_y],
        after: Sp::force_newline(Vec::new()),
    };
    assert_eq!(render(&node), "(\n    x,\n    y\n)");
}

#[test]
fn square_and_curly_braces_render() {
    let square = Node::DelimitedSequence {
        braces: Braces::Square,
        indent_items: false,
        items: vec![ditem(lit("1"), false)],
        after: Sp::empty(),
    };
    assert_eq!(render(&square), "[1]");
    let curly = Node::DelimitedSequence {
        braces: Braces::Curly,
        indent_items: false,
        items: vec![ditem(lit("f"), false)],
        after: Sp::empty(),
    };
    assert_eq!(render(&curly), "{f}");
}

#[test]
fn empty_delimited_sequence_renders_bare_brackets() {
    let node = Node::DelimitedSequence {
        braces: Braces::Round,
        indent_items: true,
        items: Vec::new(),
        after: Sp::empty(),
    };
    assert_eq!(render(&node), "()");
}

#[test]
fn delimited_item_space_flag_separates() {
    let mut item = ditem(lit("x"), false);
    item.space = true;
    let node = Node::DelimitedSequence {
        braces: Braces::Curly,
        indent_items: false,
        items: vec![item],
        after: Sp::empty(),
    };
    assert_eq!(render(&node), "{ x}");
}

#[test]
fn comma_sequence_collapses_blank_lines_to_one_break() {
    let node = Node::CommaSequence {
        allow_blank_lines: false,
        allow_newlines: true,
        indent_rest: false,
        first: Box::new(lit("a")),
        rest: vec![Item {
            comma_before: true,
            before: vec![
                CommentOrNewline::Newline,
                CommentOrNewline::Newline,
                CommentOrNewline::Newline,
                CommentOrNewline::LineComment(String::from(" note")),
            ],
            newline: false,
            space: false,
            node: lit("b"),
        }],
    };
    assert_eq!(render(&node), "a,\n# note\nb");
}

#[test]
fn comma_sequence_keeps_blank_lines_when_allowed() {
    let node = Node::CommaSequence {
        allow_blank_lines: true,
        allow_newlines: true,
        indent_rest: false,
        first: Box::new(lit("a")),
        rest: vec![Item {
            comma_before: true,
            before: vec![CommentOrNewline::Newline, CommentOrNewline::Newline],
            newline: false,
            space: false,
            node: lit("b"),
        }],
    };
    assert_eq!(render(&node), "a,\n\nb");
}

#[test]
fn comma_sequence_comments_only_drops_line_structure_of_trivia() {
    let node = Node::CommaSequence {
        allow_blank_lines: false,
        allow_newlines: false,
        indent_rest: true,
        first: Box::new(lit("a")),
        rest: vec![Item {
            comma_before: true,
            before: vec![
                CommentOrNewline::Newline,
                CommentOrNewline::LineComment(String::from(" x")),
                CommentOrNewline::Newline,
            ],
            newline: false,
            space: false,
            node: lit("b"),
        }],
    };
    assert_eq!(render(&node), "a, # x\n    b");
}

#[test]
fn rendering_twice_is_byte_identical() {
    let node = Node::DelimitedSequence {
        braces: Braces::Round,
        indent_items: true,
        items: vec![
            DelimitedItem {
                before: vec![CommentOrNewline::LineComment(String::from(" lead"))],
                newline: false,
                space: false,
                node: lit("x"),
                comma_after: true,
            },
            ditem(lit("y"), false),
        ],
        after: Sp::force_newline(Vec::new()),
    };
    let once = render(&node);
    let twice = render(&node);
    assert_eq!(once, twice);
}

#[test]
fn rendering_ignores_precedence_context_and_newline_policy() {
    let node = Node::space_seq_3(lit("f"), Vec::new(), lit("x"), Vec::new(), lit("y"));
    let mut b1 = Buf::new();
    node.format_with_options(&mut b1, Parens::InApply, Newlines::Yes, 0);
    let mut b2 = Buf::new();
    node.format_with_options(&mut b2, Parens::NotNeeded, Newlines::No, 0);
    assert_eq!(b1.into_text(), b2.into_text());
}

#[test]
fn nonzero_indent_moves_first_line() {
    let node = lit("body");
    let mut buf = Buf::new();
    node.format_with_options(&mut buf, Parens::NotNeeded, Newlines::Yes, 8);
    assert_eq!(buf.into_text(), "        body");
}
