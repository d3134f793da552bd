//! The document model and the recursive render engine.
//!
//! A [`Node`] describes how a piece of source text is laid out: a literal
//! run, a left-to-right sequence with a spacing directive in each gap, a
//! bracketed list of items, or a comma-joined list with a configurable
//! policy for the blank lines and line breaks found in each item's leading
//! trivia.  Rendering appends to a [`Buf`] and is specified exactly by the
//! pure functions [`render_m`] and [`node_multiline`].

use vstd::prelude::*;
use crate::buf::Buf;
use crate::buf::BufM;
use crate::buf::buf_indent;
use crate::buf::buf_push_str;
use crate::buf::buf_ensure_newline;
use crate::buf::buf_ensure_space;
use crate::buf::lemma_ensure_newline_extends;
use crate::buf::lemma_ensure_space_extends;
use crate::buf::lemma_extends_refl;
use crate::buf::lemma_extends_trans;
use crate::buf::lemma_indent_extends;
use crate::buf::lemma_push_str_extends;
use crate::buf::text_extends;
use crate::spacing::CommentOrNewline;
use crate::spacing::ReplayMode;
use crate::spacing::Sp;
use crate::spacing::fmt_sp;
use crate::spacing::fmt_comments_only;
use crate::spacing::fmt_sp_m;
use crate::spacing::fmt_spaces;
use crate::spacing::fmt_spaces_no_blank_lines;
use crate::spacing::replay_toks_m;
use crate::spacing::lemma_fmt_sp_extends;
use crate::spacing::lemma_replay_toks_extends;
use crate::spacing::sp_multiline;
use crate::prec::Newlines;
use crate::prec::Parens;

verus! {

broadcast use vstd::std_specs::vec::group_vec_axioms;

/// One indentation unit, in columns.
pub const INDENT: u16 = 4;

/// The bracket pair of a delimited sequence.
#[derive(Debug, Clone, Copy, PartialEq, Eq, Structural)]
pub enum Braces {
    Round,
    Square,
    Curly,
}

/// The opening bracket of each pair.
pub open spec fn braces_open(b: Braces) -> Seq<char> {
    match b {
        Braces::Round => seq!['('],
        Braces::Square => seq!['['],
        Braces::Curly => seq!['{'],
    }
}

/// The closing bracket of each pair.
pub open spec fn braces_close(b: Braces) -> Seq<char> {
    match b {
        Braces::Round => seq![')'],
        Braces::Square => seq![']'],
        Braces::Curly => seq!['}'],
    }
}

impl Braces {
    /// The opening bracket, as text.
    pub fn start_str(&self) -> (s: &'static str)
        ensures
            s@ == braces_open(*self),
    {
        proof {
            reveal_strlit("(");
            reveal_strlit("[");
            reveal_strlit("{");
            assert("("@ =~= braces_open(Braces::Round));
            assert("["@ =~= braces_open(Braces::Square));
            assert("{"@ =~= braces_open(Braces::Curly));
        }
        match self {
            Braces::Round => "(",
            Braces::Square => "[",
            Braces::Curly => "{",
        }
    }

    /// The closing bracket, as text.
    pub fn end_str(&self) -> (s: &'static str)
        ensures
            s@ == braces_close(*self),
    {
        proof {
            reveal_strlit(")");
            reveal_strlit("]");
            reveal_strlit("}");
            assert(")"@ =~= braces_close(Braces::Round));
            assert("]"@ =~= braces_close(Braces::Square));
            assert("}"@ =~= braces_close(Braces::Curly));
        }
        match self {
            Braces::Round => ")",
            Braces::Square => "]",
            Braces::Curly => "}",
        }
    }
}

/// The recursive document model.
#[derive(Debug)]
pub enum Node {
    /// An opaque, pre-rendered run of text; never multiline by itself.
    Literal(String),
    /// `first`, then each of `rest` with its spacing directive in the gap.
    /// With `extra_indent_for_rest` the rest renders one indentation unit
    /// to the right of the column the sequence started at.
    Sequence { first: Box<Node>, extra_indent_for_rest: bool, rest: Vec<(Sp, Node)> },
    /// A bracket pair around a list of items, each with its own leading
    /// trivia and optional separator; `after` is rendered just before the
    /// closing bracket.
    DelimitedSequence { braces: Braces, indent_items: bool, items: Vec<DelimitedItem>, after: Sp },
    /// `first`, then comma-joined items whose leading trivia is honored
    /// under the policy the two `allow_*` flags select.
    CommaSequence {
        allow_blank_lines: bool,
        allow_newlines: bool,
        indent_rest: bool,
        first: Box<Node>,
        rest: Vec<Item>,
    },
}

/// One item of a bracketed sequence.
#[derive(Debug)]
pub struct DelimitedItem {
    /// Trivia replayed before the item.
    pub before: Vec<CommentOrNewline>,
    /// Force a line break before the item.
    pub newline: bool,
    /// Otherwise, force a separating space before the item.
    pub space: bool,
    pub node: Node,
    /// Emit a comma right after the item.
    pub comma_after: bool,
}

/// One item of a comma-joined sequence.
#[derive(Debug)]
pub struct Item {
    /// Emit the separating comma before this item.
    pub comma_before: bool,
    /// Trivia honored before the item, under the sequence's policy.
    pub before: Vec<CommentOrNewline>,
    /// Force a line break before the item.
    pub newline: bool,
    /// Otherwise, force a separating space before the item.
    pub space: bool,
    pub node: Node,
}

/// Whether a gap of a plain sequence can span more than one line.
pub open spec fn pair_multiline(p: (Sp, Node)) -> bool
    decreases p,
{
    sp_multiline(p.0) || node_multiline(p.1)
}

/// A bracketed item spans lines iff it forces a break, carries trivia, or
/// holds a multiline child.
pub open spec fn ditem_multiline(it: DelimitedItem) -> bool
    decreases it,
{
    it.newline || it.before@.len() > 0 || node_multiline(it.node)
}

/// A comma-joined item spans lines iff it forces a break, carries trivia,
/// or holds a multiline child.
pub open spec fn item_multiline(it: Item) -> bool
    decreases it,
{
    it.newline || it.before@.len() > 0 || node_multiline(it.node)
}

/// Whether rendering a node can span more than one line, derived from the
/// node's own structure alone, bottom-up.
pub open spec fn node_multiline(n: Node) -> bool
    decreases n,
{
    match n {
        Node::Literal(_) => false,
        Node::Sequence { first, extra_indent_for_rest: _, rest } => node_multiline(*first)
            || exists|i: int| 0 <= i < rest@.len() && pair_multiline(#[trigger] rest@[i]),
        Node::DelimitedSequence { braces: _, indent_items: _, items, after } => sp_multiline(after)
            || exists|i: int| 0 <= i < items@.len() && ditem_multiline(#[trigger] items@[i]),
        Node::CommaSequence { allow_blank_lines: _, allow_newlines: _, indent_rest: _, first, rest } => node_multiline(
            *first,
        ) || exists|i: int| 0 <= i < rest@.len() && item_multiline(#[trigger] rest@[i]),
    }
}

/// A literal never spans more than one line.
pub proof fn lemma_literal_not_multiline(n: Node)
    requires
        n is Literal,
    ensures
        !node_multiline(n),
{
}

/// A sequence with a single-line first node and only single-line gaps is
/// itself single-line.
pub proof fn lemma_sequence_not_multiline(n: Node)
    requires
        n is Sequence,
        !node_multiline(*n->Sequence_first),
        forall|i: int|
            0 <= i < n->Sequence_rest@.len() ==> !pair_multiline(#[trigger] n->Sequence_rest@[i]),
    ensures
        !node_multiline(n),
{
}

/// A bracketed sequence with a single-line trailing directive and only
/// single-line items is itself single-line.
pub proof fn lemma_delimited_not_multiline(n: Node)
    requires
        n is DelimitedSequence,
        !sp_multiline(n->DelimitedSequence_after),
        forall|i: int|
            0 <= i < n->DelimitedSequence_items@.len() ==> !ditem_multiline(
                #[trigger] n->DelimitedSequence_items@[i],
            ),
    ensures
        !node_multiline(n),
{
}

/// A comma-joined sequence with a single-line first node and only
/// single-line items is itself single-line.
pub proof fn lemma_comma_not_multiline(n: Node)
    requires
        n is CommaSequence,
        !node_multiline(*n->CommaSequence_first),
        forall|i: int|
            0 <= i < n->CommaSequence_rest@.len() ==> !item_multiline(
                #[trigger] n->CommaSequence_rest@[i],
            ),
    ensures
        !node_multiline(n),
{
}

/// A sequence is multiline as soon as its first node is.
pub proof fn lemma_sequence_first_multiline(n: Node)
    requires
        n is Sequence,
        node_multiline(*n->Sequence_first),
    ensures
        node_multiline(n),
{
}

/// A bracketed sequence is multiline as soon as its trailing directive is.
pub proof fn lemma_delimited_after_multiline(n: Node)
    requires
        n is DelimitedSequence,
        sp_multiline(n->DelimitedSequence_after),
    ensures
        node_multiline(n),
{
}

/// A comma-joined sequence is multiline as soon as its first node is.
pub proof fn lemma_comma_first_multiline(n: Node)
    requires
        n is CommaSequence,
        node_multiline(*n->CommaSequence_first),
    ensures
        node_multiline(n),
{
}

/// A sequence is multiline as soon as one of its gaps is.
pub proof fn lemma_sequence_gap_multiline(n: Node, i: int)
    requires
        n is Sequence,
        0 <= i < n->Sequence_rest@.len(),
        pair_multiline(n->Sequence_rest@[i]),
    ensures
        node_multiline(n),
{
}

/// A bracketed sequence is multiline as soon as one of its items is.
pub proof fn lemma_delimited_item_multiline(n: Node, i: int)
    requires
        n is DelimitedSequence,
        0 <= i < n->DelimitedSequence_items@.len(),
        ditem_multiline(n->DelimitedSequence_items@[i]),
    ensures
        node_multiline(n),
{
}

/// A comma-joined sequence is multiline as soon as one of its items is.
pub proof fn lemma_comma_item_multiline(n: Node, i: int)
    requires
        n is CommaSequence,
        0 <= i < n->CommaSequence_rest@.len(),
        item_multiline(n->CommaSequence_rest@[i]),
    ensures
        node_multiline(n),
{
}

impl Node {
    /// Whether rendering this node can span more than one line.
    #[verifier::loop_isolation(false)]
    pub fn is_multiline(&self) -> (r: bool)
        ensures
            r == node_multiline(*self),
        decreases *self,
    {
        match self {
            Node::Literal(_) => {
                proof {
                    lemma_literal_not_multiline(*self);
                }
                false
            },
            Node::Sequence { first, extra_indent_for_rest: _, rest } => {
                if first.is_multiline() {
                    proof {
                        lemma_sequence_first_multiline(*self);
                    }
                    return true;
                }
                let mut i: usize = 0;
                while i < rest.len()
                    invariant
                        i <= rest.len(),
                        forall|j: int| 0 <= j < i ==> !#[trigger] pair_multiline(rest@[j]),
                    decreases rest.len() - i,
                {
                    let p = &rest[i];
                    proof {
                        assert(decreases_to!(*self => *rest));
                        assert(decreases_to!(*rest => rest@[i as int]));
                        assert(decreases_to!(*self => rest@[i as int].1));
                    }
                    if p.0.is_multiline() || p.1.is_multiline() {
                        proof {
                            lemma_sequence_gap_multiline(*self, i as int);
                        }
                        return true;
                    }
                    i = i + 1;
                }
                proof {
                    lemma_sequence_not_multiline(*self);
                }
                false
            },
            Node::DelimitedSequence { braces: _, indent_items: _, items, after } => {
                if after.is_multiline() {
                    proof {
                        lemma_delimited_after_multiline(*self);
                    }
                    return true;
                }
                let mut i: usize = 0;
                while i < items.len()
                    invariant
                        i <= items.len(),
                        forall|j: int| 0 <= j < i ==> !#[trigger] ditem_multiline(items@[j]),
                    decreases items.len() - i,
                {
                    let it = &items[i];
                    proof {
                        assert(decreases_to!(*self => *items));
                        assert(decreases_to!(*items => items@[i as int]));
                        assert(decreases_to!(*self => items@[i as int].node));
                    }
                    if it.newline || it.before.len() > 0 || it.node.is_multiline() {
                        proof {
                            lemma_delimited_item_multiline(*self, i as int);
                        }
                        return true;
                    }
                    i = i + 1;
                }
                proof {
                    lemma_delimited_not_multiline(*self);
                }
                false
            },
            Node::CommaSequence { allow_blank_lines: _, allow_newlines: _, indent_rest: _, first, rest } => {
                if first.is_multiline() {
                    proof {
                        lemma_comma_first_multiline(*self);
                    }
                    return true;
                }
                let mut i: usize = 0;
                while i < rest.len()
                    invariant
                        i <= rest.len(),
                        forall|j: int| 0 <= j < i ==> !#[trigger] item_multiline(rest@[j]),
                    decreases rest.len() - i,
                {
                    let it = &rest[i];
                    proof {
                        assert(decreases_to!(*self => *rest));
                        assert(decreases_to!(*rest => rest@[i as int]));
                        assert(decreases_to!(*self => rest@[i as int].node));
                    }
                    if it.newline || it.before.len() > 0 || it.node.is_multiline() {
                        proof {
                            lemma_comma_item_multiline(*self, i as int);
                        }
                        return true;
                    }
                    i = i + 1;
                }
                proof {
                    lemma_comma_not_multiline(*self);
                }
                false
            },
        }
    }
}

/// The comma separator.
pub open spec fn comma_seq() -> Seq<char> {
    seq![',']
}

/// One indentation unit further right, capped only at the machine limit.
pub open spec fn bump_indent_m(i: u16) -> u16 {
    if i + INDENT <= u16::MAX {
        (i + INDENT) as u16
    } else {
        u16::MAX
    }
}

/// One indentation unit further right, capped only at the machine limit.
pub fn bump_indent(i: u16) -> (r: u16)
    ensures
        r == bump_indent_m(i),
{
    if i <= u16::MAX - INDENT {
        i + INDENT
    } else {
        u16::MAX
    }
}

/// Effect of rendering a node at `indent` on a buffer in state `m`.
///
/// This is the exact mathematical mirror of [`Node::format_with_options`];
/// note that it depends on nothing but the node, the starting buffer state
/// and the indentation.
pub open spec fn render_m(n: Node, m: BufM, indent: u16) -> BufM
    decreases n, 0int,
{
    match n {
        Node::Literal(text) => buf_push_str(buf_indent(m, indent), text@),
        Node::Sequence { first, extra_indent_for_rest, rest } => {
            let m1 = buf_indent(m, indent);
            let cur = m1.cur_indent;
            let m2 = render_m(*first, m1, indent);
            let next = if extra_indent_for_rest {
                bump_indent_m(cur)
            } else {
                indent
            };
            render_pairs_m(rest@, rest@.len() as int, m2, next)
        },
        Node::DelimitedSequence { braces, indent_items, items, after } => {
            let m1 = buf_push_str(buf_indent(m, indent), braces_open(braces));
            let inner = if indent_items {
                bump_indent_m(indent)
            } else {
                indent
            };
            let m2 = render_ditems_m(items@, items@.len() as int, m1, inner);
            let m3 = fmt_sp_m(m2, after, inner);
            buf_push_str(buf_indent(m3, indent), braces_close(braces))
        },
        Node::CommaSequence { allow_blank_lines, allow_newlines, indent_rest, first, rest } => {
            let m1 = buf_indent(m, indent);
            let inner = if indent_rest {
                bump_indent_m(indent)
            } else {
                indent
            };
            let m2 = render_m(*first, m1, indent);
            render_items_m(rest@, rest@.len() as int, m2, indent, inner, allow_blank_lines, allow_newlines)
        },
    }
}

/// Effect of rendering the first `k` gaps of a plain sequence.
pub open spec fn render_pairs_m(ps: Seq<(Sp, Node)>, k: int, m: BufM, indent: u16) -> BufM
    decreases ps, k,
{
    if 1 <= k && k <= ps.len() {
        let m1 = render_pairs_m(ps, k - 1, m, indent);
        render_m(ps[k - 1].1, fmt_sp_m(m1, ps[k - 1].0, indent), indent)
    } else {
        m
    }
}

/// Effect of rendering one bracketed item: its leading trivia, its forced
/// break or space, the node itself, and its optional trailing comma.
pub open spec fn render_ditem_m(it: DelimitedItem, m: BufM, inner: u16) -> BufM
    decreases it, 0int,
{
    let m1 = replay_toks_m(m, it.before@, inner, ReplayMode::WithBlankLines);
    let m2 = if it.newline {
        buf_ensure_newline(m1)
    } else if it.space {
        buf_ensure_space(m1)
    } else {
        m1
    };
    let m3 = render_m(it.node, m2, inner);
    if it.comma_after {
        buf_push_str(m3, comma_seq())
    } else {
        m3
    }
}

/// Effect of rendering the first `k` items of a bracketed sequence.
pub open spec fn render_ditems_m(items: Seq<DelimitedItem>, k: int, m: BufM, inner: u16) -> BufM
    decreases items, k,
{
    if 1 <= k && k <= items.len() {
        render_ditem_m(items[k - 1], render_ditems_m(items, k - 1, m, inner), inner)
    } else {
        m
    }
}

/// Effect of rendering one comma-joined item: its separator, its leading
/// trivia under the sequence's policy, its forced break or space, and the
/// node itself.
pub open spec fn render_item_m(
    it: Item,
    m: BufM,
    indent: u16,
    inner: u16,
    allow_blank_lines: bool,
    allow_newlines: bool,
) -> BufM
    decreases it, 0int,
{
    let m1 = if it.comma_before {
        buf_push_str(m, comma_seq())
    } else {
        m
    };
    let m2 = if allow_blank_lines {
        replay_toks_m(m1, it.before@, indent, ReplayMode::WithBlankLines)
    } else if allow_newlines {
        replay_toks_m(m1, it.before@, inner, ReplayMode::NoBlankLines)
    } else {
        replay_toks_m(m1, it.before@, inner, ReplayMode::CommentsOnly)
    };
    let m3 = if it.newline {
        buf_ensure_newline(m2)
    } else if it.space {
        buf_ensure_space(m2)
    } else {
        m2
    };
    render_m(it.node, m3, inner)
}

/// Effect of rendering the first `k` items of a comma-joined sequence.
pub open spec fn render_items_m(
    items: Seq<Item>,
    k: int,
    m: BufM,
    indent: u16,
    inner: u16,
    allow_blank_lines: bool,
    allow_newlines: bool,
) -> BufM
    decreases items, k,
{
    if 1 <= k && k <= items.len() {
        render_item_m(
            items[k - 1],
            render_items_m(items, k - 1, m, indent, inner, allow_blank_lines, allow_newlines),
            indent,
            inner,
            allow_blank_lines,
            allow_newlines,
        )
    } else {
        m
    }
}

impl Node {
    /// Render this node at `indent`, appending to `buf`.
    ///
    /// The precedence context and newline policy are accepted for the
    /// benefit of callers that thread them through a whole tree; as the
    /// contract shows, what is emitted does not depend on them.
    #[verifier::loop_isolation(false)]
    pub fn format_with_options(&self, buf: &mut Buf, parens: Parens, newlines: Newlines, indent: u16)
        ensures
            final(buf)@ == render_m(*self, old(buf)@, indent),
        decreases *self,
    {
        match self {
            Node::Literal(text) => {
                buf.indent(indent);
                buf.push_str(text.as_str());
            },
            Node::Sequence { first, extra_indent_for_rest, rest } => {
                buf.indent(indent);
                let cur_indent = buf.cur_line_indent();
                first.format_with_options(buf, parens, newlines, indent);
                let next_indent = if *extra_indent_for_rest {
                    bump_indent(cur_indent)
                } else {
                    indent
                };
                let ghost m2 = buf@;
                let mut i: usize = 0;
                while i < rest.len()
                    invariant
                        i <= rest.len(),
                        buf@ == render_pairs_m(rest@, i as int, m2, next_indent),
                    decreases rest.len() - i,
                {
                    let p = &rest[i];
                    proof {
                        assert(decreases_to!(*self => *rest));
                        assert(decreases_to!(*rest => rest@[i as int]));
                    }
                    fmt_sp(buf, &p.0, next_indent);
                    p.1.format_with_options(buf, parens, newlines, next_indent);
                    i = i + 1;
                }
            },
            Node::DelimitedSequence { braces, indent_items, items, after } => {
                buf.indent(indent);
                buf.push_str(braces.start_str());
                let inner_indent = if *indent_items {
                    bump_indent(indent)
                } else {
                    indent
                };
                let ghost m1 = buf@;
                let mut i: usize = 0;
                while i < items.len()
                    invariant
                        i <= items.len(),
                        buf@ == render_ditems_m(items@, i as int, m1, inner_indent),
                    decreases items.len() - i,
                {
                    let it = &items[i];
                    let ghost m_at = buf@;
                    proof {
                        assert(decreases_to!(*self => *items));
                        assert(decreases_to!(*items => items@[i as int]));
                    }
                    fmt_spaces(buf, &it.before, inner_indent);
                    if it.newline {
                        buf.ensure_ends_with_newline();
                    } else if it.space {
                        buf.ensure_ends_with_whitespace();
                    }
                    it.node.format_with_options(buf, parens, newlines, inner_indent);
                    if it.comma_after {
                        buf.push_str(",");
                        proof {
                            reveal_strlit(",");
                            assert(","@ =~= comma_seq());
                        }
                    }
                    proof {
                        assert(buf@ == render_ditem_m(items@[i as int], m_at, inner_indent));
                        assert(render_ditems_m(items@, i as int + 1, m1, inner_indent)
                            == render_ditem_m(
                            items@[i as int],
                            render_ditems_m(items@, i as int, m1, inner_indent),
                            inner_indent,
                        ));
                    }
                    i = i + 1;
                }
                fmt_sp(buf, after, inner_indent);
                buf.indent(indent);
                buf.push_str(braces.end_str());
            },
            Node::CommaSequence { allow_blank_lines, allow_newlines, indent_rest, first, rest } => {
                buf.indent(indent);
                let inner_indent = if *indent_rest {
                    bump_indent(indent)
                } else {
                    indent
                };
                first.format_with_options(buf, parens, newlines, indent);
                let ghost m2 = buf@;
                let mut i: usize = 0;
                while i < rest.len()
                    invariant
                        i <= rest.len(),
                        buf@ == render_items_m(
                            rest@,
                            i as int,
                            m2,
                            indent,
                            inner_indent,
                            *allow_blank_lines,
                            *allow_newlines,
                        ),
                    decreases rest.len() - i,
                {
                    let it = &rest[i];
                    let ghost m_at = buf@;
                    proof {
                        assert(decreases_to!(*self => *rest));
                        assert(decreases_to!(*rest => rest@[i as int]));
                    }
                    if it.comma_before {
                        buf.push_str(",");
                        proof {
                            reveal_strlit(",");
                            assert(","@ =~= comma_seq());
                        }
                    }
                    if *allow_blank_lines {
                        fmt_spaces(buf, &it.before, indent);
                    } else if *allow_newlines {
                        fmt_spaces_no_blank_lines(buf, &it.before, inner_indent);
                    } else {
                        fmt_comments_only(buf, &it.before, inner_indent);
                    }
                    if it.newline {
                        buf.ensure_ends_with_newline();
                    } else if it.space {
                        buf.ensure_ends_with_whitespace();
                    }
                    it.node.format_with_options(buf, parens, newlines, inner_indent);
                    proof {
                        assert(buf@ == render_item_m(
                            rest@[i as int],
                            m_at,
                            indent,
                            inner_indent,
                            *allow_blank_lines,
                            *allow_newlines,
                        ));
                        assert(render_items_m(
                            rest@,
                            i as int + 1,
                            m2,
                            indent,
                            inner_indent,
                            *allow_blank_lines,
                            *allow_newlines,
                        ) == render_item_m(
                            rest@[i as int],
                            render_items_m(
                                rest@,
                                i as int,
                                m2,
                                indent,
                                inner_indent,
                                *allow_blank_lines,
                                *allow_newlines,
                            ),
                            indent,
                            inner_indent,
                            *allow_blank_lines,
                            *allow_newlines,
                        ));
                    }
                    i = i + 1;
                }
            },
        }
    }
}

impl Node {
    /// Three nodes joined by two spacing gaps (each a space unless its
    /// trivia dominates), with everything after the first node indented
    /// one unit to the right of the sequence's column.
    pub fn space_seq_3(
        a: Node,
        b_sp: Vec<CommentOrNewline>,
        c: Node,
        d_sp: Vec<CommentOrNewline>,
        e: Node,
    ) -> (r: Node)
        ensures
            r is Sequence,
            *r->Sequence_first == a,
            r->Sequence_extra_indent_for_rest == true,
            r->Sequence_rest@.len() == 2,
            r->Sequence_rest@[0].0.default_space,
            !r->Sequence_rest@[0].0.force_newline,
            r->Sequence_rest@[0].0.comments@ == b_sp@,
            r->Sequence_rest@[0].1 == c,
            r->Sequence_rest@[1].0.default_space,
            !r->Sequence_rest@[1].0.force_newline,
            r->Sequence_rest@[1].0.comments@ == d_sp@,
            r->Sequence_rest@[1].1 == e,
    {
        let mut rest: Vec<(Sp, Node)> = Vec::new();
        rest.push((Sp::with_space(b_sp), c));
        rest.push((Sp::with_space(d_sp), e));
        Node::Sequence { first: Box::new(a), extra_indent_for_rest: true, rest }
    }
}

/// Whether `c` is one of the nodes directly embedded in `p`.
pub open spec fn direct_child(p: Node, c: Node) -> bool {
    match p {
        Node::Literal(_) => false,
        Node::Sequence { first, extra_indent_for_rest: _, rest } => c == *first || exists|i: int|
            0 <= i < rest@.len() && (#[trigger] rest@[i]).1 == c,
        Node::DelimitedSequence { braces: _, indent_items: _, items, after: _ } => exists|i: int|
            0 <= i < items@.len() && (#[trigger] items@[i]).node == c,
        Node::CommaSequence {
            allow_blank_lines: _,
            allow_newlines: _,
            indent_rest: _,
            first,
            rest,
        } => c == *first || exists|i: int| 0 <= i < rest@.len() && (#[trigger] rest@[i]).node == c,
    }
}

/// A direct child stands structurally below its parent.
pub proof fn lemma_direct_child_decreases(p: Node, c: Node)
    requires
        direct_child(p, c),
    ensures
        decreases_to!(p => c),
{
    match p {
        Node::Literal(_) => {
        },
        Node::Sequence { first, extra_indent_for_rest: _, rest } => {
            if c == *first {
                assert(decreases_to!(p => *first));
            } else {
                let i = choose|i: int| 0 <= i < rest@.len() && (#[trigger] rest@[i]).1 == c;
                assert(decreases_to!(p => rest));
                assert(decreases_to!(rest => rest@[i]));
                assert(decreases_to!(p => rest@[i].1));
            }
        },
        Node::DelimitedSequence { braces: _, indent_items: _, items, after: _ } => {
            let i = choose|i: int| 0 <= i < items@.len() && (#[trigger] items@[i]).node == c;
            assert(decreases_to!(p => items));
            assert(decreases_to!(items => items@[i]));
            assert(decreases_to!(p => items@[i].node));
        },
        Node::CommaSequence {
            allow_blank_lines: _,
            allow_newlines: _,
            indent_rest: _,
            first,
            rest,
        } => {
            if c == *first {
                assert(decreases_to!(p => *first));
            } else {
                let i = choose|i: int| 0 <= i < rest@.len() && (#[trigger] rest@[i]).node == c;
                assert(decreases_to!(p => rest));
                assert(decreases_to!(rest => rest@[i]));
                assert(decreases_to!(p => rest@[i].node));
            }
        },
    }
}

/// Whether `c` is `p` itself or stands somewhere below it.
pub open spec fn descendant(p: Node, c: Node) -> bool
    decreases p,
    via descendant_decreases
{
    c == p || exists|d: Node| #[trigger] direct_child(p, d) && descendant(d, c)
}

#[via_fn]
proof fn descendant_decreases(p: Node, c: Node) {
    assert forall|d: Node| direct_child(p, d) implies decreases_to!(p => d) by {
        lemma_direct_child_decreases(p, d);
    }
}

/// A multiline node makes its parent multiline, whichever position it
/// stands in.
pub proof fn lemma_child_multiline(p: Node, c: Node)
    requires
        direct_child(p, c),
        node_multiline(c),
    ensures
        node_multiline(p),
{
    match p {
        Node::Literal(_) => {
        },
        Node::Sequence { first, extra_indent_for_rest: _, rest } => {
            if c == *first {
                lemma_sequence_first_multiline(p);
            } else {
                let i = choose|i: int| 0 <= i < rest@.len() && (#[trigger] rest@[i]).1 == c;
                assert(pair_multiline(rest@[i]));
                lemma_sequence_gap_multiline(p, i);
            }
        },
        Node::DelimitedSequence { braces: _, indent_items: _, items, after: _ } => {
            let i = choose|i: int| 0 <= i < items@.len() && (#[trigger] items@[i]).node == c;
            assert(ditem_multiline(items@[i]));
            lemma_delimited_item_multiline(p, i);
        },
        Node::CommaSequence {
            allow_blank_lines: _,
            allow_newlines: _,
            indent_rest: _,
            first,
            rest,
        } => {
            if c == *first {
                lemma_comma_first_multiline(p);
            } else {
                let i = choose|i: int| 0 <= i < rest@.len() && (#[trigger] rest@[i]).node == c;
                assert(item_multiline(rest@[i]));
                lemma_comma_item_multiline(p, i);
            }
        },
    }
}

/// Multiline propagation is monotone: anything that makes a node
/// multiline (a comment added to a leaf's trivia, a forced break) makes
/// every ancestor up to the root multiline too.
pub proof fn lemma_multiline_monotone(root: Node, d: Node)
    requires
        descendant(root, d),
        node_multiline(d),
    ensures
        node_multiline(root),
    decreases root,
{
    if d != root {
        let mid = choose|mid: Node| #[trigger] direct_child(root, mid) && descendant(mid, d);
        lemma_direct_child_decreases(root, mid);
        lemma_multiline_monotone(mid, d);
        lemma_child_multiline(root, mid);
    }
}

/// Rendering only ever appends: whatever the buffer held before a render
/// is still there, unchanged, as a prefix of what it holds afterwards.
pub proof fn lemma_render_extends(n: Node, m: BufM, indent: u16)
    ensures
        text_extends(render_m(n, m, indent), m),
    decreases n, 0int,
{
    match n {
        Node::Literal(text) => {
            let m1 = buf_indent(m, indent);
            lemma_indent_extends(m, indent);
            lemma_push_str_extends(m1, text@);
            lemma_extends_trans(buf_push_str(m1, text@), m1, m);
        },
        Node::Sequence { first, extra_indent_for_rest, rest } => {
            assert(decreases_to!(n => rest));
            assert(decreases_to!(rest => rest@));
            let m1 = buf_indent(m, indent);
            let m2 = render_m(*first, m1, indent);
            let next = if extra_indent_for_rest {
                bump_indent_m(m1.cur_indent)
            } else {
                indent
            };
            lemma_indent_extends(m, indent);
            lemma_render_extends(*first, m1, indent);
            lemma_render_pairs_extends(rest@, rest@.len() as int, m2, next);
            lemma_extends_trans(m2, m1, m);
            lemma_extends_trans(render_pairs_m(rest@, rest@.len() as int, m2, next), m2, m);
        },
        Node::DelimitedSequence { braces, indent_items, items, after } => {
            assert(decreases_to!(n => items));
            assert(decreases_to!(items => items@));
            let ma = buf_indent(m, indent);
            let m1 = buf_push_str(ma, braces_open(braces));
            let inner = if indent_items {
                bump_indent_m(indent)
            } else {
                indent
            };
            let m2 = render_ditems_m(items@, items@.len() as int, m1, inner);
            let m3 = fmt_sp_m(m2, after, inner);
            let m4 = buf_indent(m3, indent);
            lemma_indent_extends(m, indent);
            lemma_push_str_extends(ma, braces_open(braces));
            lemma_render_ditems_extends(items@, items@.len() as int, m1, inner);
            lemma_fmt_sp_extends(m2, after, inner);
            lemma_indent_extends(m3, indent);
            lemma_push_str_extends(m4, braces_close(braces));
            lemma_extends_trans(m1, ma, m);
            lemma_extends_trans(m2, m1, m);
            lemma_extends_trans(m3, m2, m);
            lemma_extends_trans(m4, m3, m);
            lemma_extends_trans(buf_push_str(m4, braces_close(braces)), m4, m);
        },
        Node::CommaSequence { allow_blank_lines, allow_newlines, indent_rest, first, rest } => {
            assert(decreases_to!(n => rest));
            assert(decreases_to!(rest => rest@));
            let m1 = buf_indent(m, indent);
            let inner = if indent_rest {
                bump_indent_m(indent)
            } else {
                indent
            };
            let m2 = render_m(*first, m1, indent);
            lemma_indent_extends(m, indent);
            lemma_render_extends(*first, m1, indent);
            lemma_render_items_extends(
                rest@,
                rest@.len() as int,
                m2,
                indent,
                inner,
                allow_blank_lines,
                allow_newlines,
            );
            lemma_extends_trans(m2, m1, m);
            lemma_extends_trans(
                render_items_m(
                    rest@,
                    rest@.len() as int,
                    m2,
                    indent,
                    inner,
                    allow_blank_lines,
                    allow_newlines,
                ),
                m2,
                m,
            );
        },
    }
}

/// Rendering a prefix of a sequence's gaps only appends.
pub proof fn lemma_render_pairs_extends(ps: Seq<(Sp, Node)>, k: int, m: BufM, indent: u16)
    ensures
        text_extends(render_pairs_m(ps, k, m, indent), m),
    decreases ps, k,
{
    if 1 <= k && k <= ps.len() {
        assert(decreases_to!(ps => ps[k - 1]));
        let m1 = render_pairs_m(ps, k - 1, m, indent);
        let m2 = fmt_sp_m(m1, ps[k - 1].0, indent);
        lemma_render_pairs_extends(ps, k - 1, m, indent);
        lemma_fmt_sp_extends(m1, ps[k - 1].0, indent);
        lemma_render_extends(ps[k - 1].1, m2, indent);
        lemma_extends_trans(m2, m1, m);
        lemma_extends_trans(render_m(ps[k - 1].1, m2, indent), m2, m);
    } else {
        lemma_extends_refl(m);
    }
}

/// Rendering one bracketed item only appends.
pub proof fn lemma_render_ditem_extends(it: DelimitedItem, m: BufM, inner: u16)
    ensures
        text_extends(render_ditem_m(it, m, inner), m),
    decreases it, 0int,
{
    let m1 = replay_toks_m(m, it.before@, inner, ReplayMode::WithBlankLines);
    let m2 = if it.newline {
        buf_ensure_newline(m1)
    } else if it.space {
        buf_ensure_space(m1)
    } else {
        m1
    };
    let m3 = render_m(it.node, m2, inner);
    lemma_replay_toks_extends(m, it.before@, inner, ReplayMode::WithBlankLines);
    if it.newline {
        lemma_ensure_newline_extends(m1);
    } else if it.space {
        lemma_ensure_space_extends(m1);
    } else {
        lemma_extends_refl(m1);
    }
    lemma_render_extends(it.node, m2, inner);
    lemma_extends_trans(m2, m1, m);
    lemma_extends_trans(m3, m2, m);
    if it.comma_after {
        lemma_push_str_extends(m3, comma_seq());
        lemma_extends_trans(buf_push_str(m3, comma_seq()), m3, m);
    }
}

/// Rendering a prefix of a bracketed sequence's items only appends.
pub proof fn lemma_render_ditems_extends(items: Seq<DelimitedItem>, k: int, m: BufM, inner: u16)
    ensures
        text_extends(render_ditems_m(items, k, m, inner), m),
    decreases items, k,
{
    if 1 <= k && k <= items.len() {
        assert(decreases_to!(items => items[k - 1]));
        let m1 = render_ditems_m(items, k - 1, m, inner);
        lemma_render_ditems_extends(items, k - 1, m, inner);
        lemma_render_ditem_extends(items[k - 1], m1, inner);
        lemma_extends_trans(render_ditem_m(items[k - 1], m1, inner), m1, m);
    } else {
        lemma_extends_refl(m);
    }
}

/// Rendering one comma-joined item only appends.
pub proof fn lemma_render_item_extends(
    it: Item,
    m: BufM,
    indent: u16,
    inner: u16,
    allow_blank_lines: bool,
    allow_newlines: bool,
)
    ensures
        text_extends(render_item_m(it, m, indent, inner, allow_blank_lines, allow_newlines), m),
    decreases it, 0int,
{
    let m1 = if it.comma_before {
        buf_push_str(m, comma_seq())
    } else {
        m
    };
    let m2 = if allow_blank_lines {
        replay_toks_m(m1, it.before@, indent, ReplayMode::WithBlankLines)
    } else if allow_newlines {
        replay_toks_m(m1, it.before@, inner, ReplayMode::NoBlankLines)
    } else {
        replay_toks_m(m1, it.before@, inner, ReplayMode::CommentsOnly)
    };
    let m3 = if it.newline {
        buf_ensure_newline(m2)
    } else if it.space {
        buf_ensure_space(m2)
    } else {
        m2
    };
    if it.comma_before {
        lemma_push_str_extends(m, comma_seq());
    } else {
        lemma_extends_refl(m);
    }
    if allow_blank_lines {
        lemma_replay_toks_extends(m1, it.before@, indent, ReplayMode::WithBlankLines);
    } else if allow_newlines {
        lemma_replay_toks_extends(m1, it.before@, inner, ReplayMode::NoBlankLines);
    } else {
        lemma_replay_toks_extends(m1, it.before@, inner, ReplayMode::CommentsOnly);
    }
    if it.newline {
        lemma_ensure_newline_extends(m2);
    } else if it.space {
        lemma_ensure_space_extends(m2);
    } else {
        lemma_extends_refl(m2);
    }
    lemma_render_extends(it.node, m3, inner);
    lemma_extends_trans(m2, m1, m);
    lemma_extends_trans(m3, m2, m);
    lemma_extends_trans(render_m(it.node, m3, inner), m3, m);
}

/// Rendering a prefix of a comma-joined sequence's items only appends.
pub proof fn lemma_render_items_extends(
    items: Seq<Item>,
    k: int,
    m: BufM,
    indent: u16,
    inner: u16,
    allow_blank_lines: bool,
    allow_newlines: bool,
)
    ensures
        text_extends(
            render_items_m(items, k, m, indent, inner, allow_blank_lines, allow_newlines),
            m,
        ),
    decreases items, k,
{
    if 1 <= k && k <= items.len() {
        assert(decreases_to!(items => items[k - 1]));
        let m1 = render_items_m(items, k - 1, m, indent, inner, allow_blank_lines, allow_newlines);
        lemma_render_items_extends(items, k - 1, m, indent, inner, allow_blank_lines, allow_newlines);
        lemma_render_item_extends(items[k - 1], m1, indent, inner, allow_blank_lines, allow_newlines);
        lemma_extends_trans(
            render_item_m(items[k - 1], m1, indent, inner, allow_blank_lines, allow_newlines),
            m1,
            m,
        );
    } else {
        lemma_extends_refl(m);
    }
}

/// Rendering is deterministic: what a render appends is a function of the
/// tree, the starting buffer state and the indentation alone, so the same
/// tree rendered twice from equal states yields byte-identical text.
pub proof fn lemma_render_deterministic(n: Node, m1: BufM, m2: BufM, indent: u16)
    requires
        m1 == m2,
    ensures
        render_m(n, m1, indent) == render_m(n, m2, indent),
{
}

} // verus!
