//! The precedence lattice and minimal parenthesization.
//!
//! Every syntactic context a node can be substituted into maps onto one
//! level of a small total order, [`Prec`].  A node placed into a context
//! keeps its shape exactly when its own precedence is strictly below the
//! context's level; otherwise it is wrapped in round brackets and the
//! wrapped group binds as tightly as a literal term.

use vstd::prelude::*;
use crate::node::Braces;
use crate::node::DelimitedItem;
use crate::node::Node;
use crate::spacing::CommentOrNewline;
use crate::spacing::Sp;

verus! {

/// The precedence class of a node, from tightest to loosest binding.
#[derive(Debug, Clone, Copy, PartialEq, Eq, PartialOrd, Ord, Structural)]
pub enum Prec {
    Term,
    Apply,
    AsType,
    FunctionType,
    Outer,
}

/// The syntactic context a node is being substituted into.
#[derive(Debug, Clone, Copy, PartialEq, Eq, Structural)]
pub enum Parens {
    NotNeeded,
    InClosurePattern,
    InApply,
    InApplyLastArg,
    InCollection,
    InFunctionType,
    InOperator,
    InAsPattern,
}

/// The newline policy threaded through a render pass.
#[derive(Debug, Clone, Copy, PartialEq, Eq, Structural)]
pub enum Newlines {
    Yes,
    No,
}

/// The position of each precedence class in the total order.
pub open spec fn prec_level(p: Prec) -> int {
    match p {
        Prec::Term => 0,
        Prec::Apply => 1,
        Prec::AsType => 2,
        Prec::FunctionType => 3,
        Prec::Outer => 4,
    }
}

/// The fixed mapping from a syntactic context to the precedence level a
/// node must bind strictly tighter than to escape parenthesization.
pub open spec fn parens_prec(parens: Parens) -> Prec {
    match parens {
        Parens::NotNeeded => Prec::Outer,
        Parens::InClosurePattern => Prec::Outer,
        Parens::InApply => Prec::Apply,
        Parens::InApplyLastArg => Prec::Apply,
        Parens::InCollection => Prec::FunctionType,
        Parens::InFunctionType => Prec::FunctionType,
        Parens::InOperator => Prec::FunctionType,
        Parens::InAsPattern => Prec::AsType,
    }
}

/// Whether a node of precedence `p` must be parenthesized in context
/// `parens`: the comparison is strict, so equal precedence wraps.
pub open spec fn needs_parens(p: Prec, parens: Parens) -> bool {
    !(prec_level(p) < prec_level(parens_prec(parens)))
}

impl From<Parens> for Prec {
    /// The fixed context-to-level table.
    fn from(parens: Parens) -> (r: Prec) {
        match parens {
            Parens::NotNeeded => Prec::Outer,
            Parens::InClosurePattern => Prec::Outer,
            Parens::InApply => Prec::Apply,
            Parens::InApplyLastArg => Prec::Apply,
            Parens::InCollection => Prec::FunctionType,
            Parens::InFunctionType => Prec::FunctionType,
            Parens::InOperator => Prec::FunctionType,
            Parens::InAsPattern => Prec::AsType,
        }
    }
}

impl vstd::std_specs::convert::FromSpecImpl<Parens> for Prec {
    open spec fn obeys_from_spec() -> bool {
        true
    }

    open spec fn from_spec(parens: Parens) -> Prec {
        parens_prec(parens)
    }
}

/// The position of this precedence class in the total order.
fn prec_level_exec(p: Prec) -> (r: u8)
    ensures
        r as int == prec_level(p),
{
    match p {
        Prec::Term => 0,
        Prec::Apply => 1,
        Prec::AsType => 2,
        Prec::FunctionType => 3,
        Prec::Outer => 4,
    }
}

/// A node with the trivia around it, its precedence class, and whether it
/// asks to be indented when embedded.
#[derive(Debug)]
pub struct NodeInfo {
    /// Trivia rendered before the node.
    pub before: Vec<CommentOrNewline>,
    pub node: Node,
    /// Trivia rendered after the node.
    pub after: Vec<CommentOrNewline>,
    pub needs_indent: bool,
    pub prec: Prec,
}

/// What wrapping `item` in round brackets yields: the brackets hold
/// exactly the original node as their single item, the group binds as
/// tightly as a literal term, and the leading trivia either stays with
/// the group (`allow_space_before`) or is pinned inside the brackets.
pub open spec fn is_parens_around(r: NodeInfo, item: NodeInfo, allow_space_before: bool) -> bool {
    &&& r.before@ == (if allow_space_before {
        item.before@
    } else {
        Seq::<CommentOrNewline>::empty()
    })
    &&& r.node is DelimitedSequence
    &&& r.node->DelimitedSequence_braces == Braces::Round
    &&& r.node->DelimitedSequence_indent_items == true
    &&& r.node->DelimitedSequence_items@.len() == 1
    &&& r.node->DelimitedSequence_items@[0].before@ == (if allow_space_before {
        Seq::<CommentOrNewline>::empty()
    } else {
        item.before@
    })
    &&& r.node->DelimitedSequence_items@[0].newline == false
    &&& r.node->DelimitedSequence_items@[0].space == false
    &&& r.node->DelimitedSequence_items@[0].node == item.node
    &&& r.node->DelimitedSequence_items@[0].comma_after == false
    &&& !r.node->DelimitedSequence_after.default_space
    &&& !r.node->DelimitedSequence_after.force_newline
    &&& r.node->DelimitedSequence_after.comments@.len() == 0
    &&& r.after@ == item.after@
    &&& r.needs_indent == true
    &&& r.prec == Prec::Term
}

/// Wrap `item` in round brackets.  The leading trivia migrates outside
/// the new group when `allow_space_before` is set, matching where a
/// re-parse of the output would attach it; this is a fixed compatibility
/// rule, not a choice renderers may revisit.
pub fn parens_around_node(item: NodeInfo, allow_space_before: bool) -> (r: NodeInfo)
    ensures
        is_parens_around(r, item, allow_space_before),
{
    let mut items: Vec<DelimitedItem> = Vec::new();
    let mut inner_before: Vec<CommentOrNewline> = Vec::new();
    let mut outer_before: Vec<CommentOrNewline> = Vec::new();
    if allow_space_before {
        outer_before = item.before;
    } else {
        inner_before = item.before;
    }
    items.push(
        DelimitedItem {
            before: inner_before,
            node: item.node,
            newline: false,
            space: false,
            comma_after: false,
        },
    );
    NodeInfo {
        before: outer_before,
        node: Node::DelimitedSequence {
            braces: Braces::Round,
            indent_items: true,
            items,
            after: Sp::empty(),
        },
        after: item.after,
        needs_indent: true,
        prec: Prec::Term,
    }
}

impl NodeInfo {
    /// A bare node: no surrounding trivia, indentable, binding as a term.
    pub fn item(text: Node) -> (r: NodeInfo)
        ensures
            r.before@.len() == 0,
            r.node == text,
            r.after@.len() == 0,
            r.needs_indent == true,
            r.prec == Prec::Term,
    {
        NodeInfo {
            before: Vec::new(),
            node: text,
            after: Vec::new(),
            needs_indent: true,
            prec: Prec::Term,
        }
    }

    /// Embed this node in the given context: unchanged when it binds
    /// strictly tighter than the context demands, wrapped in round
    /// brackets otherwise.
    pub fn add_parens(self, parens: Parens) -> (r: NodeInfo)
        ensures
            !needs_parens(self.prec, parens) ==> r == self,
            needs_parens(self.prec, parens) ==> is_parens_around(r, self, true),
    {
        if prec_level_exec(self.prec) < prec_level_exec(Prec::from(parens)) {
            self
        } else {
            parens_around_node(self, true)
        }
    }

    /// Embed this node in a type-extension position: wrapped whenever it
    /// binds less tightly than a term or carries any leading trivia, so
    /// that even comment-bearing low-precedence nodes are isolated.
    pub fn add_ty_ext_parens(self) -> (r: NodeInfo)
        ensures
            (self.prec == Prec::Term && self.before@.len() == 0) ==> r == self,
            !(self.prec == Prec::Term && self.before@.len() == 0) ==> is_parens_around(
                r,
                self,
                false,
            ),
    {
        if prec_level_exec(self.prec) <= prec_level_exec(Prec::Term) && self.before.len() == 0 {
            self
        } else {
            parens_around_node(self, false)
        }
    }
}

/// A term is never parenthesized: no context maps to the `Term` level,
/// so a term always binds strictly tighter than its context demands.
pub proof fn lemma_term_never_parenthesized(parens: Parens)
    ensures
        !needs_parens(Prec::Term, parens),
{
}

/// Equal precedence wraps: the comparison against the context's level is
/// strict, so a node whose class equals it is parenthesized.
pub proof fn lemma_equal_precedence_wraps()
    ensures
        needs_parens(Prec::Apply, Parens::InApply),
{
}

/// Interface for tree layers that can describe themselves as a node.
pub trait Nodify {
    /// This value, laid out as a node with its surrounding trivia.
    fn to_node(&self) -> NodeInfo;
}

} // verus!
