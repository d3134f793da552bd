//! The incremental sequence builder.
//!
//! A [`NodeSequenceBuilder`] accumulates (spacing, node) pairs behind a
//! first node, so that a caller can assemble a chain without knowing its
//! final length; [`NodeSequenceBuilder::build`] consumes the builder and
//! freezes the chain into a sequence node, after which no further
//! mutation is possible.

use vstd::prelude::*;
use crate::node::Node;
use crate::spacing::Sp;

verus! {

/// Abstract state of a builder: the first node, the indentation flag, and
/// the pairs accumulated so far.
pub ghost struct BuilderV {
    pub first: Node,
    pub extra_indent_for_rest: bool,
    pub rest: Seq<(Sp, Node)>,
}

/// Accumulates the gaps of a sequence node before freezing it.
pub struct NodeSequenceBuilder {
    first: Node,
    extra_indent_for_rest: bool,
    rest: Vec<(Sp, Node)>,
}

impl View for NodeSequenceBuilder {
    type V = BuilderV;

    closed spec fn view(&self) -> BuilderV {
        BuilderV {
            first: self.first,
            extra_indent_for_rest: self.extra_indent_for_rest,
            rest: self.rest@,
        }
    }
}

impl NodeSequenceBuilder {
    /// A builder holding `first` and no pairs yet; `capacity` only
    /// pre-allocates.
    pub fn new(first: Node, capacity: usize, extra_indent_for_rest: bool) -> (b: NodeSequenceBuilder)
        ensures
            b@.first == first,
            b@.extra_indent_for_rest == extra_indent_for_rest,
            b@.rest.len() == 0,
    {
        NodeSequenceBuilder { first, extra_indent_for_rest, rest: Vec::with_capacity(capacity) }
    }

    /// Append one more (spacing, node) pair.
    pub fn push(&mut self, sp: Sp, literal: Node)
        ensures
            final(self)@.first == old(self)@.first,
            final(self)@.extra_indent_for_rest == old(self)@.extra_indent_for_rest,
            final(self)@.rest == old(self)@.rest.push((sp, literal)),
    {
        self.rest.push((sp, literal));
    }

    /// Freeze the accumulated chain into a sequence node, consuming the
    /// builder.
    pub fn build(self) -> (n: Node)
        ensures
            n is Sequence,
            *n->Sequence_first == self@.first,
            n->Sequence_extra_indent_for_rest == self@.extra_indent_for_rest,
            n->Sequence_rest@ == self@.rest,
    {
        Node::Sequence {
            first: Box::new(self.first),
            extra_indent_for_rest: self.extra_indent_for_rest,
            rest: self.rest,
        }
    }
}

} // verus!
