//! Layout engine of a source-code formatter.
//!
//! The library turns an annotated document tree ([`node::Node`]) into
//! canonical source text: it replays the programmer's comments and blank
//! lines verbatim, propagates "this subtree spans several lines" facts
//! bottom-up, tracks indentation while descending, and inserts the minimum
//! parentheses that operator precedence requires.
//!
//! Every rendering function is specified against a mathematical model of
//! the output buffer ([`buf::BufM`]) and a pure, recursive description of
//! the emitted text, so that what a tree renders to is pinned down exactly.

pub mod buf;
pub mod builder;
pub mod node;
pub mod prec;
pub mod spacing;
