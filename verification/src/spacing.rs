//! Spacing directives and verbatim comment replay.
//!
//! A [`Sp`] describes what separates two adjacent rendered pieces: nothing,
//! a single space, a forced line break, or a list of comment and blank-line
//! tokens to replay.  A non-empty token list always dominates the two flags.
//!
//! Tokens are replayed under one of three policies: verbatim (blank lines
//! kept), with blank lines collapsed into a single line break, or with all
//! line structure dropped so that only the comments themselves remain.

use vstd::prelude::*;
use crate::buf::Buf;
use crate::buf::BufM;
use crate::buf::buf_ensure_newline;
use crate::buf::buf_ensure_space;
use crate::buf::buf_indent;
use crate::buf::buf_newline;
use crate::buf::buf_one_space;
use crate::buf::buf_push_str;
use crate::buf::lemma_ensure_newline_extends;
use crate::buf::lemma_ensure_space_extends;
use crate::buf::lemma_extends_refl;
use crate::buf::lemma_extends_trans;
use crate::buf::lemma_indent_extends;
use crate::buf::lemma_newline_extends;
use crate::buf::lemma_one_space_extends;
use crate::buf::lemma_push_str_extends;
use crate::buf::text_extends;

verus! {

/// One token of preserved trivia: a line break, a line comment, or a doc
/// comment.  Comment tokens carry their text without the leading marker
/// and without the closing line break.
#[derive(Debug, Clone, PartialEq, Eq)]
pub enum CommentOrNewline {
    Newline,
    LineComment(String),
    DocComment(String),
}

/// What separates two adjacent rendered pieces.
#[derive(Debug, Clone)]
pub struct Sp {
    /// Separate with a single space when no comments are replayed and no
    /// line break is forced.
    pub default_space: bool,
    /// Force a line break (unless comments are replayed, which dominate).
    pub force_newline: bool,
    /// Trivia to replay verbatim; when non-empty it dominates both flags.
    pub comments: Vec<CommentOrNewline>,
}

/// A directive spans several lines iff it forces a line break or replays
/// any trivia at all.
pub open spec fn sp_multiline(sp: Sp) -> bool {
    sp.force_newline || sp.comments@.len() > 0
}

impl Sp {
    /// A directive that renders as nothing: tight juxtaposition.
    pub fn empty() -> (r: Sp)
        ensures
            !r.default_space,
            !r.force_newline,
            r.comments@.len() == 0,
    {
        Sp { force_newline: false, default_space: false, comments: Vec::new() }
    }

    /// A single separating space.
    pub fn space() -> (r: Sp)
        ensures
            r.default_space,
            !r.force_newline,
            r.comments@.len() == 0,
    {
        Sp { force_newline: false, default_space: true, comments: Vec::new() }
    }

    /// A space, used only if the given trivia turns out to be empty.
    pub fn with_space(sp: Vec<CommentOrNewline>) -> (r: Sp)
        ensures
            r.default_space,
            !r.force_newline,
            r.comments@ == sp@,
    {
        Sp { force_newline: false, default_space: true, comments: sp }
    }

    /// A space if `space` is set, used only if the trivia is empty.
    pub fn maybe_with_space(space: bool, sp: Vec<CommentOrNewline>) -> (r: Sp)
        ensures
            r.default_space == space,
            !r.force_newline,
            r.comments@ == sp@,
    {
        Sp { force_newline: false, default_space: space, comments: sp }
    }

    /// A forced line break, with trivia that dominates it when non-empty.
    pub fn force_newline(sp: Vec<CommentOrNewline>) -> (r: Sp)
        ensures
            !r.default_space,
            r.force_newline,
            r.comments@ == sp@,
    {
        Sp { force_newline: true, default_space: false, comments: sp }
    }

    /// Whether rendering this directive can span more than one line.
    pub fn is_multiline(&self) -> (r: bool)
        ensures
            r == sp_multiline(*self),
    {
        self.force_newline || self.comments.len() > 0
    }
}

impl From<Vec<CommentOrNewline>> for Sp {
    /// Trivia alone: no default space and no forced line break.
    fn from(comments: Vec<CommentOrNewline>) -> (r: Sp) {
        Sp { force_newline: false, default_space: false, comments }
    }
}

impl vstd::std_specs::convert::FromSpecImpl<Vec<CommentOrNewline>> for Sp {
    open spec fn obeys_from_spec() -> bool {
        true
    }

    open spec fn from_spec(comments: Vec<CommentOrNewline>) -> Sp {
        Sp { force_newline: false, default_space: false, comments }
    }
}

/// How line-break tokens are treated while replaying trivia.
#[derive(Debug, Clone, Copy)]
pub enum ReplayMode {
    /// Replay every line break, so blank lines survive.
    WithBlankLines,
    /// Honor line breaks but collapse any run of them into one.
    NoBlankLines,
    /// Drop line-break tokens; only the comments themselves remain.
    CommentsOnly,
}

/// The `#` marker of a line comment.
pub open spec fn hash_marker() -> Seq<char> {
    seq!['#']
}

/// The `##` marker of a doc comment.
pub open spec fn doc_marker() -> Seq<char> {
    seq!['#', '#']
}

/// Effect of emitting one comment: move to `indent` (at a line start),
/// make sure a gap separates it from earlier text on the same line, then
/// the marker, the comment text, and the line break that closes it.
pub open spec fn emit_comment_m(m: BufM, marker: Seq<char>, text: Seq<char>, indent: u16) -> BufM {
    buf_newline(buf_push_str(buf_push_str(buf_ensure_space(buf_indent(m, indent)), marker), text))
}

/// Effect of replaying one token under the given policy.
pub open spec fn replay_tok_m(m: BufM, tok: CommentOrNewline, indent: u16, mode: ReplayMode) -> BufM {
    match tok {
        CommentOrNewline::Newline => match mode {
            ReplayMode::WithBlankLines => buf_newline(m),
            ReplayMode::NoBlankLines => buf_ensure_newline(m),
            ReplayMode::CommentsOnly => m,
        },
        CommentOrNewline::LineComment(s) => emit_comment_m(m, hash_marker(), s@, indent),
        CommentOrNewline::DocComment(s) => emit_comment_m(m, doc_marker(), s@, indent),
    }
}

/// Effect of replaying a token list left to right under the given policy.
pub open spec fn replay_toks_m(m: BufM, toks: Seq<CommentOrNewline>, indent: u16, mode: ReplayMode) -> BufM
    decreases toks.len(),
{
    if toks.len() == 0 {
        m
    } else {
        replay_tok_m(replay_toks_m(m, toks.drop_last(), indent, mode), toks.last(), indent, mode)
    }
}

/// Emit one comment: its marker, its text, and the line break closing it.
fn emit_comment(buf: &mut Buf, doc: bool, text: &String, indent: u16)
    ensures
        final(buf)@ == emit_comment_m(
            old(buf)@,
            if doc { doc_marker() } else { hash_marker() },
            text@,
            indent,
        ),
{
    buf.indent(indent);
    buf.ensure_ends_with_whitespace();
    if doc {
        buf.push_str("##");
        proof {
            reveal_strlit("##");
            assert("##"@ =~= doc_marker());
        }
    } else {
        buf.push_str("#");
        proof {
            reveal_strlit("#");
            assert("#"@ =~= hash_marker());
        }
    }
    buf.push_str(text.as_str());
    buf.newline();
}

/// Replay a token list left to right under the given policy.
fn replay(buf: &mut Buf, toks: &Vec<CommentOrNewline>, indent: u16, mode: ReplayMode)
    ensures
        final(buf)@ == replay_toks_m(old(buf)@, toks@, indent, mode),
{
    let mut i: usize = 0;
    while i < toks.len()
        invariant
            i <= toks.len(),
            buf@ == replay_toks_m(old(buf)@, toks@.subrange(0, i as int), indent, mode),
        decreases toks.len() - i,
    {
        let ghost prefix = toks@.subrange(0, i as int);
        match &toks[i] {
            CommentOrNewline::Newline => {
                match mode {
                    ReplayMode::WithBlankLines => buf.newline(),
                    ReplayMode::NoBlankLines => buf.ensure_ends_with_newline(),
                    ReplayMode::CommentsOnly => {},
                }
            },
            CommentOrNewline::LineComment(s) => emit_comment(buf, false, s, indent),
            CommentOrNewline::DocComment(s) => emit_comment(buf, true, s, indent),
        }
        i = i + 1;
        proof {
            let next = toks@.subrange(0, i as int);
            assert(next.drop_last() =~= prefix);
            assert(next.last() == toks@[i - 1]);
        }
    }
    proof {
        assert(toks@.subrange(0, toks@.len() as int) =~= toks@);
    }
}

/// Replay trivia verbatim: blank lines survive.
pub fn fmt_spaces(buf: &mut Buf, toks: &Vec<CommentOrNewline>, indent: u16)
    ensures
        final(buf)@ == replay_toks_m(old(buf)@, toks@, indent, ReplayMode::WithBlankLines),
{
    replay(buf, toks, indent, ReplayMode::WithBlankLines);
}

/// Replay trivia but collapse any run of line breaks into one.
pub fn fmt_spaces_no_blank_lines(buf: &mut Buf, toks: &Vec<CommentOrNewline>, indent: u16)
    ensures
        final(buf)@ == replay_toks_m(old(buf)@, toks@, indent, ReplayMode::NoBlankLines),
{
    replay(buf, toks, indent, ReplayMode::NoBlankLines);
}

/// Replay only the comments of the trivia, dropping its line structure.
pub fn fmt_comments_only(buf: &mut Buf, toks: &Vec<CommentOrNewline>, indent: u16)
    ensures
        final(buf)@ == replay_toks_m(old(buf)@, toks@, indent, ReplayMode::CommentsOnly),
{
    replay(buf, toks, indent, ReplayMode::CommentsOnly);
}

/// Effect of rendering a directive: non-empty trivia is replayed verbatim
/// and dominates; else a forced break ends the line; else a default space
/// is scheduled; else nothing happens.
pub open spec fn fmt_sp_m(m: BufM, sp: Sp, indent: u16) -> BufM {
    if sp.comments@.len() > 0 {
        replay_toks_m(m, sp.comments@, indent, ReplayMode::WithBlankLines)
    } else if sp.force_newline {
        buf_ensure_newline(m)
    } else if sp.default_space {
        buf_one_space(m)
    } else {
        m
    }
}

/// Render one spacing directive.
pub fn fmt_sp(buf: &mut Buf, sp: &Sp, indent: u16)
    ensures
        final(buf)@ == fmt_sp_m(old(buf)@, *sp, indent),
{
    if sp.comments.len() > 0 {
        fmt_spaces(buf, &sp.comments, indent);
    } else if sp.force_newline {
        buf.ensure_ends_with_newline();
    } else if sp.default_space {
        buf.space();
    }
}

/// Comments dominate a spacing directive: one built with trivia renders
/// exactly that trivia's tokens, in order and verbatim, whatever its
/// space and newline flags say.
pub proof fn lemma_comments_dominate(sp1: Sp, sp2: Sp, m: BufM, indent: u16)
    requires
        sp1.comments@ == sp2.comments@,
        sp1.comments@.len() > 0,
    ensures
        fmt_sp_m(m, sp1, indent) == fmt_sp_m(m, sp2, indent),
        fmt_sp_m(m, sp1, indent) == replay_toks_m(m, sp1.comments@, indent, ReplayMode::WithBlankLines),
{
}

/// Emitting a comment only extends the emitted text.
pub proof fn lemma_emit_comment_extends(m: BufM, marker: Seq<char>, text: Seq<char>, indent: u16)
    ensures
        text_extends(emit_comment_m(m, marker, text, indent), m),
{
    let m1 = buf_indent(m, indent);
    let m2 = buf_ensure_space(m1);
    let m3 = buf_push_str(m2, marker);
    let m4 = buf_push_str(m3, text);
    lemma_indent_extends(m, indent);
    lemma_ensure_space_extends(m1);
    lemma_push_str_extends(m2, marker);
    lemma_push_str_extends(m3, text);
    lemma_newline_extends(m4);
    lemma_extends_trans(m2, m1, m);
    lemma_extends_trans(m3, m2, m);
    lemma_extends_trans(m4, m3, m);
    lemma_extends_trans(buf_newline(m4), m4, m);
}

/// Replaying one token only extends the emitted text.
pub proof fn lemma_replay_tok_extends(m: BufM, tok: CommentOrNewline, indent: u16, mode: ReplayMode)
    ensures
        text_extends(replay_tok_m(m, tok, indent, mode), m),
{
    match tok {
        CommentOrNewline::Newline => {
            match mode {
                ReplayMode::WithBlankLines => lemma_newline_extends(m),
                ReplayMode::NoBlankLines => lemma_ensure_newline_extends(m),
                ReplayMode::CommentsOnly => lemma_extends_refl(m),
            }
        },
        CommentOrNewline::LineComment(s) => lemma_emit_comment_extends(m, hash_marker(), s@, indent),
        CommentOrNewline::DocComment(s) => lemma_emit_comment_extends(m, doc_marker(), s@, indent),
    }
}

/// Replaying a token list only extends the emitted text.
pub proof fn lemma_replay_toks_extends(m: BufM, toks: Seq<CommentOrNewline>, indent: u16, mode: ReplayMode)
    ensures
        text_extends(replay_toks_m(m, toks, indent, mode), m),
    decreases toks.len(),
{
    if toks.len() == 0 {
        lemma_extends_refl(m);
    } else {
        let m1 = replay_toks_m(m, toks.drop_last(), indent, mode);
        lemma_replay_toks_extends(m, toks.drop_last(), indent, mode);
        lemma_replay_tok_extends(m1, toks.last(), indent, mode);
        lemma_extends_trans(replay_tok_m(m1, toks.last(), indent, mode), m1, m);
    }
}

/// Rendering a spacing directive only extends the emitted text.
pub proof fn lemma_fmt_sp_extends(m: BufM, sp: Sp, indent: u16)
    ensures
        text_extends(fmt_sp_m(m, sp, indent), m),
{
    if sp.comments@.len() > 0 {
        lemma_replay_toks_extends(m, sp.comments@, indent, ReplayMode::WithBlankLines);
    } else if sp.force_newline {
        lemma_ensure_newline_extends(m);
    } else if sp.default_space {
        lemma_one_space_extends(m);
    } else {
        lemma_extends_refl(m);
    }
}

} // verus!
