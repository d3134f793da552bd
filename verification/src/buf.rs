//! The append-only output buffer the render engine writes into.
//!
//! A `Buf` holds the text emitted so far together with a run of pending
//! spaces.  Spaces (and the indentation placed at the start of a line) are
//! not written immediately: they are flushed in front of the next visible
//! character, so a line that ends before they are flushed never carries
//! trailing whitespace.  The buffer only ever appends; nothing already
//! emitted is rewritten.

use vstd::prelude::*;
use vstd::string::StrSliceExecFns;
use vstd::string::StringExecFns;

verus! {

/// Mathematical state of a [`Buf`]: the characters emitted so far, the
/// number of spaces waiting to be flushed before the next visible
/// character, whether the buffer sits at the start of a line, and the
/// column at which the current line's content begins.
#[verifier::ext_equal]
pub ghost struct BufM {
    pub text: Seq<char>,
    pub pending: nat,
    pub line_start: bool,
    pub cur_indent: u16,
}

/// A run of `n` spaces.
pub open spec fn space_run(n: nat) -> Seq<char> {
    Seq::new(n, |i: int| ' ')
}

/// The state of a freshly created buffer.
pub open spec fn buf_init() -> BufM {
    BufM { text: Seq::empty(), pending: 0, line_start: true, cur_indent: 0 }
}

/// Effect of appending `s`: the pending spaces are flushed first, and the
/// buffer is no longer at a line start.
pub open spec fn buf_push_str(m: BufM, s: Seq<char>) -> BufM {
    BufM {
        text: m.text + space_run(m.pending) + s,
        pending: 0,
        line_start: false,
        cur_indent: m.cur_indent,
    }
}

/// Effect of moving to column `n`: only acts at the start of a line, where
/// it schedules `n` spaces of indentation and records the line's column.
pub open spec fn buf_indent(m: BufM, n: u16) -> BufM {
    if m.line_start {
        BufM { text: m.text, pending: n as nat, line_start: false, cur_indent: n }
    } else {
        m
    }
}

/// Effect of ending the current line: pending spaces are dropped, never
/// flushed, so no line ends in trailing whitespace.
pub open spec fn buf_newline(m: BufM) -> BufM {
    BufM { text: m.text.push('\n'), pending: 0, line_start: true, cur_indent: 0 }
}

/// Effect of asking for a line end: a newline unless already at a line start.
pub open spec fn buf_ensure_newline(m: BufM) -> BufM {
    if m.line_start {
        m
    } else {
        buf_newline(m)
    }
}

/// Whether the emitted text already ends in a space or a line break.
pub open spec fn ends_with_gap(t: Seq<char>) -> bool {
    t.len() > 0 && (t.last() == ' ' || t.last() == '\n')
}

/// Effect of asking for a separating space: one pending space, unless the
/// buffer is at a line start, a space is already pending, nothing has been
/// emitted yet, or the text already ends in a space or line break.
pub open spec fn buf_ensure_space(m: BufM) -> BufM {
    if !m.line_start && m.pending == 0 && m.text.len() > 0 && !ends_with_gap(m.text) {
        BufM { text: m.text, pending: 1, line_start: m.line_start, cur_indent: m.cur_indent }
    } else {
        m
    }
}

/// Effect of scheduling one more space (capped only at the machine limit).
pub open spec fn buf_one_space(m: BufM) -> BufM {
    if m.pending < usize::MAX as nat {
        BufM {
            text: m.text,
            pending: m.pending + 1,
            line_start: m.line_start,
            cur_indent: m.cur_indent,
        }
    } else {
        m
    }
}

/// Whether `m2` carries everything `m1` had emitted: the later state's
/// text begins with the earlier state's text.
pub open spec fn text_extends(m2: BufM, m1: BufM) -> bool {
    m1.text.is_prefix_of(m2.text)
}

/// A state extends itself.
pub proof fn lemma_extends_refl(m: BufM)
    ensures
        text_extends(m, m),
{
    assert(m.text.subrange(0, m.text.len() as int) =~= m.text);
}

/// Extension is transitive.
pub proof fn lemma_extends_trans(m3: BufM, m2: BufM, m1: BufM)
    requires
        text_extends(m3, m2),
        text_extends(m2, m1),
    ensures
        text_extends(m3, m1),
{
    assert forall|i: int| 0 <= i < m1.text.len() implies m1.text[i] == m3.text[i] by {
        assert(m1.text[i] == m2.text.subrange(0, m1.text.len() as int)[i]);
        assert(m2.text[i] == m3.text.subrange(0, m2.text.len() as int)[i]);
    }
    assert(m1.text =~= m3.text.subrange(0, m1.text.len() as int));
}

/// Appending text only extends the emitted text.
pub proof fn lemma_push_str_extends(m: BufM, s: Seq<char>)
    ensures
        text_extends(buf_push_str(m, s), m),
{
    assert((m.text + space_run(m.pending) + s).subrange(0, m.text.len() as int) =~= m.text);
}

/// Ending a line only extends the emitted text.
pub proof fn lemma_newline_extends(m: BufM)
    ensures
        text_extends(buf_newline(m), m),
{
    assert(m.text.push('\n').subrange(0, m.text.len() as int) =~= m.text);
}

/// Moving to a column leaves the emitted text as it was.
pub proof fn lemma_indent_extends(m: BufM, n: u16)
    ensures
        text_extends(buf_indent(m, n), m),
{
    lemma_extends_refl(m);
}

/// Asking for a line end only extends the emitted text.
pub proof fn lemma_ensure_newline_extends(m: BufM)
    ensures
        text_extends(buf_ensure_newline(m), m),
{
    if m.line_start {
        lemma_extends_refl(m);
    } else {
        lemma_newline_extends(m);
    }
}

/// Asking for a separating space leaves the emitted text as it was.
pub proof fn lemma_ensure_space_extends(m: BufM)
    ensures
        text_extends(buf_ensure_space(m), m),
{
    lemma_extends_refl(m);
}

/// Scheduling a space leaves the emitted text as it was.
pub proof fn lemma_one_space_extends(m: BufM)
    ensures
        text_extends(buf_one_space(m), m),
{
    lemma_extends_refl(m);
}

/// The append-only text buffer the render engine writes into.
pub struct Buf {
    text: String,
    pending: usize,
    line_start: bool,
    cur_indent: u16,
}

impl View for Buf {
    type V = BufM;

    closed spec fn view(&self) -> BufM {
        BufM {
            text: self.text@,
            pending: self.pending as nat,
            line_start: self.line_start,
            cur_indent: self.cur_indent,
        }
    }
}

impl Buf {
    /// A fresh, empty buffer, sitting at the start of its first line.
    pub fn new() -> (b: Buf)
        ensures
            b@ == buf_init(),
    {
        let b = Buf { text: String::new(), pending: 0, line_start: true, cur_indent: 0 };
        proof {
            assert(b@ =~= buf_init());
        }
        b
    }

    /// Append `s` verbatim, flushing the pending spaces in front of it.
    pub fn push_str(&mut self, s: &str)
        ensures
            final(self)@ == buf_push_str(old(self)@, s@),
    {
        let mut i: usize = 0;
        while i < self.pending
            invariant
                i <= self.pending,
                self.pending == old(self).pending,
                self.line_start == old(self).line_start,
                self.cur_indent == old(self).cur_indent,
                self.text@ == old(self).text@ + space_run(i as nat),
            decreases self.pending - i,
        {
            self.text.append(" ");
            i = i + 1;
            proof {
                reveal_strlit(" ");
                assert(self.text@ =~= old(self).text@ + space_run(i as nat));
            }
        }
        self.pending = 0;
        self.text.append(s);
        self.line_start = false;
        proof {
            assert(self@ =~= buf_push_str(old(self)@, s@));
        }
    }

    /// Move to column `n` if at the start of a line; otherwise do nothing.
    pub fn indent(&mut self, n: u16)
        ensures
            final(self)@ == buf_indent(old(self)@, n),
    {
        if self.line_start {
            self.pending = n as usize;
            self.cur_indent = n;
            self.line_start = false;
        }
        proof {
            assert(self@ =~= buf_indent(old(self)@, n));
        }
    }

    /// End the current line, dropping any pending spaces.
    pub fn newline(&mut self)
        ensures
            final(self)@ == buf_newline(old(self)@),
    {
        self.pending = 0;
        self.text.append("\n");
        self.line_start = true;
        self.cur_indent = 0;
        proof {
            reveal_strlit("\n");
            assert(self@ =~= buf_newline(old(self)@));
        }
    }

    /// Make sure the output ends with a line break; a no-op at a line start.
    pub fn ensure_ends_with_newline(&mut self)
        ensures
            final(self)@ == buf_ensure_newline(old(self)@),
    {
        if !self.line_start {
            self.newline();
        }
    }

    /// Make sure at least one space will separate what was emitted from
    /// what comes next; a no-op wherever a gap is already guaranteed.
    pub fn ensure_ends_with_whitespace(&mut self)
        ensures
            final(self)@ == buf_ensure_space(old(self)@),
    {
        if !self.line_start && self.pending == 0 {
            let n = self.text.as_str().unicode_len();
            if n > 0 {
                let c = self.text.as_str().get_char(n - 1);
                if !(c == ' ' || c == '\n') {
                    self.pending = 1;
                }
            }
        }
        proof {
            assert(self@ =~= buf_ensure_space(old(self)@));
        }
    }

    /// Schedule one more space in front of the next visible character.
    pub fn space(&mut self)
        ensures
            final(self)@ == buf_one_space(old(self)@),
    {
        if self.pending < usize::MAX {
            self.pending = self.pending + 1;
        }
        proof {
            assert(self@ =~= buf_one_space(old(self)@));
        }
    }

    /// The column at which the current line's content begins.
    pub fn cur_line_indent(&self) -> (r: u16)
        ensures
            r == self@.cur_indent,
    {
        self.cur_indent
    }

    /// The emitted text (pending spaces are not part of it).
    pub fn as_str(&self) -> (s: &str)
        ensures
            s@ == self@.text,
    {
        self.text.as_str()
    }

    /// Give up the buffer and keep only its emitted text.
    pub fn into_text(self) -> (s: String)
        ensures
            s@ == self@.text,
    {
        self.text
    }
}

} // verus!
