//! The terminal-text buffer: an accumulator for raw output text that can
//! report how many display lines it currently spans.

use vstd::prelude::*;
use vstd::string::StrSliceExecFns;
use vstd::string::StringExecFns;

verus! {

/// Number of newline characters in `s`.
pub open spec fn newline_count(s: Seq<char>) -> nat
    decreases s.len(),
{
    if s.len() == 0 {
        0
    } else {
        newline_count(s.drop_last()) + if s.last() == '\n' {
            1nat
        } else {
            0nat
        }
    }
}

/// The number of display lines `s` spans: empty text spans no lines, and a
/// trailing newline does not open a new one.
pub open spec fn line_count(s: Seq<char>) -> nat {
    if s.len() == 0 {
        0
    } else if s.last() == '\n' {
        newline_count(s)
    } else {
        newline_count(s) + 1
    }
}

/// Newlines add up across concatenation.
proof fn lemma_newline_count_concat(s: Seq<char>, t: Seq<char>)
    ensures
        newline_count(s + t) == newline_count(s) + newline_count(t),
    decreases t.len(),
{
    if t.len() == 0 {
        assert(s + t =~= s);
    } else {
        assert((s + t).drop_last() =~= s + t.drop_last());
        lemma_newline_count_concat(s, t.drop_last());
    }
}

/// The line count is monotonic in input size: appending text never lowers
/// how many lines a buffer spans.
pub proof fn lemma_line_count_monotonic(s: Seq<char>, t: Seq<char>)
    ensures
        line_count(s) <= line_count(s + t),
{
    lemma_newline_count_concat(s, t);
    if s.len() > 0 && t.len() == 0 {
        assert(s + t =~= s);
    }
    if s.len() > 0 && t.len() > 0 {
        assert((s + t).last() == t.last());
        if t.last() == '\n' {
            assert(newline_count(t) >= 1);
        }
    }
}

/// `n` clamped to the range of a `u8`.
pub open spec fn sat_u8(n: nat) -> u8 {
    if n >= 255 {
        255u8
    } else {
        n as u8
    }
}

/// Line count of `text`, clamped to the range of a `u8`.
pub fn str_line_count(text: &str) -> (n: u8)
    ensures
        n == sat_u8(line_count(text@)),
{
    let len = text.unicode_len();
    let mut newlines: u8 = 0;
    let mut i: usize = 0;
    while i < len
        invariant
            len == text@.len(),
            i <= len,
            newlines == sat_u8(newline_count(text@.take(i as int))),
        decreases len - i,
    {
        let c = text.get_char(i);
        proof {
            assert(text@.take(i + 1 as int).drop_last() =~= text@.take(i as int));
            assert(text@.take(i + 1 as int).last() == text@[i as int]);
        }
        if c == '\n' {
            newlines = newlines.saturating_add(1);
        }
        i += 1;
    }
    proof {
        assert(text@.take(len as int) =~= text@);
    }
    if len == 0 {
        0
    } else {
        let last = text.get_char(len - 1);
        if last == '\n' {
            newlines
        } else {
            newlines.saturating_add(1)
        }
    }
}

/// An opaque accumulator of raw terminal text. It accepts chunks of text,
/// reports how many display lines it spans, and hands its contents out for
/// rendering elsewhere; interpreting control sequences is not its business.
pub struct TerminalOutput {
    content: String,
}

impl View for TerminalOutput {
    type V = Seq<char>;

    closed spec fn view(&self) -> Seq<char> {
        self.content@
    }
}

impl TerminalOutput {
    /// An empty buffer.
    pub fn new() -> (t: Self)
        ensures
            t@ == Seq::<char>::empty(),
    {
        TerminalOutput { content: String::new() }
    }

    /// A buffer seeded with `text`.
    pub fn from_text(text: &str) -> (t: Self)
        ensures
            t@ == text@,
    {
        TerminalOutput { content: String::from_str(text) }
    }

    /// Append one chunk of raw text.
    pub fn append_text(&mut self, text: &str)
        ensures
            final(self)@ == old(self)@ + text@,
    {
        self.content.append(text);
    }

    /// How many display lines the buffer currently spans, clamped to `u8`.
    pub fn num_lines(&self) -> (n: u8)
        ensures
            n == sat_u8(line_count(self@)),
    {
        str_line_count(self.content.as_str())
    }

    /// The accumulated text, for rendering elsewhere.
    pub fn text(&self) -> (s: &str)
        ensures
            s@ == self@,
    {
        self.content.as_str()
    }
}

} // verus!
