use vstd::prelude::*;
use crate::ansi::{
    background_seq, background_text, move_to_column_seq, move_to_column_text, move_to_seq,
    move_to_text, next_line_seq, next_line_text, Shade,
};
use crate::text::{push_char, push_str, repeat_char};

verus! {

/// `t` right-padded with `-` to `width` characters; longer text is kept whole.
pub open spec fn padded(t: Seq<char>, width: nat) -> Seq<char> {
    if t.len() >= width {
        t
    } else {
        t + repeat_char('-', (width - t.len()) as nat)
    }
}

/// What one appended line adds to the overlay buffer: the padded text, then a
/// move to the start of the next line and back to the anchor column.
pub open spec fn overlay_line(t: Seq<char>, width: nat, col: u16) -> Seq<char> {
    padded(t, width) + next_line_seq(1) + move_to_column_seq(col)
}

/// The buffer after appending each of `lines` in order.
pub open spec fn overlay_lines(buf: Seq<char>, lines: Seq<Seq<char>>, width: nat, col: u16) -> Seq<
    char,
>
    decreases lines.len(),
{
    if lines.len() == 0 {
        buf
    } else {
        overlay_lines(buf, lines.drop_last(), width, col) + overlay_line(lines.last(), width, col)
    }
}

/// The text that a flush writes: a move to the anchor, the overlay's own
/// background, then the buffered lines.
pub open spec fn overlay_flush_seq(anchor: (u16, u16), buf: Seq<char>) -> Seq<char> {
    move_to_seq(anchor.0, anchor.1) + background_seq(Shade::Black) + buf
}

/// A diagnostic panel fixed at a screen position: lines are buffered by
/// `print` and written out, then dropped, by `flush`.
pub struct DebugPrinter {
    /// The panel's top-left corner, as (column, row).
    pub pos: (u16, u16),
    /// Lines shorter than this are padded with `-` to this many characters.
    pub width: usize,
    pub buf: String,
}

impl DebugPrinter {
    /// The anchor is a position that cursor commands can address.
    pub open spec fn wf(&self) -> bool {
        self.pos.0 < u16::MAX && self.pos.1 < u16::MAX
    }

    /// An empty panel anchored at `pos`.
    pub fn new(pos: (u16, u16), width: usize) -> (r: DebugPrinter)
        requires
            pos.0 < u16::MAX,
            pos.1 < u16::MAX,
        ensures
            r.wf(),
            r.pos == pos,
            r.width == width,
            r.buf@.len() == 0,
    {
        DebugPrinter { pos, width, buf: String::new() }
    }

    /// Appends one line: `text` padded to the panel width, followed by a move to
    /// the next line at the anchor column. Nothing is written yet.
    pub fn print(&mut self, text: &str)
        requires
            old(self).wf(),
        ensures
            final(self).wf(),
            final(self).pos == old(self).pos,
            final(self).width == old(self).width,
            final(self).buf@ == old(self).buf@ + overlay_line(
                text@,
                old(self).width as nat,
                old(self).pos.0,
            ),
            final(self).buf@.len() > 0,
    {
        push_str(&mut self.buf, text);
        let n = text.unicode_len();
        if n < self.width {
            let mut i: usize = n;
            while i < self.width
                invariant
                    n <= i <= self.width,
                    n == text@.len(),
                    self.pos == old(self).pos,
                    self.width == old(self).width,
                    self.buf@ == old(self).buf@ + text@ + repeat_char('-', (i - n) as nat),
                decreases self.width - i,
            {
                push_char(&mut self.buf, '-');
                i = i + 1;
                assert(self.buf@ =~= old(self).buf@ + text@ + repeat_char('-', (i - n) as nat));
            }
        } else {
            assert(text@ + repeat_char('-', 0) =~= text@);
        }
        let next = next_line_text(1);
        push_str(&mut self.buf, next.as_str());
        let back = move_to_column_text(self.pos.0);
        push_str(&mut self.buf, back.as_str());
        assert(self.buf@ =~= old(self).buf@ + overlay_line(
            text@,
            old(self).width as nat,
            old(self).pos.0,
        ));
    }

    /// Appends the panel to `out` (a move to the anchor, the black background,
    /// the buffered lines) and empties the buffer.
    pub fn flush(&mut self, out: &mut String)
        requires
            old(self).wf(),
        ensures
            final(self).wf(),
            final(self).pos == old(self).pos,
            final(self).width == old(self).width,
            final(self).buf@.len() == 0,
            final(out)@ == old(out)@ + overlay_flush_seq(old(self).pos, old(self).buf@),
    {
        let head = move_to_text(self.pos.0, self.pos.1);
        push_str(out, head.as_str());
        let shade = background_text(Shade::Black);
        push_str(out, shade.as_str());
        push_str(out, self.buf.as_str());
        self.buf = String::new();
        assert(out@ =~= old(out)@ + overlay_flush_seq(old(self).pos, old(self).buf@));
    }
}

/// Appending any non-empty list of lines leaves the overlay buffer non-empty,
/// whatever it held before, so a flush that follows always has lines to write.
pub proof fn lemma_printed_overlay_is_pending(
    buf: Seq<char>,
    lines: Seq<Seq<char>>,
    width: nat,
    col: u16,
)
    requires
        lines.len() >= 1,
    ensures
        overlay_lines(buf, lines, width, col).len() > 0,
{
    assert(next_line_seq(1).len() > 0);
}

} // verus!
