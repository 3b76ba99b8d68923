//! The viewport renderer: the line buffer, and the commands that draw it.

use super::terminal::{CommandView, Terminal, Vector};
use buffer::{line_views, split_lines, without_carriage_return, Buffer};
use vstd::prelude::*;
use vstd::string::StrSliceExecFns;
use vstd::view::View as _;

pub mod buffer;

verus! {

/// First line of the banner: the program's name. Like the other two it ends
/// in a carriage return, which is printed with the line and takes no cell.
pub const BANNER_NAME: &'static str = "tedit: a friendly text-editor in Rust\r";

/// Second line of the banner: the program's version.
pub const BANNER_VERSION: &'static str = "v0.1.0\r";

/// Third line of the banner: the author.
pub const BANNER_AUTHOR: &'static str = "by Saksham Dhull\r";

/// What is printed on a row that the buffer has no line for.
pub open spec fn filler() -> Seq<char> {
    seq!['~']
}

/// What is printed behind every row but the last of the viewport.
pub open spec fn line_terminator() -> Seq<char> {
    seq!['\r', '\n']
}

/// The column at which a text of `length` cells starts so that it stands in
/// the middle of `width` columns; the first column where it does not fit.
pub open spec fn centered_column(width: int, length: int) -> int {
    if length <= width {
        (width - length) / 2
    } else {
        0
    }
}

/// The row of banner line `index` (0, 1 or 2) in a viewport of `height` rows:
/// the lines stand around the row at a third of the height, and none above
/// the first row.
pub open spec fn banner_row(height: int, index: int) -> int {
    if height / 3 - 1 + index >= 0 {
        height / 3 - 1 + index
    } else {
        0
    }
}

/// The cells that a banner line takes: its characters, without the carriage
/// return at its end if it has one.
pub open spec fn banner_line_length(text: Seq<char>) -> nat {
    without_carriage_return(text).len()
}

/// The commands that print `text` as banner line `index` in a viewport of
/// `size`: the line is centred by the cells it takes, and printed whole.
pub open spec fn banner_line_commands(size: Vector, index: int, text: Seq<char>) -> Seq<
    CommandView,
> {
    seq![
        CommandView::MoveCaretTo(
            Vector {
                x: centered_column(size.x as int, banner_line_length(text) as int) as usize,
                y: banner_row(size.y as int, index) as usize,
            },
        ),
        CommandView::Print(text),
    ]
}

/// The commands that draw the welcome banner in a viewport of `size`.
pub open spec fn welcome_commands(size: Vector) -> Seq<CommandView> {
    banner_line_commands(size, 0, BANNER_NAME@) + banner_line_commands(size, 1, BANNER_VERSION@)
        + banner_line_commands(size, 2, BANNER_AUTHOR@)
}

/// The commands that draw row `row` of a viewport of `height` rows: go to the
/// start of the row, clear it, print the buffer's line of that row, or the
/// filler where there is none, and then the line terminator unless the row
/// is the last.
pub open spec fn row_commands(lines: Seq<Seq<char>>, row: int, height: int) -> Seq<CommandView> {
    seq![
        CommandView::MoveCaretTo(Vector { x: 0, y: row as usize }),
        CommandView::ClearLine,
        CommandView::Print(
            if 0 <= row < lines.len() {
                lines[row]
            } else {
                filler()
            },
        ),
    ] + if row + 1 < height {
        seq![CommandView::Print(line_terminator())]
    } else {
        Seq::empty()
    }
}

/// The commands that draw the first `rows` rows of a viewport of `height` rows.
pub open spec fn rows_commands(lines: Seq<Seq<char>>, rows: nat, height: int) -> Seq<CommandView>
    decreases rows,
{
    if rows == 0 {
        Seq::empty()
    } else {
        rows_commands(lines, (rows - 1) as nat, height) + row_commands(lines, rows - 1, height)
    }
}

/// The commands that draw `lines` in a viewport of `size`: every row from the
/// top, and over them the welcome banner where there are no lines.
pub open spec fn render_commands(lines: Seq<Seq<char>>, size: Vector) -> Seq<CommandView> {
    rows_commands(lines, size.y as nat, size.y as int) + if lines.len() == 0 {
        welcome_commands(size)
    } else {
        Seq::empty()
    }
}

/// `lines` with empty lines added at the end until there is a line `row`.
pub open spec fn padded(lines: Seq<Seq<char>>, row: int) -> Seq<Seq<char>> {
    if row < lines.len() {
        lines
    } else {
        lines + Seq::new((row + 1 - lines.len()) as nat, |i: int| Seq::<char>::empty())
    }
}

/// `lines` after `chr` was written at the end of line `row`.
pub open spec fn written(lines: Seq<Seq<char>>, chr: char, row: int) -> Seq<Seq<char>> {
    padded(lines, row).update(row, padded(lines, row)[row].push(chr))
}

/// `lines` after the characters of `text` were written, one after the other,
/// at the end of line `row`.
pub open spec fn typed(lines: Seq<Seq<char>>, text: Seq<char>, row: int) -> Seq<Seq<char>>
    decreases text.len(),
{
    if text.len() == 0 {
        lines
    } else {
        written(typed(lines, text.drop_last(), row), text.last(), row)
    }
}

/// Writing a character changes one line and adds the lines that were missing
/// before it. The buffer then reaches to line `row` and no further than it
/// did or has to. The lines that were there stay as they were, but for line
/// `row`; the lines added before line `row` are empty; and line `row` is what
/// it was, or empty where it was missing, with the character at its end.
pub proof fn lemma_written(lines: Seq<Seq<char>>, chr: char, row: nat)
    ensures
        written(lines, chr, row as int).len() == if row < lines.len() {
            lines.len()
        } else {
            row + 1
        },
        forall|i: int|
            0 <= i < lines.len() && i != row ==> written(lines, chr, row as int)[i] == lines[i],
        forall|i: int|
            lines.len() <= i < row ==> written(lines, chr, row as int)[i] == Seq::<char>::empty(),
        written(lines, chr, row as int)[row as int] == if row < lines.len() {
            lines[row as int].push(chr)
        } else {
            seq![chr]
        },
{
    if row >= lines.len() {
        assert(padded(lines, row as int)[row as int].push(chr) =~= seq![chr]);
    }
}

/// Writing the characters of a text one after the other at row `row` puts
/// the text at the end of that line. So on an empty buffer, writing at row 0
/// gives the one line `text`.
pub proof fn lemma_typed(lines: Seq<Seq<char>>, text: Seq<char>, row: nat)
    requires
        text.len() > 0,
    ensures
        typed(lines, text, row as int) == padded(lines, row as int).update(
            row as int,
            padded(lines, row as int)[row as int] + text,
        ),
        lines.len() == 0 && row == 0 ==> typed(lines, text, row as int) == seq![text],
    decreases text.len(),
{
    let before = text.drop_last();
    let start = padded(lines, row as int);
    if before.len() == 0 {
        assert(typed(lines, before, row as int) == lines);
        assert(start[row as int].push(text.last()) =~= start[row as int] + text);
    } else {
        lemma_typed(lines, before, row);
        let sofar = typed(lines, before, row as int);
        assert(padded(sofar, row as int) == sofar);
        assert((start[row as int] + before).push(text.last()) =~= start[row as int] + text);
        assert(sofar.update(row as int, sofar[row as int].push(text.last())) =~= start.update(
            row as int,
            start[row as int] + text,
        ));
    }
    if lines.len() == 0 && row == 0 {
        assert(start[0] + text =~= text);
        assert(start.update(0, text) =~= seq![text]);
    }
}

/// The text that is edited, and how it is drawn.
pub struct View {
    buffer: Buffer,
}

impl vstd::view::View for View {
    type V = Seq<Seq<char>>;

    /// The lines of the buffer, the first row first.
    closed spec fn view(&self) -> Seq<Seq<char>> {
        self.buffer@
    }
}

impl Default for View {
    /// The view of an empty buffer.
    fn default() -> (view: View)
        ensures
            view@ == Seq::<Seq<char>>::empty(),
    {
        View { buffer: Buffer::default() }
    }
}

impl View {
    /// Queues the commands that draw the buffer in a viewport of `size`.
    pub fn render(&self, terminal: &mut Terminal, size: Vector)
        ensures
            final(terminal)@ == old(terminal)@ + render_commands(self@, size),
    {
        let ghost before = terminal@;
        assert(before + rows_commands(self@, 0, size.y as int) =~= before);
        for current_row in 0..size.y
            invariant
                terminal@ == before + rows_commands(self@, current_row as nat, size.y as int),
        {
            let ghost drawn = terminal@;
            terminal.move_cursor_to(Vector { x: 0, y: current_row });
            terminal.clear_line();
            if current_row < self.buffer.lines.len() {
                terminal.print(self.buffer.lines[current_row].as_str());
            } else {
                proof {
                    reveal_strlit("~");
                    assert("~"@ =~= filler());
                }
                terminal.print("~");
            }
            if current_row < size.y - 1 {
                proof {
                    reveal_strlit("\r\n");
                    assert("\r\n"@ =~= line_terminator());
                }
                terminal.print("\r\n");
            }
            assert(terminal@ =~= drawn + row_commands(self@, current_row as int, size.y as int));
            assert(terminal@ =~= before + rows_commands(
                self@,
                (current_row + 1) as nat,
                size.y as int,
            ));
        }
        if self.buffer.is_empty() {
            Self::render_welcome_message(terminal, size);
        }
        assert(terminal@ =~= before + render_commands(self@, size));
    }

    /// Queues the commands that draw the welcome banner in a viewport of `size`.
    pub fn render_welcome_message(terminal: &mut Terminal, size: Vector)
        ensures
            final(terminal)@ == old(terminal)@ + welcome_commands(size),
    {
        let ghost before = terminal@;
        Self::render_banner_line(terminal, size, 0, BANNER_NAME);
        Self::render_banner_line(terminal, size, 1, BANNER_VERSION);
        Self::render_banner_line(terminal, size, 2, BANNER_AUTHOR);
        assert(terminal@ =~= before + welcome_commands(size));
    }

    fn render_banner_line(terminal: &mut Terminal, size: Vector, index: usize, text: &str)
        requires
            index <= 2,
        ensures
            final(terminal)@ == old(terminal)@ + banner_line_commands(size, index as int, text@),
    {
        let printed = text.unicode_len();
        let length = if printed > 0 && text.get_char(printed - 1) == '\r' {
            printed - 1
        } else {
            printed
        };
        let column = if length <= size.x {
            (size.x - length) / 2
        } else {
            0
        };
        let below = size.y / 3 + index;
        let row = if below >= 1 {
            below - 1
        } else {
            0
        };
        terminal.print_at_position(Vector { x: column, y: row }, text);
        assert(terminal@ =~= old(terminal)@ + banner_line_commands(size, index as int, text@));
    }

    /// Writes `chr` at the end of line `row`, behind as many new empty lines as
    /// it takes for the buffer to have that line, and returns the cell behind
    /// the character: the new length of the line, in row `row`.
    pub fn write(&mut self, chr: &char, row: usize) -> (caret: Vector)
        ensures
            final(self)@ == written(old(self)@, *chr, row as int),
            caret.x == final(self)@[row as int].len(),
            caret.y == row,
    {
        while row >= self.buffer.lines.len()
            invariant
                self@.len() == old(self)@.len() || old(self)@.len() < self@.len() <= row + 1,
                self@ == padded(old(self)@, self@.len() - 1),
            decreases row + 1 - self.buffer.lines.len(),
        {
            let ghost lines = self@;
            self.buffer.lines.push(String::new());
            assert(self@ =~= lines.push(Seq::empty()));
            assert(self@ =~= padded(old(self)@, self@.len() - 1));
        }
        assert(self@ == padded(old(self)@, row as int));
        let ghost lines = self@;
        self.buffer.lines[row].push(*chr);
        assert(self@ =~= lines.update(row as int, lines[row as int].push(*chr)));
        Vector { x: self.buffer.lines[row].as_str().unicode_len(), y: row }
    }

    /// Replaces the buffer by the lines of `source`.
    pub fn load(&mut self, source: &str)
        ensures
            final(self)@ == split_lines(source@),
    {
        self.buffer = Buffer::load(source);
    }

    /// The lines of the buffer, the first row first.
    pub fn lines(&self) -> (lines: &Vec<String>)
        ensures
            line_views(lines@) == self@,
    {
        &self.buffer.lines
    }
}

} // verus!
