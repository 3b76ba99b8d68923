//! The editor controller: the caret, the quit flag, the rules by which events
//! change them, and the frame that shows them.

use event::{Event, KeyCode};
use terminal::{Command, CommandView, Terminal, Vector};
use view::buffer::split_lines;
use view::{render_commands, written, View};
use vstd::prelude::*;
use vstd::view::View as _;

pub mod event;
pub mod terminal;
pub mod view;

verus! {

/// What the last frame prints.
pub const EXIT_MESSAGE: &'static str = "Exiting!\r\n";

/// The state of an editor as a mathematical value.
pub struct EditorState {
    /// The lines of the buffer, the first row first.
    pub lines: Seq<Seq<char>>,
    /// The cell that the caret is in.
    pub caret: Vector,
    /// Whether the editor is quitting. It never leaves that state.
    pub quitting: bool,
}

/// The last index below `extent`, or 0 where there is none.
pub open spec fn last_index(extent: usize) -> usize {
    if extent > 0 {
        (extent - 1) as usize
    } else {
        0
    }
}

/// One step from `at` toward 0, or 0 where `at` is 0 already.
pub open spec fn step_back(at: usize) -> usize {
    if at > 0 {
        (at - 1) as usize
    } else {
        0
    }
}

/// One step from `at` away from 0, but not beyond the last index below
/// `extent`.
pub open spec fn step_forward(at: usize, extent: usize) -> usize {
    if at < last_index(extent) {
        (at + 1) as usize
    } else {
        last_index(extent)
    }
}

/// Where the caret is after `key` was pressed in a viewport of `size`. Any key
/// but the eight navigation keys leaves it where it was.
pub open spec fn moved(caret: Vector, key: KeyCode, size: Vector) -> Vector {
    match key {
        KeyCode::Up => Vector { x: caret.x, y: step_back(caret.y) },
        KeyCode::Down => Vector { x: caret.x, y: step_forward(caret.y, size.y) },
        KeyCode::Left => Vector { x: step_back(caret.x), y: caret.y },
        KeyCode::Right => Vector { x: step_forward(caret.x, size.x), y: caret.y },
        KeyCode::PageUp => Vector { x: caret.x, y: 0 },
        KeyCode::PageDown => Vector { x: caret.x, y: last_index(size.y) },
        KeyCode::Home => Vector { x: 0, y: caret.y },
        KeyCode::End => Vector { x: last_index(size.x), y: caret.y },
        _ => caret,
    }
}

/// The state after `event` arrived in a viewport of `size`. The quit
/// combination makes the editor quit. A navigation key moves the caret. A
/// typed character is written at the end of the caret's line, and the caret
/// goes behind it. Nothing else changes the state, and nothing changes it
/// once the editor is quitting.
pub open spec fn evaluated(state: EditorState, event: Event, size: Vector) -> EditorState {
    match event {
        Event::Key(key) => if state.quitting {
            state
        } else if key.is_quit() {
            EditorState { quitting: true, ..state }
        } else if key.code.is_navigation() {
            EditorState { caret: moved(state.caret, key.code, size), ..state }
        } else if let Some(chr) = key.printable() {
            let lines = written(state.lines, chr, state.caret.y as int);
            EditorState {
                lines,
                caret: Vector { x: lines[state.caret.y as int].len() as usize, y: state.caret.y },
                ..state
            }
        } else {
            state
        },
        Event::Other => state,
    }
}

/// The commands of one frame in a viewport of `size`. The caret is hidden
/// while the frame is drawn and shown again at its end. In between, a
/// quitting editor clears the screen and prints the exit message at the
/// origin; a running one draws the buffer and puts the caret in its cell.
pub open spec fn frame_commands(state: EditorState, size: Vector) -> Seq<CommandView> {
    seq![CommandView::HideCaret] + if state.quitting {
        seq![
            CommandView::ClearScreen,
            CommandView::MoveCaretTo(Vector { x: 0, y: 0 }),
            CommandView::Print(EXIT_MESSAGE@),
        ]
    } else {
        render_commands(state.lines, size).push(CommandView::MoveCaretTo(state.caret))
    } + seq![CommandView::ShowCaret]
}

/// Whether `caret` is a cell of a viewport of `size`.
pub open spec fn in_viewport(caret: Vector, size: Vector) -> bool {
    caret.x < size.x && caret.y < size.y
}

/// Whether pressing the navigation key `key` takes `caret` to a cell of a
/// viewport of `size`. The viewport must have a cell at all. The coordinate
/// that the key leaves alone must be inside already. `Up` and `Left` step
/// toward the origin and clamp only there, so for them the coordinate that
/// changes must be at most one step outside; the other six keys clamp it.
pub open spec fn lands_in_viewport(caret: Vector, key: KeyCode, size: Vector) -> bool {
    &&& size.x > 0
    &&& size.y > 0
    &&& key is Up || key is Down || key is PageUp || key is PageDown ==> caret.x < size.x
    &&& key is Left || key is Right || key is Home || key is End ==> caret.y < size.y
    &&& key is Up ==> caret.y <= size.y
    &&& key is Left ==> caret.x <= size.x
}

/// A caret inside the viewport stays inside, whatever key is pressed:
/// neither coordinate wraps around or passes the last column or row.
pub proof fn lemma_move_keeps_caret_in_viewport(caret: Vector, key: KeyCode, size: Vector)
    requires
        in_viewport(caret, size),
    ensures
        in_viewport(moved(caret, key, size), size),
{
}

/// After a navigation key that lands in the viewport, the caret is a cell of
/// the viewport, also where it was outside before.
pub proof fn lemma_move_lands_in_viewport(caret: Vector, key: KeyCode, size: Vector)
    requires
        key.is_navigation(),
        lands_in_viewport(caret, key, size),
    ensures
        in_viewport(moved(caret, key, size), size),
{
}

/// Where a navigation key does not land in the viewport, the caret is
/// outside after it: the viewport has no cell, or the caret was outside on a
/// coordinate that the key does not clamp.
pub proof fn lemma_move_stays_outside_viewport(caret: Vector, key: KeyCode, size: Vector)
    requires
        key.is_navigation(),
        !lands_in_viewport(caret, key, size),
    ensures
        !in_viewport(moved(caret, key, size), size),
{
}

/// Pressing `Home`, `End`, `PageUp` or `PageDown` twice leaves the caret
/// where pressing it once does.
pub proof fn lemma_jump_twice_as_once(caret: Vector, key: KeyCode, size: Vector)
    requires
        key is Home || key is End || key is PageUp || key is PageDown,
    ensures
        moved(moved(caret, key, size), key, size) == moved(caret, key, size),
{
}

/// Only a navigation key looks at the viewport: after any other event the
/// state is the same whatever the size.
pub proof fn lemma_size_matters_to_moves_only(
    state: EditorState,
    event: Event,
    size: Vector,
    other_size: Vector,
)
    requires
        !event.is_navigation(),
    ensures
        evaluated(state, event, size) == evaluated(state, event, other_size),
{
}

/// A quitting editor stays as it is, whatever event arrives.
pub proof fn lemma_quitting_is_final(state: EditorState, event: Event, size: Vector)
    requires
        state.quitting,
    ensures
        evaluated(state, event, size) == state,
{
}

/// The editor: the text, the caret and the quit flag.
pub struct Editor {
    view: View,
    caret_location: Vector,
    quit: bool,
}

impl vstd::view::View for Editor {
    type V = EditorState;

    closed spec fn view(&self) -> EditorState {
        EditorState { lines: self.view@, caret: self.caret_location, quitting: self.quit }
    }
}

impl Editor {
    /// A running editor with an empty buffer and the caret at the origin.
    pub fn default() -> (editor: Editor)
        ensures
            editor@ == (EditorState {
                lines: Seq::empty(),
                caret: Vector { x: 0, y: 0 },
                quitting: false,
            }),
    {
        Editor { view: View::default(), caret_location: Vector { x: 0, y: 0 }, quit: false }
    }

    /// Replaces the buffer by the lines of `source`.
    pub fn load(&mut self, source: &str)
        ensures
            final(self)@ == (EditorState { lines: split_lines(source@), ..old(self)@ }),
    {
        self.view.load(source);
    }

    /// Moves the caret as `key_code` says, in a viewport of `size`.
    pub fn move_point(&mut self, key_code: KeyCode, size: Vector)
        ensures
            final(self)@ == (EditorState {
                caret: moved(old(self)@.caret, key_code, size),
                ..old(self)@
            }),
    {
        let Vector { mut x, mut y } = self.caret_location;
        let last_column = if size.x > 0 {
            size.x - 1
        } else {
            0
        };
        let last_row = if size.y > 0 {
            size.y - 1
        } else {
            0
        };
        match key_code {
            KeyCode::Up => {
                if y > 0 {
                    y = y - 1;
                }
            },
            KeyCode::Down => {
                y = if y < last_row {
                    y + 1
                } else {
                    last_row
                };
            },
            KeyCode::Left => {
                if x > 0 {
                    x = x - 1;
                }
            },
            KeyCode::Right => {
                x = if x < last_column {
                    x + 1
                } else {
                    last_column
                };
            },
            KeyCode::PageUp => {
                y = 0;
            },
            KeyCode::PageDown => {
                y = last_row;
            },
            KeyCode::Home => {
                x = 0;
            },
            KeyCode::End => {
                x = last_column;
            },
            _ => (),
        }
        self.caret_location = Vector { x, y };
    }

    /// Takes one event in, in a viewport of `size`.
    pub fn evaluate_event(&mut self, event: &Event, size: Vector)
        ensures
            final(self)@ == evaluated(old(self)@, *event, size),
    {
        if self.quit {
            return ;
        }
        if let Event::Key(key) = event {
            if key.quits() {
                self.quit = true;
            } else if key.code.moves_caret() {
                self.move_point(key.code, size);
            } else if let Some(chr) = key.typed_char() {
                self.caret_location = self.view.write(&chr, self.caret_location.y);
            }
        }
    }

    /// Draws one frame in a viewport of `size` and hands it out as one batch,
    /// behind whatever was queued before.
    pub fn refresh_screen(&self, terminal: &mut Terminal, size: Vector) -> (batch: Vec<Command>)
        ensures
            terminal::views(batch@) == old(terminal)@ + frame_commands(self@, size),
            final(terminal)@ == Seq::<CommandView>::empty(),
    {
        let ghost before = terminal@;
        terminal.hide_cursor();
        if self.quit {
            terminal.clear_screen();
            terminal.move_cursor_to(Vector { x: 0, y: 0 });
            terminal.print(EXIT_MESSAGE);
        } else {
            self.view.render(terminal, size);
            terminal.move_cursor_to(self.caret_location);
        }
        terminal.show_cursor();
        assert(terminal@ =~= before + frame_commands(self@, size));
        terminal.execute()
    }

    /// The text that is edited.
    pub fn text(&self) -> (text: &View)
        ensures
            text@ == self@.lines,
    {
        &self.view
    }

    /// The cell that the caret is in.
    pub fn caret_location(&self) -> (caret: Vector)
        ensures
            caret == self@.caret,
    {
        self.caret_location
    }

    /// Whether the editor is quitting: the frame drawn in that state is the last.
    pub fn is_quitting(&self) -> (quitting: bool)
        ensures
            quitting == self@.quitting,
    {
        self.quit
    }
}

} // verus!
