//! The terminal adapter: a queue of commands that is handed out in batches.

use vstd::prelude::*;

verus! {

/// A column and a row. It names a cell of the terminal grid, or gives the size
/// of the grid (`x` columns, `y` rows).
#[derive(Copy, Clone, Debug, PartialEq, Eq, Structural)]
pub struct Vector {
    pub x: usize,
    pub y: usize,
}

/// One instruction for the terminal.
#[derive(Debug, PartialEq, Eq)]
pub enum Command {
    /// Switch the terminal to raw input mode.
    EnterRawMode,
    /// Switch the terminal back to cooked input mode.
    LeaveRawMode,
    /// Clear the whole screen.
    ClearScreen,
    /// Clear the line that the caret is on.
    ClearLine,
    /// Move the caret to a cell.
    MoveCaretTo(Vector),
    /// Hide the caret.
    HideCaret,
    /// Show the caret.
    ShowCaret,
    /// Print text at the caret.
    Print(String),
}

/// The mathematical value of a [`Command`]: the same instruction, with printed
/// text as a sequence of characters.
pub enum CommandView {
    EnterRawMode,
    LeaveRawMode,
    ClearScreen,
    ClearLine,
    MoveCaretTo(Vector),
    HideCaret,
    ShowCaret,
    Print(Seq<char>),
}

impl View for Command {
    type V = CommandView;

    open spec fn view(&self) -> CommandView {
        match *self {
            Command::EnterRawMode => CommandView::EnterRawMode,
            Command::LeaveRawMode => CommandView::LeaveRawMode,
            Command::ClearScreen => CommandView::ClearScreen,
            Command::ClearLine => CommandView::ClearLine,
            Command::MoveCaretTo(position) => CommandView::MoveCaretTo(position),
            Command::HideCaret => CommandView::HideCaret,
            Command::ShowCaret => CommandView::ShowCaret,
            Command::Print(text) => CommandView::Print(text@),
        }
    }
}

/// The values of a sequence of commands, in the same order.
pub open spec fn views(commands: Seq<Command>) -> Seq<CommandView> {
    commands.map_values(|command: Command| command@)
}

/// The terminal as the editor sees it: the commands queued since the last
/// batch was handed out. Nothing reaches the screen before [`Terminal::execute`]
/// hands the batch to the caller.
pub struct Terminal {
    queue: Vec<Command>,
}

impl View for Terminal {
    type V = Seq<CommandView>;

    closed spec fn view(&self) -> Seq<CommandView> {
        views(self.queue@)
    }
}

impl Terminal {
    /// A terminal with nothing queued.
    pub fn new() -> (terminal: Terminal)
        ensures
            terminal@ == Seq::<CommandView>::empty(),
    {
        let terminal = Terminal { queue: Vec::new() };
        assert(terminal@ =~= Seq::<CommandView>::empty());
        terminal
    }

    fn queue_command(&mut self, command: Command)
        ensures
            final(self)@ == old(self)@.push(command@),
    {
        self.queue.push(command);
        assert(self@ =~= old(self)@.push(command@));
    }

    /// Queues a command that clears the whole screen.
    pub fn clear_screen(&mut self)
        ensures
            final(self)@ == old(self)@.push(CommandView::ClearScreen),
    {
        self.queue_command(Command::ClearScreen);
    }

    /// Queues a command that clears the caret's line.
    pub fn clear_line(&mut self)
        ensures
            final(self)@ == old(self)@.push(CommandView::ClearLine),
    {
        self.queue_command(Command::ClearLine);
    }

    /// Queues a command that moves the caret to `position`.
    pub fn move_cursor_to(&mut self, position: Vector)
        ensures
            final(self)@ == old(self)@.push(CommandView::MoveCaretTo(position)),
    {
        self.queue_command(Command::MoveCaretTo(position));
    }

    /// Queues a command that hides the caret.
    pub fn hide_cursor(&mut self)
        ensures
            final(self)@ == old(self)@.push(CommandView::HideCaret),
    {
        self.queue_command(Command::HideCaret);
    }

    /// Queues a command that shows the caret.
    pub fn show_cursor(&mut self)
        ensures
            final(self)@ == old(self)@.push(CommandView::ShowCaret),
    {
        self.queue_command(Command::ShowCaret);
    }

    /// Queues a command that prints `string` at the caret.
    pub fn print(&mut self, string: &str)
        ensures
            final(self)@ == old(self)@.push(CommandView::Print(string@)),
    {
        self.queue_command(Command::Print(string.to_owned()));
    }

    /// Queues a move to `position` and then the printing of `string` there.
    pub fn print_at_position(&mut self, position: Vector, string: &str)
        ensures
            final(self)@ == old(self)@.push(CommandView::MoveCaretTo(position)).push(
                CommandView::Print(string@),
            ),
    {
        self.move_cursor_to(position);
        self.print(string);
    }

    /// Hands out everything queued so far as one batch, in the order in which
    /// it was queued, and leaves the queue empty. The caller writes the batch
    /// to the terminal and flushes, so that a frame appears at once.
    pub fn execute(&mut self) -> (batch: Vec<Command>)
        ensures
            views(batch@) == old(self)@,
            final(self)@ == Seq::<CommandView>::empty(),
    {
        let mut batch: Vec<Command> = Vec::new();
        std::mem::swap(&mut self.queue, &mut batch);
        assert(self@ =~= Seq::<CommandView>::empty());
        batch
    }

    /// Starts a session: raw input mode, a clear screen and the caret at the
    /// origin, handed out as one batch behind whatever was queued before.
    pub fn initialize(&mut self) -> (batch: Vec<Command>)
        ensures
            views(batch@) == old(self)@.push(CommandView::EnterRawMode).push(
                CommandView::ClearScreen,
            ).push(CommandView::MoveCaretTo(Vector { x: 0, y: 0 })),
            final(self)@ == Seq::<CommandView>::empty(),
    {
        self.queue_command(Command::EnterRawMode);
        self.clear_screen();
        self.move_cursor_to(Vector { x: 0, y: 0 });
        self.execute()
    }

    /// Ends a session: whatever is still queued, and then the return to cooked
    /// input mode, handed out as one batch.
    pub fn terminate(&mut self) -> (batch: Vec<Command>)
        ensures
            views(batch@) == old(self)@.push(CommandView::LeaveRawMode),
            final(self)@ == Seq::<CommandView>::empty(),
    {
        self.queue_command(Command::LeaveRawMode);
        self.execute()
    }
}

} // verus!
