use tedit::editor::terminal::{Command, Terminal, Vector};
use tedit::editor::view::{View, BANNER_AUTHOR, BANNER_NAME, BANNER_VERSION};

fn print(text: &str) -> Command {
    Command::Print(String::from(text))
}

fn go(x: usize, y: usize) -> Command {
    Command::MoveCaretTo(Vector { x, y })
}

fn rendered(view: &View, width: usize, height: usize) -> Vec<Command> {
    let mut terminal = Terminal::new();
    view.render(&mut terminal, Vector { x: width, y: height });
    terminal.execute()
}

#[test]
fn default_view_has_no_lines() {
    assert_eq!(View::default().lines(), &Vec::<String>::new());
}

#[test]
fn write_three_characters_at_row_zero() {
    let mut view = View::default();
    assert_eq!(view.write(&'a', 0), Vector { x: 1, y: 0 });
    assert_eq!(view.write(&'b', 0), Vector { x: 2, y: 0 });
    assert_eq!(view.write(&'c', 0), Vector { x: 3, y: 0 });
    assert_eq!(view.lines(), &vec![String::from("abc")]);
}

#[test]
fn write_pads_with_empty_lines() {
    let mut view = View::default();
    assert_eq!(view.write(&'x', 5), Vector { x: 1, y: 5 });
    assert_eq!(
        view.lines(),
        &vec![
            String::new(),
            String::new(),
            String::new(),
            String::new(),
            String::new(),
            String::from("x"),
        ]
    );
}

#[test]
fn write_appends_to_an_existing_line() {
    let mut view = View::default();
    view.load("first\nsecond\nthird\n");
    assert_eq!(view.write(&'!', 1), Vector { x: 7, y: 1 });
    assert_eq!(
        view.lines(),
        &vec![String::from("first"), String::from("second!"), String::from("third")]
    );
}

#[test]
fn write_just_behind_the_last_line_adds_one_line() {
    let mut view = View::default();
    view.load("first\n");
    assert_eq!(view.write(&'s', 1), Vector { x: 1, y: 1 });
    assert_eq!(view.lines(), &vec![String::from("first"), String::from("s")]);
}

#[test]
fn write_counts_characters_not_bytes() {
    let mut view = View::default();
    assert_eq!(view.write(&'é', 0), Vector { x: 1, y: 0 });
    assert_eq!(view.write(&'日', 0), Vector { x: 2, y: 0 });
    assert_eq!(view.lines(), &vec![String::from("é日")]);
}

#[test]
fn load_replaces_the_buffer() {
    let mut view = View::default();
    view.write(&'x', 3);
    view.load("one\r\ntwo");
    assert_eq!(view.lines(), &vec![String::from("one"), String::from("two")]);
    view.load("");
    assert_eq!(view.lines(), &Vec::<String>::new());
}

#[test]
fn banner_lines_end_in_a_carriage_return_behind_their_cells() {
    assert_eq!(BANNER_NAME, "tedit: a friendly text-editor in Rust\r");
    assert_eq!(BANNER_VERSION, "v0.1.0\r");
    assert_eq!(BANNER_AUTHOR, "by Saksham Dhull\r");
    assert_eq!(BANNER_NAME.trim_end_matches('\r').chars().count(), 37);
    assert_eq!(BANNER_VERSION.trim_end_matches('\r').chars().count(), 6);
    assert_eq!(BANNER_AUTHOR.trim_end_matches('\r').chars().count(), 16);
}

#[test]
fn banner_lines_start_at_half_of_what_their_cells_leave_free() {
    for width in [0, 1, 5, 6, 7, 8, 15, 16, 17, 18, 36, 37, 38, 39, 40, 79, 80, 81, 200] {
        let mut terminal = Terminal::new();
        View::render_welcome_message(&mut terminal, Vector { x: width, y: 24 });
        let commands = terminal.execute();
        let lengths = [37, 6, 16];
        for line in 0..3 {
            let length = lengths[line];
            let column = if length <= width { (width - length) / 2 } else { 0 };
            assert_eq!(commands[2 * line], go(column, 7 + line), "width {}", width);
        }
    }
}

#[test]
fn empty_buffer_renders_fillers_and_banner() {
    let commands = rendered(&View::default(), 80, 24);
    let mut expected = Vec::new();
    for row in 0..24 {
        expected.push(go(0, row));
        expected.push(Command::ClearLine);
        expected.push(print("~"));
        if row < 23 {
            expected.push(print("\r\n"));
        }
    }
    expected.push(go(21, 7));
    expected.push(print(BANNER_NAME));
    expected.push(go(37, 8));
    expected.push(print(BANNER_VERSION));
    expected.push(go(32, 9));
    expected.push(print(BANNER_AUTHOR));
    assert_eq!(commands, expected);
}

#[test]
fn render_welcome_message_centers_three_lines() {
    let mut terminal = Terminal::new();
    View::render_welcome_message(&mut terminal, Vector { x: 80, y: 24 });
    assert_eq!(
        terminal.execute(),
        vec![
            go(21, 7),
            print("tedit: a friendly text-editor in Rust\r"),
            go(37, 8),
            print("v0.1.0\r"),
            go(32, 9),
            print("by Saksham Dhull\r"),
        ]
    );
}

#[test]
fn render_welcome_message_rounds_down() {
    let mut terminal = Terminal::new();
    View::render_welcome_message(&mut terminal, Vector { x: 41, y: 10 });
    assert_eq!(
        terminal.execute(),
        vec![
            go(2, 2),
            print(BANNER_NAME),
            go(17, 3),
            print(BANNER_VERSION),
            go(12, 4),
            print(BANNER_AUTHOR),
        ]
    );
}

#[test]
fn render_welcome_message_in_a_narrow_viewport_starts_at_the_first_column() {
    let mut terminal = Terminal::new();
    View::render_welcome_message(&mut terminal, Vector { x: 10, y: 24 });
    assert_eq!(
        terminal.execute(),
        vec![
            go(0, 7),
            print(BANNER_NAME),
            go(2, 8),
            print(BANNER_VERSION),
            go(0, 9),
            print(BANNER_AUTHOR),
        ]
    );
}

#[test]
fn render_welcome_message_in_a_low_viewport_stays_on_the_screen() {
    let mut terminal = Terminal::new();
    View::render_welcome_message(&mut terminal, Vector { x: 80, y: 2 });
    assert_eq!(
        terminal.execute(),
        vec![
            go(21, 0),
            print(BANNER_NAME),
            go(37, 0),
            print(BANNER_VERSION),
            go(32, 1),
            print(BANNER_AUTHOR),
        ]
    );
}

#[test]
fn render_welcome_message_in_an_empty_viewport() {
    let mut terminal = Terminal::new();
    View::render_welcome_message(&mut terminal, Vector { x: 0, y: 0 });
    assert_eq!(
        terminal.execute(),
        vec![
            go(0, 0),
            print(BANNER_NAME),
            go(0, 0),
            print(BANNER_VERSION),
            go(0, 1),
            print(BANNER_AUTHOR),
        ]
    );
}

#[test]
fn render_welcome_message_in_the_largest_viewport() {
    let mut terminal = Terminal::new();
    View::render_welcome_message(&mut terminal, Vector { x: usize::MAX, y: usize::MAX });
    let third = usize::MAX / 3;
    assert_eq!(
        terminal.execute(),
        vec![
            go((usize::MAX - 37) / 2, third - 1),
            print(BANNER_NAME),
            go((usize::MAX - 6) / 2, third),
            print(BANNER_VERSION),
            go((usize::MAX - 16) / 2, third + 1),
            print(BANNER_AUTHOR),
        ]
    );
}

#[test]
fn render_prints_lines_and_then_fillers() {
    let mut view = View::default();
    view.load("one\ntwo\n");
    assert_eq!(
        rendered(&view, 80, 4),
        vec![
            go(0, 0),
            Command::ClearLine,
            print("one"),
            print("\r\n"),
            go(0, 1),
            Command::ClearLine,
            print("two"),
            print("\r\n"),
            go(0, 2),
            Command::ClearLine,
            print("~"),
            print("\r\n"),
            go(0, 3),
            Command::ClearLine,
            print("~"),
        ]
    );
}

#[test]
fn render_prints_no_terminator_behind_the_last_row() {
    let mut view = View::default();
    view.load("one\ntwo\nthree\n");
    assert_eq!(
        rendered(&view, 80, 2),
        vec![
            go(0, 0),
            Command::ClearLine,
            print("one"),
            print("\r\n"),
            go(0, 1),
            Command::ClearLine,
            print("two"),
        ]
    );
}

#[test]
fn render_of_one_row() {
    let mut view = View::default();
    view.load("one\n");
    assert_eq!(rendered(&view, 80, 1), vec![go(0, 0), Command::ClearLine, print("one")]);
}

#[test]
fn render_in_a_viewport_without_rows_draws_nothing_for_a_buffer_with_lines() {
    let mut view = View::default();
    view.load("one\n");
    assert_eq!(rendered(&view, 80, 0), Vec::<Command>::new());
}

#[test]
fn render_in_a_viewport_without_rows_draws_only_the_banner_for_an_empty_buffer() {
    assert_eq!(
        rendered(&View::default(), 80, 0),
        vec![
            go(21, 0),
            print(BANNER_NAME),
            go(37, 0),
            print(BANNER_VERSION),
            go(32, 1),
            print(BANNER_AUTHOR),
        ]
    );
}

#[test]
fn render_of_a_buffer_with_one_empty_line_draws_no_banner() {
    let mut view = View::default();
    view.load("\n");
    assert_eq!(
        rendered(&view, 80, 2),
        vec![
            go(0, 0),
            Command::ClearLine,
            print(""),
            print("\r\n"),
            go(0, 1),
            Command::ClearLine,
            print("~"),
        ]
    );
}

#[test]
fn render_comes_behind_what_was_queued() {
    let mut terminal = Terminal::new();
    terminal.hide_cursor();
    let mut view = View::default();
    view.load("x");
    view.render(&mut terminal, Vector { x: 5, y: 1 });
    assert_eq!(
        terminal.execute(),
        vec![Command::HideCaret, go(0, 0), Command::ClearLine, print("x")]
    );
}
