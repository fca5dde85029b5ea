use hecto::command::Command;
use hecto::geometry::{Position, Size};
use hecto::terminal::Terminal;
use hecto::view::{render, welcome, welcome_line};

fn spaces(n: usize) -> String {
    " ".repeat(n)
}

#[test]
fn banner_centres_a_short_message() {
    // (20 - 4) / 2 = 8 columns of padding, one of them taken by the marker.
    let line = welcome_line(20, "abcd");
    assert_eq!(line, format!("~{}abcd", spaces(7)));
    assert_eq!(line.chars().count(), 12);
}

#[test]
fn banner_on_eighty_columns() {
    let message = "hecto editor -- version 0.1.0";
    assert_eq!(message.chars().count(), 29);
    // (80 - 29) / 2 = 25 columns of padding: the marker and 24 spaces.
    let line = welcome(80);
    assert_eq!(line, format!("~{}{}", spaces(24), message));
    assert_eq!(line.chars().count(), 1 + 24 + 29);
    assert_eq!(welcome_line(80, message), line);
}

#[test]
fn banner_on_a_narrow_screen_is_cut() {
    let line = welcome(10);
    assert_eq!(line, "~hecto edi");
    assert_eq!(line.chars().count(), 10);
    let message = "hecto editor -- version 0.1.0!";
    assert_eq!(message.chars().count(), 30);
    assert_eq!(welcome_line(10, message), "~hecto edi");
}

#[test]
fn banner_with_no_room_for_padding() {
    // Width equal to the message: no spaces, and the last character is cut.
    assert_eq!(welcome_line(4, "abcd"), "~abc");
    // One spare column: still no spaces.
    assert_eq!(welcome_line(5, "abcd"), "~abcd");
    // Two spare columns: one column of padding, taken by the marker.
    assert_eq!(welcome_line(6, "abcd"), "~abcd");
    assert_eq!(welcome_line(8, "abcd"), "~ abcd");
    assert_eq!(welcome_line(0, "abcd"), "");
}

#[test]
fn render_draws_marker_rows_and_banner() {
    let mut term = Terminal::new();
    render(&mut term, Size { width: 80, height: 24 }, true);
    let cmds = term.execute();
    assert_eq!(cmds.len(), 2 * 24 + 1);
    for row in 0..24 {
        assert_eq!(cmds[2 * row], Command::ClearLine);
        let text = if row == 8 { welcome(80) } else { "~".to_string() };
        let expected = if row < 23 { format!("{}\r\n", text) } else { text };
        assert_eq!(cmds[2 * row + 1], Command::Print(expected));
    }
    assert_eq!(cmds[48], Command::Flush);
}

#[test]
fn render_without_banner() {
    let mut term = Terminal::new();
    render(&mut term, Size { width: 5, height: 3 }, false);
    let cmds = term.execute();
    assert_eq!(
        cmds,
        vec![
            Command::ClearLine,
            Command::Print("~\r\n".to_string()),
            Command::ClearLine,
            Command::Print("~\r\n".to_string()),
            Command::ClearLine,
            Command::Print("~".to_string()),
            Command::Flush,
        ]
    );
}

#[test]
fn terminal_buffers_until_execute() {
    let mut term = Terminal::new();
    term.initialize();
    term.hide_cursor();
    term.move_cursor_to(Position { col: 3, row: 4 });
    term.print("hi".to_string());
    term.clear_line();
    term.show_cursor();
    term.terminate();
    let cmds = term.execute();
    assert_eq!(
        cmds,
        vec![
            Command::EnableRawMode,
            Command::ClearAll,
            Command::MoveTo(Position { col: 0, row: 0 }),
            Command::HideCursor,
            Command::MoveTo(Position { col: 3, row: 4 }),
            Command::Print("hi".to_string()),
            Command::ClearLine,
            Command::ShowCursor,
            Command::DisableRawMode,
            Command::Flush,
        ]
    );
    assert_eq!(term.execute(), vec![Command::Flush]);
}
