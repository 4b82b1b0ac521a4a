use tuishell::cursor::Cursor;
use tuishell::intent::Message;
use tuishell::reducer::{finish_submit, update, Effect};
use tuishell::session::{Mode, Model, Output, RunningState};

fn chars(s: &str) -> Vec<char> {
    s.chars().collect()
}

fn text(v: &[char]) -> String {
    v.iter().collect()
}

/// Types `s` into the model through the reducer, one character at a time.
fn type_chars(m: &mut Model, s: &str) {
    for c in s.chars() {
        let effect = update(m, Message::WriteCommandChar(c));
        assert!(effect.is_none());
    }
}

/// Submits the current buffer and completes the step with the given executor
/// outcome.
fn submit(m: &mut Model, outcome: Option<&str>) {
    let effect = update(m, Message::Submit);
    match effect {
        Some(Effect::Execute(_)) => {}
        None => panic!("submit must ask for an execution"),
    }
    finish_submit(m, outcome.map(chars));
}

#[test]
fn submit_echo_appends_output_and_history() {
    let mut m = Model::default();
    m.height = 10;
    type_chars(&mut m, "echo hi");
    let effect = update(&mut m, Message::Submit);
    match effect {
        Some(Effect::Execute(cmd)) => assert_eq!(text(&cmd), "echo hi"),
        None => panic!("submit must ask for an execution"),
    }
    finish_submit(&mut m, Some(chars("hi\n")));
    assert_eq!(m.outputs.len(), 1);
    assert_eq!(text(&m.outputs[0].stdout), "hi\n");
    assert_eq!(text(&m.outputs[0].command), "echo hi");
    assert_eq!(m.viewing_output, 0);
    assert_eq!(m.previous_commands.len(), 1);
    assert_eq!(text(&m.previous_commands[0]), "echo hi");
}

#[test]
fn submit_failed_spawn_records_history_only() {
    let mut m = Model::default();
    type_chars(&mut m, "nosuchprogram");
    submit(&mut m, None);
    assert_eq!(m.outputs.len(), 0);
    assert_eq!(m.previous_commands.len(), 1);
    assert_eq!(text(&m.previous_commands[0]), "nosuchprogram");
}

#[test]
fn submit_resets_command_line() {
    let mut m = Model::default();
    type_chars(&mut m, "pwd");
    submit(&mut m, Some("/\n"));
    assert_eq!(m.current_command.len(), 0);
    assert_eq!(m.viewing_command, None);
    assert_eq!(m.cursor, Cursor::CommandLine(0));
}

#[test]
fn submit_empty_command_still_recorded() {
    let mut m = Model::default();
    submit(&mut m, None);
    assert_eq!(m.previous_commands.len(), 1);
    assert_eq!(text(&m.previous_commands[0]), "");
    assert_eq!(m.outputs.len(), 0);
}

#[test]
fn history_walk_returns_to_live_buffer() {
    let mut m = Model::default();
    for cmd in ["a", "b", "c"] {
        type_chars(&mut m, cmd);
        submit(&mut m, None);
    }
    type_chars(&mut m, "live");
    update(&mut m, Message::Normal);
    for expected in [Some(2), Some(1), Some(0)] {
        update(&mut m, Message::OutCommand);
        assert_eq!(m.viewing_command, expected);
        assert_eq!(text(&m.current_command), "live");
    }
    for expected in [Some(1), Some(2), None] {
        update(&mut m, Message::InCommand);
        assert_eq!(m.viewing_command, expected);
        assert_eq!(text(&m.current_command), "live");
    }
}

#[test]
fn in_command_without_peek_changes_nothing() {
    let mut m = Model::default();
    type_chars(&mut m, "keep");
    update(&mut m, Message::Normal);
    for _ in 0..3 {
        update(&mut m, Message::InCommand);
        assert_eq!(m.viewing_command, None);
        assert_eq!(text(&m.current_command), "keep");
    }
}

#[test]
fn out_command_saturates_at_oldest_entry() {
    let mut m = Model::default();
    for cmd in ["a", "b"] {
        type_chars(&mut m, cmd);
        submit(&mut m, None);
    }
    update(&mut m, Message::Normal);
    for expected in [Some(1), Some(0), Some(0)] {
        update(&mut m, Message::OutCommand);
        assert_eq!(m.viewing_command, expected);
    }
}

#[test]
fn editing_collapses_peek_into_live_buffer() {
    let mut m = Model::default();
    type_chars(&mut m, "first");
    submit(&mut m, None);
    update(&mut m, Message::Normal);
    update(&mut m, Message::OutCommand);
    assert_eq!(m.viewing_command, Some(0));
    update(&mut m, Message::InsertAfterLine);
    update(&mut m, Message::WriteCommandChar('!'));
    assert_eq!(m.viewing_command, None);
    assert_eq!(text(&m.current_command), "first!");
}

#[test]
fn backspace_collapses_peek_and_removes_before_cursor() {
    let mut m = Model::default();
    type_chars(&mut m, "abc");
    submit(&mut m, None);
    update(&mut m, Message::Normal);
    update(&mut m, Message::OutCommand);
    update(&mut m, Message::InsertAfterLine);
    update(&mut m, Message::Backspace);
    assert_eq!(m.viewing_command, None);
    assert_eq!(text(&m.current_command), "ab");
    assert_eq!(m.cursor, Cursor::CommandLine(2));
}

#[test]
fn down_from_bottom_row_crosses_to_command_line() {
    let mut m = Model::default();
    m.mode = Mode::Normal;
    m.height = 8;
    m.cursor = Cursor::OutputPane(2, 7);
    update(&mut m, Message::Down);
    assert_eq!(m.cursor, Cursor::CommandLine(2));
}

#[test]
fn down_inside_pane_moves_one_row() {
    let mut m = Model::default();
    m.mode = Mode::Normal;
    m.height = 8;
    m.cursor = Cursor::OutputPane(1, 3);
    update(&mut m, Message::Down);
    assert_eq!(m.cursor, Cursor::OutputPane(1, 4));
}

#[test]
fn up_from_command_line_jumps_to_bottom_row() {
    let mut m = Model::default();
    m.mode = Mode::Normal;
    m.height = 8;
    m.cursor = Cursor::CommandLine(5);
    update(&mut m, Message::Up);
    assert_eq!(m.cursor, Cursor::OutputPane(5, 7));
    update(&mut m, Message::Up);
    assert_eq!(m.cursor, Cursor::OutputPane(5, 6));
}

#[test]
fn scroll_down_then_up_round_trip() {
    let mut m = Model::default();
    m.mode = Mode::Normal;
    m.outputs.push(Output { command: chars("x"), stdout: chars("one\ntwo\n"), scroll: (0, 0) });
    update(&mut m, Message::ScrollDown);
    assert_eq!(m.outputs[0].scroll, (10, 0));
    update(&mut m, Message::ScrollUp);
    assert_eq!(m.outputs[0].scroll, (0, 0));
    update(&mut m, Message::ScrollUp);
    assert_eq!(m.outputs[0].scroll, (0, 0));
}

#[test]
fn scroll_without_output_is_a_no_op() {
    let mut m = Model::default();
    m.mode = Mode::Normal;
    update(&mut m, Message::ScrollDown);
    assert_eq!(m.outputs.len(), 0);
}

#[test]
fn output_navigation_clamps_to_range() {
    let mut m = Model::default();
    for cmd in ["a", "b"] {
        type_chars(&mut m, cmd);
        submit(&mut m, Some("out\n"));
    }
    update(&mut m, Message::Normal);
    assert_eq!(m.viewing_output, 1);
    for expected in [1usize, 1] {
        update(&mut m, Message::NextOutput);
        assert_eq!(m.viewing_output, expected);
    }
    for expected in [0usize, 0] {
        update(&mut m, Message::PreviousOutput);
        assert_eq!(m.viewing_output, expected);
    }
}

#[test]
fn output_navigation_is_no_op_when_empty() {
    let mut m = Model::default();
    m.mode = Mode::Normal;
    update(&mut m, Message::NextOutput);
    assert_eq!(m.viewing_output, 0);
    update(&mut m, Message::PreviousOutput);
    assert_eq!(m.viewing_output, 0);
}

#[test]
fn left_right_stay_within_displayed_text() {
    let mut m = Model::default();
    type_chars(&mut m, "ab");
    update(&mut m, Message::Normal);
    for _ in 0..4 {
        update(&mut m, Message::Right);
        match m.cursor {
            Cursor::CommandLine(x) => assert!(x <= 2),
            _ => panic!("cursor left the command line"),
        }
    }
    assert_eq!(m.cursor, Cursor::CommandLine(2));
    for _ in 0..4 {
        update(&mut m, Message::Left);
        match m.cursor {
            Cursor::CommandLine(x) => assert!(x <= 2),
            _ => panic!("cursor left the command line"),
        }
    }
    assert_eq!(m.cursor, Cursor::CommandLine(0));
}

#[test]
fn right_in_output_pane_is_capped_by_line_length() {
    let mut m = Model::default();
    m.mode = Mode::Normal;
    m.outputs.push(Output { command: chars("x"), stdout: chars("ab\nlonger\n"), scroll: (1, 0) });
    m.cursor = Cursor::OutputPane(0, 0);
    // row 0 plus vertical scroll 1 lands on "longer"
    for _ in 0..10 {
        update(&mut m, Message::Right);
    }
    assert_eq!(m.cursor, Cursor::OutputPane(6, 0));
}

#[test]
fn submit_scrolls_output_tail_into_view() {
    let mut m = Model::default();
    m.height = 3;
    type_chars(&mut m, "seq");
    submit(&mut m, Some("1\n2\n3\n4\n5\n"));
    assert_eq!(m.outputs[0].scroll, (2, 0));
}

#[test]
fn insert_before_and_after_cap_at_displayed_length() {
    let mut m = Model::default();
    type_chars(&mut m, "abcd");
    update(&mut m, Message::Normal);
    m.cursor = Cursor::OutputPane(9, 0);
    update(&mut m, Message::InsertBefore);
    assert_eq!(m.mode, Mode::Insert);
    assert_eq!(m.cursor, Cursor::CommandLine(4));
    update(&mut m, Message::Normal);
    m.cursor = Cursor::CommandLine(1);
    update(&mut m, Message::InsertAfter);
    assert_eq!(m.cursor, Cursor::CommandLine(2));
    update(&mut m, Message::Normal);
    update(&mut m, Message::InsertBeforeLine);
    assert_eq!(m.cursor, Cursor::CommandLine(0));
    update(&mut m, Message::Normal);
    update(&mut m, Message::InsertAfterLine);
    assert_eq!(m.cursor, Cursor::CommandLine(4));
}

#[test]
fn quit_reaches_terminal_state() {
    let mut m = Model::default();
    assert_eq!(m.running_state, RunningState::Running);
    update(&mut m, Message::Quit);
    assert_eq!(m.running_state, RunningState::Done);
}

#[test]
fn write_char_inserts_at_cursor_column() {
    let mut m = Model::default();
    type_chars(&mut m, "ac");
    update(&mut m, Message::Normal);
    update(&mut m, Message::Left);
    update(&mut m, Message::InsertBefore);
    assert_eq!(m.cursor, Cursor::CommandLine(1));
    update(&mut m, Message::WriteCommandChar('b'));
    assert_eq!(text(&m.current_command), "abc");
    assert_eq!(m.cursor, Cursor::CommandLine(2));
}
