use vstd::prelude::*;

use crate::cursor::Cursor;
use crate::intent::{allowed_in_mode, Message};
use crate::session::{Mode, Model, Output, OutputView, RunningState};
use crate::text::{line_at, line_count};

verus! {

/// An outside action the reducer asks its caller to perform: run the
/// submitted command line synchronously and hand the captured output back to
/// [`finish_submit`].
pub enum Effect {
    Execute(Vec<char>),
}

/// Fixed step, in lines, of the scroll intents.
pub const SCROLL_STEP: usize = 10;

// Relational descriptions of one reducer step, one per intent. Each pins the
// whole state after the step in terms of the state before it.

pub open spec fn same_logs(pre: Model, post: Model) -> bool {
    &&& post.outs() == pre.outs()
    &&& post.cmds() == pre.cmds()
    &&& post.viewing_output == pre.viewing_output
}

pub open spec fn same_buffer(pre: Model, post: Model) -> bool {
    &&& post.current_command@ == pre.current_command@
    &&& post.viewing_command == pre.viewing_command
}

pub open spec fn same_frame(pre: Model, post: Model) -> bool {
    &&& post.mode == pre.mode
    &&& post.running_state == pre.running_state
    &&& post.height == pre.height
}

/// Down moves the cursor one row down inside the output pane; from the bottom
/// row it crosses into the command line. On the command line it is ignored.
pub open spec fn down_rel(pre: Model, post: Model) -> bool {
    &&& post.cursor == (match pre.cursor {
        Cursor::CommandLine(_) => pre.cursor,
        Cursor::OutputPane(x, y) => if y + 1 >= pre.height {
            Cursor::CommandLine(x)
        } else {
            Cursor::OutputPane(x, (y + 1) as usize)
        },
    })
    &&& same_logs(pre, post)
    &&& same_buffer(pre, post)
    &&& same_frame(pre, post)
}

/// Up jumps from the command line to the bottom row of the output pane, and
/// inside the pane moves one row up, saturating at the top.
pub open spec fn up_rel(pre: Model, post: Model) -> bool {
    &&& post.cursor == (match pre.cursor {
        Cursor::CommandLine(x) => Cursor::OutputPane(x, pre.height.saturating_sub(1)),
        Cursor::OutputPane(x, y) => Cursor::OutputPane(x, y.saturating_sub(1)),
    })
    &&& same_logs(pre, post)
    &&& same_buffer(pre, post)
    &&& same_frame(pre, post)
}

pub open spec fn left_rel(pre: Model, post: Model) -> bool {
    &&& post.cursor == pre.cursor.spec_left()
    &&& same_logs(pre, post)
    &&& same_buffer(pre, post)
    &&& same_frame(pre, post)
}

/// The bound on rightward movement: the displayed command's length on the
/// command line, and the length of the output line under the cursor (scroll
/// included) in the output pane — zero when that line does not exist.
pub open spec fn right_cap(m: Model) -> usize {
    match m.cursor {
        Cursor::CommandLine(_) => m.displayed_cmd().len() as usize,
        Cursor::OutputPane(_, y) => if m.viewing_output < m.outs().len() {
            line_at(
                m.outs()[m.viewing_output as int].stdout,
                y.saturating_add(m.outs()[m.viewing_output as int].scroll.0) as nat,
            ).len() as usize
        } else {
            0usize
        },
    }
}

pub open spec fn right_rel(pre: Model, post: Model) -> bool {
    &&& post.cursor == pre.cursor.spec_right_capped(right_cap(pre))
    &&& same_logs(pre, post)
    &&& same_buffer(pre, post)
    &&& same_frame(pre, post)
}

/// Submit's in-state part: an active history peek is collapsed into the live
/// buffer; everything else waits for the executor's result.
pub open spec fn submit_rel(pre: Model, post: Model) -> bool {
    &&& post.current_command@ == pre.displayed_cmd()
    &&& post.viewing_command is None
    &&& post.cursor == pre.cursor
    &&& same_logs(pre, post)
    &&& same_frame(pre, post)
}

pub open spec fn quit_rel(pre: Model, post: Model) -> bool {
    &&& post.running_state is Done
    &&& post.cursor == pre.cursor
    &&& post.mode == pre.mode
    &&& post.height == pre.height
    &&& same_logs(pre, post)
    &&& same_buffer(pre, post)
}

/// The viewed output moves one forward, clamped to the last index; a no-op
/// when there are no outputs.
pub open spec fn next_output_rel(pre: Model, post: Model) -> bool {
    &&& post.viewing_output == (if pre.outs().len() == 0 {
        0usize
    } else if pre.viewing_output.saturating_add(1) < pre.outs().len() {
        pre.viewing_output.saturating_add(1)
    } else {
        (pre.outs().len() - 1) as usize
    })
    &&& post.outs() == pre.outs()
    &&& post.cmds() == pre.cmds()
    &&& post.cursor == pre.cursor
    &&& same_buffer(pre, post)
    &&& same_frame(pre, post)
}

/// The viewed output moves one back, saturating at the first; a no-op when
/// there are no outputs.
pub open spec fn previous_output_rel(pre: Model, post: Model) -> bool {
    &&& post.viewing_output == (if pre.outs().len() == 0 {
        0usize
    } else {
        pre.viewing_output.saturating_sub(1)
    })
    &&& post.outs() == pre.outs()
    &&& post.cmds() == pre.cmds()
    &&& post.cursor == pre.cursor
    &&& same_buffer(pre, post)
    &&& same_frame(pre, post)
}

/// A character is inserted at the cursor column (after an active peek was
/// collapsed into the live buffer), and the cursor moves right.
pub open spec fn write_char_rel(pre: Model, post: Model, c: char) -> bool {
    &&& post.current_command@ == pre.displayed_cmd().insert(pre.cursor.col(), c)
    &&& post.viewing_command is None
    &&& post.cursor == pre.cursor.spec_right()
    &&& same_logs(pre, post)
    &&& same_frame(pre, post)
}

/// The cursor moves left, then the character at the new column is removed
/// from the (collapsed) live buffer, if there is one.
pub open spec fn backspace_rel(pre: Model, post: Model) -> bool {
    &&& post.current_command@ == (if pre.cursor.spec_left().col() < pre.displayed_cmd().len() {
        pre.displayed_cmd().remove(pre.cursor.spec_left().col())
    } else {
        pre.displayed_cmd()
    })
    &&& post.viewing_command is None
    &&& post.cursor == pre.cursor.spec_left()
    &&& same_logs(pre, post)
    &&& same_frame(pre, post)
}

pub open spec fn normal_rel(pre: Model, post: Model) -> bool {
    &&& post.mode is Normal
    &&& post.running_state == pre.running_state
    &&& post.height == pre.height
    &&& post.cursor == pre.cursor
    &&& same_logs(pre, post)
    &&& same_buffer(pre, post)
}

/// Insert mode is entered with the cursor at the prior column, capped at the
/// displayed command's length.
pub open spec fn insert_before_rel(pre: Model, post: Model) -> bool {
    &&& post.mode is Insert
    &&& post.cursor == Cursor::CommandLine(
        (if pre.displayed_len() < pre.cursor.col() {
            pre.displayed_len()
        } else {
            pre.cursor.col()
        }) as usize,
    )
    &&& post.running_state == pre.running_state
    &&& post.height == pre.height
    &&& same_logs(pre, post)
    &&& same_buffer(pre, post)
}

/// Insert mode is entered with the cursor one past the prior column, capped
/// at the displayed command's length.
pub open spec fn insert_after_rel(pre: Model, post: Model) -> bool {
    &&& post.mode is Insert
    &&& post.cursor == Cursor::CommandLine(
        (if pre.displayed_len() < pre.cursor.col() + 1 {
            pre.displayed_len()
        } else {
            pre.cursor.col() + 1
        }) as usize,
    )
    &&& post.running_state == pre.running_state
    &&& post.height == pre.height
    &&& same_logs(pre, post)
    &&& same_buffer(pre, post)
}

pub open spec fn insert_before_line_rel(pre: Model, post: Model) -> bool {
    &&& post.mode is Insert
    &&& post.cursor == Cursor::CommandLine(0usize)
    &&& post.running_state == pre.running_state
    &&& post.height == pre.height
    &&& same_logs(pre, post)
    &&& same_buffer(pre, post)
}

pub open spec fn insert_after_line_rel(pre: Model, post: Model) -> bool {
    &&& post.mode is Insert
    &&& post.cursor == Cursor::CommandLine(pre.displayed_len() as usize)
    &&& post.running_state == pre.running_state
    &&& post.height == pre.height
    &&& same_logs(pre, post)
    &&& same_buffer(pre, post)
}

/// History peek moves one entry older, saturating at the oldest; with no
/// active peek it starts at the newest entry, if the history is non-empty.
pub open spec fn out_command_rel(pre: Model, post: Model) -> bool {
    &&& post.viewing_command == (match pre.viewing_command {
        Some(i) => Some(i.saturating_sub(1)),
        None => if pre.cmds().len() > 0 {
            Some((pre.cmds().len() - 1) as usize)
        } else {
            None
        },
    })
    &&& post.current_command@ == pre.current_command@
    &&& post.cursor == pre.cursor
    &&& same_logs(pre, post)
    &&& same_frame(pre, post)
}

/// History peek moves one entry newer; past the newest entry it returns to
/// the live buffer. With no active peek it does nothing.
pub open spec fn in_command_rel(pre: Model, post: Model) -> bool {
    &&& post.viewing_command == (match pre.viewing_command {
        Some(i) => if i + 1 >= pre.cmds().len() {
            None
        } else {
            Some((i + 1) as usize)
        },
        None => None,
    })
    &&& post.current_command@ == pre.current_command@
    &&& post.cursor == pre.cursor
    &&& same_logs(pre, post)
    &&& same_frame(pre, post)
}

/// The viewed output's vertical scroll moves by [`SCROLL_STEP`]; `down` says
/// in which direction, saturating at zero on the way up. A no-op when there
/// is no output.
pub open spec fn scroll_rel(pre: Model, post: Model, down: bool) -> bool {
    &&& post.outs() == (if pre.viewing_output < pre.outs().len() {
        pre.outs().update(
            pre.viewing_output as int,
            (OutputView {
                command: pre.outs()[pre.viewing_output as int].command,
                stdout: pre.outs()[pre.viewing_output as int].stdout,
                scroll: (
                    if down {
                        pre.outs()[pre.viewing_output as int].scroll.0.saturating_add(SCROLL_STEP)
                    } else {
                        pre.outs()[pre.viewing_output as int].scroll.0.saturating_sub(SCROLL_STEP)
                    },
                    pre.outs()[pre.viewing_output as int].scroll.1,
                ),
            }),
        )
    } else {
        pre.outs()
    })
    &&& post.cmds() == pre.cmds()
    &&& post.viewing_output == pre.viewing_output
    &&& post.cursor == pre.cursor
    &&& same_buffer(pre, post)
    &&& same_frame(pre, post)
}

/// Copy of a character buffer.
fn dup_chars(v: &Vec<char>) -> (r: Vec<char>)
    ensures
        r@ == v@,
{
    let r = v.clone();
    proof {
        assert forall|i: int| 0 <= i < v@.len() implies r@[i] == v@[i] by {
            assert(cloned::<char>(v[i], r[i]));
        }
        assert(r@ =~= v@);
    }
    r
}

/// Apply one intent to the session. This is the whole state machine except
/// for the executor call: on Submit the reducer collapses the history peek
/// and hands back an [`Effect`] naming the command line to run; the caller
/// performs it and completes the step through [`finish_submit`].
///
/// The contract pins every step exactly through the `_rel` descriptions; on
/// top of them it states the laws the machine keeps:
/// - buffer-editing intents always collapse an active peek into the live
///   buffer before acting;
/// - horizontal movement keeps a command-line cursor within the displayed
///   text;
/// - moving past the newest history entry leaves the peek cleared, and
///   repeating does nothing further;
/// - output navigation never leaves `[0, outputs.len() - 1]` and is a no-op
///   when there are no outputs.
pub fn update(model: &mut Model, msg: Message) -> (effect: Option<Effect>)
    requires
        old(model).wf(),
        allowed_in_mode(old(model).mode, msg),
    ensures
        final(model).wf(),
        msg is Down ==> down_rel(*old(model), *final(model)),
        msg is Up ==> up_rel(*old(model), *final(model)),
        msg is Left ==> left_rel(*old(model), *final(model)),
        msg is Right ==> right_rel(*old(model), *final(model)),
        msg is Submit ==> submit_rel(*old(model), *final(model)),
        msg is Quit ==> quit_rel(*old(model), *final(model)),
        msg is NextOutput ==> next_output_rel(*old(model), *final(model)),
        msg is PreviousOutput ==> previous_output_rel(*old(model), *final(model)),
        (msg matches Message::WriteCommandChar(c) ==> write_char_rel(
            *old(model),
            *final(model),
            c,
        )),
        msg is Backspace ==> backspace_rel(*old(model), *final(model)),
        msg is Normal ==> normal_rel(*old(model), *final(model)),
        msg is InsertBefore ==> insert_before_rel(*old(model), *final(model)),
        msg is InsertAfter ==> insert_after_rel(*old(model), *final(model)),
        msg is InsertBeforeLine ==> insert_before_line_rel(*old(model), *final(model)),
        msg is InsertAfterLine ==> insert_after_line_rel(*old(model), *final(model)),
        msg is OutCommand ==> out_command_rel(*old(model), *final(model)),
        msg is InCommand ==> in_command_rel(*old(model), *final(model)),
        msg is ScrollDown ==> scroll_rel(*old(model), *final(model), true),
        msg is ScrollUp ==> scroll_rel(*old(model), *final(model), false),
        // Only Submit asks for outside work: running the collapsed command.
        (effect matches Some(e) ==> msg is Submit),
        (msg is Submit ==> (effect matches Some(Effect::Execute(c))
            && c@ == old(model).displayed_cmd())),
        // Editing intents leave no peek behind.
        msg.spec_is_editing_command() ==> final(model).viewing_command is None,
        // Horizontal movement keeps a command-line cursor within the
        // displayed text.
        ((msg is Left || msg is Right) && (old(model).cursor matches Cursor::CommandLine(x) && x
            <= old(model).displayed_len()) ==> (final(model).cursor
            matches Cursor::CommandLine(x2) && x2 <= final(model).displayed_len())),
        // Moving the peek newer when none is active changes nothing.
        (msg is InCommand && old(model).viewing_command is None
            ==> (final(model).viewing_command is None
            && final(model).current_command@ == old(model).current_command@)),
        // Output navigation stays within range, and is a no-op when there
        // are no outputs.
        ((msg is NextOutput || msg is PreviousOutput)
            ==> ((old(model).outs().len() == 0
                ==> final(model).viewing_output == old(model).viewing_output)
            && (old(model).outs().len() > 0
                ==> final(model).viewing_output < old(model).outs().len()))),
{
    // Buffer-editing intents first materialize an active history peek into
    // the live buffer, so a held history view is never edited in place.
    if msg.is_editing_command() {
        if let Some(curr) = model.viewing_command {
            if curr < model.previous_commands.len() {
                model.current_command = dup_chars(&model.previous_commands[curr]);
            }
        }
        model.viewing_command = None;
    }
    match msg {
        Message::Down => {
            match model.cursor {
                Cursor::CommandLine(_) => {},
                Cursor::OutputPane(x, y) => {
                    let stepped: usize = y.saturating_add(1);
                    if stepped >= model.height {
                        model.cursor = Cursor::CommandLine(x);
                    } else {
                        model.cursor = Cursor::OutputPane(x, stepped);
                    }
                },
            }
            None
        },
        Message::Up => {
            match model.cursor {
                Cursor::CommandLine(x) => {
                    model.cursor = Cursor::OutputPane(x, model.height.saturating_sub(1));
                },
                Cursor::OutputPane(x, y) => {
                    model.cursor = Cursor::OutputPane(x, y.saturating_sub(1));
                },
            }
            None
        },
        Message::Left => {
            model.cursor.left();
            None
        },
        Message::Right => {
            let max: usize = match model.cursor {
                Cursor::CommandLine(_) => model.get_command_len(),
                Cursor::OutputPane(_, y) => {
                    if model.viewing_output < model.outputs.len() {
                        let o = &model.outputs[model.viewing_output];
                        crate::text::line_len_at(&o.stdout, y.saturating_add(o.scroll.0))
                    } else {
                        0
                    }
                },
            };
            model.cursor.right_capped(max);
            None
        },
        Message::Submit => {
            Some(Effect::Execute(dup_chars(&model.current_command)))
        },
        Message::Quit => {
            model.running_state = RunningState::Done;
            None
        },
        Message::NextOutput => {
            if model.outputs.len() == 0 {
                model.viewing_output = 0;
            } else {
                let stepped: usize = model.viewing_output.saturating_add(1);
                let last: usize = model.outputs.len() - 1;
                model.viewing_output = if stepped < last {
                    stepped
                } else {
                    last
                };
            }
            None
        },
        Message::PreviousOutput => {
            if model.outputs.len() == 0 {
                model.viewing_output = 0;
            } else {
                model.viewing_output = model.viewing_output.saturating_sub(1);
            }
            None
        },
        Message::WriteCommandChar(c) => {
            match model.cursor {
                Cursor::CommandLine(x) => model.current_command.insert(x, c),
                Cursor::OutputPane(_, _) => {
                    // insert-mode intents only arrive with a command-line
                    // cursor; the dispatcher and the invariant exclude this
                    proof {
                        assert(false);
                    }
                },
            }
            model.cursor.right();
            None
        },
        Message::Normal => {
            model.mode = Mode::Normal;
            None
        },
        Message::InsertBefore => {
            model.mode = Mode::Insert;
            let x: usize = match model.cursor {
                Cursor::CommandLine(x) => x,
                Cursor::OutputPane(x, _) => x,
            };
            let len: usize = model.get_command_len();
            model.cursor = Cursor::CommandLine(
                if len < x {
                    len
                } else {
                    x
                },
            );
            None
        },
        Message::InsertAfter => {
            model.mode = Mode::Insert;
            let x: usize = match model.cursor {
                Cursor::CommandLine(x) => x,
                Cursor::OutputPane(x, _) => x,
            };
            let stepped: usize = x.saturating_add(1);
            let len: usize = model.get_command_len();
            model.cursor = Cursor::CommandLine(
                if len < stepped {
                    len
                } else {
                    stepped
                },
            );
            None
        },
        Message::Backspace => {
            model.cursor.left();
            let x: usize = match model.cursor {
                Cursor::CommandLine(x) => x,
                Cursor::OutputPane(x, _) => x,
            };
            if x < model.current_command.len() {
                model.current_command.remove(x);
            }
            None
        },
        Message::OutCommand => {
            match model.viewing_command {
                Some(curr) => {
                    model.viewing_command = Some(curr.saturating_sub(1));
                },
                None => {
                    if model.previous_commands.len() > 0 {
                        model.viewing_command = Some(model.previous_commands.len() - 1);
                    }
                },
            }
            None
        },
        Message::InCommand => {
            if let Some(curr) = model.viewing_command {
                proof {
                    // from the invariant: an active peek points into the history
                    assert(curr < model.previous_commands.len());
                }
                if curr + 1 >= model.previous_commands.len() {
                    model.viewing_command = None;
                } else {
                    model.viewing_command = Some(curr + 1);
                }
            }
            None
        },
        Message::ScrollDown => {
            if model.viewing_output < model.outputs.len() {
                let idx: usize = model.viewing_output;
                let o = &mut model.outputs[idx];
                let vert: usize = o.scroll.0;
                let horiz: usize = o.scroll.1;
                o.scroll = (vert.saturating_add(SCROLL_STEP), horiz);
                proof {
                    assert(model.outs() =~= old(model).outs().update(
                        idx as int,
                        model.outs()[idx as int],
                    ));
                }
            }
            None
        },
        Message::ScrollUp => {
            if model.viewing_output < model.outputs.len() {
                let idx: usize = model.viewing_output;
                let o = &mut model.outputs[idx];
                let vert: usize = o.scroll.0;
                let horiz: usize = o.scroll.1;
                o.scroll = (vert.saturating_sub(SCROLL_STEP), horiz);
                proof {
                    assert(model.outs() =~= old(model).outs().update(
                        idx as int,
                        model.outs()[idx as int],
                    ));
                }
            }
            None
        },
        Message::InsertBeforeLine => {
            model.mode = Mode::Insert;
            model.cursor = Cursor::CommandLine(0);
            None
        },
        Message::InsertAfterLine => {
            model.mode = Mode::Insert;
            let len: usize = model.get_command_len();
            model.cursor = Cursor::CommandLine(len);
            None
        },
    }
}

/// Complete a submission, given what the executor produced: `Some` holds the
/// captured standard output decoded as text, `None` stands for a spawn
/// failure, undecodable bytes, or an empty command line that ran nothing.
///
/// The command line is recorded in the history unconditionally; an output
/// entry is appended (and shown) only when there is decoded text, with its
/// vertical scroll placed so that the tail is visible. Afterwards the live
/// buffer is empty, no peek is active, and the cursor is back at the start of
/// the command line.
pub fn finish_submit(model: &mut Model, stdout: Option<Vec<char>>)
    requires
        old(model).wf(),
    ensures
        final(model).wf(),
        final(model).cmds() == old(model).cmds().push(old(model).current_command@),
        final(model).current_command@ == Seq::<char>::empty(),
        final(model).viewing_command is None,
        final(model).cursor == Cursor::CommandLine(0usize),
        final(model).mode == old(model).mode,
        final(model).running_state == old(model).running_state,
        final(model).height == old(model).height,
        (stdout matches Some(s) ==> (final(model).outs() == old(model).outs().push(
            (OutputView {
                command: old(model).current_command@,
                stdout: s@,
                scroll: ((line_count(s@) as usize).saturating_sub(old(model).height), 0usize),
            }),
        ) && final(model).viewing_output == old(model).outs().len())),
        (stdout is None ==> (final(model).outs() == old(model).outs()
            && final(model).viewing_output == old(model).viewing_output)),
{
    match stdout {
        Some(s) => {
            let lines: usize = crate::text::count_lines(&s);
            let entry = Output {
                command: dup_chars(&model.current_command),
                stdout: s,
                scroll: (lines.saturating_sub(model.height), 0),
            };
            model.outputs.push(entry);
            model.viewing_output = model.outputs.len() - 1;
            proof {
                assert(model.outs() =~= old(model).outs().push(model.outs().last()));
            }
        },
        None => {},
    }
    let submitted: Vec<char> = dup_chars(&model.current_command);
    model.previous_commands.push(submitted);
    model.viewing_command = None;
    model.current_command.clear();
    model.cursor = Cursor::CommandLine(0);
    proof {
        assert(model.cmds() =~= old(model).cmds().push(old(model).current_command@));
    }
}

} // verus!
