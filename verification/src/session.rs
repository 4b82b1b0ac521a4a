use vstd::prelude::*;

use crate::cursor::Cursor;

verus! {

/// Which key table the dispatcher uses.
#[derive(Debug, PartialEq, Eq, Structural, Clone, Copy)]
pub enum Mode {
    Insert,
    Normal,
}

/// Whether the main loop keeps going. `Done` is terminal, reached only by the
/// quit intent.
#[derive(Debug, PartialEq, Eq, Structural, Clone, Copy)]
pub enum RunningState {
    Running,
    Done,
}

/// The captured result of one successfully run command. Immutable after
/// creation except for its scroll offset.
#[derive(Debug)]
pub struct Output {
    /// The command line that produced this output; used as its title.
    pub command: Vec<char>,
    /// The captured standard output, decoded as text.
    pub stdout: Vec<char>,
    /// (vertical, horizontal) scroll offset in lines/columns.
    pub scroll: (usize, usize),
}

/// Mathematical image of an [`Output`].
pub ghost struct OutputView {
    pub command: Seq<char>,
    pub stdout: Seq<char>,
    pub scroll: (usize, usize),
}

impl View for Output {
    type V = OutputView;

    open spec fn view(&self) -> OutputView {
        OutputView { command: self.command@, stdout: self.stdout@, scroll: self.scroll }
    }
}

/// The whole session state: mode, cursor, output log, command history, live
/// buffer, history peek, and the output pane's height.
#[derive(Debug)]
pub struct Model {
    pub cursor: Cursor,
    pub mode: Mode,
    pub running_state: RunningState,
    /// Append-only log of captured outputs, in chronological order.
    pub outputs: Vec<Output>,
    /// Append-only log of submitted command lines, even empty or failed ones.
    pub previous_commands: Vec<Vec<char>>,
    /// Index of the output shown in the pane; 0 when there is none yet.
    pub viewing_output: usize,
    /// The live editable buffer.
    pub current_command: Vec<char>,
    /// When set, the command line shows `previous_commands[viewing_command]`
    /// instead of the live buffer ("history peek").
    pub viewing_command: Option<usize>,
    /// Visible row count of the output pane, recomputed at each render.
    pub height: usize,
}

impl Model {
    /// The submitted command lines, as sequences of characters.
    pub open spec fn cmds(self) -> Seq<Seq<char>> {
        self.previous_commands@.map_values(|c: Vec<char>| c@)
    }

    /// The captured outputs, as their mathematical images.
    pub open spec fn outs(self) -> Seq<OutputView> {
        self.outputs@.map_values(|o: Output| o@)
    }

    /// The text currently shown on the command line: the peeked history entry
    /// when a peek is active, else the live buffer.
    pub open spec fn displayed_cmd(self) -> Seq<char> {
        match self.viewing_command {
            Some(i) => if i < self.cmds().len() {
                self.cmds()[i as int]
            } else {
                self.current_command@
            },
            None => self.current_command@,
        }
    }

    pub open spec fn displayed_len(self) -> int {
        self.displayed_cmd().len() as int
    }

    /// The session's invariant:
    /// - the viewed output index is in range whenever there are outputs, and
    ///   0 otherwise;
    /// - an active history peek points into the history;
    /// - in insert mode the cursor is on the command line, within the
    ///   displayed text.
    pub open spec fn wf(self) -> bool {
        &&& (self.outs().len() == 0 ==> self.viewing_output == 0)
        &&& (self.outs().len() > 0 ==> self.viewing_output < self.outs().len())
        &&& (self.viewing_command matches Some(i) ==> i < self.cmds().len())
        &&& (self.mode is Insert ==> (self.cursor matches Cursor::CommandLine(x) && x
            <= self.displayed_len()))
    }

    /// Length of the text currently shown on the command line.
    pub fn get_command_len(&self) -> (n: usize)
        ensures
            n == self.displayed_cmd().len(),
    {
        match self.viewing_command {
            Some(i) => if i < self.previous_commands.len() {
                self.previous_commands[i].len()
            } else {
                self.current_command.len()
            },
            None => self.current_command.len(),
        }
    }

    /// The text currently shown on the command line: the peeked history
    /// entry when a peek is active, else the live buffer.
    pub fn displayed_command(&self) -> (r: &Vec<char>)
        ensures
            r@ == self.displayed_cmd(),
    {
        match self.viewing_command {
            Some(i) => if i < self.previous_commands.len() {
                &self.previous_commands[i]
            } else {
                &self.current_command
            },
            None => &self.current_command,
        }
    }

    /// Runtime check of the session invariant, for callers outside the
    /// verified world.
    pub fn is_wf(&self) -> (r: bool)
        ensures
            r == self.wf(),
    {
        let outputs_ok: bool = if self.outputs.len() == 0 {
            self.viewing_output == 0
        } else {
            self.viewing_output < self.outputs.len()
        };
        let peek_ok: bool = match self.viewing_command {
            Some(i) => i < self.previous_commands.len(),
            None => true,
        };
        let cursor_ok: bool = match self.mode {
            Mode::Insert => match self.cursor {
                Cursor::CommandLine(x) => x <= self.get_command_len(),
                Cursor::OutputPane(_, _) => false,
            },
            Mode::Normal => true,
        };
        outputs_ok && peek_ok && cursor_ok
    }
}

impl Default for Model {
    /// The initial session: insert mode, cursor at the start of an empty
    /// buffer, no outputs, no history.
    fn default() -> (m: Model)
        ensures
            m.wf(),
            m.mode is Insert,
            m.cursor == Cursor::CommandLine(0usize),
            m.running_state is Running,
            m.outs() =~= Seq::<OutputView>::empty(),
            m.cmds() =~= Seq::<Seq<char>>::empty(),
            m.viewing_output == 0,
            m.current_command@ =~= Seq::<char>::empty(),
            m.viewing_command is None,
            m.height == 0,
    {
        Model {
            cursor: Cursor::CommandLine(0),
            mode: Mode::Insert,
            running_state: RunningState::Running,
            outputs: Vec::new(),
            previous_commands: Vec::new(),
            viewing_output: 0,
            current_command: Vec::new(),
            viewing_command: None,
            height: 0,
        }
    }
}

} // verus!
