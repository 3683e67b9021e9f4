//! The two-mode input machine: in command mode keys choose what to do next,
//! in edit mode they change the buffer.

use vstd::prelude::*;
use crate::buffer::{BufferView, TextBuffer};

verus! {

/// The key that ends the session from command mode.
pub const QUIT_KEY: char = 'q';

/// The key that enters edit mode from command mode.
pub const EDIT_KEY: char = 'i';

/// How input is read: as commands or as text.
#[derive(Clone, Copy, Debug, PartialEq, Eq, Structural)]
pub enum Mode {
    Command,
    Edit,
}

/// One input event, as far as the editor tells events apart.
#[derive(Clone, Copy, Debug, PartialEq, Eq, Structural)]
pub enum Event {
    /// A printable character.
    Char(char),
    /// Enter / confirm.
    Enter,
    Escape,
    Left,
    Right,
    /// Anything else; always ignored.
    Other,
}

/// A change to the buffer that an event asks for.
#[derive(Clone, Copy, Debug, PartialEq, Eq, Structural)]
pub enum BufferCommand {
    Insert(char),
    SplitLine,
    MoveLeft,
    MoveRight,
}

/// What one event leads to: the end of the session, or the next mode and
/// perhaps a change to the buffer.
#[derive(Clone, Copy, Debug, PartialEq, Eq, Structural)]
pub enum Step {
    Quit,
    Next { mode: Mode, command: Option<BufferCommand> },
}

/// The mode after `event` in `mode`, or `None` where the event ends the session.
pub open spec fn next_mode(mode: Mode, event: Event) -> Option<Mode> {
    match mode {
        Mode::Command => {
            if event == Event::Char(QUIT_KEY) {
                None
            } else if event == Event::Char(EDIT_KEY) {
                Some(Mode::Edit)
            } else {
                Some(Mode::Command)
            }
        },
        Mode::Edit => {
            if event == Event::Escape {
                Some(Mode::Command)
            } else {
                Some(Mode::Edit)
            }
        },
    }
}

/// The change to the buffer that `event` asks for in `mode`: only edit mode
/// changes the buffer, and only on text and movement events.
pub open spec fn command_for(mode: Mode, event: Event) -> Option<BufferCommand> {
    match mode {
        Mode::Command => None,
        Mode::Edit => match event {
            Event::Char(c) => Some(BufferCommand::Insert(c)),
            Event::Enter => Some(BufferCommand::SplitLine),
            Event::Left => Some(BufferCommand::MoveLeft),
            Event::Right => Some(BufferCommand::MoveRight),
            _ => None,
        },
    }
}

/// The step that `event` leads to in `mode`.
pub open spec fn step_of(mode: Mode, event: Event) -> Step {
    match next_mode(mode, event) {
        None => Step::Quit,
        Some(m) => Step::Next { mode: m, command: command_for(mode, event) },
    }
}

/// The buffer after `command`.
pub open spec fn applied(v: BufferView, command: BufferCommand) -> BufferView {
    match command {
        BufferCommand::Insert(c) => v.inserted(c),
        BufferCommand::SplitLine => v.split(),
        BufferCommand::MoveLeft => v.moved_left(),
        BufferCommand::MoveRight => v.moved_right(),
    }
}

/// Decides what `event` does in `mode`, without touching any state.
pub fn dispatch(mode: Mode, event: Event) -> (r: Step)
    ensures
        r == step_of(mode, event),
{
    match mode {
        Mode::Command => match event {
            Event::Char(c) => {
                if c == QUIT_KEY {
                    Step::Quit
                } else if c == EDIT_KEY {
                    Step::Next { mode: Mode::Edit, command: None }
                } else {
                    Step::Next { mode: Mode::Command, command: None }
                }
            },
            _ => Step::Next { mode: Mode::Command, command: None },
        },
        Mode::Edit => match event {
            Event::Escape => Step::Next { mode: Mode::Command, command: None },
            Event::Char(c) => Step::Next { mode: Mode::Edit, command: Some(BufferCommand::Insert(c)) },
            Event::Enter => Step::Next { mode: Mode::Edit, command: Some(BufferCommand::SplitLine) },
            Event::Left => Step::Next { mode: Mode::Edit, command: Some(BufferCommand::MoveLeft) },
            Event::Right => Step::Next { mode: Mode::Edit, command: Some(BufferCommand::MoveRight) },
            Event::Other => Step::Next { mode: Mode::Edit, command: None },
        },
    }
}

/// Carries out `command` on `buffer`.
pub fn apply(buffer: &mut TextBuffer, command: BufferCommand)
    requires
        old(buffer)@.wf(),
    ensures
        final(buffer)@ == applied(old(buffer)@, command),
        final(buffer)@.wf(),
{
    match command {
        BufferCommand::Insert(c) => buffer.insert_char(c),
        BufferCommand::SplitLine => buffer.split_line(),
        BufferCommand::MoveLeft => buffer.move_left(),
        BufferCommand::MoveRight => buffer.move_right(),
    }
}

impl Mode {
    /// The mode's name, for the status line.
    pub fn name(&self) -> (r: &'static str)
        ensures
            *self == Mode::Command ==> r@ == "COMMAND"@,
            *self == Mode::Edit ==> r@ == "EDIT"@,
    {
        match self {
            Mode::Command => "COMMAND",
            Mode::Edit => "EDIT",
        }
    }
}

/// What a session is, as mathematics: its mode, whether it has ended, and its buffer.
pub struct SessionView {
    pub mode: Mode,
    pub finished: bool,
    pub buffer: BufferView,
}

impl SessionView {
    /// The buffer is well formed.
    pub open spec fn wf(self) -> bool {
        self.buffer.wf()
    }

    /// The session after `event`: an ended session stays as it is; otherwise
    /// the event ends it, or sets the next mode and changes the buffer as asked.
    pub open spec fn after(self, event: Event) -> SessionView {
        if self.finished {
            self
        } else {
            match step_of(self.mode, event) {
                Step::Quit => SessionView { finished: true, ..self },
                Step::Next { mode, command } => SessionView {
                    mode,
                    finished: false,
                    buffer: match command {
                        Some(c) => applied(self.buffer, c),
                        None => self.buffer,
                    },
                },
            }
        }
    }
}

/// The mode machine. A session starts in command mode (see
/// `EditorSession::new`). In command mode only the edit key leads to edit
/// mode and only the quit key ends the session; in edit mode only escape
/// leads back to command mode and nothing ends the session; every other event
/// keeps the mode. A change of mode leaves the buffer as it was, and an ended
/// session takes no more steps.
pub proof fn lemma_mode_machine(s: SessionView, event: Event)
    ensures
        s.finished ==> s.after(event) == s,
        !s.finished && s.mode == Mode::Command ==> {
            &&& (s.after(event).finished <==> event == Event::Char(QUIT_KEY))
            &&& (s.after(event).mode == Mode::Edit <==> event == Event::Char(EDIT_KEY))
        },
        !s.finished && s.mode == Mode::Edit ==> {
            &&& !s.after(event).finished
            &&& (s.after(event).mode == Mode::Command <==> event == Event::Escape)
        },
        s.after(event).mode != s.mode ==> s.after(event).buffer == s.buffer,
{
}

/// An editing session: one buffer and the mode that input is read in.
pub struct EditorSession {
    buffer: TextBuffer,
    mode: Mode,
    finished: bool,
}

impl View for EditorSession {
    type V = SessionView;

    closed spec fn view(&self) -> SessionView {
        SessionView { mode: self.mode, finished: self.finished, buffer: self.buffer@ }
    }
}

impl EditorSession {
    /// A session on `buffer`, in command mode.
    pub fn new(buffer: TextBuffer) -> (s: EditorSession)
        requires
            buffer@.wf(),
        ensures
            s@.mode == Mode::Command,
            !s@.finished,
            s@.buffer == buffer@,
            s@.wf(),
    {
        EditorSession { buffer, mode: Mode::Command, finished: false }
    }

    /// Takes one event; returns whether the session goes on.
    pub fn handle(&mut self, event: Event) -> (running: bool)
        requires
            old(self)@.wf(),
        ensures
            final(self)@ == old(self)@.after(event),
            final(self)@.wf(),
            running == !final(self)@.finished,
    {
        if self.finished {
            return false;
        }
        match dispatch(self.mode, event) {
            Step::Quit => {
                self.finished = true;
            },
            Step::Next { mode, command } => {
                if let Some(c) = command {
                    apply(&mut self.buffer, c);
                }
                self.mode = mode;
            },
        }
        !self.finished
    }

    /// The current mode.
    pub fn mode(&self) -> (m: Mode)
        ensures
            m == self@.mode,
    {
        self.mode
    }

    /// Whether the session has ended.
    pub fn is_finished(&self) -> (b: bool)
        ensures
            b == self@.finished,
    {
        self.finished
    }

    /// The buffer being edited.
    pub fn buffer(&self) -> (b: &TextBuffer)
        ensures
            b@ == self@.buffer,
    {
        &self.buffer
    }
}

} // verus!
