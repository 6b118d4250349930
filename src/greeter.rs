//! The greeter's shared state, the keys it reacts to and the requests it
//! leaves for the IPC transport.
use vstd::prelude::*;

verus! {

/// The interaction modes. `Username` and `Password` are base modes; the
/// others are overlays that always return to the base mode they came from.
#[derive(PartialEq, Eq, Structural, Clone, Copy, Debug)]
pub enum Mode {
    Username,
    Password,
    Command,
    Sessions,
    Power,
}

impl Mode {
    pub open spec fn is_overlay(self) -> bool {
        self is Command || self is Sessions || self is Power
    }

    /// Whether the mode edits a text buffer.
    pub open spec fn has_buffer(self) -> bool {
        self is Username || self is Password || self is Command
    }

    pub fn overlay(&self) -> (r: bool)
        ensures
            r == self.is_overlay(),
    {
        match self {
            Mode::Command | Mode::Sessions | Mode::Power => true,
            _ => false,
        }
    }
}

/// One key press, as far as the greeter tells keys apart.
#[derive(PartialEq, Eq, Structural, Clone, Copy, Debug)]
pub enum Key {
    Backspace,
    Delete,
    Left,
    Right,
    Up,
    Down,
    Esc,
    /// A function key, by its number.
    F(u8),
    /// A printable character, including newline and tab.
    Char(char),
    /// A character typed with Control held.
    Ctrl(char),
    /// Any key that the greeter ignores.
    Other,
}

/// A request for the login daemon, left pending for the IPC transport.
#[derive(Debug)]
pub enum Request {
    /// Starts a login attempt for a user.
    CreateSession { username: String },
    /// Answers the daemon's last authentication prompt.
    PostAuthMessageResponse { response: Option<String> },
}

pub enum RequestView {
    CreateSession { username: Seq<char> },
    PostAuthMessageResponse { response: Option<Seq<char>> },
}

pub open spec fn opt_view(o: Option<String>) -> Option<Seq<char>> {
    match o {
        Some(s) => Some(s@),
        None => None,
    }
}

impl View for Request {
    type V = RequestView;

    open spec fn view(&self) -> RequestView {
        match self {
            Request::CreateSession { username } => RequestView::CreateSession { username: username@ },
            Request::PostAuthMessageResponse { response } => RequestView::PostAuthMessageResponse {
                response: opt_view(*response),
            },
        }
    }
}

/// What the caller does after a key was handled.
#[derive(PartialEq, Eq, Structural, Clone, Copy, Debug)]
pub enum Outcome {
    /// Keep reading keys.
    Continue,
    /// The user cancelled the login: forget the last username and exit.
    Cancel,
}

/// The greeter's state, mutated in place by every key.
pub struct Greeter {
    pub mode: Mode,
    /// The base mode that the current overlay returns to.
    pub previous_mode: Mode,
    pub username: String,
    pub answer: String,
    /// The command being edited in `Command` mode.
    pub new_command: String,
    /// The committed session command.
    pub command: Option<String>,
    /// The cursor, counted in characters back from the end of the active buffer.
    pub cursor_offset: i64,
    /// The available sessions, as (display name, command).
    pub sessions: Vec<(String, String)>,
    pub selected_session: usize,
    pub selected_power_option: usize,
    /// A request to the daemon is in flight.
    pub working: bool,
    pub message: Option<String>,
    pub request: Option<Request>,
}

/// The mathematical model of a [`Greeter`].
pub struct GreeterView {
    pub mode: Mode,
    pub previous_mode: Mode,
    pub username: Seq<char>,
    pub answer: Seq<char>,
    pub new_command: Seq<char>,
    pub command: Option<Seq<char>>,
    pub cursor_offset: int,
    pub sessions: Seq<(Seq<char>, Seq<char>)>,
    pub selected_session: int,
    pub selected_power_option: int,
    pub working: bool,
    pub message: Option<Seq<char>>,
    pub request: Option<RequestView>,
}

/// The number of power options.
pub const POWER_OPTION_COUNT: usize = 2;

impl GreeterView {
    /// The invariant: at least one session, both selections in range, and the
    /// remembered mode is a base mode.
    pub open spec fn wf(self) -> bool {
        &&& self.sessions.len() > 0
        &&& 0 <= self.selected_session < self.sessions.len()
        &&& 0 <= self.selected_power_option < POWER_OPTION_COUNT
        &&& !self.previous_mode.is_overlay()
    }

    /// The buffer edited in the current mode. Modes without a buffer fall
    /// back to the username.
    pub open spec fn active(self) -> Seq<char> {
        match self.mode {
            Mode::Password => self.answer,
            Mode::Command => self.new_command,
            _ => self.username,
        }
    }

    /// The state with the active buffer replaced; unchanged in modes
    /// without a buffer.
    pub open spec fn with_active(self, s: Seq<char>) -> GreeterView {
        match self.mode {
            Mode::Username => GreeterView { username: s, ..self },
            Mode::Password => GreeterView { answer: s, ..self },
            Mode::Command => GreeterView { new_command: s, ..self },
            _ => self,
        }
    }
}

impl View for Greeter {
    type V = GreeterView;

    open spec fn view(&self) -> GreeterView {
        GreeterView {
            mode: self.mode,
            previous_mode: self.previous_mode,
            username: self.username@,
            answer: self.answer@,
            new_command: self.new_command@,
            command: opt_view(self.command),
            cursor_offset: self.cursor_offset as int,
            sessions: self.sessions@.map_values(|p: (String, String)| (p.0@, p.1@)),
            selected_session: self.selected_session as int,
            selected_power_option: self.selected_power_option as int,
            working: self.working,
            message: opt_view(self.message),
            request: match self.request {
                Some(r) => Some(r@),
                None => None,
            },
        }
    }
}

impl Greeter {
    pub open spec fn wf(&self) -> bool {
        self@.wf()
    }

    /// A fresh greeter asking for a username, with the first session selected.
    pub fn new(sessions: Vec<(String, String)>) -> (g: Greeter)
        requires
            sessions.len() > 0,
        ensures
            g.wf(),
            g@.mode == Mode::Username,
            g@.previous_mode == Mode::Username,
            g@.username.len() == 0,
            g@.answer.len() == 0,
            g@.new_command.len() == 0,
            g@.command is None,
            g@.cursor_offset == 0,
            g.sessions@ == sessions@,
            g@.selected_session == 0,
            g@.selected_power_option == 0,
            !g@.working,
            g@.message is None,
            g@.request is None,
    {
        Greeter {
            mode: Mode::Username,
            previous_mode: Mode::Username,
            username: String::new(),
            answer: String::new(),
            new_command: String::new(),
            command: None,
            cursor_offset: 0,
            sessions,
            selected_session: 0,
            selected_power_option: 0,
            working: false,
            message: None,
            request: None,
        }
    }
}

} // verus!
