//! State of the interactive screen: the input line, the last answer, a status
//! line and the scroll position of the answer pane; and what each key does
//! to them.

use vstd::prelude::*;
use vstd::string::*;

verus! {

#[derive(PartialEq, Eq, Structural, Clone, Copy, Debug)]
pub enum AppState {
    /// The input line takes keys.
    Input,
    /// A query is being answered.
    Loading,
}

pub struct App {
    pub state: AppState,
    pub input: String,
    pub response: String,
    pub should_quit: bool,
    /// Status of indexing or another operation; `None` when idle.
    pub status: Option<String>,
    /// First line of the answer that is shown.
    pub scroll_offset: u16,
}

/// A key press, as far as the screen tells keys apart.
#[derive(PartialEq, Eq, Structural, Clone, Copy, Debug)]
pub enum Key {
    Char(char),
    Up,
    Down,
    Backspace,
    Enter,
    Esc,
    Other,
}

/// The modifier keys held with a key press.
#[derive(PartialEq, Eq, Structural, Clone, Copy, Debug)]
pub struct Modifiers {
    pub shift: bool,
    pub control: bool,
}

/// What the main loop is asked to do.
#[derive(PartialEq, Eq, Structural, Clone, Copy, Debug)]
pub enum AppCommand {
    Quit,
    /// Clear the store and index everything again.
    Rebuild,
    /// Open the store again.
    Reload,
}

/// What a key press comes to.
#[derive(PartialEq, Eq, Structural, Clone, Copy, Debug)]
pub enum KeyOutcome {
    /// The screen state took the key, or ignored it.
    Handled,
    /// The main loop has to act.
    Command(AppCommand),
    /// The input line is to be answered as a query.
    Submit,
}

/// The command a key press stands for, if it stands for one: `q` quits,
/// `r` with shift reloads, `r` with control and without shift rebuilds.
pub open spec fn command_of(key: Key, modifiers: Modifiers) -> Option<AppCommand> {
    match key {
        Key::Char(c) => if c == 'q' {
            Some(AppCommand::Quit)
        } else if (c == 'r' || c == 'R') && modifiers.shift {
            Some(AppCommand::Reload)
        } else if (c == 'r' || c == 'R') && modifiers.control {
            Some(AppCommand::Rebuild)
        } else {
            None
        },
        _ => None,
    }
}

impl App {
    pub fn new() -> (app: Self)
        ensures
            app.state == AppState::Input,
            app.input@ == Seq::<char>::empty(),
            app.response@ == Seq::<char>::empty(),
            !app.should_quit,
            app.status is None,
            app.scroll_offset == 0,
    {
        App {
            state: AppState::Input,
            input: String::new(),
            response: String::new(),
            should_quit: false,
            status: None,
            scroll_offset: 0,
        }
    }

    /// Everything but the input line is the same in `self` and `other`.
    pub open spec fn same_but_input(self, other: App) -> bool {
        &&& self.state == other.state
        &&& self.response == other.response
        &&& self.should_quit == other.should_quit
        &&& self.status == other.status
        &&& self.scroll_offset == other.scroll_offset
    }

    /// Everything but the scroll position is the same in `self` and `other`.
    pub open spec fn same_but_scroll(self, other: App) -> bool {
        &&& self.state == other.state
        &&& self.input == other.input
        &&& self.response == other.response
        &&& self.should_quit == other.should_quit
        &&& self.status == other.status
    }

    pub fn clear_input(&mut self)
        ensures
            final(self).input@ == Seq::<char>::empty(),
            final(self).same_but_input(*old(self)),
    {
        self.input.clear();
    }

    pub fn set_loading(&mut self)
        ensures
            final(self).state == AppState::Loading,
            final(self).input == old(self).input,
            final(self).response == old(self).response,
            final(self).should_quit == old(self).should_quit,
            final(self).status == old(self).status,
            final(self).scroll_offset == old(self).scroll_offset,
    {
        self.state = AppState::Loading;
    }

    /// Shows `response` from its first line.
    pub fn set_response(&mut self, response: String)
        ensures
            final(self).response == response,
            final(self).scroll_offset == 0,
            final(self).state == old(self).state,
            final(self).input == old(self).input,
            final(self).should_quit == old(self).should_quit,
            final(self).status == old(self).status,
    {
        self.response = response;
        self.scroll_offset = 0;
    }

    pub fn set_status(&mut self, status: Option<String>)
        ensures
            final(self).status == status,
            final(self).state == old(self).state,
            final(self).input == old(self).input,
            final(self).response == old(self).response,
            final(self).should_quit == old(self).should_quit,
            final(self).scroll_offset == old(self).scroll_offset,
    {
        self.status = status;
    }

    /// Scrolls one line up, stopping at the first line.
    pub fn scroll_up(&mut self)
        ensures
            final(self).scroll_offset == if old(self).scroll_offset > 0 {
                old(self).scroll_offset - 1
            } else {
                0
            },
            final(self).same_but_scroll(*old(self)),
    {
        if self.scroll_offset > 0 {
            self.scroll_offset -= 1;
        }
    }

    /// Scrolls one line down, stopping at the largest offset.
    pub fn scroll_down(&mut self)
        ensures
            final(self).scroll_offset == if old(self).scroll_offset < u16::MAX {
                old(self).scroll_offset + 1
            } else {
                u16::MAX as int
            },
            final(self).same_but_scroll(*old(self)),
    {
        self.scroll_offset = self.scroll_offset.saturating_add(1);
    }

    pub fn push_char(&mut self, c: char)
        ensures
            final(self).input@ == old(self).input@.push(c),
            final(self).same_but_input(*old(self)),
    {
        self.input.push(c);
    }

    /// Removes the last character of the input line, if there is one.
    pub fn pop_char(&mut self)
        ensures
            final(self).input@ == if old(self).input@.len() > 0 {
                old(self).input@.drop_last()
            } else {
                old(self).input@
            },
            final(self).same_but_input(*old(self)),
    {
        self.input.pop();
    }

    /// The input line as it is drawn: the text with a cursor mark, or a
    /// notice while a query is being answered.
    pub fn input_line(&self) -> (line: String)
        ensures
            line@ == match self.state {
                AppState::Input => self.input@ + "_"@,
                AppState::Loading => "Loading..."@,
            },
    {
        match self.state {
            AppState::Input => {
                let mut line = self.input.clone();
                line.append("_");
                line
            },
            AppState::Loading => String::from_str("Loading..."),
        }
    }

    /// The status line as it is drawn: the status, or "Ready" when idle.
    pub fn status_line(&self) -> (line: String)
        ensures
            line@ == match self.status {
                Some(status) => status@,
                None => "Ready"@,
            },
    {
        match &self.status {
            Some(status) => status.clone(),
            None => String::from_str("Ready"),
        }
    }

    /// What `key` comes to in state `self`, and the input line after it.
    /// Commands come first; the arrow keys scroll; the other keys edit the
    /// input line, and only while it takes keys.
    pub open spec fn key_outcome(self, key: Key, modifiers: Modifiers) -> KeyOutcome {
        if command_of(key, modifiers) is Some {
            KeyOutcome::Command(command_of(key, modifiers)->0)
        } else if key == Key::Enter && self.state == AppState::Input && self.input@.len() > 0 {
            KeyOutcome::Submit
        } else if self.should_quit {
            KeyOutcome::Command(AppCommand::Quit)
        } else {
            KeyOutcome::Handled
        }
    }

    /// Applies a key press. A command leaves the state alone. `Enter` on a
    /// non-empty input line switches to `Loading` and asks for the line to
    /// be answered; the caller then hands the answer to `finish_query`.
    pub fn handle_key(&mut self, key: Key, modifiers: Modifiers) -> (outcome: KeyOutcome)
        ensures
            outcome == old(self).key_outcome(key, modifiers),
            final(self).response == old(self).response,
            final(self).should_quit == old(self).should_quit,
            final(self).status == old(self).status,
            final(self).state == if outcome == KeyOutcome::Submit {
                AppState::Loading
            } else {
                old(self).state
            },
            final(self).scroll_offset == if command_of(key, modifiers) is Some {
                old(self).scroll_offset as int
            } else if key == Key::Up && old(self).scroll_offset > 0 {
                old(self).scroll_offset - 1
            } else if key == Key::Down && old(self).scroll_offset < u16::MAX {
                old(self).scroll_offset + 1
            } else {
                old(self).scroll_offset as int
            },
            final(self).input@ == if command_of(key, modifiers) is Some || old(self).state
                != AppState::Input {
                old(self).input@
            } else {
                match key {
                    Key::Char(c) => old(self).input@.push(c),
                    Key::Backspace => if old(self).input@.len() > 0 {
                        old(self).input@.drop_last()
                    } else {
                        old(self).input@
                    },
                    Key::Esc => Seq::<char>::empty(),
                    _ => old(self).input@,
                }
            },
    {
        let typing = match self.state {
            AppState::Input => true,
            AppState::Loading => false,
        };
        let mut submitted = false;
        match key {
            Key::Char(c) => {
                if c == 'q' {
                    return KeyOutcome::Command(AppCommand::Quit);
                }
                if (c == 'r' || c == 'R') && modifiers.shift {
                    return KeyOutcome::Command(AppCommand::Reload);
                }
                if (c == 'r' || c == 'R') && modifiers.control {
                    return KeyOutcome::Command(AppCommand::Rebuild);
                }
                if typing {
                    self.push_char(c);
                }
            },
            Key::Up => {
                self.scroll_up();
            },
            Key::Down => {
                self.scroll_down();
            },
            Key::Backspace => {
                if typing {
                    self.pop_char();
                }
            },
            Key::Enter => {
                if typing && !self.input.as_str().is_empty() {
                    self.set_loading();
                    submitted = true;
                }
            },
            Key::Esc => {
                if typing && !self.input.as_str().is_empty() {
                    self.clear_input();
                }
            },
            Key::Other => {},
        }
        if submitted {
            KeyOutcome::Submit
        } else if self.should_quit {
            KeyOutcome::Command(AppCommand::Quit)
        } else {
            KeyOutcome::Handled
        }
    }

    /// Shows the answer to the query that was submitted and takes keys
    /// again. After an answer the input line is empty; after a failure it
    /// keeps the query, so that it can be sent again.
    pub fn finish_query(&mut self, answer: Result<String, String>)
        ensures
            final(self).state == AppState::Input,
            final(self).scroll_offset == 0,
            final(self).should_quit == old(self).should_quit,
            final(self).status == old(self).status,
            match answer {
                Ok(text) => final(self).response == text && final(self).input@ == Seq::<
                    char,
                >::empty(),
                Err(text) => final(self).response == text && final(self).input == old(self).input,
            },
    {
        match answer {
            Ok(text) => {
                self.set_response(text);
                self.clear_input();
            },
            Err(text) => {
                self.set_response(text);
            },
        }
        self.state = AppState::Input;
    }
}

} // verus!
