//! Keys and what they mean: the events of the application, and the handler
//! that turns key presses into events while it tracks the filter mode.

use vstd::prelude::*;

verus! {

/// Input events that the application can handle.
#[derive(Debug, Clone, Copy, PartialEq, Eq, Structural)]
pub enum InputEvent {
    MoveUp,
    MoveDown,
    PageUp,
    PageDown,
    Home,
    End,
    CycleSort,
    StartFilter,
    ClearFilter,
    FilterChar(char),
    FilterBackspace,
    ToggleColumns,
    ChangeRefreshRate,
    ToggleTreeView,
    KillProcess,
    ShowHelp,
    Quit,
    /// The terminal now has this many columns and rows.
    Resize(u16, u16),
    /// Nothing came in before the next refresh was due.
    Tick,
    Unknown,
}

/// The key of a key press.
#[derive(Debug, Clone, Copy, PartialEq, Eq, Structural)]
pub enum KeyCode {
    Char(char),
    Up,
    Down,
    PageUp,
    PageDown,
    Home,
    End,
    Esc,
    Enter,
    Backspace,
    /// Any key that has no meaning here.
    Other,
}

/// A key press, with the state of the control key.
#[derive(Debug, Clone, Copy, PartialEq, Eq, Structural)]
pub struct KeyPress {
    pub code: KeyCode,
    pub control: bool,
}

/// What the terminal reported while the application waited for input.
#[derive(Debug, Clone, Copy, PartialEq, Eq, Structural)]
pub enum TerminalEvent {
    Key(KeyPress),
    Resize(u16, u16),
    Other,
}

/// The event of a key press while a filter is typed: the key edits the
/// filter text or ends the typing.
pub open spec fn filter_key_event(code: KeyCode) -> InputEvent {
    match code {
        KeyCode::Esc => InputEvent::ClearFilter,
        KeyCode::Backspace => InputEvent::FilterBackspace,
        KeyCode::Char(c) => InputEvent::FilterChar(c),
        _ => InputEvent::Unknown,
    }
}

/// The event of a key press outside the filter mode: the fixed key bindings.
pub open spec fn command_key_event(code: KeyCode) -> InputEvent {
    match code {
        KeyCode::Up => InputEvent::MoveUp,
        KeyCode::Down => InputEvent::MoveDown,
        KeyCode::PageUp => InputEvent::PageUp,
        KeyCode::PageDown => InputEvent::PageDown,
        KeyCode::Home => InputEvent::Home,
        KeyCode::End => InputEvent::End,
        KeyCode::Esc => InputEvent::ClearFilter,
        KeyCode::Char(c) => if c == 'k' {
            InputEvent::MoveUp
        } else if c == 'j' {
            InputEvent::MoveDown
        } else if c == 's' {
            InputEvent::CycleSort
        } else if c == '/' {
            InputEvent::StartFilter
        } else if c == 'c' {
            InputEvent::ToggleColumns
        } else if c == 'r' {
            InputEvent::ChangeRefreshRate
        } else if c == 't' {
            InputEvent::ToggleTreeView
        } else if c == 'K' {
            InputEvent::KillProcess
        } else if c == '?' {
            InputEvent::ShowHelp
        } else if c == 'q' {
            InputEvent::Quit
        } else {
            InputEvent::Unknown
        },
        _ => InputEvent::Unknown,
    }
}

/// Whether a key press is control-C, which quits in every mode.
pub open spec fn is_interrupt(key: KeyPress) -> bool {
    key.control && key.code == KeyCode::Char('c')
}

/// The event of a key press, in or outside the filter mode.
pub open spec fn event_of_key(filtering: bool, key: KeyPress) -> InputEvent {
    if is_interrupt(key) {
        InputEvent::Quit
    } else if filtering {
        filter_key_event(key.code)
    } else {
        command_key_event(key.code)
    }
}

/// Whether the filter mode is on after a key press: the slash key turns it
/// on, escape and enter turn it off, control-C and every other key leave it.
pub open spec fn filtering_after(filtering: bool, key: KeyPress) -> bool {
    if is_interrupt(key) {
        filtering
    } else if filtering {
        !(key.code == KeyCode::Esc || key.code == KeyCode::Enter)
    } else {
        key.code == KeyCode::Char('/')
    }
}

/// The event of what the terminal reported; nothing reported is a tick.
pub open spec fn polled_event(filtering: bool, polled: Option<TerminalEvent>) -> InputEvent {
    match polled {
        Some(TerminalEvent::Key(key)) => event_of_key(filtering, key),
        Some(TerminalEvent::Resize(width, height)) => InputEvent::Resize(width, height),
        Some(TerminalEvent::Other) => InputEvent::Unknown,
        None => InputEvent::Tick,
    }
}

/// The filter mode after what the terminal reported.
pub open spec fn filtering_after_polled(filtering: bool, polled: Option<TerminalEvent>) -> bool {
    match polled {
        Some(TerminalEvent::Key(key)) => filtering_after(filtering, key),
        _ => filtering,
    }
}

/// Input handler that turns key presses into application events.
pub struct InputHandler {
    pub in_filter_mode: bool,
}

impl InputHandler {
    /// A handler outside the filter mode.
    pub fn new() -> (r: Self)
        ensures
            !r.in_filter_mode,
    {
        Self { in_filter_mode: false }
    }

    /// Turns what the terminal reported during one wait into an event.
    pub fn interpret(&mut self, polled: Option<TerminalEvent>) -> (event: InputEvent)
        ensures
            event == polled_event(old(self).in_filter_mode, polled),
            final(self).in_filter_mode == filtering_after_polled(old(self).in_filter_mode, polled),
    {
        match polled {
            Some(TerminalEvent::Key(key)) => self.handle_key_event(key),
            Some(TerminalEvent::Resize(width, height)) => InputEvent::Resize(width, height),
            Some(TerminalEvent::Other) => InputEvent::Unknown,
            None => InputEvent::Tick,
        }
    }

    /// Handles one key press.
    pub fn handle_key_event(&mut self, key_event: KeyPress) -> (event: InputEvent)
        ensures
            event == event_of_key(old(self).in_filter_mode, key_event),
            final(self).in_filter_mode == filtering_after(old(self).in_filter_mode, key_event),
    {
        if key_event.control {
            match key_event.code {
                KeyCode::Char(c) => {
                    if c == 'c' {
                        return InputEvent::Quit;
                    }
                },
                _ => {},
            }
        }
        if self.in_filter_mode {
            return self.handle_filter_input(key_event);
        }
        match key_event.code {
            KeyCode::Up => InputEvent::MoveUp,
            KeyCode::Down => InputEvent::MoveDown,
            KeyCode::PageUp => InputEvent::PageUp,
            KeyCode::PageDown => InputEvent::PageDown,
            KeyCode::Home => InputEvent::Home,
            KeyCode::End => InputEvent::End,
            KeyCode::Esc => InputEvent::ClearFilter,
            KeyCode::Char(c) => {
                if c == 'k' {
                    InputEvent::MoveUp
                } else if c == 'j' {
                    InputEvent::MoveDown
                } else if c == 's' {
                    InputEvent::CycleSort
                } else if c == '/' {
                    self.in_filter_mode = true;
                    InputEvent::StartFilter
                } else if c == 'c' {
                    InputEvent::ToggleColumns
                } else if c == 'r' {
                    InputEvent::ChangeRefreshRate
                } else if c == 't' {
                    InputEvent::ToggleTreeView
                } else if c == 'K' {
                    InputEvent::KillProcess
                } else if c == '?' {
                    InputEvent::ShowHelp
                } else if c == 'q' {
                    InputEvent::Quit
                } else {
                    InputEvent::Unknown
                }
            },
            _ => InputEvent::Unknown,
        }
    }

    /// Handles one key press while a filter is typed.
    fn handle_filter_input(&mut self, key_event: KeyPress) -> (event: InputEvent)
        ensures
            event == filter_key_event(key_event.code),
            final(self).in_filter_mode == (old(self).in_filter_mode && !(key_event.code
                == KeyCode::Esc || key_event.code == KeyCode::Enter)),
    {
        match key_event.code {
            KeyCode::Esc => {
                self.in_filter_mode = false;
                InputEvent::ClearFilter
            },
            KeyCode::Enter => {
                self.in_filter_mode = false;
                InputEvent::Unknown
            },
            KeyCode::Backspace => InputEvent::FilterBackspace,
            KeyCode::Char(c) => InputEvent::FilterChar(c),
            _ => InputEvent::Unknown,
        }
    }

    /// Whether a filter is being typed.
    pub fn is_in_filter_mode(&self) -> (r: bool)
        ensures
            r == self.in_filter_mode,
    {
        self.in_filter_mode
    }

    /// Leaves the filter mode.
    pub fn exit_filter_mode(&mut self)
        ensures
            !final(self).in_filter_mode,
    {
        self.in_filter_mode = false;
    }
}

} // verus!
