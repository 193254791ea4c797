//! Colours and the scheme that assigns them to the parts of the screen.

use crate::model::{ProcessState, Theme};
use crate::numbers::Fixed;
use vstd::prelude::*;

verus! {

/// A terminal colour: the sixteen named ones, or the terminal's own default.
#[derive(Debug, Clone, Copy, PartialEq, Eq, Structural)]
pub enum Color {
    Reset,
    Black,
    DarkGrey,
    Red,
    DarkRed,
    Green,
    DarkGreen,
    Yellow,
    DarkYellow,
    Blue,
    DarkBlue,
    Magenta,
    DarkMagenta,
    Cyan,
    DarkCyan,
    White,
    Grey,
}

/// The colour of each part of the screen.
#[derive(Debug, Clone, Copy, PartialEq, Eq, Structural)]
pub struct ColorScheme {
    pub background: Color,
    pub foreground: Color,
    pub accent: Color,
    pub border: Color,
    pub highlight: Color,
    pub warning: Color,
    pub error: Color,
    pub success: Color,
    pub muted: Color,
    pub gauge_bg: Color,
    pub gauge_fill: Color,
    pub table_header: Color,
    pub table_row_alt: Color,
    pub table_selected: Color,
}

impl ColorScheme {
    /// The scheme for a dark terminal.
    pub open spec fn dark_scheme() -> ColorScheme {
        ColorScheme {
            background: Color::Black,
            foreground: Color::White,
            accent: Color::Cyan,
            border: Color::DarkGrey,
            highlight: Color::Yellow,
            warning: Color::DarkYellow,
            error: Color::Red,
            success: Color::Green,
            muted: Color::DarkGrey,
            gauge_bg: Color::DarkGrey,
            gauge_fill: Color::Blue,
            table_header: Color::Cyan,
            table_row_alt: Color::DarkGrey,
            table_selected: Color::Yellow,
        }
    }

    /// The scheme for a light terminal.
    pub open spec fn light_scheme() -> ColorScheme {
        ColorScheme {
            background: Color::White,
            foreground: Color::Black,
            accent: Color::Blue,
            border: Color::Grey,
            highlight: Color::DarkBlue,
            warning: Color::DarkYellow,
            error: Color::DarkRed,
            success: Color::DarkGreen,
            muted: Color::Grey,
            gauge_bg: Color::Grey,
            gauge_fill: Color::Blue,
            table_header: Color::DarkBlue,
            table_row_alt: Color::Grey,
            table_selected: Color::DarkBlue,
        }
    }

    /// The scheme that leaves every colour to the terminal.
    pub open spec fn plain_scheme() -> ColorScheme {
        ColorScheme {
            background: Color::Reset,
            foreground: Color::Reset,
            accent: Color::Reset,
            border: Color::Reset,
            highlight: Color::Reset,
            warning: Color::Reset,
            error: Color::Reset,
            success: Color::Reset,
            muted: Color::Reset,
            gauge_bg: Color::Reset,
            gauge_fill: Color::Reset,
            table_header: Color::Reset,
            table_row_alt: Color::Reset,
            table_selected: Color::Reset,
        }
    }

    /// The scheme chosen by a theme and the no-colour switch, which wins.
    pub open spec fn chosen(theme: Theme, no_color: bool) -> ColorScheme {
        if no_color {
            Self::plain_scheme()
        } else {
            match theme {
                Theme::Dark => Self::dark_scheme(),
                Theme::Light => Self::light_scheme(),
            }
        }
    }

    /// Colour of a processor load: error above 90 percent, warning above 70.
    pub open spec fn cpu_color(self, usage: Fixed) -> Color {
        if usage.thousandths > 90_000 {
            self.error
        } else if usage.thousandths > 70_000 {
            self.warning
        } else {
            self.success
        }
    }

    /// Colour of a memory load: error above 90 percent, warning above 80.
    pub open spec fn memory_color(self, usage: Fixed) -> Color {
        if usage.thousandths > 90_000 {
            self.error
        } else if usage.thousandths > 80_000 {
            self.warning
        } else {
            self.success
        }
    }

    /// Colour of a process state.
    pub open spec fn state_color(self, state: ProcessState) -> Color {
        match state {
            ProcessState::Running => self.success,
            ProcessState::Sleeping => self.muted,
            ProcessState::Waiting => self.warning,
            ProcessState::Zombie => self.error,
            ProcessState::Stopped => self.error,
            ProcessState::Paging => self.warning,
            ProcessState::Dead => self.error,
            ProcessState::Unknown => self.muted,
        }
    }

    /// The scheme of `theme`, or the plain scheme where colours are switched off.
    pub fn new(theme: &Theme, no_color: bool) -> (r: Self)
        ensures
            r == Self::chosen(*theme, no_color),
    {
        if no_color {
            Self::no_color()
        } else {
            match theme {
                Theme::Dark => Self::dark(),
                Theme::Light => Self::light(),
            }
        }
    }

    fn dark() -> (r: Self)
        ensures
            r == Self::dark_scheme(),
    {
        Self {
            background: Color::Black,
            foreground: Color::White,
            accent: Color::Cyan,
            border: Color::DarkGrey,
            highlight: Color::Yellow,
            warning: Color::DarkYellow,
            error: Color::Red,
            success: Color::Green,
            muted: Color::DarkGrey,
            gauge_bg: Color::DarkGrey,
            gauge_fill: Color::Blue,
            table_header: Color::Cyan,
            table_row_alt: Color::DarkGrey,
            table_selected: Color::Yellow,
        }
    }

    fn light() -> (r: Self)
        ensures
            r == Self::light_scheme(),
    {
        Self {
            background: Color::White,
            foreground: Color::Black,
            accent: Color::Blue,
            border: Color::Grey,
            highlight: Color::DarkBlue,
            warning: Color::DarkYellow,
            error: Color::DarkRed,
            success: Color::DarkGreen,
            muted: Color::Grey,
            gauge_bg: Color::Grey,
            gauge_fill: Color::Blue,
            table_header: Color::DarkBlue,
            table_row_alt: Color::Grey,
            table_selected: Color::DarkBlue,
        }
    }

    fn no_color() -> (r: Self)
        ensures
            r == Self::plain_scheme(),
    {
        Self {
            background: Color::Reset,
            foreground: Color::Reset,
            accent: Color::Reset,
            border: Color::Reset,
            highlight: Color::Reset,
            warning: Color::Reset,
            error: Color::Reset,
            success: Color::Reset,
            muted: Color::Reset,
            gauge_bg: Color::Reset,
            gauge_fill: Color::Reset,
            table_header: Color::Reset,
            table_row_alt: Color::Reset,
            table_selected: Color::Reset,
        }
    }

    /// The colour for a processor usage in percent.
    pub fn cpu_usage_color(&self, usage: Fixed) -> (r: Color)
        ensures
            r == self.cpu_color(usage),
    {
        if usage.exceeds(90) {
            self.error
        } else if usage.exceeds(70) {
            self.warning
        } else {
            self.success
        }
    }

    /// The colour for a memory usage in percent.
    pub fn memory_usage_color(&self, usage: Fixed) -> (r: Color)
        ensures
            r == self.memory_color(usage),
    {
        if usage.exceeds(90) {
            self.error
        } else if usage.exceeds(80) {
            self.warning
        } else {
            self.success
        }
    }

    /// The colour for a process state.
    pub fn process_state_color(&self, state: &ProcessState) -> (r: Color)
        ensures
            r == self.state_color(*state),
    {
        match state {
            ProcessState::Running => self.success,
            ProcessState::Sleeping => self.muted,
            ProcessState::Waiting => self.warning,
            ProcessState::Zombie => self.error,
            ProcessState::Stopped => self.error,
            ProcessState::Paging => self.warning,
            ProcessState::Dead => self.error,
            ProcessState::Unknown => self.muted,
        }
    }
}

} // verus!
