//! Colour themes: which named colour each part of the status line takes, and
//! the escape sequence of each named colour.

use crate::text::str_eq;
use vstd::prelude::*;
use vstd::string::*;

verus! {

/// The colours that a theme can name.
#[derive(Debug, Clone, Copy, PartialEq, Eq, Structural)]
pub enum NamedColor {
    Red,
    Green,
    Yellow,
    Blue,
    Magenta,
    Cyan,
    White,
    Gray,
    Orange,
    LightGray,
}

/// The colour of each part of the status line.
#[derive(Debug, Clone, Copy, PartialEq, Eq, Structural)]
pub struct ThemeColors {
    pub directory: NamedColor,
    pub git_branch: NamedColor,
    pub model: NamedColor,
    pub duration: NamedColor,
    pub separator: NamedColor,
    pub lines_added: NamedColor,
    pub lines_removed: NamedColor,
    pub cost_low: NamedColor,
    pub cost_medium: NamedColor,
    pub cost_high: NamedColor,
    pub context_normal: NamedColor,
    pub context_caution: NamedColor,
    pub context_warning: NamedColor,
    pub context_critical: NamedColor,
}

/// A colour theme.
#[derive(Debug, Clone, Copy, PartialEq, Eq, Structural)]
pub struct Theme {
    pub colors: ThemeColors,
}

/// The colour that a name stands for, if it is the name of one.
pub open spec fn color_named(name: Seq<char>) -> Option<NamedColor> {
    if name == "red"@ {
        Some(NamedColor::Red)
    } else if name == "green"@ {
        Some(NamedColor::Green)
    } else if name == "yellow"@ {
        Some(NamedColor::Yellow)
    } else if name == "blue"@ {
        Some(NamedColor::Blue)
    } else if name == "magenta"@ {
        Some(NamedColor::Magenta)
    } else if name == "cyan"@ {
        Some(NamedColor::Cyan)
    } else if name == "white"@ {
        Some(NamedColor::White)
    } else if name == "gray"@ {
        Some(NamedColor::Gray)
    } else if name == "orange"@ {
        Some(NamedColor::Orange)
    } else if name == "light_gray"@ {
        Some(NamedColor::LightGray)
    } else {
        None
    }
}

/// The theme for dark terminals.
pub open spec fn dark_theme() -> Theme {
    Theme {
        colors: ThemeColors {
            directory: NamedColor::Cyan,
            git_branch: NamedColor::Green,
            model: NamedColor::Cyan,
            duration: NamedColor::LightGray,
            separator: NamedColor::LightGray,
            lines_added: NamedColor::Green,
            lines_removed: NamedColor::Red,
            cost_low: NamedColor::Green,
            cost_medium: NamedColor::Yellow,
            cost_high: NamedColor::Red,
            context_normal: NamedColor::White,
            context_caution: NamedColor::Yellow,
            context_warning: NamedColor::Orange,
            context_critical: NamedColor::Red,
        },
    }
}

/// The theme for light terminals: as the dark one, with gray in place of
/// white and light gray.
pub open spec fn light_theme() -> Theme {
    Theme {
        colors: ThemeColors {
            directory: NamedColor::Cyan,
            git_branch: NamedColor::Green,
            model: NamedColor::Cyan,
            duration: NamedColor::Gray,
            separator: NamedColor::Gray,
            lines_added: NamedColor::Green,
            lines_removed: NamedColor::Red,
            cost_low: NamedColor::Green,
            cost_medium: NamedColor::Yellow,
            cost_high: NamedColor::Red,
            context_normal: NamedColor::Gray,
            context_caution: NamedColor::Yellow,
            context_warning: NamedColor::Orange,
            context_critical: NamedColor::Red,
        },
    }
}

/// The theme of a name: `light` is the light theme, every other name the
/// dark one.
pub open spec fn theme_named(name: Seq<char>) -> Theme {
    if name == "light"@ {
        light_theme()
    } else {
        dark_theme()
    }
}

impl NamedColor {
    /// The escape sequence that switches the terminal to this colour.
    pub open spec fn spec_code(self) -> Seq<char> {
        match self {
            NamedColor::Red => "\x1b[31m"@,
            NamedColor::Green => "\x1b[32m"@,
            NamedColor::Yellow => "\x1b[33m"@,
            NamedColor::Blue => "\x1b[34m"@,
            NamedColor::Magenta => "\x1b[35m"@,
            NamedColor::Cyan => "\x1b[36m"@,
            NamedColor::White => "\x1b[37m"@,
            NamedColor::Gray => "\x1b[90m"@,
            NamedColor::Orange => "\x1b[38;5;208m"@,
            NamedColor::LightGray => "\x1b[38;5;245m"@,
        }
    }

    /// The escape sequence that switches the terminal to this colour.
    pub fn code(&self) -> (s: &'static str)
        ensures
            s@ == self.spec_code(),
    {
        match self {
            NamedColor::Red => "\x1b[31m",
            NamedColor::Green => "\x1b[32m",
            NamedColor::Yellow => "\x1b[33m",
            NamedColor::Blue => "\x1b[34m",
            NamedColor::Magenta => "\x1b[35m",
            NamedColor::Cyan => "\x1b[36m",
            NamedColor::White => "\x1b[37m",
            NamedColor::Gray => "\x1b[90m",
            NamedColor::Orange => "\x1b[38;5;208m",
            NamedColor::LightGray => "\x1b[38;5;245m",
        }
    }

    /// The colour that `name` stands for.
    pub fn from_name(name: &str) -> (c: Option<NamedColor>)
        ensures
            c == color_named(name@),
    {
        if str_eq(name, "red") {
            Some(NamedColor::Red)
        } else if str_eq(name, "green") {
            Some(NamedColor::Green)
        } else if str_eq(name, "yellow") {
            Some(NamedColor::Yellow)
        } else if str_eq(name, "blue") {
            Some(NamedColor::Blue)
        } else if str_eq(name, "magenta") {
            Some(NamedColor::Magenta)
        } else if str_eq(name, "cyan") {
            Some(NamedColor::Cyan)
        } else if str_eq(name, "white") {
            Some(NamedColor::White)
        } else if str_eq(name, "gray") {
            Some(NamedColor::Gray)
        } else if str_eq(name, "orange") {
            Some(NamedColor::Orange)
        } else if str_eq(name, "light_gray") {
            Some(NamedColor::LightGray)
        } else {
            None
        }
    }
}

impl Theme {
    /// The theme for dark terminals.
    pub fn dark() -> (t: Theme)
        ensures
            t == dark_theme(),
    {
        Theme {
            colors: ThemeColors {
                directory: NamedColor::Cyan,
                git_branch: NamedColor::Green,
                model: NamedColor::Cyan,
                duration: NamedColor::LightGray,
                separator: NamedColor::LightGray,
                lines_added: NamedColor::Green,
                lines_removed: NamedColor::Red,
                cost_low: NamedColor::Green,
                cost_medium: NamedColor::Yellow,
                cost_high: NamedColor::Red,
                context_normal: NamedColor::White,
                context_caution: NamedColor::Yellow,
                context_warning: NamedColor::Orange,
                context_critical: NamedColor::Red,
            },
        }
    }

    /// The theme for light terminals.
    pub fn light() -> (t: Theme)
        ensures
            t == light_theme(),
    {
        Theme {
            colors: ThemeColors {
                directory: NamedColor::Cyan,
                git_branch: NamedColor::Green,
                model: NamedColor::Cyan,
                duration: NamedColor::Gray,
                separator: NamedColor::Gray,
                lines_added: NamedColor::Green,
                lines_removed: NamedColor::Red,
                cost_low: NamedColor::Green,
                cost_medium: NamedColor::Yellow,
                cost_high: NamedColor::Red,
                context_normal: NamedColor::Gray,
                context_caution: NamedColor::Yellow,
                context_warning: NamedColor::Orange,
                context_critical: NamedColor::Red,
            },
        }
    }

    /// The sequence for a colour given by name; empty for a name that is not
    /// the name of a colour.
    pub open spec fn spec_resolve_color(self, name: Seq<char>) -> Seq<char> {
        match color_named(name) {
            Some(color) => color.spec_code(),
            None => Seq::empty(),
        }
    }

    /// The sequence for a colour given by name.
    pub fn resolve_color(&self, name: &str) -> (s: String)
        ensures
            s@ == self.spec_resolve_color(name@),
    {
        match NamedColor::from_name(name) {
            Some(color) => String::from_str(color.code()),
            None => String::new(),
        }
    }
}

impl Default for Theme {
    fn default() -> (t: Theme)
        ensures
            t == dark_theme(),
    {
        Theme::dark()
    }
}

/// The theme that the settings name, the dark one where the name is not
/// known.
pub fn get_current_theme(theme_name: &str) -> (t: Theme)
    ensures
        t == theme_named(theme_name@),
{
    if str_eq(theme_name, "light") {
        Theme::light()
    } else {
        Theme::dark()
    }
}

} // verus!
