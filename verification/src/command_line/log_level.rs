//! How much the compiler reports.
use vstd::prelude::*;
use crate::text::text_eq;

verus! {

/// How much the compiler reports of its work.
#[derive(Clone, Copy, Debug, PartialEq, Eq, Structural)]
pub enum LogLevel {
    Silent,
    Short,
    Detailed,
}

impl Default for LogLevel {
    fn default() -> (result: Self)
        ensures
            result == LogLevel::Short,
    {
        LogLevel::Short
    }
}

impl LogLevel {
    /// The level that a command-line option selects.
    pub open spec fn spec_from_command_line_arg(string: Seq<char>) -> Option<LogLevel> {
        if string == "--details"@ {
            Some(LogLevel::Detailed)
        } else if string == "--silent"@ {
            Some(LogLevel::Silent)
        } else {
            None
        }
    }

    pub fn from_command_line_arg(string: &str) -> (result: Option<Self>)
        ensures
            result == Self::spec_from_command_line_arg(string@),
    {
        if text_eq(string, "--details") {
            Some(LogLevel::Detailed)
        } else if text_eq(string, "--silent") {
            Some(LogLevel::Silent)
        } else {
            None
        }
    }
}

impl LogLevel {
    /// The command-line option that selects the level: `--details` for the
    /// detailed reports, `--silent` for none; the short level, the default,
    /// has none.
    pub open spec fn option_text(self) -> Option<Seq<char>> {
        match self {
            LogLevel::Silent => Some("--silent"@),
            LogLevel::Short => None,
            LogLevel::Detailed => Some("--details"@),
        }
    }
}

/// Each level that has an option is selected by it and by no other text; the
/// default level is selected by no option.
pub proof fn law_level_options(level: LogLevel, option: Seq<char>)
    ensures
        level.option_text() matches Some(text) ==> LogLevel::spec_from_command_line_arg(text) == Some(level),
        LogLevel::spec_from_command_line_arg(option) == Some(level) <==> level.option_text() == Some(option),
        LogLevel::spec_from_command_line_arg(option) != Some(LogLevel::Short),
{
    reveal_strlit("--silent");
    reveal_strlit("--details");
    assert("--silent"@[2] != "--details"@[2]);
}

} // verus!
