//! What the compiler is asked to do.
use vstd::prelude::*;
use crate::text::text_eq;

verus! {

/// What the compiler is asked to do with its input.
#[derive(Clone, Copy, Debug, PartialEq, Eq, Structural, PartialOrd)]
pub enum CompilerMode {
    Compile,
    Validate,
}

impl CompilerMode {
    /// The mode that a command-line option selects.
    pub open spec fn spec_from_command_line_arg(option: Seq<char>) -> Option<CompilerMode> {
        if option == "--compile"@ {
            Some(CompilerMode::Compile)
        } else if option == "--validate"@ {
            Some(CompilerMode::Validate)
        } else {
            None
        }
    }

    pub fn from_command_line_arg(option: &str) -> (result: Option<Self>)
        ensures
            result == Self::spec_from_command_line_arg(option@),
    {
        if text_eq(option, "--compile") {
            Some(CompilerMode::Compile)
        } else if text_eq(option, "--validate") {
            Some(CompilerMode::Validate)
        } else {
            None
        }
    }
}

impl CompilerMode {
    /// The command-line option that selects the mode: `--` and the mode's name
    /// in lower case.
    pub open spec fn option_text(self) -> Seq<char> {
        match self {
            CompilerMode::Compile => "--compile"@,
            CompilerMode::Validate => "--validate"@,
        }
    }
}

/// Each mode is selected by its own option and by no other text.
pub proof fn law_mode_options(mode: CompilerMode, option: Seq<char>)
    ensures
        CompilerMode::spec_from_command_line_arg(mode.option_text()) == Some(mode),
        CompilerMode::spec_from_command_line_arg(option) == Some(mode) <==> option == mode.option_text(),
{
    reveal_strlit("--compile");
    reveal_strlit("--validate");
    assert("--compile"@.len() != "--validate"@.len());
}

} // verus!
