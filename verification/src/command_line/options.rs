//! The command line of the compiler.
//!
//! Arguments that start with `-` are options; the others are paths: the
//! first path that resolves is the input, the next one the output.
use vstd::prelude::*;
use crate::command_line::log_level::LogLevel;
use crate::text::{is_prefix, starts_with, chars_from, text_eq};

verus! {

/// The settings that the command line selects.
#[derive(Debug)]
pub struct CommandLineOptions {
    pub input_path: Option<String>,
    pub output_path: Option<String>,
    pub framework: Option<String>,
    pub log_level: LogLevel,
    pub validate: bool,
    pub run_as_server: bool,
    pub run_benchmark: bool,
    pub command: Option<String>,
}

/// What an argument of the command line stands for.
#[derive(Clone, Copy, Debug, PartialEq, Eq, Structural)]
pub enum ArgumentKind {
    LogLevel,
    Validate,
    Benchmark,
    Server,
    Command,
    Framework,
    InvalidOption,
    Path,
}

/// An argument that starts with `-`.
pub open spec fn is_option_text(s: Seq<char>) -> bool {
    s.len() > 0 && s[0] == '-'
}

/// The value of `arg` when it reads `name=value`.
pub open spec fn option_value(arg: Seq<char>, name: Seq<char>) -> Option<Seq<char>> {
    if is_prefix(name, arg) && name.len() < arg.len() && arg[name.len() as int] == '=' {
        Some(arg.subrange(name.len() + 1int, arg.len() as int))
    } else {
        None
    }
}

/// How an argument is read, the checks taken in order.
pub open spec fn argument_kind(arg: Seq<char>) -> ArgumentKind {
    if !is_option_text(arg) {
        ArgumentKind::Path
    } else if LogLevel::spec_from_command_line_arg(arg) is Some {
        ArgumentKind::LogLevel
    } else if arg == "--validate"@ || arg == "-v"@ {
        ArgumentKind::Validate
    } else if arg == "--benchmark"@ {
        ArgumentKind::Benchmark
    } else if arg == "--server"@ {
        ArgumentKind::Server
    } else if option_value(arg, "--command"@) is Some {
        ArgumentKind::Command
    } else if option_value(arg, "--framework"@) is Some {
        ArgumentKind::Framework
    } else {
        ArgumentKind::InvalidOption
    }
}

/// The log level after the arguments `1..n`: the last one that sets it wins.
pub open spec fn log_level_after(args: Seq<Seq<char>>, n: int) -> LogLevel
    decreases n,
{
    if n <= 1 {
        LogLevel::Short
    } else if argument_kind(args[n - 1]) == ArgumentKind::LogLevel {
        LogLevel::spec_from_command_line_arg(args[n - 1])->0
    } else {
        log_level_after(args, n - 1)
    }
}

/// Whether one of the arguments `1..n` is of the kind `kind`.
pub open spec fn flag_after(args: Seq<Seq<char>>, n: int, kind: ArgumentKind) -> bool
    decreases n,
{
    if n <= 1 {
        false
    } else {
        argument_kind(args[n - 1]) == kind || flag_after(args, n - 1, kind)
    }
}

/// The value of the last of the arguments `1..n` that reads `name=value` and is
/// of the kind `kind`.
pub open spec fn value_after(args: Seq<Seq<char>>, n: int, kind: ArgumentKind, name: Seq<char>) -> Option<Seq<char>>
    decreases n,
{
    if n <= 1 {
        None
    } else if argument_kind(args[n - 1]) == kind {
        option_value(args[n - 1], name)
    } else {
        value_after(args, n - 1, kind, name)
    }
}

/// The input path after the arguments `1..n`: the resolved form of the first
/// path argument that resolves (`resolved[i]` is that of `args[i]`).
pub open spec fn input_after(args: Seq<Seq<char>>, resolved: Seq<Option<Seq<char>>>, n: int) -> Option<Seq<char>>
    decreases n,
{
    if n <= 1 {
        None
    } else {
        let prev = input_after(args, resolved, n - 1);
        if argument_kind(args[n - 1]) == ArgumentKind::Path && prev is None {
            resolved[n - 1]
        } else {
            prev
        }
    }
}

/// The output path after the arguments `1..n`: the first path argument that
/// comes once the input is known.
pub open spec fn output_after(args: Seq<Seq<char>>, resolved: Seq<Option<Seq<char>>>, n: int) -> Option<Seq<char>>
    decreases n,
{
    if n <= 1 {
        None
    } else {
        let prev = output_after(args, resolved, n - 1);
        if argument_kind(args[n - 1]) == ArgumentKind::Path && input_after(args, resolved, n - 1) is Some
            && prev is None {
            Some(args[n - 1])
        } else {
            prev
        }
    }
}

/// The options that start with `-` and that no rule reads, in order.
pub open spec fn invalid_after(args: Seq<Seq<char>>, n: int) -> Seq<Seq<char>>
    decreases n,
{
    if n <= 1 {
        Seq::empty()
    } else if argument_kind(args[n - 1]) == ArgumentKind::InvalidOption {
        invalid_after(args, n - 1).push(args[n - 1])
    } else {
        invalid_after(args, n - 1)
    }
}

/// The output path of the whole command line: validating without an output
/// path writes to the empty path.
pub open spec fn final_output(args: Seq<Seq<char>>, resolved: Seq<Option<Seq<char>>>) -> Option<Seq<char>> {
    let n = args.len() as int;
    if flag_after(args, n, ArgumentKind::Validate) && output_after(args, resolved, n) is None {
        Some(Seq::empty())
    } else {
        output_after(args, resolved, n)
    }
}

/// Whether `string` is an option rather than a path.
pub fn is_option(string: &str) -> (result: bool)
    ensures
        result == is_option_text(string@),
{
    proof {
        reveal_strlit("-");
    }
    let r = starts_with(string, "-");
    proof {
        if string@.len() > 0 {
            assert(string@.subrange(0, 1)[0] == string@[0]);
            if string@[0] == '-' {
                assert(string@.subrange(0, 1) =~= "-"@);
            }
        }
    }
    r
}

/// The value of `arg` when it reads `option_name=value`.
pub fn get_option_value(arg: &str, option_name: &str) -> (result: Option<String>)
    ensures
        result.deep_view() == option_value(arg@, option_name@),
{
    if !starts_with(arg, option_name) {
        return None;
    }
    let n = option_name.unicode_len();
    let m = arg.unicode_len();
    if n < m && arg.get_char(n) == '=' {
        Some(chars_from(arg, n + 1))
    } else {
        None
    }
}

/// How the command line reads `arg`.
pub fn classify_argument(arg: &str) -> (result: ArgumentKind)
    ensures
        result == argument_kind(arg@),
{
    if !is_option(arg) {
        ArgumentKind::Path
    } else if LogLevel::from_command_line_arg(arg).is_some() {
        ArgumentKind::LogLevel
    } else if text_eq(arg, "--validate") || text_eq(arg, "-v") {
        ArgumentKind::Validate
    } else if text_eq(arg, "--benchmark") {
        ArgumentKind::Benchmark
    } else if text_eq(arg, "--server") {
        ArgumentKind::Server
    } else if get_option_value(arg, "--command").is_some() {
        ArgumentKind::Command
    } else if get_option_value(arg, "--framework").is_some() {
        ArgumentKind::Framework
    } else {
        ArgumentKind::InvalidOption
    }
}

impl CommandLineOptions {
    /// Reads the command line `args`, the program's name first.
    /// `resolved[i]` is the absolute form of `args[i]` where that path exists.
    /// Returns the options and, in order, the options that no rule reads.
    pub fn parse_from_args(args: &Vec<String>, resolved: &Vec<Option<String>>) -> (result: (Self, Vec<String>))
        requires
            args.len() >= 1,
            resolved.len() == args.len(),
        ensures
            ({
                let a = args.deep_view();
                let r = resolved.deep_view();
                let n = a.len() as int;
                let options = result.0;
                &&& options.input_path.deep_view() == input_after(a, r, n)
                &&& options.output_path.deep_view() == final_output(a, r)
                &&& options.framework.deep_view() == value_after(a, n, ArgumentKind::Framework, "--framework"@)
                &&& options.command.deep_view() == value_after(a, n, ArgumentKind::Command, "--command"@)
                &&& options.log_level == log_level_after(a, n)
                &&& options.validate == flag_after(a, n, ArgumentKind::Validate)
                &&& options.run_as_server == flag_after(a, n, ArgumentKind::Server)
                &&& options.run_benchmark == flag_after(a, n, ArgumentKind::Benchmark)
                &&& result.1.deep_view() == invalid_after(a, n)
            }),
    {
        let ghost a = args.deep_view();
        let ghost r = resolved.deep_view();
        let mut options = CommandLineOptions {
            input_path: None,
            output_path: None,
            framework: None,
            log_level: LogLevel::Short,
            validate: false,
            run_as_server: false,
            run_benchmark: false,
            command: None,
        };
        let mut invalid: Vec<String> = Vec::new();
        let mut i: usize = 1;
        while i < args.len()
            invariant
                a == args.deep_view(),
                r == resolved.deep_view(),
                resolved.len() == args.len(),
                1 <= i <= args.len(),
                options.input_path.deep_view() == input_after(a, r, i as int),
                options.output_path.deep_view() == output_after(a, r, i as int),
                options.framework.deep_view() == value_after(a, i as int, ArgumentKind::Framework, "--framework"@),
                options.command.deep_view() == value_after(a, i as int, ArgumentKind::Command, "--command"@),
                options.log_level == log_level_after(a, i as int),
                options.validate == flag_after(a, i as int, ArgumentKind::Validate),
                options.run_as_server == flag_after(a, i as int, ArgumentKind::Server),
                options.run_benchmark == flag_after(a, i as int, ArgumentKind::Benchmark),
                invalid.deep_view() == invalid_after(a, i as int),
            decreases args.len() - i,
        {
            let arg = args[i].as_str();
            let kind = classify_argument(arg);
            proof {
                assert(arg@ == a[i as int]);
            }
            match kind {
                ArgumentKind::LogLevel => {
                    if let Some(log_level) = LogLevel::from_command_line_arg(arg) {
                        options.log_level = log_level;
                    }
                },
                ArgumentKind::Validate => {
                    options.validate = true;
                },
                ArgumentKind::Benchmark => {
                    options.run_benchmark = true;
                },
                ArgumentKind::Server => {
                    options.run_as_server = true;
                },
                ArgumentKind::Command => {
                    options.command = get_option_value(arg, "--command");
                },
                ArgumentKind::Framework => {
                    options.framework = get_option_value(arg, "--framework");
                },
                ArgumentKind::InvalidOption => {
                    invalid.push(arg.to_owned());
                    proof {
                        assert(invalid.deep_view() =~= invalid_after(a, i + 1));
                    }
                },
                ArgumentKind::Path => {
                    if options.input_path.is_none() {
                        options.input_path = resolved[i].clone();
                    } else if options.output_path.is_none() {
                        options.output_path = Some(args[i].clone());
                    }
                },
            }
            i = i + 1;
        }
        if options.validate && options.output_path.is_none() {
            options.output_path = Some(String::new());
        }
        (options, invalid)
    }
}

/// Validating without an output path still yields an output path.
pub proof fn law_validate_has_output(args: Seq<Seq<char>>, resolved: Seq<Option<Seq<char>>>)
    requires
        flag_after(args, args.len() as int, ArgumentKind::Validate),
    ensures
        final_output(args, resolved) is Some,
{
}

/// An option written `name=value` gives back `value`.
pub proof fn law_option_value_of_pair(name: Seq<char>, value: Seq<char>)
    ensures
        option_value(name + seq!['='] + value, name) == Some(value),
{
    let arg = name + seq!['='] + value;
    assert(arg.subrange(0, name.len() as int) =~= name);
    assert(arg.subrange(name.len() + 1int, arg.len() as int) =~= value);
}

/// Each option is read as what it names, and no other text is: `--validate`
/// and `-v` ask to validate, `--benchmark` to measure, `--server` to serve,
/// `--details` and `--silent` set the log level; `--command=...` and
/// `--framework=...` give a command and a framework; an argument that does not
/// start with `-` is a path, and any other option is invalid.
pub proof fn law_argument_kinds(arg: Seq<char>, value: Seq<char>)
    ensures
        argument_kind(arg) == ArgumentKind::Path <==> !is_option_text(arg),
        argument_kind(arg) == ArgumentKind::Validate <==> arg == "--validate"@ || arg == "-v"@,
        argument_kind(arg) == ArgumentKind::Benchmark <==> arg == "--benchmark"@,
        argument_kind(arg) == ArgumentKind::Server <==> arg == "--server"@,
        argument_kind(arg) == ArgumentKind::LogLevel <==> arg == "--details"@ || arg == "--silent"@,
        argument_kind("--command="@ + value) == ArgumentKind::Command,
        argument_kind("--framework="@ + value) == ArgumentKind::Framework,
        argument_kind(arg) == ArgumentKind::Command ==> option_value(arg, "--command"@) is Some,
        argument_kind(arg) == ArgumentKind::Framework ==> option_value(arg, "--framework"@) is Some,
{
    reveal_strlit("--validate");
    reveal_strlit("-v");
    reveal_strlit("--benchmark");
    reveal_strlit("--server");
    reveal_strlit("--details");
    reveal_strlit("--silent");
    reveal_strlit("--command");
    reveal_strlit("--framework");
    reveal_strlit("--command=");
    reveal_strlit("--framework=");
    assert("--validate"@[2] == 'v' && "--benchmark"@[2] == 'b' && "--server"@[2] == 's' && "--details"@[2] == 'd'
        && "--silent"@[2] == 's' && "--server"@[3] == 'e' && "--silent"@[3] == 'i');
    assert("--validate"@.len() == 10 && "-v"@.len() == 2 && "--benchmark"@.len() == 11);
    let command = "--command="@ + value;
    let framework = "--framework="@ + value;
    assert(command[0] == '-' && command[2] == 'c');
    assert(framework[0] == '-' && framework[2] == 'f');
    assert(command.subrange(0, 9) =~= "--command"@);
    assert(command[9] == '=');
    assert(framework.subrange(0, 11) =~= "--framework"@);
    assert(framework[11] == '=');
    assert(LogLevel::spec_from_command_line_arg(command) is None);
    assert(LogLevel::spec_from_command_line_arg(framework) is None);
    assert(option_value(command, "--command"@) is Some);
    assert(option_value(framework, "--command"@) is None) by {
        assert(framework.subrange(0, 9)[2] != "--command"@[2]);
    }
    assert(option_value(framework, "--framework"@) is Some);
}

/// Whether `args[i]`, among the arguments `1..n`, is the first path that
/// resolves.
pub open spec fn is_first_resolved_path(args: Seq<Seq<char>>, resolved: Seq<Option<Seq<char>>>, i: int) -> bool {
    &&& 1 <= i < args.len()
    &&& argument_kind(args[i]) == ArgumentKind::Path
    &&& resolved[i] is Some
    &&& forall|j: int| 1 <= j < i && argument_kind(#[trigger] args[j]) == ArgumentKind::Path ==> resolved[j] is None
}

/// Whether `args[i]` is the last of the arguments `1..n` that sets the log level.
pub open spec fn is_last_log_level(args: Seq<Seq<char>>, n: int, i: int) -> bool {
    &&& 1 <= i < n
    &&& argument_kind(args[i]) == ArgumentKind::LogLevel
    &&& forall|j: int| i < j < n ==> argument_kind(#[trigger] args[j]) != ArgumentKind::LogLevel
}

proof fn lemma_command_line_order(args: Seq<Seq<char>>, resolved: Seq<Option<Seq<char>>>, n: int, kind: ArgumentKind)
    requires
        1 <= n <= args.len(),
        resolved.len() == args.len(),
    ensures
        flag_after(args, n, kind) <==> exists|i: int| 1 <= i < n && argument_kind(#[trigger] args[i]) == kind,
        input_after(args, resolved, n) is None <==> forall|i: int| 1 <= i < n
            && argument_kind(#[trigger] args[i]) == ArgumentKind::Path ==> resolved[i] is None,
        input_after(args, resolved, n) is Some ==> exists|i: int| i < n && #[trigger] is_first_resolved_path(args, resolved, i)
            && input_after(args, resolved, n) == resolved[i],
        (forall|i: int| 1 <= i < n ==> argument_kind(#[trigger] args[i]) != ArgumentKind::LogLevel)
            ==> log_level_after(args, n) == LogLevel::Short,
        forall|i: int| #[trigger] is_last_log_level(args, n, i)
            ==> log_level_after(args, n) == LogLevel::spec_from_command_line_arg(args[i])->0,
        output_after(args, resolved, n) matches Some(o) ==> exists|k: int| 1 <= k < n
            && argument_kind(#[trigger] args[k]) == ArgumentKind::Path && args[k] == o
            && input_after(args, resolved, k) is Some,
        output_after(args, resolved, n) is None ==> forall|k: int| 1 <= k < n
            && argument_kind(#[trigger] args[k]) == ArgumentKind::Path ==> input_after(args, resolved, k) is None,
        invalid_after(args, n) == args.subrange(1, n).filter(|a: Seq<char>| argument_kind(a) == ArgumentKind::InvalidOption),
    decreases n,
{
    reveal(Seq::filter);
    if n == 1 {
        assert(args.subrange(1, 1) =~= Seq::<Seq<char>>::empty());
    } else {
        lemma_command_line_order(args, resolved, n - 1, kind);
        assert(args.subrange(1, n).drop_last() =~= args.subrange(1, n - 1));
        assert(args.subrange(1, n).last() == args[n - 1]);
        if flag_after(args, n, kind) && argument_kind(args[n - 1]) != kind {
            let i = choose|i: int| 1 <= i < n - 1 && argument_kind(#[trigger] args[i]) == kind;
        }
        if input_after(args, resolved, n - 1) is Some {
            let i = choose|i: int| i < n - 1 && #[trigger] is_first_resolved_path(args, resolved, i)
                && input_after(args, resolved, n - 1) == resolved[i];
            assert(is_first_resolved_path(args, resolved, i));
            assert(i < n);
            assert(resolved[i] is Some);
            assert(!(forall|i: int| 1 <= i < n && argument_kind(#[trigger] args[i]) == ArgumentKind::Path
                ==> resolved[i] is None));
        } else if argument_kind(args[n - 1]) == ArgumentKind::Path && resolved[n - 1] is Some {
            assert(is_first_resolved_path(args, resolved, n - 1));
        }
        assert forall|i: int| #[trigger] is_last_log_level(args, n, i)
            implies log_level_after(args, n) == LogLevel::spec_from_command_line_arg(args[i])->0 by {
            if i < n - 1 {
                assert(argument_kind(args[n - 1]) != ArgumentKind::LogLevel);
                assert(is_last_log_level(args, n - 1, i));
            }
        }
        if (forall|i: int| 1 <= i < n ==> argument_kind(#[trigger] args[i]) != ArgumentKind::LogLevel) {
            assert(argument_kind(args[n - 1]) != ArgumentKind::LogLevel);
        }
        if output_after(args, resolved, n) is Some && output_after(args, resolved, n - 1) is None {
            assert(argument_kind(args[n - 1]) == ArgumentKind::Path);
        }
    }
}

/// Reading the command line: a flag is set exactly when one of the arguments
/// after the program's name asks for it; the input is the first path that
/// resolves, and there is none exactly when no path resolves; the output is a
/// path written once the input is known, and there is none when no path comes
/// after the input; the last argument that sets the log level wins, and the
/// level is the short one when none does; the invalid options are kept, in
/// order, and nothing else with them.
pub proof fn law_command_line_order(args: Seq<Seq<char>>, resolved: Seq<Option<Seq<char>>>, kind: ArgumentKind)
    requires
        args.len() >= 1,
        resolved.len() == args.len(),
    ensures
        ({
            let n = args.len() as int;
            &&& flag_after(args, n, kind) <==> exists|i: int| 1 <= i < n && argument_kind(#[trigger] args[i]) == kind
            &&& input_after(args, resolved, n) is None <==> forall|i: int| 1 <= i < n
                && argument_kind(#[trigger] args[i]) == ArgumentKind::Path ==> resolved[i] is None
            &&& input_after(args, resolved, n) is Some ==> exists|i: int| #[trigger] is_first_resolved_path(args, resolved, i)
                && input_after(args, resolved, n) == resolved[i]
            &&& (forall|i: int| 1 <= i < n ==> argument_kind(#[trigger] args[i]) != ArgumentKind::LogLevel)
                ==> log_level_after(args, n) == LogLevel::Short
            &&& forall|i: int| #[trigger] is_last_log_level(args, n, i)
                ==> log_level_after(args, n) == LogLevel::spec_from_command_line_arg(args[i])->0
            &&& output_after(args, resolved, n) matches Some(o) ==> exists|k: int| 1 <= k < n
                && argument_kind(#[trigger] args[k]) == ArgumentKind::Path && args[k] == o
                && input_after(args, resolved, k) is Some
            &&& output_after(args, resolved, n) is None ==> forall|k: int| 1 <= k < n
                && argument_kind(#[trigger] args[k]) == ArgumentKind::Path ==> input_after(args, resolved, k) is None
            &&& invalid_after(args, n)
                == args.subrange(1, n).filter(|a: Seq<char>| argument_kind(a) == ArgumentKind::InvalidOption)
        }),
{
    lemma_command_line_order(args, resolved, args.len() as int, kind);
}

} // verus!
