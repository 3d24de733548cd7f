use lotus_compiler::command_line::compiler_mode::CompilerMode;
use lotus_compiler::command_line::log_level::LogLevel;
use lotus_compiler::command_line::options::{classify_argument, get_option_value, is_option, ArgumentKind, CommandLineOptions};
use lotus_compiler::command_line::paths::{get_default_prelude_path, prelude_first, step_from, PathKind, SearchStep};
use lotus_compiler::command_line::{package_details, root_search, source_directories};

fn strings(items: &[&str]) -> Vec<String> {
    items.iter().map(|s| s.to_string()).collect()
}

#[test]
fn compiler_mode_from_arguments() {
    assert_eq!(CompilerMode::from_command_line_arg("--compile"), Some(CompilerMode::Compile));
    assert_eq!(CompilerMode::from_command_line_arg("--validate"), Some(CompilerMode::Validate));
    assert_eq!(CompilerMode::from_command_line_arg("--compiler"), None);
    assert_eq!(CompilerMode::from_command_line_arg(""), None);
}

#[test]
fn log_level_from_arguments() {
    assert_eq!(LogLevel::from_command_line_arg("--details"), Some(LogLevel::Detailed));
    assert_eq!(LogLevel::from_command_line_arg("--silent"), Some(LogLevel::Silent));
    assert_eq!(LogLevel::from_command_line_arg("--short"), None);
    assert_eq!(LogLevel::default(), LogLevel::Short);
}

#[test]
fn options_start_with_a_dash() {
    assert!(is_option("-v"));
    assert!(is_option("--server"));
    assert!(!is_option("main.lt"));
    assert!(!is_option(""));
    assert!(!is_option("a-b"));
}

#[test]
fn option_values() {
    assert_eq!(get_option_value("--command=build", "--command"), Some("build".to_string()));
    assert_eq!(get_option_value("--command=", "--command"), Some(String::new()));
    assert_eq!(get_option_value("--command", "--command"), None);
    assert_eq!(get_option_value("--commandx=1", "--command"), None);
    assert_eq!(get_option_value("--framework=élan", "--framework"), Some("élan".to_string()));
    assert_eq!(get_option_value("--f", "--framework"), None);
}

#[test]
fn argument_kinds() {
    assert_eq!(classify_argument("--details"), ArgumentKind::LogLevel);
    assert_eq!(classify_argument("-v"), ArgumentKind::Validate);
    assert_eq!(classify_argument("--validate"), ArgumentKind::Validate);
    assert_eq!(classify_argument("--benchmark"), ArgumentKind::Benchmark);
    assert_eq!(classify_argument("--server"), ArgumentKind::Server);
    assert_eq!(classify_argument("--command=run"), ArgumentKind::Command);
    assert_eq!(classify_argument("--framework=web"), ArgumentKind::Framework);
    assert_eq!(classify_argument("--unknown"), ArgumentKind::InvalidOption);
    assert_eq!(classify_argument("input"), ArgumentKind::Path);
}

#[test]
fn parse_full_command_line() {
    let args = strings(&["lotus", "--silent", "src", "out.wat", "--server", "--command=x", "--bogus", "--framework=f", "-v", "extra"]);
    let resolved = vec![None, None, Some("/abs/src".to_string()), Some("/abs/out.wat".to_string()), None, None, None, None, None, Some("/abs/extra".to_string())];
    let (options, invalid) = CommandLineOptions::parse_from_args(&args, &resolved);
    assert_eq!(options.input_path, Some("/abs/src".to_string()));
    assert_eq!(options.output_path, Some("out.wat".to_string()));
    assert_eq!(options.log_level, LogLevel::Silent);
    assert!(options.run_as_server);
    assert!(!options.run_benchmark);
    assert!(options.validate);
    assert_eq!(options.command, Some("x".to_string()));
    assert_eq!(options.framework, Some("f".to_string()));
    assert_eq!(invalid, strings(&["--bogus"]));
}

#[test]
fn unresolved_input_takes_the_next_path() {
    let args = strings(&["lotus", "missing", "present", "out"]);
    let resolved = vec![None, None, Some("/abs/present".to_string()), Some("/abs/out".to_string())];
    let (options, invalid) = CommandLineOptions::parse_from_args(&args, &resolved);
    assert_eq!(options.input_path, Some("/abs/present".to_string()));
    assert_eq!(options.output_path, Some("out".to_string()));
    assert!(invalid.is_empty());
}

#[test]
fn validating_without_output_writes_to_the_empty_path() {
    let args = strings(&["lotus", "--validate", "src"]);
    let resolved = vec![None, None, Some("/abs/src".to_string())];
    let (options, _) = CommandLineOptions::parse_from_args(&args, &resolved);
    assert_eq!(options.output_path, Some(String::new()));
    let args = strings(&["lotus", "src"]);
    let resolved = vec![None, Some("/abs/src".to_string())];
    let (options, _) = CommandLineOptions::parse_from_args(&args, &resolved);
    assert_eq!(options.output_path, None);
    assert_eq!(options.log_level, LogLevel::Short);
}

#[test]
fn the_last_log_level_wins() {
    let args = strings(&["lotus", "--details", "--silent", "--details"]);
    let resolved = vec![None, None, None, None];
    let (options, _) = CommandLineOptions::parse_from_args(&args, &resolved);
    assert_eq!(options.log_level, LogLevel::Detailed);
}

#[test]
fn root_search_steps() {
    let entries = strings(&["a.lt", "main.lt"]);
    match root_search::infer_root_directory("/p/q", PathKind::Directory, &entries, "main.lt") {
        SearchStep::Found(p) => assert_eq!(p, "/p/q"),
        other => panic!("unexpected {:?}", other),
    }
    match root_search::infer_root_directory("/p/q", PathKind::Directory, &strings(&["a.lt"]), "main.lt") {
        SearchStep::Ascend(p) => assert_eq!(p, "/p"),
        other => panic!("unexpected {:?}", other),
    }
    match root_search::infer_root_directory("/p/q/file.lt", PathKind::File, &vec![], "main.lt") {
        SearchStep::Ascend(p) => assert_eq!(p, "/p/q"),
        other => panic!("unexpected {:?}", other),
    }
    assert!(matches!(root_search::infer_root_directory("/", PathKind::Directory, &vec![], "main.lt"), SearchStep::NotFound));
    assert!(matches!(root_search::infer_root_directory("/p", PathKind::UnreadableDirectory, &vec![], "main.lt"), SearchStep::NotFound));
    assert!(matches!(root_search::infer_root_directory("/p", PathKind::Other, &entries, "main.lt"), SearchStep::NotFound));
}

#[test]
fn package_root_accepts_a_source_directory() {
    let entries = strings(&["src", "README"]);
    match package_details::infer_root_directory("/w/pkg", PathKind::Directory, &entries, "main.lt", "src") {
        SearchStep::Found(p) => assert_eq!(p, "/w/pkg"),
        other => panic!("unexpected {:?}", other),
    }
    match source_directories::infer_root_directory("/w/pkg", PathKind::Directory, &entries, "main.lt") {
        SearchStep::Ascend(p) => assert_eq!(p, "/w"),
        other => panic!("unexpected {:?}", other),
    }
}

#[test]
fn prelude_comes_first() {
    let roots = package_details::bundle_with_prelude("/home/me/game", "/opt/lotus", "prelude");
    assert_eq!(roots, strings(&["/opt/lotus/prelude", "/home/me/game"]));
    let roots = package_details::bundle_with_prelude("/opt/lotus/prelude", "/opt/lotus", "prelude");
    assert_eq!(roots, strings(&["/opt/lotus/prelude"]));
    let dirs = source_directories::bundle_with_prelude("/home/me/game", "/opt/lotus", "prelude");
    assert_eq!(dirs.len(), 2);
    assert_eq!(dirs[0].path, "/opt/lotus/prelude");
    assert_eq!(dirs[1].path, "/home/me/game");
}

#[test]
fn steps_from_a_known_parent() {
    assert!(matches!(step_from("/a/b", PathKind::File, false, Some("/a".to_string())), SearchStep::Ascend(p) if p == "/a"));
    assert!(matches!(step_from("/a/b", PathKind::Directory, true, Some("/a".to_string())), SearchStep::Found(p) if p == "/a/b"));
    assert!(matches!(step_from("/a/b", PathKind::Directory, false, None), SearchStep::NotFound));
    assert!(matches!(step_from("/a/b", PathKind::Other, true, Some("/a".to_string())), SearchStep::NotFound));
    assert!(matches!(step_from("/a/b", PathKind::UnreadableDirectory, false, Some("/a".to_string())), SearchStep::NotFound));
}

#[test]
fn prelude_first_without_duplicates() {
    assert_eq!(prelude_first("/x", "/p".to_string()), strings(&["/p", "/x"]));
    assert_eq!(prelude_first("/p", "/p".to_string()), strings(&["/p"]));
    assert_eq!(get_default_prelude_path("/opt/lotus", "prelude"), "/opt/lotus/prelude");
    assert_eq!(get_default_prelude_path("/opt/lotus/", "prelude"), "/opt/lotus/prelude");
}
