use ppl_service::cli::{help_lines, parse_args, Invocation};
use ppl_service::procedure::Command;

fn args(v: &[&str]) -> Vec<String> {
    v.iter().map(|s| s.to_string()).collect()
}

fn run_of(inv: Invocation) -> (Command, String, String) {
    match inv {
        Invocation::Run { command, service_name, service_file } => (command, service_name, service_file),
        _ => panic!("not a run"),
    }
}

#[test]
fn default_service_path_is_used_without_third_argument() {
    let (c, n, f) = run_of(parse_args(&args(&["ppl.exe", "create", "svc"])));
    assert!(c == Command::Create);
    assert_eq!(n, "svc");
    assert_eq!(f, "win-service.exe");
}

#[test]
fn bin_path_gives_the_service_path() {
    let (c, n, f) = run_of(parse_args(&args(&["ppl.exe", "create_protected", "svc", "binPath=C:\\x\\s.exe"])));
    assert!(c == Command::CreateProtected);
    assert_eq!(n, "svc");
    assert_eq!(f, "C:\\x\\s.exe");
    let (_, _, f) = run_of(parse_args(&args(&["ppl.exe", "create", "svc", "binPath="])));
    assert_eq!(f, "");
    let (_, _, f) = run_of(parse_args(&args(&["ppl.exe", "create", "svc", "binPath=ü/ß.exe"])));
    assert_eq!(f, "ü/ß.exe");
}

#[test]
fn every_command_word_is_recognised() {
    assert!(run_of(parse_args(&args(&["p", "delete", "a"]))).0 == Command::Delete);
    assert!(run_of(parse_args(&args(&["p", "delete_protected", "a"]))).0 == Command::DeleteProtected);
    assert!(run_of(parse_args(&args(&["p", "create", "a"]))).0 == Command::Create);
    assert!(run_of(parse_args(&args(&["p", "create_protected", "a"]))).0 == Command::CreateProtected);
}

#[test]
fn wrong_argument_count_shows_help() {
    assert!(matches!(parse_args(&args(&[])), Invocation::Help));
    assert!(matches!(parse_args(&args(&["p", "create"])), Invocation::Help));
    assert!(matches!(parse_args(&args(&["p", "create", "a", "binPath=x", "more"])), Invocation::Help));
}

#[test]
fn unknown_command_shows_help() {
    assert!(matches!(parse_args(&args(&["p", "remove", "a"])), Invocation::Help));
    assert!(matches!(parse_args(&args(&["p", "Create", "a"])), Invocation::Help));
}

#[test]
fn third_argument_without_prefix_is_refused_first() {
    assert!(matches!(parse_args(&args(&["p", "create", "a", "bin_path=x"])), Invocation::BadBinPath));
    assert!(matches!(parse_args(&args(&["p", "unknown", "a", "x"])), Invocation::BadBinPath));
    assert!(matches!(parse_args(&args(&["p", "create", "a", "binPath"])), Invocation::BadBinPath));
}

#[test]
fn help_text_is_the_usage() {
    let lines = help_lines();
    assert_eq!(lines.len(), 5);
    assert_eq!(lines[0], "Usage:");
    assert_eq!(lines[1], "\tppl-install.exe <create|create_protected|remove> <service_name>");
    assert_eq!(lines[2], "\tor");
    assert_eq!(
        lines[3],
        "\tppl-install.exe <create|create_protected|remove> <service_name> bin_path=<path_to_service>\n"
    );
    assert_eq!(lines[4], "In the first case path_to_service is default, and means \"win-service.exe\"");
}
