use torq::cli::{
    cli_runtime_config, parse_cli_args, parse_repl_command, unknown_command_message, CliOptions,
    CliRequest, ReplCommand,
};
use torq::config::LogMode;
use torq::domain::TorCommand;

fn args(list: &[&str]) -> Vec<String> {
    list.iter().map(|s| s.to_string()).collect()
}

fn run(list: &[&str], env: Option<&str>) -> CliOptions {
    match parse_cli_args(&args(list), env.map(|s| s.to_string())).unwrap() {
        CliRequest::Run(options) => options,
        CliRequest::Help => panic!("unexpected help"),
    }
}

#[test]
fn defaults_without_arguments() {
    let options = run(&[], None);
    assert_eq!(options.tor_path, "tor.exe");
    assert_eq!(options.log_path, "tor.log");
    assert!(options.tor_args.is_empty());
    assert_eq!(options.working_dir, None);
    assert!(options.append_log_argument);
    assert_eq!(run(&[], Some("/usr/bin/tor")).tor_path, "/usr/bin/tor");
}

#[test]
fn positional_paths_and_flags() {
    let options = run(
        &[
            "/usr/bin/tor",
            "/tmp/tor.log",
            "--working-dir",
            "/srv",
            "--no-managed-log",
            "--",
            "--ClientOnly",
            "1",
        ],
        Some("ignored"),
    );
    assert_eq!(options.tor_path, "/usr/bin/tor");
    assert_eq!(options.log_path, "/tmp/tor.log");
    assert_eq!(options.working_dir, Some("/srv".to_string()));
    assert!(!options.append_log_argument);
    assert_eq!(options.tor_args, args(&["--ClientOnly", "1"]));

    let config = cli_runtime_config(&options);
    assert_eq!(config.log_mode, LogMode::External);
    assert_eq!(config.args, args(&["--ClientOnly", "1"]));
    assert_eq!(config.working_dir, Some("/srv".to_string()));
}

#[test]
fn help_and_errors() {
    assert_eq!(
        parse_cli_args(&args(&["a", "--help", "extra", "more"]), None).unwrap(),
        CliRequest::Help
    );
    assert_eq!(parse_cli_args(&args(&["-h"]), None).unwrap(), CliRequest::Help);
    assert_eq!(
        parse_cli_args(&args(&["--working-dir"]), None).unwrap_err(),
        "--working-dir expects a path"
    );
    assert_eq!(
        parse_cli_args(&args(&["a", "b", "c"]), None).unwrap_err(),
        "unexpected argument: c. Use `--` before extra tor args."
    );
    // A value after --working-dir is taken as is, even a flag.
    assert_eq!(run(&["--working-dir", "--"], None).working_dir, Some("--".to_string()));
}

#[test]
fn prompt_commands() {
    assert_eq!(parse_repl_command("  START \n"), ReplCommand::Runtime(TorCommand::Start));
    assert_eq!(parse_repl_command("stop"), ReplCommand::Runtime(TorCommand::Stop));
    assert_eq!(parse_repl_command("Restart"), ReplCommand::Runtime(TorCommand::Restart));
    assert_eq!(parse_repl_command("newnym"), ReplCommand::Runtime(TorCommand::NewIdentity));
    assert_eq!(parse_repl_command("state"), ReplCommand::ShowState);
    assert_eq!(parse_repl_command("QUIT"), ReplCommand::Exit);
    assert_eq!(parse_repl_command("exit"), ReplCommand::Exit);
    assert_eq!(parse_repl_command("   "), ReplCommand::Nothing);
    assert_eq!(parse_repl_command("Hello"), ReplCommand::Unknown("hello".to_string()));
    assert_eq!(unknown_command_message("hello"), "unknown command: hello");
}
