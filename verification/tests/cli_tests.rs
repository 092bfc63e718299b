use spell_framework::cli::{
    cargo_manifest, ipc_path, method_error_report, parse_cli_args, project_paths, Cli, CliCommand, Fprint, HelpTopic,
    LogType,
};

fn args(list: &[&str]) -> Vec<String> {
    list.iter().map(|s| s.to_string()).collect()
}

#[test]
fn no_arguments_shows_help() {
    assert!(matches!(parse_cli_args(&args(&[])), Ok(CliCommand::Help(HelpTopic::Main))));
    assert!(matches!(parse_cli_args(&args(&["-h"])), Ok(CliCommand::Help(HelpTopic::Main))));
}

#[test]
fn version_flag() {
    assert!(matches!(parse_cli_args(&args(&["-v"])), Ok(CliCommand::Version)));
    assert!(matches!(parse_cli_args(&args(&["--version"])), Ok(CliCommand::Version)));
}

#[test]
fn update_sends_key_and_value() {
    match parse_cli_args(&args(&["-l", "bar", "update", "count", "3"])) {
        Ok(CliCommand::Send { socket_path, request, expect_reply }) => {
            assert_eq!(socket_path, "/tmp/bar_ipc.sock");
            assert_eq!(request, "update count 3");
            assert!(!expect_reply);
        }
        other => panic!("unexpected {:?}", other),
    }
}

#[test]
fn look_expects_reply() {
    match parse_cli_args(&args(&["--layer", " bar ", "look", "count"])) {
        Ok(CliCommand::Send { socket_path, request, expect_reply }) => {
            assert_eq!(socket_path, "/tmp/bar_ipc.sock");
            assert_eq!(request, "look count");
            assert!(expect_reply);
        }
        other => panic!("unexpected {:?}", other),
    }
}

#[test]
fn hide_and_show_requests() {
    match parse_cli_args(&args(&["-l", "bar", "hide"])) {
        Ok(CliCommand::Send { request, .. }) => assert_eq!(request, "hide"),
        other => panic!("unexpected {:?}", other),
    }
    match parse_cli_args(&args(&["-l", "bar", "show"])) {
        Ok(CliCommand::Send { request, .. }) => assert_eq!(request, "show"),
        other => panic!("unexpected {:?}", other),
    }
}

#[test]
fn update_argument_count_errors() {
    match parse_cli_args(&args(&["-l", "bar", "update", "count"])) {
        Err(Cli::UndefinedArg(m)) => {
            assert_eq!(m, "Less arguments given, provide {{key}} and {{Value}}")
        }
        other => panic!("unexpected {:?}", other),
    }
    match parse_cli_args(&args(&["-l", "bar", "update", "a", "b", "c"])) {
        Err(Cli::UndefinedArg(m)) => {
            assert_eq!(m, "More than 2 arg given. Only provide {{key}} and {{Value}}")
        }
        other => panic!("unexpected {:?}", other),
    }
    match parse_cli_args(&args(&["-l", "bar", "look"])) {
        Err(Cli::UndefinedArg(m)) => assert_eq!(m, "No variable name provided"),
        other => panic!("unexpected {:?}", other),
    }
}

#[test]
fn layer_flag_needs_name_and_subcommand() {
    match parse_cli_args(&args(&["-l"])) {
        Err(Cli::UndefinedArg(m)) => assert_eq!(m, "Provide the value of layer name"),
        other => panic!("unexpected {:?}", other),
    }
    match parse_cli_args(&args(&["-l", "bar"])) {
        Err(Cli::UndefinedArg(m)) => {
            assert_eq!(m, "provide a subcommand like 'update', 'look' etc")
        }
        other => panic!("unexpected {:?}", other),
    }
}

#[test]
fn window_subcommands_need_layer() {
    match parse_cli_args(&args(&["hide"])) {
        Err(Cli::BadSubCommand(m)) => assert!(m.starts_with("`-l` is not defined.")),
        other => panic!("unexpected {:?}", other),
    }
}

#[test]
fn unknown_subcommand_and_flag() {
    match parse_cli_args(&args(&["dance"])) {
        Err(Cli::BadSubCommand(m)) => assert_eq!(
            m,
            "The subcommand \"dance\" doesn't exist, use `spell --help` to view available commands"
        ),
        other => panic!("unexpected {:?}", other),
    }
    match parse_cli_args(&args(&["--dance"])) {
        Err(Cli::BadSubCommand(m)) => assert_eq!(
            m,
            "The flag \"--dance\" doesn't exist, use `spell --help` to view available commands"
        ),
        other => panic!("unexpected {:?}", other),
    }
}

#[test]
fn logs_of_a_layer() {
    match parse_cli_args(&args(&["-l", "bar", "log", "dev"])) {
        Ok(CliCommand::Logs { layer, log_type }) => {
            assert_eq!(layer, "bar");
            assert_eq!(log_type, LogType::Dev);
        }
        other => panic!("unexpected {:?}", other),
    }
    match parse_cli_args(&args(&["log", "-l", "bar"])) {
        Ok(CliCommand::Logs { log_type, .. }) => assert_eq!(log_type, LogType::Debug),
        other => panic!("unexpected {:?}", other),
    }
    match parse_cli_args(&args(&["-l", "bar", "log", "slint_debug"])) {
        Ok(CliCommand::Logs { log_type, .. }) => assert_eq!(log_type, LogType::Slint),
        other => panic!("unexpected {:?}", other),
    }
    match parse_cli_args(&args(&["-l", "bar", "log", "loud"])) {
        Err(Cli::UnknownVal(m)) => assert_eq!(m, "loud is not a debug type."),
        other => panic!("unexpected {:?}", other),
    }
    match parse_cli_args(&args(&["log"])) {
        Err(Cli::UndefinedArg(m)) => assert_eq!(m, "define a layer name to display user logs"),
        other => panic!("unexpected {:?}", other),
    }
    assert!(matches!(parse_cli_args(&args(&["log", "--help"])), Ok(CliCommand::Help(HelpTopic::Log))));
}

#[test]
fn fingerprint_subcommands() {
    assert!(matches!(parse_cli_args(&args(&["fprint"])), Ok(CliCommand::Fingerprint(Fprint::List))));
    assert!(matches!(parse_cli_args(&args(&["fprint", "enroll"])), Ok(CliCommand::Fingerprint(Fprint::Enroll))));
    assert!(matches!(parse_cli_args(&args(&["fprint", "verify"])), Ok(CliCommand::Fingerprint(Fprint::Verify))));
    assert!(matches!(parse_cli_args(&args(&["fprint", "--help"])), Ok(CliCommand::Help(HelpTopic::Fprint))));
    assert!(matches!(parse_cli_args(&args(&["fprint", "scan"])), Err(Cli::BadSubCommand(_))));
}

#[test]
fn new_project_needs_path() {
    match parse_cli_args(&args(&["new", "demo"])) {
        Ok(CliCommand::NewProject(p)) => assert_eq!(p, "demo"),
        other => panic!("unexpected {:?}", other),
    }
    match parse_cli_args(&args(&["new"])) {
        Err(Cli::UndefinedArg(m)) => assert_eq!(m, "Provide a destination for creating the project."),
        other => panic!("unexpected {:?}", other),
    }
}

#[test]
fn placeholder_subcommands_do_nothing() {
    assert!(matches!(parse_cli_args(&args(&["enable"])), Ok(CliCommand::Nothing)));
    assert!(matches!(parse_cli_args(&args(&["list"])), Ok(CliCommand::Nothing)));
}

#[test]
fn socket_path_trims_layer() {
    assert_eq!(ipc_path("  clock\n"), "/tmp/clock_ipc.sock");
}

#[test]
fn project_layout_with_and_without_slash() {
    let p = project_paths("demo");
    assert_eq!(p.ui_dir, "demo/ui");
    assert_eq!(p.slint_file, "demo/ui/app-window.slint");
    assert_eq!(p.build_file, "demo/build.rs");
    assert_eq!(p.main_file, "demo/src/main.rs");
    assert_eq!(p.cargo_file, "demo/Cargo.toml");
    let q = project_paths("demo/");
    assert_eq!(q.ui_dir, "demo/ui");
    assert_eq!(q.cargo_file, "demo/Cargo.toml");
}

#[test]
fn manifest_header() {
    assert_eq!(
        cargo_manifest("demo", "[dependencies]\n"),
        "[package] \nname = \"demo\" \n [dependencies]\n"
    );
}

#[test]
fn error_lines() {
    assert_eq!(Cli::BadSubCommand("x".to_string()).report(), "[Bad Sub-command]: x");
    assert_eq!(Cli::UndefinedArg("y".to_string()).report(), "[Undefined Arg]: y");
    assert_eq!(Cli::UnknownVal("z".to_string()).report(), "[Unknown Value] z");
    assert_eq!(Cli::UndeclaredVal("w".to_string()).report(), "[Undeclared Content]: w");
}

#[test]
fn bus_error_lines() {
    assert_eq!(
        method_error_report("Value is not supported"),
        "[Parse Error]: Given Value for key couldn't be parsed."
    );
    assert_eq!(
        method_error_report("Sender is not authorized to send message"),
        "List couldn't currently display devices and fingerprints. Use `fprintd-list` instead if installed"
    );
    assert_eq!(
        method_error_report("boom"),
        "[Method Error]: Seems like the service is not running. \n Invoke `cast_spell` before calling for changes. boom"
    );
}
