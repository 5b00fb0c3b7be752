use tars_anthropic::cli::{
    failure_line, telemetry_format, verbosity, Cli, CliError, Command, LogFormat,
    TelemetryFormat, Verbosity,
};

#[test]
fn log_format_maps_one_to_one_to_telemetry_format() {
    assert!(matches!(TelemetryFormat::from(LogFormat::Pretty), TelemetryFormat::Pretty));
    assert!(matches!(TelemetryFormat::from(LogFormat::Json), TelemetryFormat::Json));
}

#[test]
fn cli_parses_log_format_flag() {
    let cli =
        Cli::try_parse_from(&["tars", "--log-format", "json", "events", "list"]).expect("parse");
    assert!(matches!(cli.log_format, Some(LogFormat::Json)));

    let cli =
        Cli::try_parse_from(&["tars", "--log-format", "pretty", "events", "list"]).expect("parse");
    assert!(matches!(cli.log_format, Some(LogFormat::Pretty)));

    let cli = Cli::try_parse_from(&["tars", "events", "list"]).expect("parse");
    assert!(cli.log_format.is_none());

    let err = Cli::try_parse_from(&["tars", "--log-format", "yaml", "events", "list"]);
    assert!(err.is_err(), "clap must reject unsupported values");
}

#[test]
fn global_options_stand_on_either_side() {
    let cli = Cli::try_parse_from(&[
        "tars", "-vv", "run", "--prompt", "hi", "--log-format=json", "-c", "a.toml", "--", "-v",
    ])
    .unwrap();
    assert_eq!(cli.command, Command::Run);
    assert_eq!(cli.verbose, 2);
    assert_eq!(cli.log_format, Some(LogFormat::Json));
    assert_eq!(cli.config.as_deref(), Some("a.toml"));
    assert_eq!(cli.args, vec!["--prompt", "hi", "--", "-v"]);
    let cli = Cli::try_parse_from(&["tars", "-v", "--config=a", "run", "-vvv", "-cb"]).unwrap();
    assert_eq!(cli.verbose, 3);
    assert_eq!(cli.config.as_deref(), Some("b"));
}

#[test]
fn nested_commands_have_a_place_of_their_own() {
    let read = |args: &[&str]| {
        let cli = Cli::try_parse_from(args).unwrap();
        (cli.config.unwrap_or_default(), cli.verbose, cli.args)
    };
    assert_eq!(
        read(&["tars", "events", "--config", "a", "list", "--config", "b"]),
        ("b".to_string(), 0, vec!["list".to_string()])
    );
    assert_eq!(
        read(&["tars", "-vvv", "-cz", "trajectory", "-vv", "-ca", "show", "-v", "x"]),
        ("a".to_string(), 1, vec!["show".to_string(), "x".to_string()])
    );
    let (config, verbose, args) =
        read(&["tars", "events", "--store-dir", "d", "-ca", "-v", "list", "-v", "-v", "-cb"]);
    assert_eq!((config.as_str(), verbose), ("b", 2));
    assert_eq!(args, vec!["--store-dir", "d", "list"]);
    let fault = |args: &[&str]| Cli::try_parse_from(args).unwrap_err();
    let twice = CliError::Repeated("--config".to_string());
    assert_eq!(fault(&["tars", "events", "list", "-ca", "x", "-cb"]), twice);
    assert_eq!(fault(&["tars", "run", "-ca", "x", "-cb"]), twice);
    assert_eq!(fault(&["tars", "events", "help"]), CliError::Help);
    assert_eq!(fault(&["tars", "events", "help", "show"]), CliError::Help);
    assert_eq!(
        fault(&["tars", "events", "help", "bogus"]),
        CliError::UnknownCommand("bogus".to_string())
    );
    assert_eq!(read(&["tars", "run", "help"]).2, vec!["help"]);
}

#[test]
fn short_options_can_be_joined() {
    let path = |arg: &str| Cli::try_parse_from(&["tars", arg, "p", "plan"]).map(|c| c.config);
    assert_eq!(path("-vvc"), Ok(Some("p".to_string())));
    assert_eq!(path("-c=x"), Err(CliError::UnknownCommand("p".to_string())));
    let cli = Cli::try_parse_from(&["tars", "-vc=x", "--verbose", "plan"]).unwrap();
    assert_eq!((cli.verbose, cli.config.as_deref()), (2, Some("x")));
    let loud = format!("-{}", "v".repeat(300));
    assert_eq!(Cli::try_parse_from(&["tars", &loud, "plan"]).unwrap().verbose, 255);
}

#[test]
fn commands_have_their_names() {
    for (name, command) in [
        ("run", Command::Run),
        ("plan", Command::Plan),
        ("run-task", Command::RunTask),
        ("probe", Command::Probe),
        ("bench", Command::Bench),
        ("trajectory", Command::Trajectory),
        ("init", Command::Init),
        ("events", Command::Events),
    ] {
        assert_eq!(Cli::try_parse_from(&["tars", name]).unwrap().command, command);
        assert_eq!(command.name(), name);
    }
}

#[test]
fn bad_command_lines_are_refused() {
    let fault = |args: &[&str]| Cli::try_parse_from(args).unwrap_err();
    assert_eq!(fault(&["tars"]), CliError::NoCommand);
    assert_eq!(fault(&[]), CliError::NoCommand);
    assert_eq!(fault(&["tars", "--help"]), CliError::Help);
    assert_eq!(fault(&["tars", "-vh"]), CliError::Help);
    assert_eq!(fault(&["tars", "help"]), CliError::Help);
    assert_eq!(fault(&["tars", "help", "run-task"]), CliError::Help);
    assert_eq!(fault(&["tars", "help", "help"]), CliError::Help);
    assert_eq!(fault(&["tars", "help", "bogus"]), CliError::UnknownCommand("bogus".to_string()));
    assert_eq!(fault(&["tars", "run", "--help"]), CliError::Help);
    assert_eq!(fault(&["tars", "run", "x", "-h"]), CliError::Help);
    assert_eq!(
        Cli::try_parse_from(&["tars", "run", "--", "-h"]).unwrap().args,
        vec!["--", "-h"]
    );
    assert_eq!(fault(&["tars", "-V"]), CliError::Version);
    assert_eq!(fault(&["tars", "--version"]), CliError::Version);
    assert_eq!(fault(&["tars", "fly"]), CliError::UnknownCommand("fly".to_string()));
    assert_eq!(fault(&["tars", "-x", "run"]), CliError::UnknownOption("-x".to_string()));
    assert_eq!(fault(&["tars", "--", "run"]), CliError::UnknownOption("--".to_string()));
    assert_eq!(fault(&["tars", "run", "-c"]), CliError::MissingValue("--config".to_string()));
    assert_eq!(
        fault(&["tars", "--log-format", "-v", "run"]),
        CliError::MissingValue("--log-format".to_string())
    );
    assert_eq!(fault(&["tars", "--config=", "run"]), CliError::EmptyConfig);
    assert_eq!(
        fault(&["tars", "-ca", "-cb", "run"]),
        CliError::Repeated("--config".to_string())
    );
    assert_eq!(
        fault(&["tars", "run", "--log-format=json", "--log-format=json"]),
        CliError::Repeated("--log-format".to_string())
    );
    assert_eq!(
        fault(&["tars", "run", "--log-format=xml"]),
        CliError::UnknownFormat("xml".to_string())
    );
}

#[test]
fn environment_fills_the_gaps() {
    let cli = || Cli::try_parse_from(&["tars", "run"]).unwrap();
    let full = cli().or_environment(Some("e".to_string()), Some("json".to_string())).unwrap();
    assert_eq!(full.config.as_deref(), Some("e"));
    assert_eq!(full.log_format, Some(LogFormat::Json));
    let given = Cli::try_parse_from(&["tars", "-ca", "--log-format", "pretty", "run"]).unwrap();
    let kept = given.or_environment(Some("e".to_string()), Some("xml".to_string())).unwrap();
    assert_eq!(kept.config.as_deref(), Some("a"));
    assert_eq!(kept.log_format, Some(LogFormat::Pretty));
    assert_eq!(
        cli().or_environment(None, Some("xml".to_string())).unwrap_err(),
        CliError::UnknownFormat("xml".to_string())
    );
    assert_eq!(
        cli().or_environment(Some(String::new()), None).unwrap_err(),
        CliError::EmptyConfig
    );
    assert!(cli().or_environment(None, None).unwrap().config.is_none());
}

#[test]
fn flag_overrides_telemetry_format() {
    assert_eq!(telemetry_format(None, TelemetryFormat::Json), TelemetryFormat::Json);
    assert_eq!(
        telemetry_format(Some(LogFormat::Pretty), TelemetryFormat::Json),
        TelemetryFormat::Pretty
    );
}

#[test]
fn verbosity_has_four_steps() {
    assert_eq!(verbosity(0), Verbosity::Default);
    assert_eq!(verbosity(1), Verbosity::Info);
    assert_eq!(verbosity(2), Verbosity::Debug);
    assert_eq!(verbosity(3), Verbosity::Trace);
    assert_eq!(verbosity(255), Verbosity::Trace);
}

#[test]
fn useless_config_is_pointed_out() {
    let warning = |args: &[&str]| Cli::try_parse_from(args).unwrap().config_warning();
    assert_eq!(warning(&["tars", "-cx", "run"]), None);
    assert_eq!(warning(&["tars", "init"]), None);
    assert_eq!(
        warning(&["tars", "-cx", "init"]),
        Some("--config is ignored by `tars init` (use --path to redirect output)")
    );
    assert_eq!(
        warning(&["tars", "-cx", "trajectory"]),
        Some("--config is ignored by `tars trajectory` (use --events-path / TARS_EVENTS_PATH instead)")
    );
    assert_eq!(
        warning(&["tars", "-cx", "events"]),
        Some("--config is ignored by `tars events` (use --store-dir / TARS_EVENT_STORE_DIR instead)")
    );
}

#[test]
fn failures_name_their_command() {
    assert_eq!(failure_line(Command::RunTask, "boom"), "error in `tars run-task`: boom");
}
