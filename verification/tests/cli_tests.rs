use lemurs::cli::{Cli, CliError, Commands};

#[test]
fn test_gui_test_subcommand() {
    let args = vec!["gui-test".to_string()];
    let cli = Cli::parse_args(args).unwrap();
    assert!(matches!(cli.command, Some(Commands::GuiTest)));
}

#[test]
fn test_gui_test_after_flags() {
    let args = vec!["--preview".to_string(), "gui-test".to_string()];
    let cli = Cli::parse_args(args).unwrap();
    assert!(cli.preview);
    assert!(matches!(cli.command, Some(Commands::GuiTest)));
}

#[test]
fn test_gui_test_before_flags() {
    let args = vec!["gui-test".to_string(), "--preview".to_string()];
    let cli = Cli::parse_args(args).unwrap();
    assert!(cli.preview);
    assert!(matches!(cli.command, Some(Commands::GuiTest)));
}

#[test]
fn test_value_flags() {
    let args = vec![
        "--config".to_string(),
        "/etc/lemurs/config.toml".to_string(),
        "--tty".to_string(),
        "2".to_string(),
        "--no-log".to_string(),
        "--initial-path".to_string(),
        "/usr/bin".to_string(),
    ];
    let cli = Cli::parse_args(args).unwrap();
    assert_eq!(cli.config, Some("/etc/lemurs/config.toml".to_string()));
    assert_eq!(cli.tty, Some(2));
    assert!(cli.no_log);
    assert_eq!(cli.initial_path, Some("/usr/bin".to_string()));
}

#[test]
fn test_missing_argument() {
    let args = vec!["--config".to_string()];
    assert!(matches!(Cli::parse_args(args), Err(CliError::MissingArgument("config"))));
}

#[test]
fn test_invalid_tty() {
    assert!(matches!(
        Cli::parse_args(vec!["--tty".to_string(), "0".to_string()]),
        Err(CliError::InvalidTTY)
    ));
    assert!(matches!(
        Cli::parse_args(vec!["--tty".to_string(), "13".to_string()]),
        Err(CliError::InvalidTTY)
    ));
    assert!(matches!(
        Cli::parse_args(vec!["--tty".to_string(), "seven".to_string()]),
        Err(CliError::InvalidTTY)
    ));
}

#[test]
fn test_invalid_argument() {
    let args = vec!["--frobnicate".to_string()];
    match Cli::parse_args(args) {
        Err(CliError::InvalidArgument(a)) => assert_eq!(a, "--frobnicate"),
        _ => panic!("expected the unknown flag to be rejected"),
    }
}

#[test]
fn test_arguments_are_trimmed() {
    let args = vec![" envs ".to_string()];
    let cli = Cli::parse_args(args).unwrap();
    assert!(matches!(cli.command, Some(Commands::Envs)));
}
