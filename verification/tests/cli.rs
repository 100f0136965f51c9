use rusty_jack::cli::{command_names, Cli, CliErrorKind, Commands, ConfigCommand, DriverCommand, ScalarWebapiDeviceCommand};

fn parse(args: &[&str]) -> Cli {
    Cli::try_parse_from(args).unwrap()
}

#[test]
fn test_subcommands_alphabetical_in_help() {
    let names = command_names();
    let mut sorted = names.clone();
    sorted.sort();
    assert_eq!(names, sorted, "subcommands: {names:?}");
}

#[test]
fn test_cli_debug() {
    for name in command_names() {
        match Cli::try_parse_from(&["rusty-jack", name]) {
            Ok(_) => {}
            Err(e) => assert_eq!(e.kind, CliErrorKind::MissingSubcommand, "{name}"),
        }
    }
}

#[test]
fn test_list_hdmi_flag() {
    match parse(&["rusty-jack", "list", "--hdmi"]).command {
        Commands::List(args) => assert!(args.hdmi),
        _ => panic!("expected list"),
    }
}

#[test]
fn test_list_json_flag() {
    match parse(&["rusty-jack", "list", "--json"]).command {
        Commands::List(args) => assert!(args.json),
        _ => panic!("expected list"),
    }
}

#[test]
fn test_list_discover_flag() {
    match parse(&["rusty-jack", "list", "--discover"]).command {
        Commands::List(args) => assert!(args.discover),
        _ => panic!("expected list"),
    }
}

#[test]
fn test_status_json_flag() {
    match parse(&["rusty-jack", "status", "--json"]).command {
        Commands::Status(args) => assert!(args.json),
        _ => panic!("expected status"),
    }
}

#[test]
fn test_apply_json_flag() {
    match parse(&["rusty-jack", "apply", "--json"]).command {
        Commands::Apply(args) => assert!(args.json),
        _ => panic!("expected apply"),
    }
}

#[test]
fn test_disable_json_flag() {
    match parse(&["rusty-jack", "disable", "--json"]).command {
        Commands::Disable(args) => assert!(args.json),
        _ => panic!("expected disable"),
    }
}

#[test]
fn test_config_init_json_flag() {
    match parse(&["rusty-jack", "config", "init", "--json"]).command {
        Commands::Config(args) => match args.command {
            ConfigCommand::Init(args) => assert!(args.json),
            _ => panic!("expected init"),
        },
        _ => panic!("expected config"),
    }
}

#[test]
fn test_config_validate_json_flag() {
    match parse(&["rusty-jack", "config", "validate", "--json"]).command {
        Commands::Config(args) => match args.command {
            ConfigCommand::Validate(args) => assert!(args.json),
            _ => panic!("expected validate"),
        },
        _ => panic!("expected config"),
    }
}

#[test]
fn test_driver_swap_flags() {
    match parse(&["rusty-jack", "driver", "swap-in", "--json"]).command {
        Commands::Driver(args) => match args.command {
            DriverCommand::SwapIn(args) => assert!(args.json),
            _ => panic!("expected swap-in"),
        },
        _ => panic!("expected driver"),
    }
    match parse(&["rusty-jack", "driver", "swap-out", "--json"]).command {
        Commands::Driver(args) => match args.command {
            DriverCommand::SwapOut(args) => assert!(args.json),
            _ => panic!("expected swap-out"),
        },
        _ => panic!("expected driver"),
    }
}

#[test]
fn test_pause_json_flag() {
    match parse(&["rusty-jack", "pause", "--json"]).command {
        Commands::Pause(args) => assert!(args.json),
        _ => panic!("expected pause"),
    }
}

#[test]
fn test_install_json_flag() {
    match parse(&["rusty-jack", "install", "--json"]).command {
        Commands::Install(args) => assert!(args.json),
        _ => panic!("expected install"),
    }
}

#[test]
fn test_resume_json_flag() {
    match parse(&["rusty-jack", "resume", "--json"]).command {
        Commands::Resume(args) => assert!(args.json),
        _ => panic!("expected resume"),
    }
}

#[test]
fn test_picker_index_flag() {
    match parse(&["rusty-jack", "picker", "--index", "2"]).command {
        Commands::Picker(args) => assert_eq!(args.index, Some(2)),
        _ => panic!("expected picker"),
    }
}

#[test]
fn test_uninstall_json_flag() {
    match parse(&["rusty-jack", "uninstall", "--json"]).command {
        Commands::Uninstall(args) => assert!(args.json),
        _ => panic!("expected uninstall"),
    }
}

#[test]
fn test_uninstall_config_flags() {
    match parse(&["rusty-jack", "uninstall", "--remove-config"]).command {
        Commands::Uninstall(args) => {
            assert!(args.remove_config);
            assert!(!args.keep_config);
            assert!(!args.only_driver);
        }
        _ => panic!("expected uninstall"),
    }
    assert!(Cli::try_parse_from(&["rusty-jack", "uninstall", "--remove-config", "--keep-config"]).is_err());
}

#[test]
fn test_uninstall_purge_flag() {
    match parse(&["rusty-jack", "uninstall", "--purge"]).command {
        Commands::Uninstall(args) => {
            assert!(args.purge);
            assert!(!args.only_driver);
        }
        _ => panic!("expected uninstall"),
    }
}

#[test]
fn test_scalar_webapi_device_discover_parses() {
    let cli = parse(&["rusty-jack", "scalar-webapi-device", "discover", "--json", "--timeout-ms", "5000"]);
    match cli.command {
        Commands::ScalarWebapiDevice(args) => match args.command {
            ScalarWebapiDeviceCommand::Discover(args) => {
                assert!(args.json);
                assert_eq!(args.timeout_ms, Some(5000));
            }
        },
        _ => panic!("expected scalar-webapi-device"),
    }
}

#[test]
fn test_uninstall_only_driver_flag() {
    match parse(&["rusty-jack", "uninstall", "--only-driver"]).command {
        Commands::Uninstall(args) => {
            assert!(args.only_driver);
            assert!(!args.remove_config);
            assert!(!args.keep_config);
            assert!(!args.no_restore_audio);
        }
        _ => panic!("expected uninstall"),
    }
    assert!(Cli::try_parse_from(&["rusty-jack", "uninstall", "--only-driver", "--remove-config"]).is_err());
}

#[test]
fn test_uninstall_no_restore_audio_flag() {
    match parse(&["rusty-jack", "uninstall", "--no-restore-audio"]).command {
        Commands::Uninstall(args) => assert!(args.no_restore_audio),
        _ => panic!("expected uninstall"),
    }
}

#[test]
fn test_upgrade_json_flag() {
    match parse(&["rusty-jack", "upgrade", "--json"]).command {
        Commands::Upgrade(args) => assert!(args.json),
        _ => panic!("expected upgrade"),
    }
}

#[test]
fn test_upgrade_force_flag() {
    match parse(&["rusty-jack", "upgrade", "--force"]).command {
        Commands::Upgrade(args) => assert!(args.force),
        _ => panic!("expected upgrade"),
    }
}

#[test]
fn test_global_config_flag() {
    let cli = parse(&["rusty-jack", "--config", "/tmp/rusty-jack.json", "status"]);
    assert_eq!(cli.config.as_deref(), Some("/tmp/rusty-jack.json"));
    let cli = parse(&["rusty-jack", "status", "--config=/tmp/x.json"]);
    assert_eq!(cli.config.as_deref(), Some("/tmp/x.json"));
}

#[test]
fn cli_refusals_name_their_kind() {
    let kind = |args: &[&str]| Cli::try_parse_from(args).unwrap_err().kind;
    assert_eq!(kind(&["rusty-jack"]), CliErrorKind::MissingSubcommand);
    assert_eq!(kind(&["rusty-jack", "bogus"]), CliErrorKind::InvalidSubcommand);
    assert_eq!(kind(&["rusty-jack", "list", "--bogus"]), CliErrorKind::UnknownArgument);
    assert_eq!(kind(&["rusty-jack", "picker", "--index"]), CliErrorKind::MissingValue);
    assert_eq!(kind(&["rusty-jack", "picker", "--index", "two"]), CliErrorKind::InvalidValue);
    assert_eq!(kind(&["rusty-jack", "list", "--json", "--json"]), CliErrorKind::ArgumentRepeated);
    assert_eq!(kind(&["rusty-jack", "--help"]), CliErrorKind::DisplayHelp);
    assert_eq!(kind(&["rusty-jack", "--version"]), CliErrorKind::DisplayVersion);
    assert_eq!(kind(&["rusty-jack", "uninstall", "--purge", "--purge-logs"]), CliErrorKind::ArgumentConflict);
    match parse(&["rusty-jack", "picker", "--index=3"]).command {
        Commands::Picker(args) => assert_eq!(args.index, Some(3)),
        _ => panic!("expected picker"),
    }
}
