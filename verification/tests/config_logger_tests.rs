use ytdl::cli::Cli;
use ytdl::config::{CliConfig, Config};
use ytdl::logger::{level_from_verbosity, LogLevel, LoggerConfig};

#[test]
fn test_config_defaults() {
    let config = Config::default();
    assert_eq!(config.output_dir, "./downloads");
    assert_eq!(config.quality, "best");
    assert!(!config.audio_only);
}

#[test]
fn test_merge_with_cli() {
    let mut config = Config::default();
    let cli_config = CliConfig {
        output: Some("/tmp/videos".to_string()),
        quality: Some("720p".to_string()),
        audio_only: true,
        enable_file_logging: true,
        enable_json_logging: false,
    };

    config.merge_with_cli(cli_config);
    assert_eq!(config.output_dir, "/tmp/videos");
    assert_eq!(config.quality, "720p");
    assert!(config.audio_only);
}

#[test]
fn merge_without_overrides_changes_nothing() {
    let mut config = Config::default();
    config.merge_with_cli(CliConfig::default());
    assert_eq!(config.output_dir, "./downloads");
    assert_eq!(config.quality, "best");
    assert!(!config.audio_only);
    assert!(!config.enable_file_logging);
}

#[test]
fn test_level_from_verbosity() {
    assert_eq!(level_from_verbosity(0), LogLevel::Info);
    assert_eq!(level_from_verbosity(1), LogLevel::Debug);
    assert_eq!(level_from_verbosity(2), LogLevel::Trace);
    assert_eq!(level_from_verbosity(3), LogLevel::Trace);
}

#[test]
fn test_logger_config_defaults() {
    let config = LoggerConfig::default();
    assert_eq!(config.level, LogLevel::Info);
    assert!(!config.enable_file_logging);
    assert!(!config.enable_json_format);
}

#[test]
fn logger_builders_compose() {
    let config = LoggerConfig::new()
        .with_level(LogLevel::Debug)
        .with_file_logging(true)
        .with_json_format(true)
        .with_log_dir("/tmp/logs".to_string())
        .with_tui_mode(true);
    assert_eq!(config.level, LogLevel::Debug);
    assert!(config.enable_file_logging);
    assert!(config.enable_json_format);
    assert_eq!(config.log_dir.as_deref(), Some("/tmp/logs"));
    assert!(config.tui_mode);
}

fn bare_cli() -> Cli {
    Cli {
        url: None,
        output: None,
        quality: Some("best".to_string()),
        audio_only: false,
        playlist: false,
        info: false,
        interactive: false,
        batch: None,
        concurrent: 3,
        stop_on_error: false,
        clipboard: false,
        watch: false,
        range: None,
        folder: None,
        resume: false,
        verbose: 0,
        quiet: false,
        log_file: false,
        log_json: false,
        config: None,
        command: None,
    }
}

#[test]
fn cli_without_work_is_rejected() {
    let cli = bare_cli();
    assert_eq!(
        cli.validate().unwrap_err(),
        "No URL provided. Use --help for usage information."
    );
}

#[test]
fn cli_quiet_and_verbose_clash() {
    let mut cli = bare_cli();
    cli.url = Some("https://youtu.be/x".to_string());
    cli.quiet = true;
    cli.verbose = 1;
    assert_eq!(cli.validate().unwrap_err(), "Cannot use both --quiet and --verbose flags");
    cli.verbose = 0;
    assert!(cli.validate().is_ok());
}

#[test]
fn cli_interactive_counts_as_work() {
    let mut cli = bare_cli();
    cli.interactive = true;
    assert!(cli.validate().is_ok());
}
