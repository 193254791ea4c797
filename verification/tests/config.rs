use kacemon::config::{CliConfig, Config};
use kacemon::model::ProcessColumns;
use kacemon::{CoreError, SortKey, Theme};
use std::time::Duration;

fn file(refresh_ms: u64) -> Config {
    Config { refresh_ms, ..Config::default() }
}

#[test]
fn defaults_are_the_built_in_ones() {
    let config = Config::default();
    assert_eq!(config.initial_sort, SortKey::Cpu);
    assert_eq!(config.initial_sort, SortKey::default());
    assert_eq!(config.theme, Theme::default());
    assert_eq!(config.process_columns, ProcessColumns::default());
    assert!(!config.tree_view);
    assert!(!config.use_procfs);
    let columns = ProcessColumns::default();
    assert!(columns.pid && columns.name && columns.user && columns.cpu_percent);
    assert!(columns.memory_percent && columns.memory_rss && columns.state);
    assert!(!columns.memory_vsz && !columns.threads && !columns.start_time);
    assert_eq!(CliConfig::default(), CliConfig { refresh_ms: None, theme: None, no_color: false });
}

#[test]
fn command_line_wins_over_the_file() {
    let cli = CliConfig { refresh_ms: Some(500), theme: None, no_color: false };
    let config = Config::load(Some(&cli), None, Some(Ok(file(2000)))).unwrap();
    assert_eq!(config.refresh_ms, 500);
    let config = Config::load(Some(&cli), Some(file(3000)), Some(Ok(file(4000)))).unwrap();
    assert_eq!(config.refresh_ms, 500);
    let config = Config::load(Some(&cli), None, None).unwrap();
    assert_eq!(config.refresh_ms, 500);
}

#[test]
fn layers_lie_over_each_other_in_order() {
    let config = Config::load(None, None, None).unwrap();
    assert_eq!(config, Config::default());
    let config = Config::load(None, Some(file(3000)), None).unwrap();
    assert_eq!(config.refresh_ms, 3000);
    let config = Config::load(None, Some(file(3000)), Some(Ok(file(4000)))).unwrap();
    assert_eq!(config.refresh_ms, 4000);
    let config = Config::load(None, Some(file(3000)), Some(Ok(file(2000)))).unwrap();
    assert_eq!(config.refresh_ms, 3000);
    let cli = CliConfig { refresh_ms: None, theme: Some(Theme::Light), no_color: true };
    let config = Config::load(Some(&cli), Some(file(3000)), None).unwrap();
    assert_eq!(config.refresh_ms, 3000);
    assert_eq!(config.theme, Theme::Light);
    assert!(config.no_color);
}

#[test]
fn merge_takes_what_differs_from_the_defaults() {
    let mut config = Config {
        refresh_ms: 700,
        theme: Theme::Light,
        no_color: true,
        initial_sort: SortKey::Name,
        process_columns: ProcessColumns { threads: true, ..ProcessColumns::default() },
        tree_view: true,
        use_procfs: true,
    };
    let before = config;
    config.merge(Config::default());
    assert_eq!(config, before);
    let mut config = Config::default();
    config.merge(before);
    assert_eq!(config, before);
    let mut config = before;
    config.merge(Config {
        refresh_ms: 250,
        initial_sort: SortKey::Pid,
        process_columns: ProcessColumns { pid: false, ..ProcessColumns::default() },
        ..Config::default()
    });
    assert_eq!(config.refresh_ms, 250);
    assert_eq!(config.theme, Theme::Light);
    assert!(config.no_color);
    assert_eq!(config.initial_sort, SortKey::Pid);
    assert!(!config.process_columns.pid);
    assert!(!config.process_columns.threads);
    assert!(config.tree_view);
    assert!(config.use_procfs);
}

#[test]
fn overrides_apply_what_the_command_line_sets() {
    let mut config = Config { no_color: true, ..Config::default() };
    config.apply_cli_overrides(&CliConfig { refresh_ms: None, theme: None, no_color: false });
    assert_eq!(config, Config { no_color: true, ..Config::default() });
    config.apply_cli_overrides(&CliConfig {
        refresh_ms: Some(99),
        theme: Some(Theme::Dark),
        no_color: false,
    });
    assert_eq!(config.refresh_ms, 99);
    assert_eq!(config.theme, Theme::Dark);
    assert!(config.no_color);
}

#[test]
fn refresh_interval_is_validated() {
    assert_eq!(file(50).validate(), Ok(()));
    assert_eq!(file(10_000).validate(), Ok(()));
    assert_eq!(
        file(49).validate(),
        Err(CoreError::Config("Refresh interval must be at least 50ms".to_string()))
    );
    assert_eq!(
        file(0).validate(),
        Err(CoreError::Config("Refresh interval must be at least 50ms".to_string()))
    );
    assert_eq!(
        file(10_001).validate(),
        Err(CoreError::Config("Refresh interval must be at most 10 seconds".to_string()))
    );
    assert_eq!(
        file(u64::MAX).validate(),
        Err(CoreError::Config("Refresh interval must be at most 10 seconds".to_string()))
    );
}

#[test]
fn load_fails_outside_the_range() {
    let cli = CliConfig { refresh_ms: Some(20), theme: None, no_color: false };
    assert_eq!(
        Config::load(Some(&cli), None, None),
        Err(CoreError::Config("Refresh interval must be at least 50ms".to_string()))
    );
    assert_eq!(
        Config::load(None, None, Some(Ok(file(60_000)))),
        Err(CoreError::Config("Refresh interval must be at most 10 seconds".to_string()))
    );
    let rescue = CliConfig { refresh_ms: Some(1000), theme: None, no_color: false };
    assert_eq!(Config::load(Some(&rescue), None, Some(Ok(file(60_000)))).unwrap().refresh_ms, 1000);
}

#[test]
fn a_named_file_that_failed_fails_the_load() {
    let failure = CoreError::config("Failed to read config file x.json: gone".to_string());
    let cli = CliConfig { refresh_ms: Some(500), theme: None, no_color: false };
    assert_eq!(
        Config::load(Some(&cli), Some(file(3000)), Some(Err(failure))),
        Err(CoreError::Config("Failed to read config file x.json: gone".to_string()))
    );
}

#[test]
fn refresh_interval_is_a_duration() {
    assert_eq!(Config::default().refresh_interval(), Duration::from_millis(2000));
    assert_eq!(file(50).refresh_interval(), Duration::from_millis(50));
    assert_eq!(file(u64::MAX).refresh_interval(), Duration::from_millis(u64::MAX));
}

#[test]
fn errors_say_what_failed() {
    let m = || "it broke".to_string();
    assert_eq!(CoreError::system_info(m()).describe(), "System information error: it broke");
    assert_eq!(CoreError::process_info(m()).describe(), "Process information error: it broke");
    assert_eq!(CoreError::config(m()).describe(), "Configuration error: it broke");
    assert_eq!(CoreError::platform(m()).describe(), "Platform-specific error: it broke");
    assert_eq!(CoreError::Io(m()).describe(), "IO error: it broke");
    assert_eq!(CoreError::Json(m()).describe(), "JSON serialization error: it broke");
    assert_eq!(CoreError::permission_denied(m()).describe(), "Permission denied: it broke");
    assert_eq!(
        CoreError::unsupported_platform(m()).describe(),
        "Feature not supported on this platform: it broke"
    );
    assert_eq!(CoreError::system_info(m()), CoreError::SystemInfo(m()));
    assert_eq!(CoreError::process_info(m()), CoreError::ProcessInfo(m()));
    assert_eq!(CoreError::permission_denied(m()), CoreError::PermissionDenied(m()));
    assert_eq!(CoreError::unsupported_platform(m()), CoreError::UnsupportedPlatform(m()));
}
