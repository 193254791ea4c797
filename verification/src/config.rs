//! The configuration and the layers it is built from: built-in defaults,
//! a file at a default place, a file named on the command line, and the
//! command line itself, each over the ones before.

use crate::error::{CoreError, Failure};
use crate::model::{ProcessColumns, SortKey, Theme};
use std::time::Duration;
use vstd::prelude::*;
use vstd::string::*;

verus! {

/// Shortest refresh interval accepted, in milliseconds.
pub const MIN_REFRESH_MS: u64 = 50;

/// Longest refresh interval accepted, in milliseconds.
pub const MAX_REFRESH_MS: u64 = 10_000;

/// Refresh interval of the built-in defaults, in milliseconds.
pub const DEFAULT_REFRESH_MS: u64 = 2000;

/// Application configuration.
#[derive(Debug, Clone, Copy, PartialEq, Eq, Structural)]
pub struct Config {
    /// Refresh interval in milliseconds.
    pub refresh_ms: u64,
    pub theme: Theme,
    /// Disable colors.
    pub no_color: bool,
    pub initial_sort: SortKey,
    pub process_columns: ProcessColumns,
    /// Tree view enabled by default.
    pub tree_view: bool,
    /// Use the Linux process file system where it is there.
    pub use_procfs: bool,
}

/// What the command line sets.
#[derive(Debug, Clone, Copy, PartialEq, Eq, Structural)]
pub struct CliConfig {
    pub refresh_ms: Option<u64>,
    pub theme: Option<Theme>,
    pub no_color: bool,
}

impl Default for CliConfig {
    fn default() -> (r: Self)
        ensures
            r == (CliConfig { refresh_ms: None, theme: None, no_color: false }),
    {
        Self { refresh_ms: None, theme: None, no_color: false }
    }
}

impl Config {
    /// The built-in defaults.
    pub open spec fn standard() -> Config {
        Config {
            refresh_ms: DEFAULT_REFRESH_MS,
            theme: Theme::Dark,
            no_color: false,
            initial_sort: SortKey::Cpu,
            process_columns: ProcessColumns::standard(),
            tree_view: false,
            use_procfs: false,
        }
    }

    /// `self` with the layer `other` laid over it: a field of `other` that
    /// differs from the built-in default replaces the field of `self`; the
    /// columns are replaced as a whole.
    pub open spec fn merged(self, other: Config) -> Config {
        let standard = Self::standard();
        Config {
            refresh_ms: if other.refresh_ms != standard.refresh_ms {
                other.refresh_ms
            } else {
                self.refresh_ms
            },
            theme: if other.theme != standard.theme {
                other.theme
            } else {
                self.theme
            },
            no_color: if other.no_color != standard.no_color {
                other.no_color
            } else {
                self.no_color
            },
            initial_sort: if other.initial_sort != standard.initial_sort {
                other.initial_sort
            } else {
                self.initial_sort
            },
            process_columns: if other.process_columns != standard.process_columns {
                other.process_columns
            } else {
                self.process_columns
            },
            tree_view: if other.tree_view != standard.tree_view {
                other.tree_view
            } else {
                self.tree_view
            },
            use_procfs: if other.use_procfs != standard.use_procfs {
                other.use_procfs
            } else {
                self.use_procfs
            },
        }
    }

    /// `self` with the command line laid over it: what the command line
    /// sets wins.
    pub open spec fn overridden(self, cli: CliConfig) -> Config {
        Config {
            refresh_ms: match cli.refresh_ms {
                Some(ms) => ms,
                None => self.refresh_ms,
            },
            theme: match cli.theme {
                Some(theme) => theme,
                None => self.theme,
            },
            no_color: self.no_color || cli.no_color,
            ..self
        }
    }

    /// Whether the refresh interval is in the accepted range.
    pub open spec fn valid(self) -> bool {
        MIN_REFRESH_MS <= self.refresh_ms <= MAX_REFRESH_MS
    }

    /// The failure that an interval outside the range is rejected with.
    pub open spec fn rejection(self) -> Failure {
        if self.refresh_ms < MIN_REFRESH_MS {
            Failure::Config("Refresh interval must be at least 50ms"@)
        } else {
            Failure::Config("Refresh interval must be at most 10 seconds"@)
        }
    }

    /// The layers laid over each other, before validation.
    pub open spec fn layered(
        default_file: Option<Config>,
        json_file: Option<Config>,
        cli: Option<CliConfig>,
    ) -> Config {
        let base = Self::standard();
        let with_default = match default_file {
            Some(layer) => base.merged(layer),
            None => base,
        };
        let with_file = match json_file {
            Some(layer) => with_default.merged(layer),
            None => with_default,
        };
        match cli {
            Some(layer) => with_file.overridden(layer),
            None => with_file,
        }
    }

    /// Builds the configuration from its layers, lowest first: the built-in
    /// defaults, the file found at a default place, the file named on the
    /// command line, the command line. A file named on the command line that
    /// could not be loaded fails the whole, with its own failure; so does a
    /// refresh interval outside 50 to 10000 milliseconds.
    pub fn load(
        cli_config: Option<&CliConfig>,
        default_file: Option<Config>,
        json_file: Option<Result<Config, CoreError>>,
    ) -> (r: Result<Config, CoreError>)
        ensures
            match json_file {
                Some(Err(e)) => r is Err && r->Err_0@ == e@,
                _ => {
                    let file = match json_file {
                        Some(Ok(layer)) => Some(layer),
                        _ => None,
                    };
                    let cli = match cli_config {
                        Some(layer) => Some(*layer),
                        None => None,
                    };
                    let config = Self::layered(default_file, file, cli);
                    if config.valid() {
                        r == Ok::<Config, CoreError>(config)
                    } else {
                        r is Err && r->Err_0@ == config.rejection()
                    }
                },
            },
    {
        let mut config = Self::default();
        if let Some(default_config) = default_file {
            config.merge(default_config);
        }
        match json_file {
            Some(Ok(file_config)) => {
                config.merge(file_config);
            },
            Some(Err(e)) => {
                return Err(e);
            },
            None => {},
        }
        if let Some(cli) = cli_config {
            config.apply_cli_overrides(cli);
        }
        match config.validate() {
            Ok(()) => Ok(config),
            Err(e) => Err(e),
        }
    }

    /// Lays the layer `other` over this configuration.
    pub fn merge(&mut self, other: Self)
        ensures
            *final(self) == old(self).merged(other),
    {
        if other.refresh_ms != DEFAULT_REFRESH_MS {
            self.refresh_ms = other.refresh_ms;
        }
        if other.theme != Theme::Dark {
            self.theme = other.theme;
        }
        if other.no_color {
            self.no_color = other.no_color;
        }
        if other.initial_sort != SortKey::Cpu {
            self.initial_sort = other.initial_sort;
        }
        let default_columns = ProcessColumns::default();
        if other.process_columns.pid != default_columns.pid || other.process_columns.name
            != default_columns.name || other.process_columns.user != default_columns.user
            || other.process_columns.cpu_percent != default_columns.cpu_percent
            || other.process_columns.memory_percent != default_columns.memory_percent
            || other.process_columns.memory_rss != default_columns.memory_rss
            || other.process_columns.memory_vsz != default_columns.memory_vsz
            || other.process_columns.threads != default_columns.threads
            || other.process_columns.state != default_columns.state
            || other.process_columns.start_time != default_columns.start_time {
            self.process_columns = other.process_columns;
        }
        if other.tree_view {
            self.tree_view = other.tree_view;
        }
        if other.use_procfs {
            self.use_procfs = other.use_procfs;
        }
    }

    /// Lays the command line over this configuration.
    pub fn apply_cli_overrides(&mut self, cli: &CliConfig)
        ensures
            *final(self) == old(self).overridden(*cli),
    {
        if let Some(refresh) = cli.refresh_ms {
            self.refresh_ms = refresh;
        }
        if let Some(theme) = cli.theme {
            self.theme = theme;
        }
        if cli.no_color {
            self.no_color = true;
        }
    }

    /// Accepts a refresh interval from 50 to 10000 milliseconds, and
    /// rejects every other.
    pub fn validate(&self) -> (r: Result<(), CoreError>)
        ensures
            self.valid() ==> r is Ok,
            !self.valid() ==> r is Err && r->Err_0@ == self.rejection(),
    {
        if self.refresh_ms < MIN_REFRESH_MS {
            return Err(
                CoreError::config(String::from_str("Refresh interval must be at least 50ms")),
            );
        }
        if self.refresh_ms > MAX_REFRESH_MS {
            return Err(
                CoreError::config(
                    String::from_str("Refresh interval must be at most 10 seconds"),
                ),
            );
        }
        Ok(())
    }

    /// The refresh interval as a duration.
    pub fn refresh_interval(&self) -> (r: Duration)
        ensures
            duration_millis(r) == self.refresh_ms,
    {
        duration_from_millis(self.refresh_ms)
    }
}

impl Default for Config {
    fn default() -> (r: Self)
        ensures
            r == Config::standard(),
    {
        Self {
            refresh_ms: DEFAULT_REFRESH_MS,
            theme: Theme::Dark,
            no_color: false,
            initial_sort: SortKey::Cpu,
            process_columns: ProcessColumns::default(),
            tree_view: false,
            use_procfs: false,
        }
    }
}

/// The whole milliseconds that a duration lasts.
pub uninterp spec fn duration_millis(d: Duration) -> nat;

/// A duration of `millis` milliseconds: std's `Duration::from_millis`.
#[verifier::external_body]
fn duration_from_millis(millis: u64) -> (r: Duration)
    ensures
        duration_millis(r) == millis,
{
    Duration::from_millis(millis)
}

/// What the command line sets wins over every file and over the defaults.
pub proof fn lemma_cli_wins(
    default_file: Option<Config>,
    json_file: Option<Config>,
    cli: CliConfig,
)
    ensures
        cli.refresh_ms is Some ==> Config::layered(
            default_file,
            json_file,
            Some(cli),
        ).refresh_ms == cli.refresh_ms->0,
        cli.theme is Some ==> Config::layered(default_file, json_file, Some(cli)).theme
            == cli.theme->0,
        cli.no_color ==> Config::layered(default_file, json_file, Some(cli)).no_color,
{
}

/// A layer that sets nothing but defaults changes nothing.
pub proof fn lemma_default_layer_is_neutral(config: Config)
    ensures
        config.merged(Config::standard()) == config,
        config.overridden(CliConfig { refresh_ms: None, theme: None, no_color: false }) == config,
{
}

} // verus!
