//! The typed settings of the status line and their defaults.
//!
//! Fractions are kept as integers: a percentage in thousandths of a percent,
//! a ratio in thousandths, money in millionths of a dollar.

use crate::common::{join_path, joined_path};
use crate::error::StatuslineError;
use crate::string_map::StringMap;
use crate::text::str_eq;
use vstd::prelude::*;
use vstd::string::*;

verus! {

/// How the status line is laid out.
#[derive(Debug, Clone)]
pub struct DisplayConfig {
    /// Width of the progress bar in characters.
    pub progress_bar_width: usize,
    /// Above this share the context is shown in the warning colour.
    pub context_warning_threshold: u32,
    /// Above this share the context is shown in the critical colour.
    pub context_critical_threshold: u32,
    /// Above this share the context is shown in the caution colour.
    pub context_caution_threshold: u32,
    /// Name of the colour theme.
    pub theme: String,
    pub show_directory: bool,
    pub show_git: bool,
    pub show_context: bool,
    pub show_model: bool,
    pub show_duration: bool,
    pub show_lines_changed: bool,
    pub show_cost: bool,
    /// Whether the context bar also shows the token counts.
    pub show_context_tokens: bool,
}

/// How the context window of a model is resolved and reported.
#[derive(Debug, Clone)]
pub struct ContextConfig {
    /// The window, in tokens, of a model that nothing else decides.
    pub window_size: usize,
    /// Windows fixed by the user, by model display name.
    pub model_windows: StringMap<usize>,
    /// Whether learned windows are used.
    pub adaptive_learning: bool,
    /// The confidence, in thousandths, that a learned window needs.
    pub learning_confidence_threshold: u32,
    /// The tokens reserved for the response.
    pub buffer_size: usize,
    /// The share at which the limit counts as near.
    pub auto_compact_threshold: u32,
    /// `working` reports the share of the working window; any other value
    /// reports the share of the full window.
    pub percentage_mode: String,
}

/// The cost levels that pick the colour of a cost.
#[derive(Debug, Clone, Copy, PartialEq, Eq, Structural)]
pub struct CostConfig {
    /// Costs below this are low.
    pub low_threshold: u64,
    /// Costs from this on are high.
    pub medium_threshold: u64,
}

/// Settings of the primary store.
#[derive(Debug, Clone)]
pub struct DatabaseConfig {
    pub max_connections: u32,
    pub busy_timeout_ms: u32,
    /// Path of the store, relative to the data directory.
    pub path: String,
    /// Whether the mirror is written beside the store.
    pub json_backup: bool,
    /// Days to keep session rows; 0 keeps them for ever.
    pub retention_days_sessions: Option<u32>,
    /// Days to keep day rows; 0 keeps them for ever.
    pub retention_days_daily: Option<u32>,
    /// Days to keep month rows; 0 keeps them for ever.
    pub retention_days_monthly: Option<u32>,
}

/// The retry policy of one category of operations.
#[derive(Debug, Clone, Copy, PartialEq, Eq, Structural)]
pub struct RetrySettings {
    pub max_attempts: u32,
    pub initial_delay_ms: u64,
    pub max_delay_ms: u64,
    /// The factor by which the delay grows, in thousandths.
    pub backoff_factor: u32,
}

/// The retry policies, one per category of operations.
#[derive(Debug, Clone, Copy, PartialEq, Eq, Structural)]
pub struct RetryConfig {
    pub file_ops: RetrySettings,
    pub db_ops: RetrySettings,
    pub git_ops: RetrySettings,
    pub network_ops: RetrySettings,
}

/// How much of the transcript is read.
#[derive(Debug, Clone, Copy, PartialEq, Eq, Structural)]
pub struct TranscriptConfig {
    /// The number of trailing lines that are kept.
    pub buffer_lines: usize,
}

/// Settings of the repository queries.
#[derive(Debug, Clone, Copy, PartialEq, Eq, Structural)]
pub struct GitConfig {
    pub timeout_ms: u32,
}

/// Where the remote copy of the ledger lives.
#[derive(Debug, Clone)]
pub struct TursoConfig {
    pub database_url: String,
    pub auth_token: String,
}

/// Settings of the remote synchronisation.
#[derive(Debug, Clone)]
pub struct SyncConfig {
    pub enabled: bool,
    pub provider: String,
    pub sync_interval_seconds: u64,
    /// The share of the quota, in thousandths, from which a warning is due.
    pub soft_quota_fraction: u32,
    pub turso: TursoConfig,
}

/// All settings.
#[derive(Debug, Clone)]
pub struct Config {
    pub display: DisplayConfig,
    pub context: ContextConfig,
    pub cost: CostConfig,
    pub database: DatabaseConfig,
    pub retry: RetryConfig,
    pub transcript: TranscriptConfig,
    pub git: GitConfig,
    pub sync: SyncConfig,
}

/// 75 %, the warning threshold that ships as the default.
pub const DEFAULT_COMPACT_THRESHOLD: u32 = 75_000;

/// 80 %, the warning threshold that earlier versions shipped.
pub const LEGACY_COMPACT_THRESHOLD: u32 = 80_000;

/// 94 %, the share of the working window that stands for 75 % of the full
/// one.
pub const WORKING_COMPACT_THRESHOLD: u32 = 94_000;

/// Whether the mode text asks for the share of the working window.
pub open spec fn is_working_mode(mode: Seq<char>) -> bool {
    mode == "working"@
}

impl DisplayConfig {
    /// Whether these are the display settings that ship.
    pub open spec fn is_default(self) -> bool {
        &&& self.progress_bar_width == 10
        &&& self.context_warning_threshold == 70_000
        &&& self.context_critical_threshold == 90_000
        &&& self.context_caution_threshold == 50_000
        &&& self.theme@ == "dark"@
        &&& self.show_directory
        &&& self.show_git
        &&& self.show_context
        &&& self.show_model
        &&& self.show_duration
        &&& self.show_lines_changed
        &&& self.show_cost
        &&& !self.show_context_tokens
    }
}

impl Default for DisplayConfig {
    fn default() -> (c: DisplayConfig)
        ensures
            c.is_default(),
    {
        DisplayConfig {
            progress_bar_width: 10,
            context_warning_threshold: 70_000,
            context_critical_threshold: 90_000,
            context_caution_threshold: 50_000,
            theme: String::from_str("dark"),
            show_directory: true,
            show_git: true,
            show_context: true,
            show_model: true,
            show_duration: true,
            show_lines_changed: true,
            show_cost: true,
            show_context_tokens: false,
        }
    }
}

/// The mode that reports the share of the full window.
pub fn default_percentage_mode() -> (mode: String)
    ensures
        mode@ == "full"@,
{
    String::from_str("full")
}

impl ContextConfig {
    /// Whether these are the context settings that ship.
    pub open spec fn is_default(self) -> bool {
        &&& self.window_size == 200_000
        &&& self.model_windows@ == Map::<Seq<char>, usize>::empty()
        &&& !self.adaptive_learning
        &&& self.learning_confidence_threshold == 700
        &&& self.buffer_size == 40_000
        &&& self.auto_compact_threshold == DEFAULT_COMPACT_THRESHOLD
        &&& self.percentage_mode@ == "full"@
    }

    /// Whether the user chose a threshold of their own: one that differs from
    /// both shipped thresholds.
    pub open spec fn has_custom_threshold(self) -> bool {
        self.auto_compact_threshold != DEFAULT_COMPACT_THRESHOLD && self.auto_compact_threshold
            != LEGACY_COMPACT_THRESHOLD
    }

    /// The share at which the limit counts as near: the user's own threshold
    /// where there is one, else the shipped threshold of the display mode.
    pub open spec fn effective_threshold(self) -> u32 {
        if self.has_custom_threshold() {
            self.auto_compact_threshold
        } else if is_working_mode(self.percentage_mode@) {
            WORKING_COMPACT_THRESHOLD
        } else {
            DEFAULT_COMPACT_THRESHOLD
        }
    }

    /// The share at which the limit counts as near.
    pub fn get_effective_threshold(&self) -> (t: u32)
        ensures
            t == self.effective_threshold(),
    {
        let threshold = self.auto_compact_threshold;
        if threshold != DEFAULT_COMPACT_THRESHOLD && threshold != LEGACY_COMPACT_THRESHOLD {
            threshold
        } else if str_eq(self.percentage_mode.as_str(), "working") {
            WORKING_COMPACT_THRESHOLD
        } else {
            DEFAULT_COMPACT_THRESHOLD
        }
    }
}

impl Default for ContextConfig {
    fn default() -> (c: ContextConfig)
        ensures
            c.is_default(),
    {
        ContextConfig {
            window_size: 200_000,
            model_windows: StringMap::new(),
            adaptive_learning: false,
            learning_confidence_threshold: 700,
            buffer_size: 40_000,
            auto_compact_threshold: DEFAULT_COMPACT_THRESHOLD,
            percentage_mode: default_percentage_mode(),
        }
    }
}

impl CostConfig {
    /// Five dollars and twenty dollars.
    pub open spec fn spec_default() -> CostConfig {
        CostConfig { low_threshold: 5_000_000, medium_threshold: 20_000_000 }
    }
}

impl Default for CostConfig {
    fn default() -> (c: CostConfig)
        ensures
            c == CostConfig::spec_default(),
    {
        CostConfig { low_threshold: 5_000_000, medium_threshold: 20_000_000 }
    }
}

impl DatabaseConfig {
    /// Whether these are the store settings that ship.
    pub open spec fn is_default(self) -> bool {
        &&& self.max_connections == 5
        &&& self.busy_timeout_ms == 10000
        &&& self.path@ == "stats.db"@
        &&& self.json_backup
        &&& self.retention_days_sessions is None
        &&& self.retention_days_daily is None
        &&& self.retention_days_monthly is None
    }
}

impl Default for DatabaseConfig {
    fn default() -> (c: DatabaseConfig)
        ensures
            c.is_default(),
    {
        DatabaseConfig {
            max_connections: 5,
            busy_timeout_ms: 10000,
            path: String::from_str("stats.db"),
            json_backup: true,
            retention_days_sessions: None,
            retention_days_daily: None,
            retention_days_monthly: None,
        }
    }
}

impl RetrySettings {
    /// Three attempts, from a tenth of a second, doubling, up to five
    /// seconds.
    pub open spec fn spec_default() -> RetrySettings {
        RetrySettings {
            max_attempts: 3,
            initial_delay_ms: 100,
            max_delay_ms: 5000,
            backoff_factor: 2000,
        }
    }
}

impl Default for RetrySettings {
    fn default() -> (s: RetrySettings)
        ensures
            s == RetrySettings::spec_default(),
    {
        RetrySettings {
            max_attempts: 3,
            initial_delay_ms: 100,
            max_delay_ms: 5000,
            backoff_factor: 2000,
        }
    }
}

impl RetryConfig {
    /// The policies that ship: patient with files, quick and persistent with
    /// the store, short with the network.
    pub open spec fn spec_default() -> RetryConfig {
        RetryConfig {
            file_ops: RetrySettings {
                max_attempts: 3,
                initial_delay_ms: 100,
                max_delay_ms: 5000,
                backoff_factor: 2000,
            },
            db_ops: RetrySettings {
                max_attempts: 5,
                initial_delay_ms: 50,
                max_delay_ms: 2000,
                backoff_factor: 1500,
            },
            git_ops: RetrySettings {
                max_attempts: 3,
                initial_delay_ms: 100,
                max_delay_ms: 3000,
                backoff_factor: 2000,
            },
            network_ops: RetrySettings {
                max_attempts: 2,
                initial_delay_ms: 200,
                max_delay_ms: 1000,
                backoff_factor: 2000,
            },
        }
    }
}

impl Default for RetryConfig {
    fn default() -> (c: RetryConfig)
        ensures
            c == RetryConfig::spec_default(),
    {
        RetryConfig {
            file_ops: RetrySettings {
                max_attempts: 3,
                initial_delay_ms: 100,
                max_delay_ms: 5000,
                backoff_factor: 2000,
            },
            db_ops: RetrySettings {
                max_attempts: 5,
                initial_delay_ms: 50,
                max_delay_ms: 2000,
                backoff_factor: 1500,
            },
            git_ops: RetrySettings {
                max_attempts: 3,
                initial_delay_ms: 100,
                max_delay_ms: 3000,
                backoff_factor: 2000,
            },
            network_ops: RetrySettings {
                max_attempts: 2,
                initial_delay_ms: 200,
                max_delay_ms: 1000,
                backoff_factor: 2000,
            },
        }
    }
}

impl Default for TranscriptConfig {
    fn default() -> (c: TranscriptConfig)
        ensures
            c.buffer_lines == 50,
    {
        TranscriptConfig { buffer_lines: 50 }
    }
}

impl Default for GitConfig {
    fn default() -> (c: GitConfig)
        ensures
            c.timeout_ms == 200,
    {
        GitConfig { timeout_ms: 200 }
    }
}

impl TursoConfig {
    /// Whether the remote copy is left unset.
    pub open spec fn is_default(self) -> bool {
        &&& self.database_url@ == Seq::<char>::empty()
        &&& self.auth_token@ == Seq::<char>::empty()
    }
}

impl Default for TursoConfig {
    fn default() -> (c: TursoConfig)
        ensures
            c.is_default(),
    {
        TursoConfig { database_url: String::new(), auth_token: String::new() }
    }
}

impl SyncConfig {
    /// Whether these are the synchronisation settings that ship.
    pub open spec fn is_default(self) -> bool {
        &&& !self.enabled
        &&& self.provider@ == "turso"@
        &&& self.sync_interval_seconds == 60
        &&& self.soft_quota_fraction == 750
        &&& self.turso.is_default()
    }
}

impl Default for SyncConfig {
    fn default() -> (c: SyncConfig)
        ensures
            c.is_default(),
    {
        SyncConfig {
            enabled: false,
            provider: String::from_str("turso"),
            sync_interval_seconds: 60,
            soft_quota_fraction: 750,
            turso: TursoConfig::default(),
        }
    }
}

impl Config {
    /// Whether these are the settings that ship.
    pub open spec fn is_default(self) -> bool {
        &&& self.display.is_default()
        &&& self.context.is_default()
        &&& self.cost == CostConfig::spec_default()
        &&& self.database.is_default()
        &&& self.retry == RetryConfig::spec_default()
        &&& self.transcript.buffer_lines == 50
        &&& self.git.timeout_ms == 200
        &&& self.sync.is_default()
    }
}

impl Default for Config {
    fn default() -> (c: Config)
        ensures
            c.is_default(),
    {
        Config {
            display: DisplayConfig::default(),
            context: ContextConfig::default(),
            cost: CostConfig::default(),
            database: DatabaseConfig::default(),
            retry: RetryConfig::default(),
            transcript: TranscriptConfig::default(),
            git: GitConfig::default(),
            sync: SyncConfig::default(),
        }
    }
}

/// A place where a settings file may lie, and whether one lies there.
#[derive(Debug, Clone)]
pub struct ConfigCandidate {
    pub path: String,
    pub exists: bool,
}

/// The candidate, if a file lies there.
pub open spec fn present(candidate: Option<ConfigCandidate>) -> Option<String> {
    match candidate {
        Some(c) => if c.exists {
            Some(c.path)
        } else {
            None
        },
        None => None,
    }
}

/// The settings file that is read: the first that exists of the one named on
/// the command line, the one named in the environment, the one in the
/// configuration directory, and the one in the home directory.
pub open spec fn chosen_config_file(
    cli_path: Option<ConfigCandidate>,
    env_path: Option<ConfigCandidate>,
    xdg_path: ConfigCandidate,
    home_path: Option<ConfigCandidate>,
) -> Option<String> {
    if present(cli_path) is Some {
        present(cli_path)
    } else if present(env_path) is Some {
        present(env_path)
    } else if xdg_path.exists {
        Some(xdg_path.path)
    } else {
        present(home_path)
    }
}

/// Whether the text of the backup switch switches the mirror on.
pub open spec fn backup_switch_on(value: Seq<char>) -> bool {
    value == "true"@ || value == "1"@
}

/// The settings with the overrides of the environment applied: the first
/// theme that the environment names replaces the theme, and the backup switch
/// replaces the mirror flag. Nothing else changes.
pub open spec fn overridden(
    base: Config,
    claude_theme: Option<String>,
    statusline_theme: Option<String>,
    json_backup: Option<Seq<char>>,
) -> Config {
    Config {
        display: DisplayConfig {
            theme: match claude_theme {
                Some(theme) => theme,
                None => match statusline_theme {
                    Some(theme) => theme,
                    None => base.display.theme,
                },
            },
            ..base.display
        },
        database: DatabaseConfig {
            json_backup: match json_backup {
                Some(value) => backup_switch_on(value),
                None => base.database.json_backup,
            },
            ..base.database
        },
        ..base
    }
}

/// The name of the settings file in the configuration directory.
pub const CONFIG_FILE_NAME: &'static str = "config.toml";

impl Config {
    /// The path of the settings file in a configuration directory, for a
    /// settings file that is yet to be written.
    pub fn default_config_path(config_dir: &str) -> (path: String)
        ensures
            path@ == joined_path(config_dir@, CONFIG_FILE_NAME@),
    {
        join_path(config_dir, CONFIG_FILE_NAME)
    }

    /// Picks the settings file to read among the places where one may lie.
    pub fn find_config_file(
        cli_path: Option<ConfigCandidate>,
        env_path: Option<ConfigCandidate>,
        xdg_path: ConfigCandidate,
        home_path: Option<ConfigCandidate>,
    ) -> (r: Option<String>)
        ensures
            r == chosen_config_file(cli_path, env_path, xdg_path, home_path),
    {
        if let Some(candidate) = cli_path {
            if candidate.exists {
                return Some(candidate.path);
            }
        }
        if let Some(candidate) = env_path {
            if candidate.exists {
                return Some(candidate.path);
            }
        }
        if xdg_path.exists {
            return Some(xdg_path.path);
        }
        if let Some(candidate) = home_path {
            if candidate.exists {
                return Some(candidate.path);
            }
        }
        None
    }

    /// The settings that were loaded, or the defaults where loading failed.
    pub fn or_default(loaded: Result<Config, StatuslineError>) -> (c: Config)
        ensures
            match loaded {
                Ok(config) => c == config,
                Err(_) => c.is_default(),
            },
    {
        match loaded {
            Ok(config) => config,
            Err(_) => Config::default(),
        }
    }

    /// Applies the overrides of the environment to the settings.
    pub fn with_overrides(
        self,
        claude_theme: Option<String>,
        statusline_theme: Option<String>,
        json_backup: Option<&str>,
    ) -> (c: Config)
        ensures
            c == overridden(self, claude_theme, statusline_theme, crate::text::text_of(json_backup)),
    {
        let mut config = self;
        if let Some(theme) = claude_theme {
            config.display.theme = theme;
        } else if let Some(theme) = statusline_theme {
            config.display.theme = theme;
        }
        if let Some(value) = json_backup {
            config.database.json_backup = str_eq(value, "true") || str_eq(value, "1");
        }
        config
    }
}

/// The settings of the process: what was loaded, or the defaults where
/// loading failed, with the overrides of the environment applied.
/// `claude_theme` and `statusline_theme` are the two theme entries of the
/// environment, `json_backup` its backup switch.
pub fn get_config(
    loaded: Result<Config, StatuslineError>,
    claude_theme: Option<String>,
    statusline_theme: Option<String>,
    json_backup: Option<&str>,
) -> (c: Config)
    ensures
        match loaded {
            Ok(config) => c == overridden(
                config,
                claude_theme,
                statusline_theme,
                crate::text::text_of(json_backup),
            ),
            Err(_) => exists|base: Config|
                base.is_default() && c == overridden(
                    base,
                    claude_theme,
                    statusline_theme,
                    crate::text::text_of(json_backup),
                ),
        },
{
    Config::or_default(loaded).with_overrides(claude_theme, statusline_theme, json_backup)
}

/// The name of the theme in force: the first that the environment names, else
/// the one of the settings.
pub fn get_theme(
    claude_theme: Option<String>,
    statusline_theme: Option<String>,
    config: &Config,
) -> (theme: String)
    ensures
        theme@ == match claude_theme {
            Some(name) => name@,
            None => match statusline_theme {
                Some(name) => name@,
                None => config.display.theme@,
            },
        },
{
    match claude_theme {
        Some(name) => name,
        None => match statusline_theme {
            Some(name) => name,
            None => config.display.theme.clone(),
        },
    }
}

} // verus!
