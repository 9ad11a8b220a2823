//! The server's runtime settings and how the command line changes them.
use crate::logging::TracingLevel;
use vstd::prelude::*;

verus! {

/// Log levels that the command line offers.
#[derive(Clone, Copy, Debug, PartialEq, Eq, Structural)]
pub enum LogLevel {
    /// Error only.
    Error,
    /// Warnings and errors.
    Warn,
    /// Informational logs, warnings, and errors.
    Info,
    /// Debug and higher.
    Debug,
    /// Trace and higher.
    Trace,
}

impl LogLevel {
    /// The tracing level that a command-line log level selects.
    pub open spec fn spec_tracing_level(self) -> TracingLevel {
        match self {
            LogLevel::Error => TracingLevel::Error,
            LogLevel::Warn => TracingLevel::Warn,
            LogLevel::Info => TracingLevel::Info,
            LogLevel::Debug => TracingLevel::Debug,
            LogLevel::Trace => TracingLevel::Trace,
        }
    }

    /// Converts the command-line log level to the tracing level.
    pub fn to_tracing_level(self) -> (level: TracingLevel)
        ensures
            level == self.spec_tracing_level(),
    {
        match self {
            LogLevel::Error => TracingLevel::Error,
            LogLevel::Warn => TracingLevel::Warn,
            LogLevel::Info => TracingLevel::Info,
            LogLevel::Debug => TracingLevel::Debug,
            LogLevel::Trace => TracingLevel::Trace,
        }
    }
}

/// Each command-line log level selects its own tracing level, and a level
/// that the command line lists later is at least as verbose.
pub proof fn lemma_log_levels_distinct_and_ordered(a: LogLevel, b: LogLevel)
    ensures
        a.spec_tracing_level() == b.spec_tracing_level() ==> a == b,
        log_level_rank(a) <= log_level_rank(b) <==> a.spec_tracing_level().verbosity()
            <= b.spec_tracing_level().verbosity(),
{
}

/// The position of a level in the command line's list of levels.
pub open spec fn log_level_rank(level: LogLevel) -> int {
    match level {
        LogLevel::Error => 0,
        LogLevel::Warn => 1,
        LogLevel::Info => 2,
        LogLevel::Debug => 3,
        LogLevel::Trace => 4,
    }
}

/// Runtime settings, as the configuration file holds them.
#[derive(Debug, Clone)]
pub struct Settings {
    /// Listener IP address.
    pub listener_ip: String,
    /// Listener TCP port.
    pub port: u16,
    /// SQLite file path.
    pub sqlite_db_path: String,
}

/// The mathematical value of [`Settings`].
#[verifier::ext_equal]
pub struct SettingsView {
    pub listener_ip: Seq<char>,
    pub port: u16,
    pub sqlite_db_path: Seq<char>,
}

impl View for Settings {
    type V = SettingsView;

    open spec fn view(&self) -> SettingsView {
        SettingsView {
            listener_ip: self.listener_ip@,
            port: self.port,
            sqlite_db_path: self.sqlite_db_path@,
        }
    }
}

/// Settings where no configuration says otherwise.
pub open spec fn default_settings() -> SettingsView {
    SettingsView { listener_ip: "0.0.0.0"@, port: 2111, sqlite_db_path: "./mortimeriot.db"@ }
}

impl Default for Settings {
    /// Returns default runtime settings.
    fn default() -> (settings: Settings)
        ensures
            settings@ == default_settings(),
            settings.listener_ip@ == "0.0.0.0"@,
            settings.port == 2111,
            settings.sqlite_db_path@ == "./mortimeriot.db"@,
    {
        Settings {
            listener_ip: String::from_str("0.0.0.0"),
            port: 2111,
            sqlite_db_path: String::from_str("./mortimeriot.db"),
        }
    }
}

/// Configuration file used where the command line names none.
pub open spec fn default_config_path() -> Seq<char> {
    "mortimeriot.toml"@
}

/// Resolves the config path, defaulting to `mortimeriot.toml`.
pub fn config_path_or_default(path: Option<String>) -> (resolved: String)
    ensures
        resolved@ == match path {
            Some(p) => p@,
            None => default_config_path(),
        },
        path is None ==> resolved@ == "mortimeriot.toml"@,
{
    match path {
        Some(p) => p,
        None => String::from_str("mortimeriot.toml"),
    }
}

/// Arguments of the `init` command.
#[derive(Debug, Clone)]
pub struct InitArgs {
    /// Path to the config file to generate.
    pub config: Option<String>,
    /// Listener IP override.
    pub listener_ip: Option<String>,
    /// Listener port override.
    pub port: Option<u16>,
    /// SQLite DB path override.
    pub sqlite_db_path: Option<String>,
}

/// Arguments of the `start` command.
#[derive(Debug, Clone)]
pub struct StartArgs {
    /// Path to the config file to read.
    pub config: Option<String>,
    /// Listener IP override.
    pub listener_ip: Option<String>,
    /// Listener port override.
    pub port: Option<u16>,
    /// SQLite DB path override.
    pub sqlite_db_path: Option<String>,
}

/// The text of an optional override, where it is given.
pub open spec fn override_text(value: Option<String>) -> Option<Seq<char>> {
    match value {
        Some(text) => Some(text@),
        None => None,
    }
}

/// Settings with each given override in place of the setting it names.
pub open spec fn spec_overridden(
    settings: SettingsView,
    listener_ip: Option<Seq<char>>,
    port: Option<u16>,
    sqlite_db_path: Option<Seq<char>>,
) -> SettingsView {
    SettingsView {
        listener_ip: match listener_ip {
            Some(v) => v,
            None => settings.listener_ip,
        },
        port: match port {
            Some(v) => v,
            None => settings.port,
        },
        sqlite_db_path: match sqlite_db_path {
            Some(v) => v,
            None => settings.sqlite_db_path,
        },
    }
}

/// Applies command-line overrides on top of loaded settings.
pub fn apply_overrides(settings: Settings, args: StartArgs) -> (result: Settings)
    ensures
        result@ == spec_overridden(
            settings@,
            override_text(args.listener_ip),
            args.port,
            override_text(args.sqlite_db_path),
        ),
        result.port == match args.port {
            Some(p) => p,
            None => settings.port,
        },
        result.listener_ip@ == match args.listener_ip {
            Some(ip) => ip@,
            None => settings.listener_ip@,
        },
        result.sqlite_db_path@ == match args.sqlite_db_path {
            Some(path) => path@,
            None => settings.sqlite_db_path@,
        },
{
    Settings {
        listener_ip: match args.listener_ip {
            Some(v) => v,
            None => settings.listener_ip,
        },
        port: match args.port {
            Some(v) => v,
            None => settings.port,
        },
        sqlite_db_path: match args.sqlite_db_path {
            Some(v) => v,
            None => settings.sqlite_db_path,
        },
    }
}

/// The settings that the `init` command writes: the defaults with the
/// command line's overrides.
pub fn init_settings(args: InitArgs) -> (result: Settings)
    ensures
        result@ == spec_overridden(
            default_settings(),
            override_text(args.listener_ip),
            args.port,
            override_text(args.sqlite_db_path),
        ),
        result.port == match args.port {
            Some(p) => p,
            None => 2111,
        },
        result.listener_ip@ == match args.listener_ip {
            Some(ip) => ip@,
            None => "0.0.0.0"@,
        },
        result.sqlite_db_path@ == match args.sqlite_db_path {
            Some(path) => path@,
            None => "./mortimeriot.db"@,
        },
{
    let mut settings = Settings::default();
    if let Some(listener_ip) = args.listener_ip {
        settings.listener_ip = listener_ip;
    }
    if let Some(port) = args.port {
        settings.port = port;
    }
    if let Some(sqlite_db_path) = args.sqlite_db_path {
        settings.sqlite_db_path = sqlite_db_path;
    }
    settings
}

/// Without overrides the loaded settings stay as they are.
pub proof fn lemma_no_override_keeps_settings(settings: SettingsView)
    ensures
        spec_overridden(settings, None, None, None) == settings,
{
}

/// Applying the same overrides twice is applying them once, and the given
/// overrides always win over the loaded settings.
pub proof fn lemma_overrides_idempotent(
    settings: SettingsView,
    listener_ip: Option<Seq<char>>,
    port: Option<u16>,
    sqlite_db_path: Option<Seq<char>>,
)
    ensures
        spec_overridden(
            spec_overridden(settings, listener_ip, port, sqlite_db_path),
            listener_ip,
            port,
            sqlite_db_path,
        ) == spec_overridden(settings, listener_ip, port, sqlite_db_path),
        listener_ip matches Some(v) ==> spec_overridden(
            settings,
            listener_ip,
            port,
            sqlite_db_path,
        ).listener_ip == v,
        port matches Some(v) ==> spec_overridden(settings, listener_ip, port, sqlite_db_path).port
            == v,
        sqlite_db_path matches Some(v) ==> spec_overridden(
            settings,
            listener_ip,
            port,
            sqlite_db_path,
        ).sqlite_db_path == v,
{
}

/// A setting without an override keeps its loaded value, whatever overrides
/// the other settings get.
pub proof fn lemma_absent_override_keeps_setting(
    settings: SettingsView,
    listener_ip: Option<Seq<char>>,
    port: Option<u16>,
    sqlite_db_path: Option<Seq<char>>,
)
    ensures
        listener_ip is None ==> spec_overridden(settings, listener_ip, port, sqlite_db_path).listener_ip
            == settings.listener_ip,
        port is None ==> spec_overridden(settings, listener_ip, port, sqlite_db_path).port
            == settings.port,
        sqlite_db_path is None ==> spec_overridden(
            settings,
            listener_ip,
            port,
            sqlite_db_path,
        ).sqlite_db_path == settings.sqlite_db_path,
{
}

} // verus!
