//! Rules of the desktop backend: its default configuration, where the
//! configuration is stored, the texts of its errors, and how a failed save is
//! reported.
use vstd::prelude::*;
use vstd::string::*;

use crate::config::{default_config_fields, TorRuntimeConfig};
use crate::control::opt_text;
use crate::runtime_config::RuntimeConfigError;

verus! {

/// The executable used when `TORQ_TOR_EXE` is not set.
pub open spec fn default_tor_exe() -> Seq<char> {
    "tor.exe"@
}

/// The log file used when `TORQ_TOR_LOG` is not set.
pub open spec fn default_tor_log() -> Seq<char> {
    "tor.log"@
}

/// The default configuration: the executable from `TORQ_TOR_EXE` (else
/// `tor.exe`), the log from `TORQ_TOR_LOG` (else `tor.log`), defaults for the
/// rest.
pub fn default_runtime_config(tor_exe: Option<String>, tor_log: Option<String>) -> (c:
    TorRuntimeConfig)
    ensures
        c@.tor_path == (match opt_text(tor_exe) {
            Some(p) => p,
            None => default_tor_exe(),
        }),
        c@.log_path == (match opt_text(tor_log) {
            Some(p) => p,
            None => default_tor_log(),
        }),
        default_config_fields(c@),
{
    let tor_path = match tor_exe {
        Some(p) => p,
        None => String::from_str("tor.exe"),
    };
    let log_path = match tor_log {
        Some(p) => p,
        None => String::from_str("tor.log"),
    };
    TorRuntimeConfig::new(tor_path.as_str(), log_path.as_str())
}

/// Where the user's configuration directory comes from.
#[derive(Debug, Clone, PartialEq, Eq)]
pub enum ConfigRoot {
    /// `APPDATA` itself.
    AppData(String),
    /// `XDG_CONFIG_HOME` itself.
    XdgConfigHome(String),
    /// `.config` under `HOME`, which this holds.
    HomeConfig(String),
}

/// Picks the user's configuration directory from the environment: `APPDATA`
/// first, then `XDG_CONFIG_HOME`, then `HOME`; `None` when none is set (the
/// current directory is used then).
pub fn user_config_root(appdata: Option<String>, xdg_config_home: Option<String>, home: Option<
    String,
>) -> (r: Option<ConfigRoot>)
    ensures
        appdata matches Some(a) ==> r == Some(ConfigRoot::AppData(a)),
        appdata is None ==> (xdg_config_home matches Some(x) ==> r == Some(
            ConfigRoot::XdgConfigHome(x),
        )),
        appdata is None && xdg_config_home is None ==> (home matches Some(h) ==> r == Some(
            ConfigRoot::HomeConfig(h),
        )),
        appdata is None && xdg_config_home is None && home is None ==> r is None,
{
    match appdata {
        Some(a) => Some(ConfigRoot::AppData(a)),
        None => match xdg_config_home {
            Some(x) => Some(ConfigRoot::XdgConfigHome(x)),
            None => match home {
                Some(h) => Some(ConfigRoot::HomeConfig(h)),
                None => None,
            },
        },
    }
}

/// The directory under the configuration root that holds the file.
pub fn config_dir_name() -> (s: &'static str)
    ensures
        s@ == "torq"@,
{
    "torq"
}

/// The name of the configuration file.
pub fn config_file_name() -> (s: &'static str)
    ensures
        s@ == "torq.config.json"@,
{
    "torq.config.json"
}

/// The text of an error that stopped the backend from starting.
pub fn format_backend_init_error(error: &str) -> (m: String)
    ensures
        m@ == "Desktop backend could not initialize. "@ + error@,
{
    String::from_str("Desktop backend could not initialize. ").concat(error)
}

/// The text reported when a loading step of the backend failed.
pub fn load_failure_message(error: &str) -> (m: String)
    ensures
        m@ == "Desktop backend could not initialize. "@ + "failed to load runtime config. "@
            + error@,
{
    let inner = String::from_str("failed to load runtime config. ").concat(error);
    format_backend_init_error(inner.as_str())
}

/// The error a backend command reports when a part of the backend is
/// missing: the initialization error when there was one, else `fallback`.
pub fn backend_error(init_error: &Option<String>, fallback: &str) -> (m: String)
    ensures
        m@ == (match opt_text(*init_error) {
            Some(e) => e,
            None => fallback@,
        }),
{
    match init_error {
        Some(e) => e.clone(),
        None => String::from_str(fallback),
    }
}

/// The error reported when saving a configuration failed after Tor accepted
/// it: the runtime is rolled back to the previous configuration, and its
/// failure, if any, is reported too.
pub fn persist_failure_message(save_error: &str, rollback: &Result<(), String>) -> (m: String)
    ensures
        rollback is Ok ==> m@ == "failed to persist runtime config. "@ + save_error@,
        rollback matches Err(e) ==> m@ == "failed to persist runtime config. "@ + save_error@
            + ". runtime rollback also failed: "@ + e@,
{
    let base = String::from_str("failed to persist runtime config. ").concat(save_error);
    match rollback {
        Ok(()) => base,
        Err(e) => base.concat(". runtime rollback also failed: ").concat(e.as_str()),
    }
}

/// Why the configuration store failed, with operating-system and JSON errors
/// carried as their text.
#[derive(Debug, Clone, PartialEq, Eq)]
pub enum ConfigStoreError {
    Io { action: &'static str, path: String, source: String },
    Parse { path: String, source: String },
    Serialize { path: String, source: String },
    Invalid(RuntimeConfigError),
    LockPoisoned,
}

/// The text of a configuration store error.
pub open spec fn config_store_error_text(e: ConfigStoreError) -> Seq<char> {
    match e {
        ConfigStoreError::Io { action, path, source } => "failed to "@ + action@ + " at "@ + path@
            + ": "@ + source@,
        ConfigStoreError::Parse { path, source } => "failed to parse runtime config at "@ + path@
            + ": "@ + source@,
        ConfigStoreError::Serialize { path, source } => "failed to serialize runtime config for "@
            + path@ + ": "@ + source@,
        ConfigStoreError::Invalid(RuntimeConfigError::EmptyField { field }) =>
            "invalid runtime config: "@ + field@ + " must not be empty"@,
        ConfigStoreError::LockPoisoned => "runtime config store is unavailable"@,
    }
}

impl ConfigStoreError {
    /// The human-readable text of the error.
    pub fn message(&self) -> (m: String)
        ensures
            m@ == config_store_error_text(*self),
    {
        match self {
            ConfigStoreError::Io { action, path, source } => String::from_str("failed to ").concat(
                action,
            ).concat(" at ").concat(path.as_str()).concat(": ").concat(source.as_str()),
            ConfigStoreError::Parse { path, source } => String::from_str(
                "failed to parse runtime config at ",
            ).concat(path.as_str()).concat(": ").concat(source.as_str()),
            ConfigStoreError::Serialize { path, source } => String::from_str(
                "failed to serialize runtime config for ",
            ).concat(path.as_str()).concat(": ").concat(source.as_str()),
            ConfigStoreError::Invalid(e) => String::from_str("invalid runtime config: ").concat(
                e.message().as_str(),
            ),
            ConfigStoreError::LockPoisoned => String::from_str("runtime config store is unavailable"),
        }
    }
}

impl From<RuntimeConfigError> for ConfigStoreError {
    fn from(value: RuntimeConfigError) -> (r: Self)
        ensures
            r == ConfigStoreError::Invalid(value),
    {
        ConfigStoreError::Invalid(value)
    }
}

impl vstd::std_specs::convert::FromSpecImpl<RuntimeConfigError> for ConfigStoreError {
    open spec fn obeys_from_spec() -> bool {
        true
    }

    open spec fn from_spec(v: RuntimeConfigError) -> ConfigStoreError {
        ConfigStoreError::Invalid(v)
    }
}

} // verus!
