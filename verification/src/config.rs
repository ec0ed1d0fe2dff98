//! Runtime configuration of the supervised Tor process and its validation.
//!
//! Paths are held as their text; durations as whole milliseconds.
use vstd::prelude::*;
use vstd::string::*;

use crate::control::{opt_text, texts, ControlView, TorControlAuth, TorControlConfig};
use crate::text::{is_blank, trim};

verus! {

/// Who owns the log file.
#[derive(Debug, Clone, Copy, PartialEq, Eq, Structural)]
pub enum LogMode {
    /// The runtime owns the log destination: it points Tor at the path and may
    /// create or truncate the file before starting the process.
    Managed,
    /// The runtime only observes a caller-owned log file and never creates,
    /// truncates or otherwise prepares it.
    External,
}

impl LogMode {
    /// Whether the runtime owns the log file.
    pub fn is_managed(self) -> (b: bool)
        ensures
            b == (self is Managed),
    {
        matches!(self, LogMode::Managed)
    }

    /// The name of the mode: `"managed"` or `"external"`.
    pub fn as_str(self) -> (s: &'static str)
        ensures
            self is Managed ==> s@ == "managed"@,
            self is External ==> s@ == "external"@,
    {
        match self {
            LogMode::Managed => "managed",
            LogMode::External => "external",
        }
    }
}

/// Why a runtime configuration is refused.
#[derive(Debug, Clone, PartialEq, Eq)]
pub enum RuntimeConfigValidationError {
    /// The named field is empty or only whitespace.
    EmptyField { field: &'static str },
}

impl RuntimeConfigValidationError {
    /// The error for an empty field.
    pub fn empty_field(field: &'static str) -> (e: Self)
        ensures
            e == (RuntimeConfigValidationError::EmptyField { field }),
    {
        RuntimeConfigValidationError::EmptyField { field }
    }

    /// The human-readable text: `"<field> must not be empty"`.
    pub fn message(&self) -> (m: String)
        ensures
            self matches RuntimeConfigValidationError::EmptyField { field } && m@ == field@
                + " must not be empty"@,
    {
        match self {
            RuntimeConfigValidationError::EmptyField { field } => String::from_str(field).concat(
                " must not be empty",
            ),
        }
    }
}

/// How to run Tor: executable, log file and mode, torrc, extra arguments,
/// working directory, ControlPort, and the stop and log-poll timings.
#[derive(Debug, Clone)]
pub struct TorRuntimeConfig {
    pub tor_path: String,
    pub log_path: String,
    pub log_mode: LogMode,
    pub torrc_path: Option<String>,
    pub use_torrc: bool,
    pub args: Vec<String>,
    pub working_dir: Option<String>,
    pub control: Option<TorControlConfig>,
    pub stop_timeout_ms: u64,
    pub log_poll_interval_ms: u64,
}

/// The default time to wait for Tor to stop: 5 seconds.
pub const DEFAULT_STOP_TIMEOUT_MS: u64 = 5000;

/// The default interval between log polls: 250 milliseconds.
pub const DEFAULT_LOG_POLL_INTERVAL_MS: u64 = 250;

/// Whether `s` is empty once trimmed.
pub open spec fn blank(s: Seq<char>) -> bool {
    trim(s).len() == 0
}

/// The abstract runtime configuration: every path as its text, the extra
/// arguments as their texts, the ControlPort as its `ControlView`.
pub struct ConfigView {
    pub tor_path: Seq<char>,
    pub log_path: Seq<char>,
    pub log_mode: LogMode,
    pub torrc_path: Option<Seq<char>>,
    pub use_torrc: bool,
    pub args: Seq<Seq<char>>,
    pub working_dir: Option<Seq<char>>,
    pub control: Option<ControlView>,
    pub stop_timeout_ms: u64,
    pub log_poll_interval_ms: u64,
}

/// The view of an optional ControlPort configuration.
pub open spec fn control_view(c: Option<TorControlConfig>) -> Option<ControlView> {
    match c {
        Some(ctl) => Some(ctl@),
        None => None,
    }
}

impl View for TorRuntimeConfig {
    type V = ConfigView;

    open spec fn view(&self) -> ConfigView {
        ConfigView {
            tor_path: self.tor_path@,
            log_path: self.log_path@,
            log_mode: self.log_mode,
            torrc_path: opt_text(self.torrc_path),
            use_torrc: self.use_torrc,
            args: texts(self.args@),
            working_dir: opt_text(self.working_dir),
            control: control_view(self.control),
            stop_timeout_ms: self.stop_timeout_ms,
            log_poll_interval_ms: self.log_poll_interval_ms,
        }
    }
}

/// The field that makes a configuration invalid, checked in this order:
/// `tor_path` blank; `working_dir` set but blank; `use_torrc` with no or a
/// blank `torrc_path`; ControlPort `host` blank; cookie path blank. `None`
/// when the configuration is valid.
pub open spec fn invalid_field(c: ConfigView) -> Option<Seq<char>> {
    if blank(c.tor_path) {
        Some("tor_path"@)
    } else if c.working_dir matches Some(d) && blank(d) {
        Some("working_dir"@)
    } else if c.use_torrc && (c.torrc_path matches Some(p) ==> blank(p)) {
        Some("torrc_path"@)
    } else if c.control matches Some(ctl) && blank(ctl.host) {
        Some("control.host"@)
    } else if c.control matches Some(ctl) && (ctl.cookie_path matches Some(p) && blank(p)) {
        Some("control.auth.cookie_path"@)
    } else {
        None
    }
}

/// The configuration with all defaults: managed log, no torrc, no extra
/// arguments, no working directory, no ControlPort, 5 s stop timeout, 250 ms
/// log poll interval.
pub open spec fn default_config_fields(c: ConfigView) -> bool {
    &&& c.log_mode == LogMode::Managed
    &&& c.torrc_path is None
    &&& !c.use_torrc
    &&& c.args.len() == 0
    &&& c.working_dir is None
    &&& c.control is None
    &&& c.stop_timeout_ms == 5000
    &&& c.log_poll_interval_ms == 250
}

/// The index of the last `'.'` among the first `k` characters of `p`.
pub open spec fn last_dot_before(p: Seq<char>, k: int) -> Option<int>
    decreases k,
{
    if k <= 0 {
        None
    } else if p[k - 1] == '.' {
        Some(k - 1)
    } else {
        last_dot_before(p, k - 1)
    }
}

/// Whether `p` is a bare file name on every platform: not empty, not `.` or
/// `..`, and without `'/'`, `'\\'` or `':'`.
pub open spec fn plain_file_name(p: Seq<char>) -> bool {
    &&& p.len() > 0
    &&& p != "."@
    &&& p != ".."@
    &&& forall|i: int| 0 <= i < p.len() ==> p[i] != '/' && p[i] != '\\' && p[i] != ':'
}

/// A bare file name with its extension replaced by `ext`: the text before
/// the last `'.'` (when that dot is not the first character), else the whole
/// name, followed by `'.'` and `ext`.
pub open spec fn with_extension_text(p: Seq<char>, ext: Seq<char>) -> Seq<char> {
    match last_dot_before(p, p.len() as int) {
        Some(i) => if i > 0 {
            p.subrange(0, i) + seq!['.'] + ext
        } else {
            p + seq!['.'] + ext
        },
        None => p + seq!['.'] + ext,
    }
}

/// The index of the last `'/'` among the first `k` characters of `p`.
pub open spec fn last_slash_before(p: Seq<char>, k: int) -> Option<int>
    decreases k,
{
    if k <= 0 {
        None
    } else if p[k - 1] == '/' {
        Some(k - 1)
    } else {
        last_slash_before(p, k - 1)
    }
}

/// Where the last `'/'`-separated segment of `p` starts.
pub open spec fn file_name_start(p: Seq<char>) -> int {
    match last_slash_before(p, p.len() as int) {
        Some(i) => i + 1,
        None => 0,
    }
}

/// Whether `p` splits the same way on every platform: it uses only `'/'` as
/// separator, has no `'\\'` and no `':'`, does not start with two `'/'`,
/// and its last segment is a bare file name (so it does not end with `'/'`,
/// `.` or `..`).
pub open spec fn simple_path(p: Seq<char>) -> bool {
    &&& forall|i: int| 0 <= i < p.len() ==> p[i] != '\\' && p[i] != ':'
    &&& !(p.len() >= 2 && p[0] == '/' && p[1] == '/')
    &&& plain_file_name(p.subrange(file_name_start(p), p.len() as int))
}

/// A simple path with the extension of its file name replaced by `ext`: the
/// directory part unchanged, then the file name as `with_extension_text`
/// gives it.
pub open spec fn path_with_extension_text(p: Seq<char>, ext: Seq<char>) -> Seq<char> {
    p.subrange(0, file_name_start(p)) + with_extension_text(
        p.subrange(file_name_start(p), p.len() as int),
        ext,
    )
}

/// Whether `ext` holds no path separator of any platform.
pub open spec fn separator_free(ext: Seq<char>) -> bool {
    forall|i: int| 0 <= i < ext.len() ==> ext[i] != '/' && ext[i] != '\\'
}

/// What `path.with_extension(extension)` gives for a path (std's
/// `Path::with_extension`, which panics when the extension holds a path
/// separator).
///
/// Trusted: for a simple path (see `simple_path`) and a non-empty extension,
/// std's file name is the last segment and its stem is the name up to its
/// last dot (a leading dot does not count); the result keeps everything up
/// to the end of the stem and adds a dot and the extension. For other paths
/// nothing is claimed: how they split into components depends on the
/// platform.
#[verifier::external_body]
fn path_with_extension(path: &str, extension: &str) -> (r: String)
    requires
        separator_free(extension@),
    ensures
        simple_path(path@) && extension@.len() > 0 ==> r@ == path_with_extension_text(
            path@,
            extension@,
        ),
{
    std::path::Path::new(path).with_extension(extension).to_string_lossy().into_owned()
}

impl TorRuntimeConfig {
    /// A configuration for the given executable and log file, with defaults
    /// for everything else.
    pub fn new(tor_path: &str, log_path: &str) -> (c: Self)
        ensures
            c@.tor_path == tor_path@,
            c@.log_path == log_path@,
            default_config_fields(c@),
    {
        TorRuntimeConfig {
            tor_path: String::from_str(tor_path),
            log_path: String::from_str(log_path),
            log_mode: LogMode::Managed,
            torrc_path: None,
            use_torrc: false,
            args: Vec::new(),
            working_dir: None,
            control: None,
            stop_timeout_ms: DEFAULT_STOP_TIMEOUT_MS,
            log_poll_interval_ms: DEFAULT_LOG_POLL_INTERVAL_MS,
        }
    }

    /// A configuration whose log file is the executable path with the
    /// extension `log`: for a simple path, its directory part, then its file
    /// name up to the last dot (a leading dot does not count), then `.log`.
    pub fn from_tor_path(tor_path: &str) -> (c: Self)
        ensures
            c@.tor_path == tor_path@,
            simple_path(tor_path@) ==> c@.log_path == path_with_extension_text(
                tor_path@,
                "log"@,
            ),
            default_config_fields(c@),
    {
        proof {
            reveal_strlit("log");
        }
        let log_path = path_with_extension(tor_path, "log");
        Self::new(tor_path, log_path.as_str())
    }

    /// Replaces the extra arguments.
    pub fn with_args(self, args: Vec<String>) -> (c: Self)
        ensures
            c == (TorRuntimeConfig { args, ..self }),
    {
        TorRuntimeConfig { args, ..self }
    }

    /// Sets the log mode.
    pub fn with_log_mode(self, log_mode: LogMode) -> (c: Self)
        ensures
            c == (TorRuntimeConfig { log_mode, ..self }),
    {
        TorRuntimeConfig { log_mode, ..self }
    }

    /// Sets the torrc path.
    pub fn with_torrc_path(self, torrc_path: &str) -> (c: Self)
        ensures
            c.torrc_path matches Some(p) && p@ == torrc_path@,
            c == (TorRuntimeConfig { torrc_path: c.torrc_path, ..self }),
    {
        TorRuntimeConfig { torrc_path: Some(String::from_str(torrc_path)), ..self }
    }

    /// Sets whether Tor is started with the torrc.
    pub fn with_use_torrc(self, use_torrc: bool) -> (c: Self)
        ensures
            c == (TorRuntimeConfig { use_torrc, ..self }),
    {
        TorRuntimeConfig { use_torrc, ..self }
    }

    /// Sets the working directory.
    pub fn with_working_dir(self, working_dir: &str) -> (c: Self)
        ensures
            c.working_dir matches Some(d) && d@ == working_dir@,
            c == (TorRuntimeConfig { working_dir: c.working_dir, ..self }),
    {
        TorRuntimeConfig { working_dir: Some(String::from_str(working_dir)), ..self }
    }

    /// Sets the ControlPort.
    pub fn with_control(self, control: TorControlConfig) -> (c: Self)
        ensures
            c == (TorRuntimeConfig { control: Some(control), ..self }),
    {
        TorRuntimeConfig { control: Some(control), ..self }
    }

    /// Managed log mode when `append_log_argument`, external otherwise.
    pub fn with_append_log_argument(self, append_log_argument: bool) -> (c: Self)
        ensures
            c == (TorRuntimeConfig {
                log_mode: if append_log_argument {
                    LogMode::Managed
                } else {
                    LogMode::External
                },
                ..self
            }),
    {
        let log_mode = if append_log_argument {
            LogMode::Managed
        } else {
            LogMode::External
        };
        TorRuntimeConfig { log_mode, ..self }
    }

    /// Sets the stop timeout, in milliseconds.
    pub fn with_stop_timeout(self, stop_timeout_ms: u64) -> (c: Self)
        ensures
            c == (TorRuntimeConfig { stop_timeout_ms, ..self }),
    {
        TorRuntimeConfig { stop_timeout_ms, ..self }
    }

    /// Sets the log poll interval, in milliseconds.
    pub fn with_log_poll_interval(self, log_poll_interval_ms: u64) -> (c: Self)
        ensures
            c == (TorRuntimeConfig { log_poll_interval_ms, ..self }),
    {
        TorRuntimeConfig { log_poll_interval_ms, ..self }
    }

    /// Validates the configuration; see `validate_runtime_config`.
    pub fn validate(&self) -> (r: Result<(), RuntimeConfigValidationError>)
        ensures
            r is Ok <==> invalid_field(self@) is None,
            invalid_field(self@) matches Some(f) ==> (r matches Err(
                RuntimeConfigValidationError::EmptyField { field },
            ) && field@ == f),
    {
        validate_runtime_config(self)
    }
}

/// Refuses a configuration with an empty required field; the error names the
/// first such field (see `invalid_field`).
pub fn validate_runtime_config(config: &TorRuntimeConfig) -> (r: Result<
    (),
    RuntimeConfigValidationError,
>)
    ensures
        r is Ok <==> invalid_field(config@) is None,
        invalid_field(config@) matches Some(f) ==> (r matches Err(
            RuntimeConfigValidationError::EmptyField { field },
        ) && field@ == f),
{
    validate_non_empty_path(config.tor_path.as_str(), "tor_path")?;
    if let Some(working_dir) = &config.working_dir {
        validate_non_empty_path(working_dir.as_str(), "working_dir")?;
    }
    if config.use_torrc {
        match &config.torrc_path {
            Some(torrc_path) => validate_non_empty_path(torrc_path.as_str(), "torrc_path")?,
            None => return Err(RuntimeConfigValidationError::empty_field("torrc_path")),
        }
    }
    if let Some(control) = &config.control {
        validate_non_empty_string(control.host.as_str(), "control.host")?;
        if let TorControlAuth::Cookie { cookie_path } = &control.auth {
            validate_non_empty_path(cookie_path.as_str(), "control.auth.cookie_path")?;
        }
    }
    Ok(())
}

/// Refuses a string that is empty once trimmed, naming `field`.
pub fn validate_non_empty_string(value: &str, field: &'static str) -> (r: Result<
    (),
    RuntimeConfigValidationError,
>)
    ensures
        r is Ok <==> !blank(value@),
        r is Err ==> r == Err::<(), RuntimeConfigValidationError>(
            RuntimeConfigValidationError::EmptyField { field },
        ),
{
    if is_blank(value) {
        return Err(RuntimeConfigValidationError::empty_field(field));
    }
    Ok(())
}

/// Refuses a path whose text is empty once trimmed, naming `field`.
pub fn validate_non_empty_path(value: &str, field: &'static str) -> (r: Result<
    (),
    RuntimeConfigValidationError,
>)
    ensures
        r is Ok <==> !blank(value@),
        r is Err ==> r == Err::<(), RuntimeConfigValidationError>(
            RuntimeConfigValidationError::EmptyField { field },
        ),
{
    validate_non_empty_string(value, field)
}

} // verus!
