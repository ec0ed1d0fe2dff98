//! The runtime configuration as the desktop API reads and writes it, its
//! conversions to and from `TorRuntimeConfig`, and its validation.
//!
//! The same payload shape serves reads, writes and persistence. Converting a
//! payload to a configuration trims the torrc path and drops it when blank;
//! the configuration is then validated.
use vstd::prelude::*;
use vstd::string::*;

use crate::config::{
    invalid_field, ConfigView, LogMode, RuntimeConfigValidationError, TorRuntimeConfig,
};
use crate::control::{
    auth_view, opt_text, texts, ControlView, TorControlAuth, TorControlConfig,
};
use crate::text::{lemma_trim_idempotent, trim, trimmed};

verus! {

/// Log mode of the payload.
#[derive(Debug, Clone, Copy, PartialEq, Eq, Structural)]
pub enum RuntimeLogMode {
    Managed,
    External,
}

/// The runtime log mode that a payload log mode stands for.
pub open spec fn log_mode_of(m: RuntimeLogMode) -> LogMode {
    match m {
        RuntimeLogMode::Managed => LogMode::Managed,
        RuntimeLogMode::External => LogMode::External,
    }
}

/// The payload log mode for a runtime log mode.
pub open spec fn runtime_log_mode_of(m: LogMode) -> RuntimeLogMode {
    match m {
        LogMode::Managed => RuntimeLogMode::Managed,
        LogMode::External => RuntimeLogMode::External,
    }
}

impl From<LogMode> for RuntimeLogMode {
    fn from(value: LogMode) -> (r: Self)
        ensures
            r == runtime_log_mode_of(value),
    {
        match value {
            LogMode::Managed => RuntimeLogMode::Managed,
            LogMode::External => RuntimeLogMode::External,
        }
    }
}

impl vstd::std_specs::convert::FromSpecImpl<LogMode> for RuntimeLogMode {
    open spec fn obeys_from_spec() -> bool {
        true
    }

    open spec fn from_spec(v: LogMode) -> RuntimeLogMode {
        runtime_log_mode_of(v)
    }
}

impl From<RuntimeLogMode> for LogMode {
    fn from(value: RuntimeLogMode) -> (r: Self)
        ensures
            r == log_mode_of(value),
    {
        match value {
            RuntimeLogMode::Managed => LogMode::Managed,
            RuntimeLogMode::External => LogMode::External,
        }
    }
}

impl vstd::std_specs::convert::FromSpecImpl<RuntimeLogMode> for LogMode {
    open spec fn obeys_from_spec() -> bool {
        true
    }

    open spec fn from_spec(v: RuntimeLogMode) -> LogMode {
        log_mode_of(v)
    }
}

/// ControlPort authentication of the payload.
#[derive(Debug, Clone, PartialEq, Eq)]
pub enum RuntimeControlAuth {
    Null,
    Cookie { cookie_path: String },
}

/// The cookie path text of a payload authentication, `None` for null
/// authentication.
pub open spec fn runtime_auth_view(a: RuntimeControlAuth) -> Option<Seq<char>> {
    match a {
        RuntimeControlAuth::Null => None,
        RuntimeControlAuth::Cookie { cookie_path } => Some(cookie_path@),
    }
}

/// The payload form of an authentication method, as a value.
pub open spec fn runtime_auth_of(value: TorControlAuth) -> RuntimeControlAuth {
    match value {
        TorControlAuth::Null => RuntimeControlAuth::Null,
        TorControlAuth::Cookie { cookie_path } => RuntimeControlAuth::Cookie { cookie_path },
    }
}

/// The authentication method a payload authentication stands for.
pub open spec fn tor_auth_of(value: RuntimeControlAuth) -> TorControlAuth {
    match value {
        RuntimeControlAuth::Null => TorControlAuth::Null,
        RuntimeControlAuth::Cookie { cookie_path } => TorControlAuth::Cookie { cookie_path },
    }
}

impl<'a> From<&'a TorControlAuth> for RuntimeControlAuth {
    fn from(value: &'a TorControlAuth) -> (r: Self)
        ensures
            r == runtime_auth_of(*value),
            runtime_auth_view(r) == auth_view(*value),
    {
        match value {
            TorControlAuth::Null => RuntimeControlAuth::Null,
            TorControlAuth::Cookie { cookie_path } => RuntimeControlAuth::Cookie {
                cookie_path: cookie_path.clone(),
            },
        }
    }
}

impl<'a> vstd::std_specs::convert::FromSpecImpl<&'a TorControlAuth> for RuntimeControlAuth {
    open spec fn obeys_from_spec() -> bool {
        true
    }

    open spec fn from_spec(v: &'a TorControlAuth) -> RuntimeControlAuth {
        runtime_auth_of(*v)
    }
}

impl TryFrom<RuntimeControlAuth> for TorControlAuth {
    type Error = RuntimeConfigError;

    fn try_from(value: RuntimeControlAuth) -> (r: Result<Self, RuntimeConfigError>)
        ensures
            r == Ok::<TorControlAuth, RuntimeConfigError>(tor_auth_of(value)),
    {
        match value {
            RuntimeControlAuth::Null => Ok(TorControlAuth::Null),
            RuntimeControlAuth::Cookie { cookie_path } => Ok(TorControlAuth::Cookie { cookie_path }),
        }
    }
}

impl vstd::std_specs::convert::TryFromSpecImpl<RuntimeControlAuth> for TorControlAuth {
    open spec fn obeys_try_from_spec() -> bool {
        true
    }

    open spec fn try_from_spec(v: RuntimeControlAuth) -> Result<TorControlAuth, RuntimeConfigError> {
        Ok(tor_auth_of(v))
    }
}

/// ControlPort configuration of the payload.
#[derive(Debug, Clone, PartialEq, Eq)]
pub struct RuntimeControlConfig {
    pub host: String,
    pub port: u16,
    pub auth: RuntimeControlAuth,
}

impl View for RuntimeControlConfig {
    type V = ControlView;

    open spec fn view(&self) -> ControlView {
        ControlView { host: self.host@, port: self.port, cookie_path: runtime_auth_view(self.auth) }
    }
}

impl<'a> From<&'a TorControlConfig> for RuntimeControlConfig {
    fn from(value: &'a TorControlConfig) -> (r: Self)
        ensures
            r == (RuntimeControlConfig {
                host: value.host,
                port: value.port,
                auth: runtime_auth_of(value.auth),
            }),
            r@ == value@,
    {
        RuntimeControlConfig {
            host: value.host.clone(),
            port: value.port,
            auth: RuntimeControlAuth::from(&value.auth),
        }
    }
}

impl<'a> vstd::std_specs::convert::FromSpecImpl<&'a TorControlConfig> for RuntimeControlConfig {
    open spec fn obeys_from_spec() -> bool {
        true
    }

    open spec fn from_spec(v: &'a TorControlConfig) -> RuntimeControlConfig {
        RuntimeControlConfig { host: v.host, port: v.port, auth: runtime_auth_of(v.auth) }
    }
}

impl TryFrom<RuntimeControlConfig> for TorControlConfig {
    type Error = RuntimeConfigError;

    fn try_from(value: RuntimeControlConfig) -> (r: Result<Self, RuntimeConfigError>)
        ensures
            r == Ok::<TorControlConfig, RuntimeConfigError>(
                TorControlConfig { host: value.host, port: value.port, auth: tor_auth_of(value.auth) },
            ),
            r matches Ok(c) && c@ == value@,
    {
        let auth = match TorControlAuth::try_from(value.auth) {
            Ok(auth) => auth,
            Err(e) => return Err(e),
        };
        Ok(TorControlConfig { host: value.host, port: value.port, auth })
    }
}

impl vstd::std_specs::convert::TryFromSpecImpl<RuntimeControlConfig> for TorControlConfig {
    open spec fn obeys_try_from_spec() -> bool {
        true
    }

    open spec fn try_from_spec(v: RuntimeControlConfig) -> Result<TorControlConfig, RuntimeConfigError> {
        Ok(TorControlConfig { host: v.host, port: v.port, auth: tor_auth_of(v.auth) })
    }
}

/// The runtime configuration payload shared by the get/set API and the
/// persisted file.
#[derive(Debug, Clone, PartialEq, Eq)]
pub struct RuntimeConfigDto {
    pub tor_path: String,
    pub log_path: String,
    pub log_mode: RuntimeLogMode,
    pub torrc_path: Option<String>,
    pub use_torrc: bool,
    pub args: Vec<String>,
    pub working_dir: Option<String>,
    pub control: Option<RuntimeControlConfig>,
    pub stop_timeout_ms: u64,
    pub log_poll_interval_ms: u64,
}

/// The view of an optional payload ControlPort configuration.
pub open spec fn runtime_control_view(c: Option<RuntimeControlConfig>) -> Option<ControlView> {
    match c {
        Some(ctl) => Some(ctl@),
        None => None,
    }
}

impl View for RuntimeConfigDto {
    type V = ConfigView;

    open spec fn view(&self) -> ConfigView {
        ConfigView {
            tor_path: self.tor_path@,
            log_path: self.log_path@,
            log_mode: log_mode_of(self.log_mode),
            torrc_path: opt_text(self.torrc_path),
            use_torrc: self.use_torrc,
            args: texts(self.args@),
            working_dir: opt_text(self.working_dir),
            control: runtime_control_view(self.control),
            stop_timeout_ms: self.stop_timeout_ms,
            log_poll_interval_ms: self.log_poll_interval_ms,
        }
    }
}

/// The request payload of `set_runtime_config`.
pub type RuntimeConfigRequest = RuntimeConfigDto;

/// The response payload of `get_runtime_config` and `set_runtime_config`.
pub type RuntimeConfigResponse = RuntimeConfigDto;

/// An optional text trimmed, and dropped when blank.
pub open spec fn normalized(o: Option<Seq<char>>) -> Option<Seq<char>> {
    match o {
        Some(t) => if trim(t).len() > 0 {
            Some(trim(t))
        } else {
            None
        },
        None => None,
    }
}

/// The configuration a payload stands for: the payload itself with its torrc
/// path normalized.
pub open spec fn config_of_payload(v: ConfigView) -> ConfigView {
    ConfigView { torrc_path: normalized(v.torrc_path), ..v }
}

/// Why a payload is refused.
#[derive(Debug, Clone, PartialEq, Eq)]
pub enum RuntimeConfigError {
    /// The named field is empty or only whitespace.
    EmptyField { field: &'static str },
}

impl RuntimeConfigError {
    /// The error for an empty field.
    pub fn empty_field(field: &'static str) -> (e: Self)
        ensures
            e == (RuntimeConfigError::EmptyField { field }),
    {
        RuntimeConfigError::EmptyField { field }
    }

    /// The human-readable text: `"<field> must not be empty"`.
    pub fn message(&self) -> (m: String)
        ensures
            self matches RuntimeConfigError::EmptyField { field } && m@ == field@
                + " must not be empty"@,
    {
        match self {
            RuntimeConfigError::EmptyField { field } => String::from_str(field).concat(
                " must not be empty",
            ),
        }
    }
}

impl From<RuntimeConfigValidationError> for RuntimeConfigError {
    fn from(value: RuntimeConfigValidationError) -> (r: Self)
        ensures
            r == (match value {
                RuntimeConfigValidationError::EmptyField { field } => RuntimeConfigError::EmptyField {
                    field,
                },
            }),
    {
        match value {
            RuntimeConfigValidationError::EmptyField { field } => RuntimeConfigError::EmptyField {
                field,
            },
        }
    }
}

impl vstd::std_specs::convert::FromSpecImpl<RuntimeConfigValidationError> for RuntimeConfigError {
    open spec fn obeys_from_spec() -> bool {
        true
    }

    open spec fn from_spec(v: RuntimeConfigValidationError) -> RuntimeConfigError {
        match v {
            RuntimeConfigValidationError::EmptyField { field } => RuntimeConfigError::EmptyField {
                field,
            },
        }
    }
}

/// The text trimmed, or `None` when it is blank.
pub fn normalize_optional_string(value: Option<String>) -> (r: Option<String>)
    ensures
        opt_text(r) == normalized(opt_text(value)),
{
    match value {
        Some(v) => {
            let t = trimmed(v.as_str());
            if t.unicode_len() > 0 {
                Some(t)
            } else {
                None
            }
        },
        None => None,
    }
}

fn copy_texts(v: &Vec<String>) -> (r: Vec<String>)
    ensures
        texts(r@) == texts(v@),
{
    let mut r: Vec<String> = Vec::new();
    let n = v.len();
    let mut i: usize = 0;
    while i < n
        invariant
            i <= n,
            n == v@.len(),
            r@.len() == i,
            texts(r@) == texts(v@).subrange(0, i as int),
        decreases n - i,
    {
        let ghost before = r@;
        r.push(String::from_str(v[i].as_str()));
        assert forall|j: int| 0 <= j < i + 1 implies texts(r@)[j] == texts(v@).subrange(
            0,
            i + 1,
        )[j] by {
            if j < i {
                assert(r@[j] == before[j]);
                assert(texts(before)[j] == texts(v@).subrange(0, i as int)[j]);
            }
        }
        assert(texts(r@) =~= texts(v@).subrange(0, i + 1));
        i = i + 1;
    }
    assert(texts(v@).subrange(0, n as int) =~= texts(v@));
    r
}

fn copy_opt(v: &Option<String>) -> (r: Option<String>)
    ensures
        opt_text(r) == opt_text(*v),
{
    match v {
        Some(s) => Some(s.clone()),
        None => None,
    }
}

impl RuntimeConfigDto {
    /// The payload form of a runtime configuration.
    pub fn from_runtime_config(config: &TorRuntimeConfig) -> (d: Self)
        ensures
            d@ == config@,
    {
        RuntimeConfigDto {
            tor_path: config.tor_path.clone(),
            log_path: config.log_path.clone(),
            log_mode: RuntimeLogMode::from(config.log_mode),
            torrc_path: copy_opt(&config.torrc_path),
            use_torrc: config.use_torrc,
            args: copy_texts(&config.args),
            working_dir: copy_opt(&config.working_dir),
            control: match &config.control {
                Some(c) => Some(RuntimeControlConfig::from(c)),
                None => None,
            },
            stop_timeout_ms: config.stop_timeout_ms,
            log_poll_interval_ms: config.log_poll_interval_ms,
        }
    }

    /// Validates the payload as the configuration it stands for.
    pub fn validate(&self) -> (r: Result<(), RuntimeConfigError>)
        ensures
            r is Ok <==> invalid_field(config_of_payload(self@)) is None,
            invalid_field(config_of_payload(self@)) matches Some(f) ==> (r matches Err(
                RuntimeConfigError::EmptyField { field },
            ) && field@ == f),
    {
        let config = self.to_runtime_config_unvalidated();
        match config.validate() {
            Ok(()) => Ok(()),
            Err(e) => Err(RuntimeConfigError::from(e)),
        }
    }

    /// The configuration the payload stands for, once validated.
    pub fn try_into_runtime_config(self) -> (r: Result<TorRuntimeConfig, RuntimeConfigError>)
        ensures
            invalid_field(config_of_payload(self@)) is None ==> (r matches Ok(c) && c@
                == config_of_payload(self@)),
            invalid_field(config_of_payload(self@)) matches Some(f) ==> (r matches Err(
                RuntimeConfigError::EmptyField { field },
            ) && field@ == f),
    {
        let config = match self.into_runtime_config_unvalidated() {
            Ok(c) => c,
            Err(e) => return Err(e),
        };
        match config.validate() {
            Ok(()) => Ok(config),
            Err(e) => Err(RuntimeConfigError::from(e)),
        }
    }

    /// The configuration the payload stands for, without validation.
    pub fn into_runtime_config_unvalidated(self) -> (r: Result<
        TorRuntimeConfig,
        RuntimeConfigError,
    >)
        ensures
            r matches Ok(c) && c@ == config_of_payload(self@),
    {
        Ok(self.to_runtime_config_unvalidated())
    }

    fn to_runtime_config_unvalidated(&self) -> (c: TorRuntimeConfig)
        ensures
            c@ == config_of_payload(self@),
    {
        let mut config = TorRuntimeConfig::new(self.tor_path.as_str(), self.log_path.as_str());
        config.log_mode = LogMode::from(self.log_mode);
        config.use_torrc = self.use_torrc;
        config.args = copy_texts(&self.args);
        config.torrc_path = normalize_optional_string(copy_opt(&self.torrc_path));
        config.working_dir = copy_opt(&self.working_dir);
        config.control = match &self.control {
            Some(c) => {
                let auth = match &c.auth {
                    RuntimeControlAuth::Null => TorControlAuth::Null,
                    RuntimeControlAuth::Cookie { cookie_path } => TorControlAuth::Cookie {
                        cookie_path: cookie_path.clone(),
                    },
                };
                Some(TorControlConfig { host: c.host.clone(), port: c.port, auth })
            },
            None => None,
        };
        config.stop_timeout_ms = self.stop_timeout_ms;
        config.log_poll_interval_ms = self.log_poll_interval_ms;
        config
    }
}

/// The response payload for the current configuration.
pub fn get_runtime_config_response(config: &TorRuntimeConfig) -> (d: RuntimeConfigResponse)
    ensures
        d@ == config@,
{
    RuntimeConfigDto::from_runtime_config(config)
}

/// The configuration a request stands for, once validated.
pub fn set_runtime_config_request(request: RuntimeConfigRequest) -> (r: Result<
    TorRuntimeConfig,
    RuntimeConfigError,
>)
    ensures
        invalid_field(config_of_payload(request@)) is None ==> (r matches Ok(c) && c@
            == config_of_payload(request@)),
        invalid_field(config_of_payload(request@)) matches Some(f) ==> (r matches Err(
            RuntimeConfigError::EmptyField { field },
        ) && field@ == f),
{
    request.try_into_runtime_config()
}

/// A valid configuration survives the payload round trip: its payload is
/// accepted, and when its torrc path is absent or already trimmed and
/// non-blank, the configuration read back is the one written.
pub proof fn lemma_config_round_trip(v: ConfigView)
    requires
        invalid_field(v) is None,
    ensures
        invalid_field(config_of_payload(v)) is None,
        normalized(v.torrc_path) == v.torrc_path ==> config_of_payload(v) == v,
{
    match v.torrc_path {
        Some(t) => {
            lemma_trim_idempotent(t);
        },
        None => {},
    }
}

/// Reading a payload back after writing the configuration it stands for gives
/// the same configuration: normalizing twice is normalizing once.
pub proof fn lemma_payload_round_trip_stable(v: ConfigView)
    ensures
        config_of_payload(config_of_payload(v)) == config_of_payload(v),
{
    match v.torrc_path {
        Some(t) => {
            lemma_trim_idempotent(t);
        },
        None => {},
    }
}

} // verus!
