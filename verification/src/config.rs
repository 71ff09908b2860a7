//! Typed runtime configuration of the gateway.
//!
//! The values come from five environment keys; every key has a default so the
//! gateway runs with no environment at all. An absent or empty key takes its
//! default; only a present but unusable value is an error.

use vstd::prelude::*;
use vstd::string::*;

use crate::text::{debug_quoted, debug_quoted_spec};

verus! {

/// Key of the S3 data-plane listen address.
pub const LISTEN_KEY: &'static str = "ARMAZEM_LISTEN";
/// Key of the health/metrics listen address.
pub const HEALTH_LISTEN_KEY: &'static str = "ARMAZEM_HEALTH_LISTEN";
/// Key that selects the storage backend.
pub const BACKEND_TYPE_KEY: &'static str = "ARMAZEM_BACKEND_TYPE";
/// Key of the filesystem root of the `fs` backend.
pub const BACKEND_ROOT_KEY: &'static str = "ARMAZEM_BACKEND_ROOT";
/// Key of the log filter.
pub const LOG_LEVEL_KEY: &'static str = "ARMAZEM_LOG_LEVEL";

/// Default data-plane listen address.
pub const DEFAULT_LISTEN: &'static str = "0.0.0.0:9000";
/// Default health/metrics listen address.
pub const DEFAULT_HEALTH_LISTEN: &'static str = "0.0.0.0:9001";
/// Default (and only supported) backend type.
pub const DEFAULT_BACKEND_TYPE: &'static str = "fs";
/// Default filesystem root of the `fs` backend.
pub const DEFAULT_BACKEND_ROOT: &'static str = "/data";
/// Default log filter.
pub const DEFAULT_LOG_LEVEL: &'static str = "info";

/// `value` when it is present and not empty, `default` otherwise.
pub open spec fn env_or_spec(value: Option<Seq<char>>, default: Seq<char>) -> Seq<char> {
    match value {
        Some(v) => if v.len() > 0 { v } else { default },
        None => default,
    }
}

/// The value of an environment key, or its default when the key is unset or
/// empty.
pub fn env_or(value: &Option<String>, default: &str) -> (res: String)
    ensures
        res@ == env_or_spec(value.deep_view(), default@),
{
    match value {
        Some(v) => {
            if v.as_str().is_empty() {
                default.to_owned()
            } else {
                v.clone()
            }
        },
        None => default.to_owned(),
    }
}


/// The address family and host part of a socket address.
#[derive(Clone, Copy, Debug)]
pub enum IpAddress {
    /// An IPv4 address, most significant octet first.
    V4 { octets: [u8; 4] },
    /// An IPv6 address, most significant segment first, with its flow label
    /// and scope id.
    V6 { segments: [u16; 8], flowinfo: u32, scope_id: u32 },
}

/// A socket address: host and port.
#[derive(Clone, Copy, Debug)]
pub struct SocketAddress {
    pub ip: IpAddress,
    pub port: u16,
}

/// The active storage backend.
#[derive(Clone, Debug)]
pub enum Backend {
    /// Filesystem-rooted S3 store under `root`.
    Fs { root: String },
}

/// Mathematical model of a [`Backend`].
pub enum BackendModel {
    Fs { root: Seq<char> },
}

impl View for Backend {
    type V = BackendModel;

    open spec fn view(&self) -> BackendModel {
        match self {
            Backend::Fs { root } => BackendModel::Fs { root: root@ },
        }
    }
}

/// Resolved gateway configuration.
#[derive(Clone, Debug)]
pub struct Config {
    /// S3 data-plane listen address.
    pub listen: SocketAddress,
    /// Health/metrics listen address.
    pub health_listen: SocketAddress,
    /// The selected backend.
    pub backend: Backend,
    /// Log filter.
    pub log_level: String,
}

/// Mathematical model of a [`Config`].
pub struct ConfigModel {
    pub listen: SocketAddress,
    pub health_listen: SocketAddress,
    pub backend: BackendModel,
    pub log_level: Seq<char>,
}

impl View for Config {
    type V = ConfigModel;

    open spec fn view(&self) -> ConfigModel {
        ConfigModel {
            listen: self.listen,
            health_listen: self.health_listen,
            backend: self.backend@,
            log_level: self.log_level@,
        }
    }
}

/// Why a configuration was refused.
#[derive(Clone, Debug)]
pub enum ConfigError {
    /// The value of `key` (`raw`, after defaults) is not a socket address;
    /// `reason` says why.
    InvalidAddress { key: String, raw: String, reason: String },
    /// The backend type names no supported backend.
    UnsupportedBackend { value: String },
}

/// Mathematical model of a [`ConfigError`].
pub enum ConfigErrorModel {
    InvalidAddress { key: Seq<char>, raw: Seq<char>, reason: Seq<char> },
    UnsupportedBackend { value: Seq<char> },
}

impl View for ConfigError {
    type V = ConfigErrorModel;

    open spec fn view(&self) -> ConfigErrorModel {
        match self {
            ConfigError::InvalidAddress { key, raw, reason } => ConfigErrorModel::InvalidAddress {
                key: key@,
                raw: raw@,
                reason: reason@,
            },
            ConfigError::UnsupportedBackend { value } => ConfigErrorModel::UnsupportedBackend {
                value: value@,
            },
        }
    }
}

/// The text that reports a configuration error; the offending value is
/// shown quoted as std's `Debug` shows a string.
pub open spec fn config_error_message_spec(e: ConfigErrorModel) -> Seq<char> {
    match e {
        ConfigErrorModel::InvalidAddress { key, raw, reason } => "invalid socket address in "@ + key
            + " ("@ + debug_quoted_spec(raw) + "): "@ + reason,
        ConfigErrorModel::UnsupportedBackend { value } => "unsupported ARMAZEM_BACKEND_TYPE "@
            + debug_quoted_spec(value) + " (M0 supports only \"fs\")"@,
    }
}

impl ConfigError {
    /// The text that reports this error.
    pub fn message(&self) -> (m: String)
        ensures
            m@ == config_error_message_spec(self@),
    {
        match self {
            ConfigError::InvalidAddress { key, raw, reason } => {
                let mut m = "invalid socket address in ".to_owned();
                m.append(key.as_str());
                m.append(" (");
                m.append(debug_quoted(raw.as_str()).as_str());
                m.append("): ");
                m.append(reason.as_str());
                m
            },
            ConfigError::UnsupportedBackend { value } => {
                let mut m = "unsupported ARMAZEM_BACKEND_TYPE ".to_owned();
                m.append(debug_quoted(value.as_str()).as_str());
                m.append(" (M0 supports only \"fs\")");
                m
            },
        }
    }
}

/// The five environment values, each `None` when its key is unset.
#[derive(Clone, Debug)]
pub struct EnvValues {
    pub listen: Option<String>,
    pub health_listen: Option<String>,
    pub backend_type: Option<String>,
    pub backend_root: Option<String>,
    pub log_level: Option<String>,
}

/// Mathematical model of an [`EnvValues`].
pub struct EnvModel {
    pub listen: Option<Seq<char>>,
    pub health_listen: Option<Seq<char>>,
    pub backend_type: Option<Seq<char>>,
    pub backend_root: Option<Seq<char>>,
    pub log_level: Option<Seq<char>>,
}

impl View for EnvValues {
    type V = EnvModel;

    open spec fn view(&self) -> EnvModel {
        EnvModel {
            listen: self.listen.deep_view(),
            health_listen: self.health_listen.deep_view(),
            backend_type: self.backend_type.deep_view(),
            backend_root: self.backend_root.deep_view(),
            log_level: self.log_level.deep_view(),
        }
    }
}

/// Model of the outcome of parsing an address: the address, or why it is not one.
pub open spec fn address_result_view(r: Result<SocketAddress, String>) -> Result<SocketAddress, Seq<char>> {
    match r {
        Ok(a) => Ok(a),
        Err(e) => Err(e@),
    }
}

/// Model of the outcome of [`Config::from_env`].
pub open spec fn config_result_view(r: Result<Config, ConfigError>) -> Result<ConfigModel, ConfigErrorModel> {
    match r {
        Ok(c) => Ok(c@),
        Err(e) => Err(e@),
    }
}

/// The text that the data-plane listen address is parsed from.
pub open spec fn listen_text_spec(env: EnvModel) -> Seq<char> {
    env_or_spec(env.listen, DEFAULT_LISTEN@)
}

/// The text that the health listen address is parsed from.
pub open spec fn health_listen_text_spec(env: EnvModel) -> Seq<char> {
    env_or_spec(env.health_listen, DEFAULT_HEALTH_LISTEN@)
}

/// The configuration that `env` and the outcomes of parsing its two address
/// texts resolve to. The checks run in this order: data-plane address,
/// health address, backend type.
pub open spec fn from_env_spec(
    env: EnvModel,
    listen: Result<SocketAddress, Seq<char>>,
    health_listen: Result<SocketAddress, Seq<char>>,
) -> Result<ConfigModel, ConfigErrorModel> {
    match (listen, health_listen) {
        (Err(reason), _) => Err(ConfigErrorModel::InvalidAddress {
            key: LISTEN_KEY@,
            raw: listen_text_spec(env),
            reason,
        }),
        (Ok(_), Err(reason)) => Err(ConfigErrorModel::InvalidAddress {
            key: HEALTH_LISTEN_KEY@,
            raw: health_listen_text_spec(env),
            reason,
        }),
        (Ok(l), Ok(h)) => {
            let backend_type = env_or_spec(env.backend_type, DEFAULT_BACKEND_TYPE@);
            if backend_type == DEFAULT_BACKEND_TYPE@ {
                Ok(ConfigModel {
                    listen: l,
                    health_listen: h,
                    backend: BackendModel::Fs {
                        root: env_or_spec(env.backend_root, DEFAULT_BACKEND_ROOT@),
                    },
                    log_level: env_or_spec(env.log_level, DEFAULT_LOG_LEVEL@),
                })
            } else {
                Err(ConfigErrorModel::UnsupportedBackend { value: backend_type })
            }
        },
    }
}

/// The text that the data-plane listen address is parsed from: the value of
/// [`LISTEN_KEY`], or [`DEFAULT_LISTEN`].
pub fn listen_text(env: &EnvValues) -> (res: String)
    ensures
        res@ == listen_text_spec(env@),
{
    env_or(&env.listen, DEFAULT_LISTEN)
}

/// The text that the health listen address is parsed from: the value of
/// [`HEALTH_LISTEN_KEY`], or [`DEFAULT_HEALTH_LISTEN`].
pub fn health_listen_text(env: &EnvValues) -> (res: String)
    ensures
        res@ == health_listen_text_spec(env@),
{
    env_or(&env.health_listen, DEFAULT_HEALTH_LISTEN)
}

/// With no environment at all, the configuration is the defaults: backend
/// `fs` rooted at `/data`, log filter `info`, and the two addresses parsed
/// from their default texts.
pub proof fn lemma_empty_environment_gives_defaults(listen: SocketAddress, health_listen: SocketAddress)
    ensures
        ({
            let env = EnvModel {
                listen: None,
                health_listen: None,
                backend_type: None,
                backend_root: None,
                log_level: None,
            };
            &&& listen_text_spec(env) == DEFAULT_LISTEN@
            &&& health_listen_text_spec(env) == DEFAULT_HEALTH_LISTEN@
            &&& from_env_spec(env, Ok(listen), Ok(health_listen)) == Ok::<ConfigModel, ConfigErrorModel>(
                ConfigModel {
                    listen,
                    health_listen,
                    backend: BackendModel::Fs { root: DEFAULT_BACKEND_ROOT@ },
                    log_level: DEFAULT_LOG_LEVEL@,
                },
            )
        }),
{
}

/// A configuration is refused only for a value that is present but
/// unusable: an address text that did not parse, or a backend type that is
/// set, not empty, and not `fs`. An unset or empty key is never the cause.
pub proof fn lemma_refused_only_for_present_bad_values(
    env: EnvModel,
    listen: Result<SocketAddress, Seq<char>>,
    health_listen: Result<SocketAddress, Seq<char>>,
)
    ensures
        from_env_spec(env, listen, health_listen) is Err ==> {
            ||| listen is Err
            ||| health_listen is Err
            ||| (env.backend_type is Some && env.backend_type->0.len() > 0
                && env.backend_type->0 != DEFAULT_BACKEND_TYPE@)
        },
        from_env_spec(env, listen, health_listen) matches Err(ConfigErrorModel::UnsupportedBackend {
            value,
        }) ==> env.backend_type == Some(value),
{
}

/// How the gateway configuration resolves, for every environment and every
/// outcome of parsing the two addresses:
/// - it is accepted exactly when both addresses parsed and the backend type
///   is unset, empty or `fs`;
/// - an accepted configuration holds the two parsed addresses, the backend
///   root `ARMAZEM_BACKEND_ROOT` when that is set and not empty and `/data`
///   otherwise (whatever the other keys hold), and the log filter
///   `ARMAZEM_LOG_LEVEL` when set and not empty and `info` otherwise;
/// - a data-plane address that did not parse is reported first, under
///   `ARMAZEM_LISTEN` with the text that was parsed, then the health
///   address under `ARMAZEM_HEALTH_LISTEN`, then the backend type with its
///   value.
pub proof fn lemma_config_resolution(
    env: EnvModel,
    listen: Result<SocketAddress, Seq<char>>,
    health_listen: Result<SocketAddress, Seq<char>>,
)
    ensures
        ({
            let r = from_env_spec(env, listen, health_listen);
            let type_set = env.backend_type is Some && env.backend_type->0.len() > 0;
            let root_set = env.backend_root is Some && env.backend_root->0.len() > 0;
            let log_set = env.log_level is Some && env.log_level->0.len() > 0;
            let listen_set = env.listen is Some && env.listen->0.len() > 0;
            let health_set = env.health_listen is Some && env.health_listen->0.len() > 0;
            &&& (r is Ok <==> (listen is Ok && health_listen is Ok && (!type_set
                || env.backend_type->0 == "fs"@)))
            &&& r is Ok ==> {
                &&& r->Ok_0.listen == listen->Ok_0
                &&& r->Ok_0.health_listen == health_listen->Ok_0
                &&& r->Ok_0.backend == (BackendModel::Fs {
                    root: if root_set {
                        env.backend_root->0
                    } else {
                        "/data"@
                    },
                })
                &&& r->Ok_0.log_level == (if log_set {
                    env.log_level->0
                } else {
                    "info"@
                })
            }
            &&& listen is Err ==> r == Err::<ConfigModel, ConfigErrorModel>(
                ConfigErrorModel::InvalidAddress {
                    key: "ARMAZEM_LISTEN"@,
                    raw: if listen_set {
                        env.listen->0
                    } else {
                        "0.0.0.0:9000"@
                    },
                    reason: listen->Err_0,
                },
            )
            &&& (listen is Ok && health_listen is Err) ==> r == Err::<ConfigModel, ConfigErrorModel>(
                ConfigErrorModel::InvalidAddress {
                    key: "ARMAZEM_HEALTH_LISTEN"@,
                    raw: if health_set {
                        env.health_listen->0
                    } else {
                        "0.0.0.0:9001"@
                    },
                    reason: health_listen->Err_0,
                },
            )
            &&& (listen is Ok && health_listen is Ok && type_set && env.backend_type->0 != "fs"@) ==> r
                == Err::<ConfigModel, ConfigErrorModel>(
                ConfigErrorModel::UnsupportedBackend { value: env.backend_type->0 },
            )
        }),
{
}

impl Config {
    /// Resolves the configuration from the environment values `env`, given
    /// the outcomes of parsing [`listen_text`] and [`health_listen_text`] of
    /// `env` as socket addresses. Every absent or empty key takes its
    /// default; the result is an error only for an address that did not
    /// parse or a backend type other than `fs`.
    pub fn from_env(
        env: &EnvValues,
        listen: Result<SocketAddress, String>,
        health_listen: Result<SocketAddress, String>,
    ) -> (res: Result<Config, ConfigError>)
        ensures
            config_result_view(res) == from_env_spec(
                env@,
                address_result_view(listen),
                address_result_view(health_listen),
            ),
    {
        let listen = match listen {
            Ok(a) => a,
            Err(reason) => {
                return Err(ConfigError::InvalidAddress {
                    key: LISTEN_KEY.to_owned(),
                    raw: listen_text(env),
                    reason,
                });
            },
        };
        let health_listen = match health_listen {
            Ok(a) => a,
            Err(reason) => {
                return Err(ConfigError::InvalidAddress {
                    key: HEALTH_LISTEN_KEY.to_owned(),
                    raw: health_listen_text(env),
                    reason,
                });
            },
        };
        let log_level = env_or(&env.log_level, DEFAULT_LOG_LEVEL);
        let backend_type = env_or(&env.backend_type, DEFAULT_BACKEND_TYPE);
        if backend_type == DEFAULT_BACKEND_TYPE.to_owned() {
            let root = env_or(&env.backend_root, DEFAULT_BACKEND_ROOT);
            Ok(Config { listen, health_listen, backend: Backend::Fs { root }, log_level })
        } else {
            Err(ConfigError::UnsupportedBackend { value: backend_type })
        }
    }
}

} // verus!
