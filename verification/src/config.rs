//! Application configuration: the aggregate [`AppConfig`] with its four
//! sections, and the default value of every field.
//!
//! Each section can be absent from a configuration file, in which case its
//! defaults apply; reading and deserializing such a file is I/O and stays
//! outside this crate, which defines the types and pins every default.

use vstd::prelude::*;

verus! {

/// Default directory for stored or cached models.
pub fn default_models_dir_path_app() -> (r: String)
    ensures
        r@ == "./.model_cache"@,
{
    String::from_str("./.model_cache")
}

/// Dynamic model loading is allowed by default.
pub fn default_allow_dynamic_loading_app() -> (r: bool)
    ensures
        r == true,
{
    true
}

/// Default API host.
pub fn default_api_host_app() -> (r: String)
    ensures
        r@ == "127.0.0.1"@,
{
    String::from_str("127.0.0.1")
}

/// Default API port.
pub fn default_api_port_app() -> (r: u16)
    ensures
        r == 8080,
{
    8080
}

/// CORS is off by default.
pub fn default_api_cors_enabled_app() -> (r: bool)
    ensures
        r == false,
{
    false
}

/// Default log level.
pub fn default_log_level_app() -> (r: String)
    ensures
        r@ == "info"@,
{
    String::from_str("info")
}

/// Logs are plain text by default, not JSON.
pub fn default_log_json_app() -> (r: bool)
    ensures
        r == false,
{
    false
}

/// Default interface theme.
pub fn default_theme_app() -> (r: String)
    ensures
        r@ == "dark"@,
{
    String::from_str("dark")
}

/// Default interface language.
pub fn default_language_app() -> (r: String)
    ensures
        r@ == "en_US"@,
{
    String::from_str("en_US")
}

/// Model-related configuration.
#[derive(Debug, Clone, PartialEq)]
pub struct ModelConfigSub {
    /// Directory where models are stored or cached.
    pub model_dir: String,
    /// Models to load at startup.
    pub preload_models: Vec<String>,
    /// Whether models may be loaded dynamically.
    pub allow_dynamic_loading: bool,
}

impl ModelConfigSub {
    /// The documented default values of this section.
    pub open spec fn is_default(self) -> bool {
        &&& self.model_dir@ == "./.model_cache"@
        &&& self.preload_models@.len() == 0
        &&& self.allow_dynamic_loading == true
    }
}

impl Default for ModelConfigSub {
    fn default() -> (r: ModelConfigSub)
        ensures
            r.is_default(),
    {
        ModelConfigSub {
            model_dir: default_models_dir_path_app(),
            preload_models: Vec::new(),
            allow_dynamic_loading: default_allow_dynamic_loading_app(),
        }
    }
}

/// API server configuration.
#[derive(Debug, Clone, PartialEq, Eq)]
pub struct ApiConfigSub {
    /// Host the API server binds to.
    pub host: String,
    /// Port the API server listens on.
    pub port: u16,
    /// Whether CORS is enabled.
    pub cors_enabled: bool,
}

impl ApiConfigSub {
    /// The documented default values of this section.
    pub open spec fn is_default(self) -> bool {
        &&& self.host@ == "127.0.0.1"@
        &&& self.port == 8080
        &&& self.cors_enabled == false
    }
}

impl Default for ApiConfigSub {
    fn default() -> (r: ApiConfigSub)
        ensures
            r.is_default(),
    {
        ApiConfigSub {
            host: default_api_host_app(),
            port: default_api_port_app(),
            cors_enabled: default_api_cors_enabled_app(),
        }
    }
}

/// Logging configuration.
#[derive(Debug, Clone, PartialEq, Eq)]
pub struct LoggingConfigSub {
    /// Log level, e.g. "info" or "debug".
    pub level: String,
    /// Optional log file path.
    pub log_file: Option<String>,
    /// Whether logs are written as JSON.
    pub json_format: bool,
}

impl LoggingConfigSub {
    /// The documented default values of this section.
    pub open spec fn is_default(self) -> bool {
        &&& self.level@ == "info"@
        &&& self.log_file is None
        &&& self.json_format == false
    }
}

impl Default for LoggingConfigSub {
    fn default() -> (r: LoggingConfigSub)
        ensures
            r.is_default(),
    {
        LoggingConfigSub {
            level: default_log_level_app(),
            log_file: None,
            json_format: default_log_json_app(),
        }
    }
}

/// General application settings.
#[derive(Debug, Clone, PartialEq, Eq)]
pub struct GeneralSettingsSub {
    /// Interface theme.
    pub theme: String,
    /// Interface language.
    pub language: String,
}

impl GeneralSettingsSub {
    /// The documented default values of this section.
    pub open spec fn is_default(self) -> bool {
        &&& self.theme@ == "dark"@
        &&& self.language@ == "en_US"@
    }
}

impl Default for GeneralSettingsSub {
    fn default() -> (r: GeneralSettingsSub)
        ensures
            r.is_default(),
    {
        GeneralSettingsSub { theme: default_theme_app(), language: default_language_app() }
    }
}

/// Default model section.
pub fn default_model_config() -> (r: ModelConfigSub)
    ensures
        r.is_default(),
{
    ModelConfigSub::default()
}

/// Default API section.
pub fn default_api_config() -> (r: ApiConfigSub)
    ensures
        r.is_default(),
{
    ApiConfigSub::default()
}

/// Default logging section.
pub fn default_logging_config() -> (r: LoggingConfigSub)
    ensures
        r.is_default(),
{
    LoggingConfigSub::default()
}

/// Default general settings section.
pub fn default_general_settings() -> (r: GeneralSettingsSub)
    ensures
        r.is_default(),
{
    GeneralSettingsSub::default()
}

/// The aggregate application configuration.
#[derive(Debug, Clone, PartialEq)]
pub struct AppConfig {
    /// Model-related configuration.
    pub model_config: ModelConfigSub,
    /// API server configuration.
    pub api_config: ApiConfigSub,
    /// Logging configuration.
    pub logging_config: LoggingConfigSub,
    /// General settings.
    pub general_settings: GeneralSettingsSub,
}

impl AppConfig {
    /// Every section holds its default values.
    pub open spec fn is_default(self) -> bool {
        &&& self.model_config.is_default()
        &&& self.api_config.is_default()
        &&& self.logging_config.is_default()
        &&& self.general_settings.is_default()
    }
}

impl Default for AppConfig {
    fn default() -> (r: AppConfig)
        ensures
            r.is_default(),
    {
        AppConfig {
            model_config: ModelConfigSub::default(),
            api_config: ApiConfigSub::default(),
            logging_config: LoggingConfigSub::default(),
            general_settings: GeneralSettingsSub::default(),
        }
    }
}

} // verus!
