use vstd::prelude::*;
use crate::text::{decimal, decimal_string, parse_unsigned, parsed_unsigned, str_eq};

verus! {

/// Server settings.
#[derive(Debug, Clone)]
pub struct ServerConfig {
    pub host: String,
    pub port: u16,
    pub max_file_size_mb: usize,
    pub worker_threads: Option<usize>,
    pub enable_cors: bool,
}

/// Compression defaults.
#[derive(Debug, Clone)]
pub struct CompressionConfig {
    pub default_quality: u8,
    pub default_algorithm: String,
    pub enable_cache: bool,
    pub cache_ttl_minutes: u32,
    pub max_concurrent_jobs: usize,
}

/// Logging settings.
#[derive(Debug, Clone)]
pub struct LoggingConfig {
    pub level: String,
    pub enable_request_logging: bool,
    pub log_compression_stats: bool,
}

/// The whole configuration.
#[derive(Debug, Clone)]
pub struct Config {
    pub server: ServerConfig,
    pub compression: CompressionConfig,
    pub logging: LoggingConfig,
}

/// Why a configuration could not be loaded, checked or written.
#[derive(Debug, Clone)]
pub enum ConfigError {
    IoError(String),
    ParseError(String),
    ValidationError(String),
    SerializeError(String),
}

impl ConfigError {
    /// The human-readable text of the error.
    pub fn message(&self) -> (r: String)
        ensures
            r@ == match self {
                ConfigError::IoError(s) => "IO error: "@ + s@,
                ConfigError::ParseError(s) => "Parse error: "@ + s@,
                ConfigError::ValidationError(s) => "Validation error: "@ + s@,
                ConfigError::SerializeError(s) => "Serialization error: "@ + s@,
            },
    {
        let (mut head, tail) = match self {
            ConfigError::IoError(s) => (String::from_str("IO error: "), s),
            ConfigError::ParseError(s) => (String::from_str("Parse error: "), s),
            ConfigError::ValidationError(s) => (String::from_str("Validation error: "), s),
            ConfigError::SerializeError(s) => (String::from_str("Serialization error: "), s),
        };
        head.append(tail.as_str());
        head
    }
}

impl Default for ServerConfig {
    fn default() -> (r: Self)
        ensures
            r.host@ == "0.0.0.0"@,
            r.port == 3030,
            r.max_file_size_mb == 100,
            r.worker_threads is None,
            r.enable_cors,
    {
        ServerConfig {
            host: String::from_str("0.0.0.0"),
            port: 3030,
            max_file_size_mb: 100,
            worker_threads: None,
            enable_cors: true,
        }
    }
}

impl Default for CompressionConfig {
    fn default() -> (r: Self)
        ensures
            r.default_quality == 80,
            r.default_algorithm@ == "mozjpeg"@,
            !r.enable_cache,
            r.cache_ttl_minutes == 60,
            r.max_concurrent_jobs == 10,
    {
        CompressionConfig {
            default_quality: 80,
            default_algorithm: String::from_str("mozjpeg"),
            enable_cache: false,
            cache_ttl_minutes: 60,
            max_concurrent_jobs: 10,
        }
    }
}

impl Default for LoggingConfig {
    fn default() -> (r: Self)
        ensures
            r.level@ == "info"@,
            r.enable_request_logging,
            r.log_compression_stats,
    {
        LoggingConfig {
            level: String::from_str("info"),
            enable_request_logging: true,
            log_compression_stats: true,
        }
    }
}

/// The default configuration, field by field.
pub open spec fn is_default_config(c: Config) -> bool {
    &&& c.server.host@ == "0.0.0.0"@
    &&& c.server.port == 3030
    &&& c.server.max_file_size_mb == 100
    &&& c.server.worker_threads is None
    &&& c.server.enable_cors
    &&& c.compression.default_quality == 80
    &&& c.compression.default_algorithm@ == "mozjpeg"@
    &&& !c.compression.enable_cache
    &&& c.compression.cache_ttl_minutes == 60
    &&& c.compression.max_concurrent_jobs == 10
    &&& c.logging.level@ == "info"@
    &&& c.logging.enable_request_logging
    &&& c.logging.log_compression_stats
}

impl Default for Config {
    fn default() -> (r: Self)
        ensures
            is_default_config(r),
    {
        Config {
            server: ServerConfig::default(),
            compression: CompressionConfig::default(),
            logging: LoggingConfig::default(),
        }
    }
}

/// The strategy names a configuration may choose as default.
pub open spec fn is_known_algorithm(s: Seq<char>) -> bool {
    s == "mozjpeg"@ || s == "jpeg-encoder"@ || s == "png-quantized"@
}

/// A configuration is valid when the port and the size limit are not zero,
/// the default quality is within 1..=100 and the default strategy is known.
pub open spec fn config_valid(c: Config) -> bool {
    &&& c.server.port != 0
    &&& c.server.max_file_size_mb != 0
    &&& 1 <= c.compression.default_quality <= 100
    &&& is_known_algorithm(c.compression.default_algorithm@)
}

/// One mebibyte.
pub const BYTES_PER_MB: usize = 1048576;

impl Config {
    /// Checks the configuration values.
    pub fn validate(&self) -> (r: Result<(), ConfigError>)
        ensures
            r is Ok <==> config_valid(*self),
            r matches Err(e) ==> e matches ConfigError::ValidationError(_),
    {
        if self.server.port == 0 {
            return Err(ConfigError::ValidationError(String::from_str("Port cannot be 0")));
        }
        if self.server.max_file_size_mb == 0 {
            return Err(ConfigError::ValidationError(String::from_str("Max file size cannot be 0")));
        }
        if !(1 <= self.compression.default_quality && self.compression.default_quality <= 100) {
            return Err(
                ConfigError::ValidationError(
                    String::from_str("Default quality must be between 1 and 100"),
                ),
            );
        }
        let alg = self.compression.default_algorithm.as_str();
        if !(str_eq(alg, "mozjpeg") || str_eq(alg, "jpeg-encoder") || str_eq(alg, "png-quantized")) {
            return Err(
                ConfigError::ValidationError(
                    String::from_str(
                        "Invalid default algorithm. Must be one of: mozjpeg, jpeg-encoder, png-quantized",
                    ),
                ),
            );
        }
        Ok(())
    }

    /// The address the server binds to: host, a colon, then the port.
    pub fn bind_address(&self) -> (r: String)
        ensures
            r@ == self.server.host@ + ":"@ + decimal(self.server.port as nat),
    {
        let mut s = self.server.host.clone();
        s.append(":");
        let port = decimal_string(self.server.port as u64);
        s.append(port.as_str());
        s
    }

    /// The upload size limit in bytes.
    pub fn max_file_size_bytes(&self) -> (r: usize)
        requires
            self.server.max_file_size_mb * BYTES_PER_MB <= usize::MAX,
        ensures
            r == self.server.max_file_size_mb * BYTES_PER_MB,
    {
        self.server.max_file_size_mb * BYTES_PER_MB
    }
}

/// Setting values found in the environment, each as its raw text.
pub struct EnvOverrides {
    pub host: Option<String>,
    pub port: Option<String>,
    pub max_file_size_mb: Option<String>,
    pub default_quality: Option<String>,
    pub default_algorithm: Option<String>,
    pub log_level: Option<String>,
}

/// A text setting: the override when there is one.
pub open spec fn text_override(v: Option<String>, current: Seq<char>) -> Seq<char> {
    match v {
        Some(s) => s@,
        None => current,
    }
}

/// A numeric setting: the override when it is a number no larger than `max`.
pub open spec fn number_override(v: Option<String>, max: nat, current: nat) -> nat {
    match v {
        Some(s) => match parsed_unsigned(s@, max) {
            Some(n) => n,
            None => current,
        },
        None => current,
    }
}

/// The quality setting: the override when it is a number within 1..=100.
pub open spec fn quality_override(v: Option<String>, current: u8) -> u8 {
    match v {
        Some(s) => match parsed_unsigned(s@, 255) {
            Some(n) => if 1 <= n <= 100 { n as u8 } else { current },
            None => current,
        },
        None => current,
    }
}

fn number_setting(v: &Option<String>, max: u64, current: u64) -> (r: u64)
    requires
        current <= max,
    ensures
        r == number_override(*v, max as nat, current as nat),
        r <= max,
{
    match v {
        Some(s) => match parse_unsigned(s.as_str(), max) {
            Some(n) => n,
            None => current,
        },
        None => current,
    }
}

impl Config {
    /// Applies setting values found in the environment. Numbers that do not
    /// parse, or a quality outside 1..=100, leave the setting as it was.
    pub fn apply_overrides(&mut self, env: EnvOverrides)
        ensures
            final(self).server.host@ == text_override(env.host, old(self).server.host@),
            final(self).server.port as nat == number_override(env.port, 65535, old(self).server.port as nat),
            final(self).server.max_file_size_mb as nat == number_override(
                env.max_file_size_mb,
                usize::MAX as nat,
                old(self).server.max_file_size_mb as nat,
            ),
            final(self).compression.default_quality == quality_override(
                env.default_quality,
                old(self).compression.default_quality,
            ),
            final(self).compression.default_algorithm@ == text_override(
                env.default_algorithm,
                old(self).compression.default_algorithm@,
            ),
            final(self).logging.level@ == text_override(env.log_level, old(self).logging.level@),
            final(self).server.worker_threads == old(self).server.worker_threads,
            final(self).server.enable_cors == old(self).server.enable_cors,
            final(self).compression.enable_cache == old(self).compression.enable_cache,
            final(self).compression.cache_ttl_minutes == old(self).compression.cache_ttl_minutes,
            final(self).compression.max_concurrent_jobs == old(self).compression.max_concurrent_jobs,
            final(self).logging.enable_request_logging == old(self).logging.enable_request_logging,
            final(self).logging.log_compression_stats == old(self).logging.log_compression_stats,
    {
        let port = number_setting(&env.port, 65535, self.server.port as u64);
        self.server.port = port as u16;
        let size = number_setting(&env.max_file_size_mb, usize::MAX as u64, self.server.max_file_size_mb as u64);
        self.server.max_file_size_mb = size as usize;
        let q = match &env.default_quality {
            Some(s) => match parse_unsigned(s.as_str(), 255) {
                Some(n) => if 1 <= n && n <= 100 { n as u8 } else { self.compression.default_quality },
                None => self.compression.default_quality,
            },
            None => self.compression.default_quality,
        };
        self.compression.default_quality = q;
        match env.host {
            Some(h) => { self.server.host = h; },
            None => {},
        }
        match env.default_algorithm {
            Some(a) => { self.compression.default_algorithm = a; },
            None => {},
        }
        match env.log_level {
            Some(l) => { self.logging.level = l; },
            None => {},
        }
    }
}

} // verus!
