//! The configuration snapshot the pipeline is built from, and its
//! validation rules. Loading the snapshot from files or the environment is
//! the embedding process's concern; the rules that accept or reject a
//! snapshot are verified here.
use vstd::prelude::*;
use vstd::utf8::encode_utf8;

use crate::url::Host;
use crate::url::HttpUrl;
use crate::url::Ipv4Address;

verus! {

/// Why a configuration snapshot was rejected.
pub enum ConfigError {
    /// A constraint was broken; the payload states it.
    Message(String),
    /// A required property is missing; the payload names it.
    NotFound(String),
}

impl ConfigError {
    /// Renders the rejection for display.
    pub fn render(&self) -> (r: String)
        ensures
            self matches ConfigError::Message(m) ==> r@ == m@,
            self matches ConfigError::NotFound(p) ==> r@ == "configuration property \""@ + p@
                + "\" not found"@,
    {
        match self {
            ConfigError::Message(m) => m.clone(),
            ConfigError::NotFound(p) => {
                let mut r: String = "configuration property \"".to_owned();
                r.append(p.as_str());
                r.append("\" not found");
                r
            },
        }
    }
}

/// A per-operation timeout, in seconds.
#[derive(Clone, Copy)]
pub struct Timeout(pub u64);

impl Timeout {
    /// The timeout in seconds.
    pub fn get(&self) -> (r: u64)
        ensures
            r == self.0,
    {
        self.0
    }
}

impl Default for Timeout {
    /// The default per-operation timeout: 30 seconds.
    fn default() -> (r: Self)
        ensures
            r.0 == 30,
    {
        Timeout(30)
    }
}

/// Host-wide settings.
pub struct GeneralConfig {
    /// The identity this host's samples are tagged with.
    pub hostname: String,
}

/// The hostname is acceptable when its UTF-8 encoding fits in 255 bytes.
pub open spec fn general_ok(c: &GeneralConfig) -> bool {
    encode_utf8(c.hostname@).len() as usize <= 255
}

impl GeneralConfig {
    /// Accepts the section or says why not.
    pub fn validate(&self) -> (r: Result<(), ConfigError>)
        ensures
            r is Ok <==> general_ok(self),
            r matches Err(e) ==> e matches ConfigError::Message(m) && m@
                == "hostname maximum length is 255 bytes"@,
    {
        if self.hostname.as_str().len() > 255 {
            return Err(ConfigError::Message("hostname maximum length is 255 bytes".to_owned()));
        }
        Ok(())
    }
}

impl Default for GeneralConfig {
    /// The fallback host identity; the embedding process replaces it with
    /// the machine's own name where one can be read.
    fn default() -> (r: Self)
        ensures
            r.hostname@ == "uption-host"@,
    {
        GeneralConfig { hostname: "uption-host".to_owned() }
    }
}

/// The log verbosity threshold.
pub enum LevelFilterDef {
    Off,
    Error,
    Warn,
    Info,
    Debug,
    Trace,
}

/// Logging settings.
pub struct LoggerConfig {
    pub level: LevelFilterDef,
    pub enable_stdout: bool,
    pub log_file: Option<String>,
}

/// A configured log file name must not be empty.
pub open spec fn logger_ok(c: &LoggerConfig) -> bool {
    !(c.log_file matches Some(f) && f@.len() == 0)
}

impl LoggerConfig {
    /// Accepts the section or says why not.
    pub fn validate(&self) -> (r: Result<(), ConfigError>)
        ensures
            r is Ok <==> logger_ok(self),
            r matches Err(e) ==> e matches ConfigError::Message(m) && m@
                == "logging.log_file can't be empty"@,
    {
        match &self.log_file {
            Some(f) => {
                if f.as_str().is_empty() {
                    return Err(ConfigError::Message("logging.log_file can't be empty".to_owned()));
                }
            },
            None => {},
        }
        Ok(())
    }
}

impl Default for LoggerConfig {
    /// Info-level logging to standard output, no log file.
    fn default() -> (r: Self)
        ensures
            r.level is Info,
            r.enable_stdout,
            r.log_file is None,
    {
        LoggerConfig { level: LevelFilterDef::Info, enable_stdout: true, log_file: None }
    }
}

/// The DNS probe's settings.
pub struct DnsConfig {
    pub enabled: bool,
    pub dns_servers: Vec<Ipv4Address>,
    pub hosts: Vec<Host>,
    pub timeout: Timeout,
}

/// When enabled, the DNS probe needs at least one server and one host.
pub open spec fn dns_ok(c: &DnsConfig) -> bool {
    c.enabled ==> c.dns_servers@.len() > 0 && c.hosts@.len() > 0
}

impl DnsConfig {
    /// Accepts the section or says why not.
    pub fn validate(&self) -> (r: Result<(), ConfigError>)
        ensures
            r is Ok <==> dns_ok(self),
            r matches Err(e) ==> e matches ConfigError::Message(m) && (m@
                == "dns.dns_servers can't be empty"@ || m@ == "dns.hosts can't be empty"@),
            r matches Err(e) ==> self.enabled,
    {
        if self.enabled {
            if self.dns_servers.is_empty() {
                return Err(ConfigError::Message("dns.dns_servers can't be empty".to_owned()));
            }
            if self.hosts.is_empty() {
                return Err(ConfigError::Message("dns.hosts can't be empty".to_owned()));
            }
        }
        Ok(())
    }
}

impl Default for DnsConfig {
    /// Disabled, with no servers or hosts.
    fn default() -> (r: Self)
        ensures
            !r.enabled,
            r.dns_servers@.len() == 0,
            r.hosts@.len() == 0,
            r.timeout.0 == 30,
    {
        DnsConfig {
            enabled: false,
            dns_servers: Vec::new(),
            hosts: Vec::new(),
            timeout: Timeout(30),
        }
    }
}

/// The HTTP probe's settings.
pub struct HttpConfig {
    pub enabled: bool,
    pub urls: Vec<HttpUrl>,
    pub timeout: Timeout,
}

/// When enabled, the HTTP probe needs at least one URL.
pub open spec fn http_ok(c: &HttpConfig) -> bool {
    c.enabled ==> c.urls@.len() > 0
}

impl HttpConfig {
    /// Accepts the section or says why not.
    pub fn validate(&self) -> (r: Result<(), ConfigError>)
        ensures
            r is Ok <==> http_ok(self),
            r matches Err(e) ==> e matches ConfigError::Message(m) && m@
                == "http.urls can't be empty"@,
    {
        if self.enabled && self.urls.is_empty() {
            return Err(ConfigError::Message("http.urls can't be empty".to_owned()));
        }
        Ok(())
    }
}

impl Default for HttpConfig {
    /// Disabled, with no URLs.
    fn default() -> (r: Self)
        ensures
            !r.enabled,
            r.urls@.len() == 0,
            r.timeout.0 == 30,
    {
        HttpConfig { enabled: false, urls: Vec::new(), timeout: Timeout(30) }
    }
}

/// The ping probe's settings.
pub struct PingConfig {
    pub enabled: bool,
    pub hosts: Vec<Host>,
    pub timeout: Timeout,
}

/// When enabled, the ping probe needs at least one host.
pub open spec fn ping_ok(c: &PingConfig) -> bool {
    c.enabled ==> c.hosts@.len() > 0
}

impl PingConfig {
    /// Accepts the section or says why not.
    pub fn validate(&self) -> (r: Result<(), ConfigError>)
        ensures
            r is Ok <==> ping_ok(self),
            r matches Err(e) ==> e matches ConfigError::Message(m) && m@
                == "ping.hosts can't be empty"@,
    {
        if self.enabled && self.hosts.is_empty() {
            return Err(ConfigError::Message("ping.hosts can't be empty".to_owned()));
        }
        Ok(())
    }
}

impl Default for PingConfig {
    /// Disabled, with no hosts.
    fn default() -> (r: Self)
        ensures
            !r.enabled,
            r.hosts@.len() == 0,
            r.timeout.0 == 30,
    {
        PingConfig { enabled: false, hosts: Vec::new(), timeout: Timeout(30) }
    }
}

/// The wireless probe's settings.
pub struct WirelessConfig {
    pub enabled: bool,
}

impl WirelessConfig {
    /// Accepts the section: it has nothing to reject.
    pub fn validate(&self) -> (r: Result<(), ConfigError>)
        ensures
            r is Ok,
    {
        Ok(())
    }
}

impl Default for WirelessConfig {
    /// Disabled.
    fn default() -> (r: Self)
        ensures
            !r.enabled,
    {
        WirelessConfig { enabled: false }
    }
}

/// The collection stage's settings.
pub struct CollectorsConfig {
    /// Seconds between collection cycles.
    pub interval: u64,
    pub dns: DnsConfig,
    pub http: HttpConfig,
    pub ping: PingConfig,
    pub wireless: WirelessConfig,
}

/// The cycle interval lies between one second and one day, and every
/// enabled probe section is acceptable.
pub open spec fn collectors_ok(c: &CollectorsConfig) -> bool {
    &&& 1 <= c.interval <= 86400
    &&& dns_ok(&c.dns)
    &&& http_ok(&c.http)
    &&& ping_ok(&c.ping)
}

impl CollectorsConfig {
    /// Accepts the section or says why not: a bad interval is reported
    /// first, then the probe sections in order.
    pub fn validate(&self) -> (r: Result<(), ConfigError>)
        ensures
            r is Ok <==> collectors_ok(self),
            r matches Err(e) ==> e is Message,
            !(1 <= self.interval <= 86400) ==> (r matches Err(e) ==> (e matches
            ConfigError::Message(m) && m@
                == "collectors.interval minimum value is 1 and maximum value is 86400"@)),
    {
        if self.interval < 1 || self.interval > 86400 {
            return Err(
                ConfigError::Message(
                    "collectors.interval minimum value is 1 and maximum value is 86400".to_owned(),
                ),
            );
        }
        self.dns.validate()?;
        self.http.validate()?;
        self.ping.validate()?;
        self.wireless.validate()?;
        Ok(())
    }
}

impl Default for CollectorsConfig {
    /// A five-minute cycle with every probe disabled.
    fn default() -> (r: Self)
        ensures
            r.interval == 300,
            !r.dns.enabled,
            !r.http.enabled,
            !r.ping.enabled,
            !r.wireless.enabled,
    {
        CollectorsConfig {
            interval: 300,
            dns: DnsConfig::default(),
            http: HttpConfig::default(),
            ping: PingConfig::default(),
            wireless: WirelessConfig::default(),
        }
    }
}

/// Which sink the export stage feeds.
pub enum ExporterSelection {
    InfluxDb,
    Stdout,
    Logger,
}

/// Which InfluxDB API generation the sink speaks.
pub enum InfluxDbVersion {
    V1,
    V2,
}

/// The InfluxDB sink's settings.
pub struct InfluxDbConfig {
    pub url: Option<HttpUrl>,
    pub bucket: String,
    pub organization: String,
    pub token: String,
    pub database: String,
    pub username: String,
    pub password: String,
    pub version: InfluxDbVersion,
    pub timeout: Timeout,
}

/// An InfluxDB sink needs its URL, and the credentials its API generation
/// calls for.
pub open spec fn influxdb_ok(c: &InfluxDbConfig) -> bool {
    &&& c.url is Some
    &&& (c.version is V1 ==> c.database@.len() > 0 && c.username@.len() > 0 && c.password@.len()
        > 0)
    &&& (c.version is V2 ==> c.bucket@.len() > 0 && c.organization@.len() > 0 && c.token@.len()
        > 0)
}

impl InfluxDbConfig {
    /// Accepts the section or names the first missing property.
    pub fn validate(&self) -> (r: Result<(), ConfigError>)
        ensures
            r is Ok <==> influxdb_ok(self),
            r matches Err(e) ==> e matches ConfigError::NotFound(p) && (p@ == "influxdb.url"@
                || p@ == "influxdb.database"@ || p@ == "influxdb.username"@ || p@
                == "influxdb.password"@ || p@ == "influxdb.bucket"@ || p@
                == "influxdb.organization"@ || p@ == "influxdb.token"@),
            self.url is None ==> (r matches Err(e) ==> (e matches ConfigError::NotFound(p) && p@
                == "influxdb.url"@)),
    {
        if self.url.is_none() {
            return Err(ConfigError::NotFound("influxdb.url".to_owned()));
        }
        match self.version {
            InfluxDbVersion::V1 => {
                if self.database.as_str().is_empty() {
                    return Err(ConfigError::NotFound("influxdb.database".to_owned()));
                }
                if self.username.as_str().is_empty() {
                    return Err(ConfigError::NotFound("influxdb.username".to_owned()));
                }
                if self.password.as_str().is_empty() {
                    return Err(ConfigError::NotFound("influxdb.password".to_owned()));
                }
            },
            InfluxDbVersion::V2 => {
                if self.bucket.as_str().is_empty() {
                    return Err(ConfigError::NotFound("influxdb.bucket".to_owned()));
                }
                if self.organization.as_str().is_empty() {
                    return Err(ConfigError::NotFound("influxdb.organization".to_owned()));
                }
                if self.token.as_str().is_empty() {
                    return Err(ConfigError::NotFound("influxdb.token".to_owned()));
                }
            },
        }
        Ok(())
    }
}

impl Default for InfluxDbConfig {
    /// No URL or credentials yet, speaking the v2 API.
    fn default() -> (r: Self)
        ensures
            r.url is None,
            r.bucket@.len() == 0,
            r.organization@.len() == 0,
            r.token@.len() == 0,
            r.database@.len() == 0,
            r.username@.len() == 0,
            r.password@.len() == 0,
            r.version is V2,
            r.timeout.0 == 30,
    {
        InfluxDbConfig {
            url: None,
            bucket: String::new(),
            organization: String::new(),
            token: String::new(),
            database: String::new(),
            username: String::new(),
            password: String::new(),
            version: InfluxDbVersion::V2,
            timeout: Timeout(30),
        }
    }
}

/// The export stage's settings.
pub struct ExportersConfig {
    pub exporter: ExporterSelection,
    pub influxdb: InfluxDbConfig,
}

/// The selected sink's own section must be acceptable.
pub open spec fn exporters_ok(c: &ExportersConfig) -> bool {
    c.exporter is InfluxDb ==> influxdb_ok(&c.influxdb)
}

impl ExportersConfig {
    /// Accepts the section or says why not.
    pub fn validate(&self) -> (r: Result<(), ConfigError>)
        ensures
            r is Ok <==> exporters_ok(self),
    {
        match self.exporter {
            ExporterSelection::InfluxDb => {
                self.influxdb.validate()?;
                Ok(())
            },
            ExporterSelection::Stdout => Ok(()),
            ExporterSelection::Logger => Ok(()),
        }
    }
}

impl Default for ExportersConfig {
    /// The stdout sink.
    fn default() -> (r: Self)
        ensures
            r.exporter is Stdout,
            r.influxdb.url is None,
    {
        ExportersConfig {
            exporter: ExporterSelection::Stdout,
            influxdb: InfluxDbConfig::default(),
        }
    }
}

/// The whole configuration snapshot, read once at startup.
pub struct UptionConfig {
    pub general: GeneralConfig,
    pub collectors: CollectorsConfig,
    pub exporters: ExportersConfig,
    pub logging: LoggerConfig,
}

/// Every section is acceptable.
pub open spec fn uption_config_ok(c: &UptionConfig) -> bool {
    &&& general_ok(&c.general)
    &&& logger_ok(&c.logging)
    &&& collectors_ok(&c.collectors)
    &&& exporters_ok(&c.exporters)
}

impl UptionConfig {
    /// Accepts the snapshot or says why not, checking the sections in
    /// order: general, logging, collectors, exporters.
    pub fn validate(&self) -> (r: Result<(), ConfigError>)
        ensures
            r is Ok <==> uption_config_ok(self),
    {
        self.general.validate()?;
        self.logging.validate()?;
        self.collectors.validate()?;
        self.exporters.validate()?;
        Ok(())
    }
}

impl Default for UptionConfig {
    /// The all-defaults snapshot: no probe enabled, stdout sink.
    fn default() -> (r: Self)
        ensures
            r.general.hostname@ == "uption-host"@,
            r.collectors.interval == 300,
            !r.collectors.dns.enabled,
            !r.collectors.http.enabled,
            !r.collectors.ping.enabled,
            !r.collectors.wireless.enabled,
            r.exporters.exporter is Stdout,
            r.logging.log_file is None,
    {
        UptionConfig {
            general: GeneralConfig::default(),
            collectors: CollectorsConfig::default(),
            exporters: ExportersConfig::default(),
            logging: LoggerConfig::default(),
        }
    }
}

} // verus!
