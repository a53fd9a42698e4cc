//! How the database is connected to.
use crate::cluster_manager;
use crate::text::{blank, copy_optional, same_text, trim};
use vstd::prelude::*;

verus! {

/// How the members of the database are found.
#[derive(Debug, Clone, Copy, PartialEq, Eq, Structural)]
pub enum DatabaseConnectionMode {
    /// At one endpoint.
    Direct,
    /// By discovery of a cluster.
    Patroni,
}

/// The configuration of the database.
#[derive(Debug, Clone)]
pub struct DatabaseConfig {
    pub connection_mode: DatabaseConnectionMode,
    pub primary_app_id: String,
    pub gateway_subdomain: String,
    pub host: Option<String>,
    pub port: u16,
    pub database: String,
    pub username: String,
    pub password: String,
    pub max_connections: usize,
    pub tls_enabled: bool,
    pub tls_ca_cert_path: Option<String>,
    /// Seconds between two discoveries.
    pub refresh_interval: u64,
    pub mock: bool,
}

/// The kind of connection that is made.
#[derive(Debug, Clone, Copy, PartialEq, Eq, Structural)]
pub enum ConnectionPlan {
    /// A stand-in for tests.
    Mock,
    /// One endpoint.
    Direct,
    /// One endpoint without discovery, for tests.
    Simple,
    /// A discovered cluster.
    Patroni,
}

/// Decides which kind of connection is made: the stand-in before all else, then
/// the direct endpoint, then the cluster, unless its name is that for tests.
pub fn from_config(config: &DatabaseConfig) -> (r: ConnectionPlan)
    ensures
        r == (if config.mock {
            ConnectionPlan::Mock
        } else if config.connection_mode == DatabaseConnectionMode::Direct {
            ConnectionPlan::Direct
        } else if config.primary_app_id@ == "postgres-test"@ {
            ConnectionPlan::Simple
        } else {
            ConnectionPlan::Patroni
        }),
{
    if config.mock {
        ConnectionPlan::Mock
    } else if config.connection_mode == DatabaseConnectionMode::Direct {
        ConnectionPlan::Direct
    } else if same_text(config.primary_app_id.as_str(), "postgres-test") {
        ConnectionPlan::Simple
    } else {
        ConnectionPlan::Patroni
    }
}

/// How waiting requests for a connection are served.
#[derive(Debug, Clone, Copy, PartialEq, Eq, Structural)]
pub enum QueueMode {
    Fifo,
    Lifo,
}

/// How a connection is checked before it is used again.
#[derive(Debug, Clone, Copy, PartialEq, Eq, Structural)]
pub enum RecyclingMethod {
    Fast,
    Verified,
}

/// Whether a connection is encrypted.
#[derive(Debug, Clone, Copy, PartialEq, Eq, Structural)]
pub enum SslMode {
    Disable,
    Prefer,
    Require,
}

/// The settings of a pool for one endpoint.
#[derive(Debug, Clone)]
pub struct PoolSettings {
    pub host: String,
    pub port: u16,
    pub dbname: String,
    pub user: String,
    pub password: String,
    pub max_size: usize,
    pub wait_timeout_secs: u64,
    pub create_timeout_secs: u64,
    pub recycle_timeout_secs: u64,
    pub queue_mode: QueueMode,
    pub recycling_method: RecyclingMethod,
    pub ssl_mode: SslMode,
    pub connect_timeout_secs: u64,
}

/// Why a direct connection is refused, where it is: the first setting that is
/// missing or unsafe.
pub open spec fn direct_problem(config: DatabaseConfig) -> Option<Seq<char>> {
    if config.host is None || crate::text::is_blank(config.host->0@) {
        Some("DATABASE_HOST is required in direct mode"@)
    } else if config.max_connections == 0 {
        Some("DATABASE_MAX_CONNECTIONS must be positive"@)
    } else if !config.tls_enabled {
        Some("Direct database mode requires DATABASE_TLS_ENABLED=true"@)
    } else if crate::text::is_blank(config.database@) {
        Some("DATABASE_NAME cannot be empty in direct mode"@)
    } else if crate::text::is_blank(config.username@) {
        Some("DATABASE_USERNAME cannot be empty in direct mode"@)
    } else {
        None
    }
}

/// Whether settings are those of a direct connection: the host without white
/// space around it, the names as they are given, fixed timeouts, and always an
/// encrypted connection.
pub open spec fn are_direct_settings(settings: PoolSettings, config: DatabaseConfig) -> bool {
    &&& settings.host@ == crate::text::trimmed(config.host->0@)
    &&& settings.port == config.port
    &&& settings.dbname@ == config.database@
    &&& settings.user@ == config.username@
    &&& settings.password@ == config.password@
    &&& settings.max_size == config.max_connections
    &&& settings.wait_timeout_secs == 5
    &&& settings.create_timeout_secs == 10
    &&& settings.recycle_timeout_secs == 5
    &&& settings.queue_mode == QueueMode::Fifo
    &&& settings.recycling_method == RecyclingMethod::Verified
    &&& settings.ssl_mode == SslMode::Require
    &&& settings.connect_timeout_secs == 10
}

/// The settings of a direct connection.
pub fn direct_pool_config(config: &DatabaseConfig) -> (r: Result<PoolSettings, String>)
    ensures
        match r {
            Ok(settings) => direct_problem(*config) is None && are_direct_settings(
                settings,
                *config,
            ),
            Err(message) => direct_problem(*config) == Some(message@),
        },
{
    let host = match &config.host {
        Some(host) => trim(host.as_str()),
        None => return Err("DATABASE_HOST is required in direct mode".to_owned()),
    };
    if host.as_str().is_empty() {
        return Err("DATABASE_HOST is required in direct mode".to_owned());
    }
    if config.max_connections == 0 {
        return Err("DATABASE_MAX_CONNECTIONS must be positive".to_owned());
    }
    if !config.tls_enabled {
        return Err("Direct database mode requires DATABASE_TLS_ENABLED=true".to_owned());
    }
    if blank(config.database.as_str()) {
        return Err("DATABASE_NAME cannot be empty in direct mode".to_owned());
    }
    if blank(config.username.as_str()) {
        return Err("DATABASE_USERNAME cannot be empty in direct mode".to_owned());
    }
    Ok(
        PoolSettings {
            host,
            port: config.port,
            dbname: config.database.clone(),
            user: config.username.clone(),
            password: config.password.clone(),
            max_size: config.max_connections,
            wait_timeout_secs: 5,
            create_timeout_secs: 10,
            recycle_timeout_secs: 5,
            queue_mode: QueueMode::Fifo,
            recycling_method: RecyclingMethod::Verified,
            ssl_mode: SslMode::Require,
            connect_timeout_secs: 10,
        },
    )
}

/// No direct connection goes unencrypted, and none has an empty pool.
pub proof fn law_direct_connections_are_encrypted(config: DatabaseConfig, settings: PoolSettings)
    requires
        direct_problem(config) is None,
        are_direct_settings(settings, config),
    ensures
        config.tls_enabled,
        settings.ssl_mode == SslMode::Require,
        settings.max_size > 0,
        settings.host@.len() > 0,
{
}

/// The host of a simple connection: this machine where none is given.
pub fn simple_host(config: &DatabaseConfig) -> (r: String)
    ensures
        r@ == (match config.host {
            Some(host) => host@,
            None => "localhost"@,
        }),
{
    match &config.host {
        Some(host) => host.clone(),
        None => "localhost".to_owned(),
    }
}

/// How the members of a discovered cluster are connected to. The pools for
/// writes and for reads are of the same size; a size that does not fit loses
/// its higher part.
pub fn cluster_config(config: &DatabaseConfig) -> (r: cluster_manager::DatabaseConfig)
    ensures
        r.database@ == config.database@,
        r.username@ == config.username@,
        r.password@ == config.password@,
        r.max_write_connections == config.max_connections as int % 0x1_0000_0000,
        r.max_read_connections == r.max_write_connections,
        r.tls_enabled == config.tls_enabled,
        crate::text::optional_view(r.tls_ca_cert_path) == crate::text::optional_view(
            config.tls_ca_cert_path,
        ),
{
    let size: u32 = (config.max_connections as u64 % 0x1_0000_0000) as u32;
    cluster_manager::DatabaseConfig {
        database: config.database.clone(),
        username: config.username.clone(),
        password: config.password.clone(),
        max_write_connections: size,
        max_read_connections: size,
        tls_enabled: config.tls_enabled,
        tls_ca_cert_path: copy_optional(&config.tls_ca_cert_path),
    }
}

/// A direct connection is made exactly where it has a host, a pool, encryption,
/// a database and a user; the first that is missing is reported.
pub proof fn law_direct_connections_need_their_settings(config: DatabaseConfig)
    ensures
        ({
            let host_given = config.host is Some && !crate::text::is_blank(config.host->0@);
            let database_given = !crate::text::is_blank(config.database@);
            let user_given = !crate::text::is_blank(config.username@);
            let problem = direct_problem(config);
            &&& problem is None <==> host_given && config.max_connections > 0 && config.tls_enabled
                && database_given && user_given
            &&& !host_given ==> problem == Some("DATABASE_HOST is required in direct mode"@)
            &&& host_given && config.max_connections == 0 ==> problem == Some(
                "DATABASE_MAX_CONNECTIONS must be positive"@,
            )
            &&& host_given && config.max_connections > 0 && !config.tls_enabled ==> problem == Some(
                "Direct database mode requires DATABASE_TLS_ENABLED=true"@,
            )
            &&& host_given && config.max_connections > 0 && config.tls_enabled && !database_given
                ==> problem == Some("DATABASE_NAME cannot be empty in direct mode"@)
            &&& host_given && config.max_connections > 0 && config.tls_enabled && database_given
                && !user_given ==> problem == Some(
                "DATABASE_USERNAME cannot be empty in direct mode"@,
            )
        }),
{
}

/// A direct connection goes to the endpoint that is configured, as the user that
/// is configured, and waits five seconds for a connection and ten for a new one.
pub proof fn law_direct_connections_are_the_configured_ones(
    config: DatabaseConfig,
    settings: PoolSettings,
)
    requires
        config.host is Some,
        are_direct_settings(settings, config),
    ensures
        settings.host@ == crate::text::trimmed(config.host->0@),
        settings.port == config.port,
        settings.dbname@ == config.database@,
        settings.user@ == config.username@,
        settings.password@ == config.password@,
        settings.max_size == config.max_connections,
        settings.wait_timeout_secs == 5 && settings.recycle_timeout_secs == 5,
        settings.create_timeout_secs == 10 && settings.connect_timeout_secs == 10,
        settings.queue_mode == QueueMode::Fifo,
        settings.recycling_method == RecyclingMethod::Verified,
{
}

/// Each kind of connection is made for one reason: the stand-in where it is asked
/// for, the one endpoint in direct mode, the test database under its own name, and
/// the cluster otherwise.
pub proof fn law_connections_have_their_reason(config: DatabaseConfig, r: ConnectionPlan)
    requires
        call_ensures(from_config, (&config,), r),
    ensures
        r == ConnectionPlan::Mock <==> config.mock,
        r == ConnectionPlan::Direct <==> !config.mock && config.connection_mode
            == DatabaseConnectionMode::Direct,
        r == ConnectionPlan::Simple <==> !config.mock && config.connection_mode
            == DatabaseConnectionMode::Patroni && config.primary_app_id@ == "postgres-test"@,
        r == ConnectionPlan::Patroni <==> !config.mock && config.connection_mode
            == DatabaseConnectionMode::Patroni && config.primary_app_id@ != "postgres-test"@,
{
}

} // verus!
