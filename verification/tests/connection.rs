use database::connection::{
    cluster_config, direct_pool_config, from_config, simple_host, ConnectionPlan, DatabaseConfig,
    DatabaseConnectionMode, QueueMode, RecyclingMethod, SslMode,
};

fn config() -> DatabaseConfig {
    DatabaseConfig {
        connection_mode: DatabaseConnectionMode::Direct,
        primary_app_id: String::new(),
        gateway_subdomain: String::new(),
        host: Some("example.us-east-1.rds.amazonaws.com".into()),
        port: 5432,
        database: "postgres".into(),
        username: "application".into(),
        password: "test-only".into(),
        max_connections: 7,
        tls_enabled: true,
        tls_ca_cert_path: None,
        refresh_interval: 30,
        mock: false,
    }
}

#[test]
fn direct_pool_requires_tls_and_honors_connection_settings() {
    let source = config();
    let pool = direct_pool_config(&source).unwrap();
    assert_eq!(Some(pool.host), source.host);
    assert_eq!(pool.port, 5432);
    assert_eq!(pool.dbname, "postgres");
    assert_eq!(pool.user, "application");
    assert_eq!(pool.max_size, 7);
    assert_eq!(pool.wait_timeout_secs, 5);
    assert_eq!(pool.create_timeout_secs, 10);
    assert_eq!(pool.recycle_timeout_secs, 5);
    assert!(matches!(pool.recycling_method, RecyclingMethod::Verified));
    assert!(matches!(pool.ssl_mode, SslMode::Require));
    assert!(matches!(pool.queue_mode, QueueMode::Fifo));
    assert_eq!(pool.connect_timeout_secs, 10);
}

#[test]
fn direct_host_is_normalized_and_identifiers_are_validated() {
    let mut source = config();
    source.host = Some(" \texample.us-east-1.rds.amazonaws.com\n".into());
    assert_eq!(
        direct_pool_config(&source).unwrap().host,
        "example.us-east-1.rds.amazonaws.com"
    );
    for value in ["", " \t\n"] {
        source.database = value.into();
        assert!(direct_pool_config(&source)
            .unwrap_err()
            .contains("DATABASE_NAME"));
        source.database = "postgres".into();
        source.username = value.into();
        assert!(direct_pool_config(&source)
            .unwrap_err()
            .contains("DATABASE_USERNAME"));
        source.username = "application".into();
    }
    // Quoted SQL identifiers may intentionally contain spaces; do not trim them.
    source.database = " database ".into();
    source.username = " user ".into();
    let pool = direct_pool_config(&source).unwrap();
    assert_eq!(pool.dbname, source.database);
    assert_eq!(pool.user, source.username);
}

#[test]
fn invalid_direct_configuration_fails_closed() {
    let mut source = config();
    source.host = None;
    assert!(direct_pool_config(&source).is_err());
    source.host = Some(" ".into());
    assert!(direct_pool_config(&source).is_err());
    source.host = Some("localhost".into());
    source.max_connections = 0;
    assert!(direct_pool_config(&source).is_err());
    source.max_connections = 1;
    source.tls_enabled = false;
    source.tls_ca_cert_path = Some("ca.pem".into());
    assert!(direct_pool_config(&source).is_err());
}

#[test]
fn unencrypted_direct_connections_are_refused_for_every_host() {
    let mut source = config();
    source.tls_enabled = false;
    for host in [
        "example.us-east-1.rds.amazonaws.com",
        "localhost",
        "127.0.0.1",
    ] {
        source.host = Some(host.into());
        assert!(matches!(from_config(&source), ConnectionPlan::Direct));
        assert!(direct_pool_config(&source)
            .unwrap_err()
            .contains("DATABASE_TLS_ENABLED=true"));
    }
}

#[test]
fn kinds_of_connection_are_chosen_in_order() {
    let mut source = config();
    source.mock = true;
    assert!(matches!(from_config(&source), ConnectionPlan::Mock));
    source.mock = false;
    source.connection_mode = DatabaseConnectionMode::Patroni;
    assert!(matches!(from_config(&source), ConnectionPlan::Patroni));
    source.primary_app_id = "postgres-test".into();
    assert!(matches!(from_config(&source), ConnectionPlan::Simple));
    source.host = None;
    assert_eq!(simple_host(&source), "localhost");
    source.max_connections = 12;
    let cluster = cluster_config(&source);
    assert_eq!(cluster.max_write_connections, 12);
    assert_eq!(cluster.max_read_connections, 12);
}
