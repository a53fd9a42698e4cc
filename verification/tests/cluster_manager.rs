use database::cluster_manager::{
    create_pool, create_write_pool, get_read_connection, get_stats, initialize, member_target,
    next_without_pool, reconcile, record_target, retained_hosts, InstallError, ReadPreference,
    ReadTarget, Verification, WritePoolDecision, DatabaseConfig,
};
use database::connection::QueueMode;
use database::patroni_discovery::ClusterMember;

fn leader_member(name: &str, host: &str, port: u16) -> ClusterMember {
    ClusterMember {
        name: name.to_string(),
        host: host.to_string(),
        port,
        role: "leader".to_string(),
        state: "running".to_string(),
        lag: None,
        timeline: None,
    }
}

fn replica(host: &str, lag: Option<i64>) -> ClusterMember {
    ClusterMember {
        name: format!("name-{host}"),
        host: host.to_string(),
        port: 5432,
        role: "replica".to_string(),
        state: "streaming".to_string(),
        lag,
        timeline: None,
    }
}

#[test]
fn failed_write_pool_rebuild_is_retried_on_next_reconcile() {
    let leader = Some(leader_member("n1", "127.0.0.1", 5432));
    let installed: Option<String> = None;

    assert!(
        matches!(reconcile(&leader, &installed), WritePoolDecision::Rebuild),
        "reconcile must attempt a connection"
    );
    let attempt = create_write_pool(
        leader.as_ref().unwrap(),
        Verification::Failed("connection closed".to_string()),
        &leader,
    );
    let installed = record_target(installed, attempt);
    assert!(
        installed.is_none(),
        "a failed rebuild must not record the leader as installed"
    );
    assert!(
        matches!(reconcile(&leader, &installed), WritePoolDecision::Rebuild),
        "the next reconcile must retry the failed rebuild"
    );
}

#[test]
fn installed_pool_serves_until_the_leader_moves() {
    let leader = Some(leader_member("n1", "10.0.0.1", 5432));
    let attempt = create_write_pool(
        leader.as_ref().unwrap(),
        Verification::Answered { in_recovery: false },
        &leader,
    );
    let installed = record_target(None, attempt);
    assert_eq!(installed, Some(member_target(leader.as_ref().unwrap())));
    assert!(matches!(
        reconcile(&leader, &installed),
        WritePoolDecision::Keep
    ));
    assert!(matches!(
        reconcile(&None, &installed),
        WritePoolDecision::KeepWithoutLeader
    ));
    let moved = Some(leader_member("n2", "10.0.0.2", 5432));
    assert!(matches!(
        reconcile(&moved, &installed),
        WritePoolDecision::Rebuild
    ));
    let late = create_write_pool(
        leader.as_ref().unwrap(),
        Verification::Answered { in_recovery: false },
        &moved,
    );
    assert!(matches!(late, Err(InstallError::LeaderChanged { .. })));
    assert_eq!(record_target(installed.clone(), late), installed);
    assert!(matches!(
        create_write_pool(
            leader.as_ref().unwrap(),
            Verification::Answered { in_recovery: true },
            &leader
        ),
        Err(InstallError::InRecovery { .. })
    ));
    assert!(matches!(
        create_write_pool(leader.as_ref().unwrap(), Verification::TimedOut, &leader),
        Err(InstallError::TimedOut { .. })
    ));
}

#[test]
fn preferences_are_read_whatever_their_case() {
    assert!(matches!(
        ReadPreference::from("LEAST_LAG"),
        ReadPreference::LeastLag
    ));
    assert!(matches!(
        ReadPreference::from("leader_only"),
        ReadPreference::LeaderOnly
    ));
    assert!(matches!(
        ReadPreference::from("Round_Robin"),
        ReadPreference::RoundRobin
    ));
    assert!(matches!(
        ReadPreference::from("anything"),
        ReadPreference::LeastLag
    ));
}

#[test]
fn pools_follow_the_replicas() {
    let replicas = vec![replica("a", Some(3)), replica("b", Some(1))];
    let hosts = vec!["old".to_string(), "a".to_string()];
    assert_eq!(retained_hosts(&hosts, &replicas), ["a"]);
    assert_eq!(next_without_pool(&hosts, &replicas, 0), Some(1));
    assert_eq!(
        next_without_pool(&vec!["a".to_string(), "b".to_string()], &replicas, 0),
        None
    );
    let (target, next) = get_read_connection(ReadPreference::LeastLag, &replicas, 4, None);
    assert!(matches!(target, ReadTarget::Replica(m) if m.host == "b"));
    assert_eq!(next, 4);
    let (target, next) = get_read_connection(ReadPreference::RoundRobin, &replicas, 4, None);
    assert!(matches!(target, ReadTarget::Replica(m) if m.host == "a"));
    assert_eq!(next, 5);
    let (target, _) = get_read_connection(ReadPreference::LeaderOnly, &replicas, 4, None);
    assert!(matches!(target, ReadTarget::Leader));
    let (target, _) = get_read_connection(ReadPreference::RoundRobin, &Vec::new(), 4, None);
    assert!(matches!(target, ReadTarget::Leader));
    let leader = Some(leader_member("n1", "h", 1));
    let stats = get_stats(true, 1, &leader, &replicas, Some(9));
    assert_eq!(stats.leader_name.as_deref(), Some("n1"));
    assert_eq!(stats.replica_count, 2);
    assert!(initialize(None).is_err());
    assert_eq!(initialize(leader).unwrap().name, "n1");
}

#[test]
fn a_member_gets_a_pool_with_fixed_timeouts() {
    let config = DatabaseConfig {
        database: "db".to_string(),
        username: "user".to_string(),
        password: "pass".to_string(),
        max_write_connections: 3,
        max_read_connections: 4,
        tls_enabled: true,
        tls_ca_cert_path: None,
    };
    let settings = create_pool(&config, "h", 5432, 4);
    assert_eq!((settings.host.as_str(), settings.port), ("h", 5432));
    assert_eq!((settings.dbname.as_str(), settings.user.as_str()), ("db", "user"));
    assert_eq!(settings.max_size, 4);
    assert_eq!(
        (
            settings.wait_timeout_secs,
            settings.create_timeout_secs,
            settings.recycle_timeout_secs
        ),
        (5, 5, 5)
    );
    assert_eq!(settings.queue_mode, QueueMode::Fifo);
    assert!(settings.encrypted);
}
