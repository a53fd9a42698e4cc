use database::patroni_discovery::{
    apply_discovery, check_status, cluster_info, discovery_url, get_least_lag_replica, get_read_replica_round_robin,
    get_replicas_by_lag, get_state_age_secs, is_state_stale, leader_changed, parse_cluster_info,
    parse_member, update_cluster_state, ClusterMember,
};

fn member(name: &str, role: &str, state: &str, lag: Option<i64>) -> ClusterMember {
    ClusterMember {
        name: name.to_string(),
        host: format!("{name}.example.com"),
        port: 5432,
        role: role.to_string(),
        state: state.to_string(),
        lag,
        timeline: None,
    }
}

#[test]
fn test_cluster_member_deserialization() {
    let json = r#"{
            "name": "postgres-1",
            "host": "postgres-1.example.com",
            "port": 5432,
            "role": "leader",
            "state": "running"
        }"#;

    let member = parse_member(json).unwrap();
    assert_eq!(member.name, "postgres-1");
    assert_eq!(member.role, "leader");
    assert_eq!(member.state, "running");
    assert!(member.lag.is_none());
}

#[test]
fn test_cluster_info_deserialization() {
    let json = r#"{
            "members": [
                {
                    "name": "postgres-1",
                    "host": "postgres-1.example.com",
                    "port": 5432,
                    "role": "leader",
                    "state": "running"
                },
                {
                    "name": "postgres-2",
                    "host": "postgres-2.example.com",
                    "port": 5432,
                    "role": "replica",
                    "state": "running",
                    "lag": 1024
                }
            ],
            "scope": "pg-cluster"
        }"#;

    let info = parse_cluster_info(json).unwrap();
    assert_eq!(info.members.len(), 2);
    assert_eq!(info.scope.as_deref(), Some("pg-cluster"));
}

#[test]
fn test_member_with_string_lag_unknown() {
    let json = r#"{
            "name": "b5eecc86101d",
            "host": "postgres-prod-vzeis375.dstack.internal",
            "port": 5432,
            "role": "replica",
            "state": "stopped",
            "lag": "unknown"
        }"#;

    let member = parse_member(json).unwrap();
    assert_eq!(member.state, "stopped");
    assert!(member.lag.is_none());
}

#[test]
fn test_initializing_member_does_not_poison_parse() {
    let json = r#"{"members": [
          {"name":"leader1","role":"leader","state":"running","host":"postgres-a.dstack.internal","port":5432,"timeline":3},
          {"name":"newrep","role":"replica","state":"creating replica","timeline":3}
        ],"scope":"pg-cluster"}"#;
    let info = parse_cluster_info(json).expect("must parse despite half-registered member");
    assert_eq!(
        info.members.len(),
        1,
        "the not-yet-ready member should be dropped"
    );
    assert_eq!(info.members[0].name, "leader1");
    assert_eq!(info.members[0].role, "leader");
}

#[test]
fn test_full_cluster_with_initializing_replica_parses() {
    let json = r#"{"members": [
          {"name":"a","role":"replica","state":"streaming","api_url":"http://[postgres-staging-5hbt5t4n.dstack.internal:8008]:8008/patroni","host":"postgres-staging-5hbt5t4n.dstack.internal","port":5432,"timeline":3,"lag":0},
          {"name":"b","role":"replica","state":"streaming","host":"postgres-yr6k7rmo.dstack.internal","port":5432,"timeline":3,"lag":0},
          {"name":"newrep","role":"replica","state":"creating replica","timeline":3},
          {"name":"leader","role":"leader","state":"running","host":"postgres-ew3zj5pk.dstack.internal","port":5432,"timeline":3}
        ],"scope":"pg-cluster"}"#;
    let info = parse_cluster_info(json).expect("must parse");
    assert_eq!(
        info.members.len(),
        3,
        "only the 3 fully-registered members survive"
    );
    assert!(info.members.iter().any(|m| m.role == "leader"));
    assert!(info.members.iter().all(|m| m.name != "newrep"));
}

#[test]
fn test_cluster_with_stopped_member_string_lag() {
    let json = r#"{"members": [{"name": "0513d70cb4dc", "role": "replica", "state": "streaming", "api_url": "http://[postgres-ikupakqr.dstack.internal:8008]:8008/patroni", "host": "postgres-ikupakqr.dstack.internal", "port": 5432, "timeline": 3, "lag": 0}, {"name": "b5eecc86101d", "role": "replica", "state": "stopped", "api_url": "http://[postgres-prod-vzeis375.dstack.internal:8008]:8008/patroni", "host": "postgres-prod-vzeis375.dstack.internal", "port": 5432, "lag": "unknown"}, {"name": "d2fb312c9ab6", "role": "leader", "state": "running", "api_url": "http://[postgres-qr5ygiq4.dstack.internal:8008]:8008/patroni", "host": "postgres-qr5ygiq4.dstack.internal", "port": 5432, "timeline": 3}], "scope": "pg-cluster"}"#;

    let info = parse_cluster_info(json).unwrap();
    assert_eq!(info.members.len(), 3);
    let stopped = info
        .members
        .iter()
        .find(|m| m.name == "b5eecc86101d")
        .unwrap();
    assert!(stopped.lag.is_none());
    let streaming = info
        .members
        .iter()
        .find(|m| m.name == "0513d70cb4dc")
        .unwrap();
    assert_eq!(streaming.lag, Some(0));
}

#[test]
fn reports_that_are_no_reports_are_refused() {
    assert!(parse_cluster_info("{}").is_none());
    assert!(parse_cluster_info("not json").is_none());
    assert!(parse_member("{\"name\": \"a\"}").is_none());
}

#[test]
fn members_become_a_leader_and_replicas() {
    let state = update_cluster_state(
        vec![
            member("r1", "replica", "streaming", Some(5)),
            member("l", "leader", "running", None),
            member("r2", "replica", "stopped", None),
            member("r3", "replica", "running", Some(1)),
        ],
        100,
    );
    assert_eq!(state.leader.as_ref().unwrap().name, "l");
    assert!(state.replicas.iter().all(|m| m.name != "r2" && m.name != "l"));
    assert_eq!(state.last_updated, 100);
    assert_eq!(get_state_age_secs(Some(&state), 130), Some(30));
    assert!(!is_state_stale(Some(30), 30));
    assert!(is_state_stale(None, 30));
    assert!(leader_changed(None, &state));
    assert!(!leader_changed(Some(&state), &state));
    let moved = update_cluster_state(vec![member("r1", "leader", "running", None)], 101);
    assert!(leader_changed(Some(&state), &moved));
}

#[test]
fn replicas_are_chosen_by_lag_and_in_turn() {
    let replicas = vec![
        member("a", "replica", "streaming", Some(30)),
        member("b", "replica", "streaming", None),
        member("c", "replica", "streaming", Some(10)),
    ];
    let sorted = get_replicas_by_lag(replicas.clone());
    assert_eq!(sorted.len(), 3);
    let least = get_least_lag_replica(&replicas, None).unwrap();
    assert_eq!(least.name, sorted[0].name);
    let names: Vec<String> = (0..3)
        .map(|i| get_read_replica_round_robin(&replicas, i).unwrap().name)
        .collect();
    assert_eq!(names, ["a", "b", "c"]);
    assert_eq!(
        get_read_replica_round_robin(&replicas, 3).unwrap().name,
        "a"
    );
    assert!(get_read_replica_round_robin(&Vec::new(), 0).is_none());
    assert!(get_least_lag_replica(&Vec::new(), None).is_none());
}

#[test]
fn answers_of_the_cluster_are_checked() {
    assert!(discovery_url("app", "gateway.example").contains("app"));
    assert!(check_status(200, "200 OK", "").is_ok());
    assert!(check_status(503, "503 Service Unavailable", "busy").is_err());
}

#[test]
fn incomplete_members_are_left_out_of_a_report() {
    let whole = "{\"name\": \"a\", \"host\": \"h\", \"port\": 1, \"role\": \"leader\", \"state\": \"running\"}";
    let items = vec![whole.to_string(), "{\"name\": \"b\"}".to_string()];
    let info = cluster_info(&items, Some("main".to_string()));
    assert_eq!(info.members.len(), 1);
    assert_eq!(info.members[0].name, "a");
    assert_eq!(info.scope.as_deref(), Some("main"));
}

#[test]
fn a_failed_discovery_leaves_what_is_known() {
    let members = vec![
        member("a", "leader", "running", None),
        member("b", "replica", "streaming", None),
    ];
    let (known, outcome) = apply_discovery(None, Ok(members), 7);
    assert_eq!(outcome, Ok(()));
    let (after, outcome) = apply_discovery(known, Err("gone".to_string()), 9);
    assert_eq!(outcome, Err("gone".to_string()));
    let after = after.unwrap();
    assert_eq!(after.leader.unwrap().name, "a");
    assert_eq!(after.replicas.len(), 1);
    assert_eq!(after.last_updated, 7);
    let (after, outcome) = apply_discovery(None, Err("gone".to_string()), 9);
    assert!(after.is_none() && outcome.is_err());
}
