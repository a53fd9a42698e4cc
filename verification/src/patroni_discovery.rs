//! The topology of a replicated database, as its cluster manager reports it.
use crate::json::{parse, Json};
use crate::sort::{arrange, stable_order, NumberKey, SortKey};
use crate::text::{parse_signed, parse_unsigned, same_text};
use vstd::prelude::*;
use vstd::string::StringExecFns;

verus! {

/// A member of the cluster.
#[derive(Debug)]
pub struct ClusterMember {
    pub name: String,
    pub host: String,
    pub port: u16,
    pub role: String,
    pub state: String,
    /// How far the member is behind, where that is known.
    pub lag: Option<i64>,
    pub timeline: Option<i64>,
}

impl Clone for ClusterMember {
    fn clone(&self) -> (r: Self)
        ensures
            r == *self,
    {
        ClusterMember {
            name: self.name.clone(),
            host: self.host.clone(),
            port: self.port,
            role: self.role.clone(),
            state: self.state.clone(),
            lag: self.lag,
            timeline: self.timeline,
        }
    }
}

/// A member with its texts as characters.
pub struct ClusterMemberView {
    pub name: Seq<char>,
    pub host: Seq<char>,
    pub port: u16,
    pub role: Seq<char>,
    pub state: Seq<char>,
    pub lag: Option<i64>,
    pub timeline: Option<i64>,
}

impl View for ClusterMember {
    type V = ClusterMemberView;

    open spec fn view(&self) -> ClusterMemberView {
        ClusterMemberView {
            name: self.name@,
            host: self.host@,
            port: self.port,
            role: self.role@,
            state: self.state@,
            lag: self.lag,
            timeline: self.timeline,
        }
    }
}

/// The members of a cluster that are ready to be used.
#[derive(Debug, Clone)]
pub struct ClusterInfo {
    pub members: Vec<ClusterMember>,
    pub scope: Option<String>,
}

/// What is known of a cluster.
#[derive(Debug, Clone)]
pub struct ClusterState {
    pub leader: Option<ClusterMember>,
    pub replicas: Vec<ClusterMember>,
    /// Seconds on a clock that never goes back.
    pub last_updated: u64,
}

/// Whether a value can be a record with named members: an object, or a list of
/// the members in order, of which the last ones may be left out.
pub open spec fn is_record(value: crate::json::JsonView, required: int, total: int) -> bool {
    match value {
        crate::json::JsonView::Object(_) => true,
        crate::json::JsonView::Array(items) => required <= items.len() <= total,
        _ => false,
    }
}

/// The text of a member of a record.
pub open spec fn record_field(value: crate::json::JsonView, name: Seq<char>, position: int) -> Option<
    Seq<char>,
> {
    match value {
        crate::json::JsonView::Object(members) => crate::json::lookup(members, name),
        crate::json::JsonView::Array(items) => if 0 <= position < items.len() {
            Some(items[position])
        } else {
            None
        },
        _ => None,
    }
}

/// The member of a record.
pub open spec fn record_value(
    value: crate::json::JsonView,
    name: Seq<char>,
    position: int,
) -> Option<crate::json::JsonView> {
    match record_field(value, name, position) {
        Some(text) => crate::json::parsed_json(text),
        None => None,
    }
}

fn record_shape(value: &Json, required: usize, total: usize) -> (r: bool)
    ensures
        r == is_record(value@, required as int, total as int),
{
    match value {
        Json::Object(_) => true,
        Json::Array(items) => required <= items.len() && items.len() <= total,
        _ => false,
    }
}

fn record_member(value: &Json, name: &str, position: usize) -> (r: Option<Json>)
    ensures
        crate::json::optional_json(r) == record_value(value@, name@, position as int),
{
    match value {
        Json::Object(_) => value.member(name),
        Json::Array(items) => if position < items.len() {
            assert(crate::text::list_view(items@)[position as int] == items@[position as int]@);
            parse(items[position].as_str())
        } else {
            None
        },
        _ => None,
    }
}

/// The text that a member of a record is.
pub open spec fn as_text(value: Option<crate::json::JsonView>) -> Option<Seq<char>> {
    match value {
        Some(crate::json::JsonView::Text(text)) => Some(text),
        _ => None,
    }
}

fn text_member(value: Option<Json>) -> (r: Option<String>)
    ensures
        crate::text::optional_view(r) == as_text(crate::json::optional_json(value)),
{
    match value {
        Some(Json::Text(text)) => Some(text),
        _ => None,
    }
}

/// The port that a member of a record is.
pub open spec fn as_port(value: Option<crate::json::JsonView>) -> Option<u16> {
    match value {
        Some(crate::json::JsonView::Number(number)) => match crate::text::unsigned_value(number) {
            Some(port) if port <= u16::MAX => Some(port as u16),
            _ => None,
        },
        _ => None,
    }
}

fn port_member(value: Option<Json>) -> (r: Option<u16>)
    ensures
        r == as_port(crate::json::optional_json(value)),
{
    match value {
        Some(Json::Number(number)) => match parse_unsigned(number.as_str()) {
            Some(port) => if port <= u16::MAX as u64 {
                Some(port as u16)
            } else {
                None
            },
            None => None,
        },
        _ => None,
    }
}

/// The lag that a member of a record is: anything but an integer, such as the
/// text `unknown`, is a lag that is not known.
pub open spec fn as_lag(value: Option<crate::json::JsonView>) -> Option<i64> {
    match value {
        Some(crate::json::JsonView::Number(number)) => crate::text::signed_value(number),
        _ => None,
    }
}

fn lag_member(value: Option<Json>) -> (r: Option<i64>)
    ensures
        r == as_lag(crate::json::optional_json(value)),
{
    match value {
        Some(Json::Number(number)) => parse_signed(number.as_str()),
        _ => None,
    }
}

/// The timeline that a member of a record is, if it is an integer or left out;
/// no record has any other.
pub open spec fn as_timeline(value: Option<crate::json::JsonView>) -> Option<Option<i64>> {
    match value {
        None => Some(None),
        Some(crate::json::JsonView::Null) => Some(None),
        Some(crate::json::JsonView::Number(number)) => match crate::text::signed_value(number) {
            Some(timeline) => Some(Some(timeline)),
            None => None,
        },
        Some(_) => None,
    }
}

fn timeline_member(value: Option<Json>) -> (r: Option<Option<i64>>)
    ensures
        r == as_timeline(crate::json::optional_json(value)),
{
    match value {
        None => Some(None),
        Some(Json::Null) => Some(None),
        Some(Json::Number(number)) => match parse_signed(number.as_str()) {
            Some(timeline) => Some(Some(timeline)),
            None => None,
        },
        Some(_) => None,
    }
}

/// The member of a cluster that a value describes, if it is complete. A node
/// that has registered but not yet published where it can be reached is not.
pub open spec fn member_from(value: crate::json::JsonView) -> Option<ClusterMemberView> {
    if !is_record(value, 5, 7) {
        None
    } else {
        match (
            as_text(record_value(value, "name"@, 0)),
            as_text(record_value(value, "host"@, 1)),
            as_port(record_value(value, "port"@, 2)),
            as_text(record_value(value, "role"@, 3)),
            as_text(record_value(value, "state"@, 4)),
            as_timeline(record_value(value, "timeline"@, 6)),
        ) {
            (
                Some(name),
                Some(host),
                Some(port),
                Some(role),
                Some(state),
                Some(timeline),
            ) => Some(
                ClusterMemberView {
                    name,
                    host,
                    port,
                    role,
                    state,
                    lag: as_lag(record_value(value, "lag"@, 5)),
                    timeline,
                },
            ),
            _ => None,
        }
    }
}

/// The member that a text describes.
pub open spec fn described_member(text: Seq<char>) -> Option<ClusterMemberView> {
    match crate::json::parsed_json(text) {
        Some(value) => member_from(value),
        None => None,
    }
}

/// The view of an optional member.
pub open spec fn optional_member(member: Option<ClusterMember>) -> Option<ClusterMemberView> {
    match member {
        Some(m) => Some(m@),
        None => None,
    }
}

/// Takes a value as a member of a cluster.
pub fn member_from_json(value: &Json) -> (r: Option<ClusterMember>)
    ensures
        optional_member(r) == member_from(value@),
{
    if !record_shape(value, 5, 7) {
        return None;
    }
    let name = text_member(record_member(value, "name", 0));
    let host = text_member(record_member(value, "host", 1));
    let port = port_member(record_member(value, "port", 2));
    let role = text_member(record_member(value, "role", 3));
    let state = text_member(record_member(value, "state", 4));
    let lag = lag_member(record_member(value, "lag", 5));
    let timeline = timeline_member(record_member(value, "timeline", 6));
    match (name, host, port, role, state, timeline) {
        (Some(name), Some(host), Some(port), Some(role), Some(state), Some(timeline)) => Some(
            ClusterMember { name, host, port, role, state, lag, timeline },
        ),
        _ => None,
    }
}

/// Reads a member of a cluster.
pub fn parse_member(text: &str) -> (r: Option<ClusterMember>)
    ensures
        optional_member(r) == described_member(text@),
{
    match parse(text) {
        Some(value) => member_from_json(&value),
        None => None,
    }
}

/// The complete members among those that texts describe, in order. One that is
/// not complete does not spoil the others.
pub open spec fn complete_members(items: Seq<Seq<char>>) -> Seq<ClusterMemberView>
    decreases items.len(),
{
    if items.len() == 0 {
        seq![]
    } else {
        let before = complete_members(items.drop_last());
        match described_member(items.last()) {
            Some(member) => before.push(member),
            None => before,
        }
    }
}

/// A member that is not complete, wherever it stands in a report, leaves the
/// other members as they are.
pub proof fn law_incomplete_member_spoils_nothing(
    items: Seq<Seq<char>>,
    incomplete: Seq<char>,
    at: int,
)
    requires
        0 <= at <= items.len(),
        described_member(incomplete) is None,
    ensures
        complete_members(items.insert(at, incomplete)) == complete_members(items),
    decreases items.len(),
{
    let longer = items.insert(at, incomplete);
    if at == items.len() {
        assert(longer.drop_last() =~= items);
        assert(longer.last() == incomplete);
    } else {
        law_incomplete_member_spoils_nothing(items.drop_last(), incomplete, at);
        assert(longer.drop_last() =~= items.drop_last().insert(at, incomplete));
        assert(longer.last() == items.last());
    }
}

/// The views of members.
pub open spec fn members_view(members: Seq<ClusterMember>) -> Seq<ClusterMemberView> {
    members.map_values(|m: ClusterMember| m@)
}

fn parse_members(items: &Vec<String>) -> (r: Vec<ClusterMember>)
    ensures
        members_view(r@) == complete_members(crate::text::list_view(items@)),
{
    let ghost all = crate::text::list_view(items@);
    let mut members: Vec<ClusterMember> = Vec::new();
    let mut i: usize = 0;
    assert(members_view(members@) =~= complete_members(all.take(0)));
    while i < items.len()
        invariant
            i <= items@.len(),
            all == crate::text::list_view(items@),
            members_view(members@) == complete_members(all.take(i as int)),
        decreases items.len() - i,
    {
        proof {
            assert(all.take(i + 1).drop_last() =~= all.take(i as int));
            assert(all.take(i + 1).last() == items@[i as int]@);
        }
        match parse_member(items[i].as_str()) {
            Some(member) => {
                let ghost before = members_view(members@);
                members.push(member);
                assert(members_view(members@) =~= before.push(member@));
            },
            None => {},
        }
        i = i + 1;
    }
    assert(all.take(all.len() as int) =~= all);
    members
}

/// The report of a cluster whose members are given as JSON: those that are
/// complete, in their order, and the scope.
pub fn cluster_info(items: &Vec<String>, scope: Option<String>) -> (r: ClusterInfo)
    ensures
        members_view(r.members@) == complete_members(crate::text::list_view(items@)),
        r.scope == scope,
{
    ClusterInfo { members: parse_members(items), scope }
}

/// The scope that a member of a record is, if it is a text or left out.
pub open spec fn as_scope(value: Option<crate::json::JsonView>) -> Option<Option<Seq<char>>> {
    match value {
        None => Some(None),
        Some(crate::json::JsonView::Null) => Some(None),
        Some(crate::json::JsonView::Text(text)) => Some(Some(text)),
        Some(_) => None,
    }
}

/// The report that a value is: its complete members and its scope.
pub open spec fn report_from(value: crate::json::JsonView) -> Option<
    (Seq<ClusterMemberView>, Option<Seq<char>>),
> {
    if !is_record(value, 1, 2) {
        None
    } else {
        match (record_value(value, "members"@, 0), as_scope(record_value(value, "scope"@, 1))) {
            (Some(crate::json::JsonView::Array(items)), Some(scope)) => Some(
                (complete_members(items), scope),
            ),
            _ => None,
        }
    }
}

/// The report that a text is.
pub open spec fn described_report(text: Seq<char>) -> Option<
    (Seq<ClusterMemberView>, Option<Seq<char>>),
> {
    match crate::json::parsed_json(text) {
        Some(value) => report_from(value),
        None => None,
    }
}

/// Takes a value as the report of a cluster.
pub fn report_from_json(value: &Json) -> (r: Option<ClusterInfo>)
    ensures
        report_from(value@) == (match r {
            Some(info) => Some(
                (members_view(info.members@), crate::text::optional_view(info.scope)),
            ),
            None => None,
        }),
{
    if !record_shape(value, 1, 2) {
        return None;
    }
    let items = match record_member(value, "members", 0) {
        Some(Json::Array(items)) => items,
        _ => return None,
    };
    let scope = match record_member(value, "scope", 1) {
        None => None,
        Some(Json::Null) => None,
        Some(Json::Text(text)) => Some(text),
        Some(_) => return None,
    };
    Some(cluster_info(&items, scope))
}

/// Reads the report of a cluster. The text is read as one JSON value first, so
/// that of a member that is repeated the last counts, and a number that is out of
/// range makes the report unreadable wherever it stands.
pub fn parse_cluster_info(text: &str) -> (r: Option<ClusterInfo>)
    ensures
        described_report(text@) == (match r {
            Some(info) => Some(
                (members_view(info.members@), crate::text::optional_view(info.scope)),
            ),
            None => None,
        }),
{
    match parse(text) {
        Some(value) => report_from_json(&value),
        None => None,
    }
}

/// Where the report of a cluster is found.
pub fn discovery_url(postgres_app_id: &str, gateway_subdomain: &str) -> (r: String)
    ensures
        r@ == "https://"@ + postgres_app_id@ + "-8008."@ + gateway_subdomain@ + "/cluster"@,
{
    let mut url = "https://".to_owned();
    url.append(postgres_app_id);
    url.append("-8008.");
    url.append(gateway_subdomain);
    url.append("/cluster");
    url
}

/// Checks the status of the answer to a request for the report. The message of
/// a failure holds the status and the body.
pub fn check_status(status: u16, status_text: &str, body: &str) -> (r: Result<(), String>)
    ensures
        match r {
            Ok(_) => 200 <= status <= 299,
            Err(message) => !(200 <= status <= 299) && message@ == "HTTP "@ + status_text@ + ": "@
                + body@,
        },
{
    if 200 <= status && status <= 299 {
        Ok(())
    } else {
        let mut message = "HTTP ".to_owned();
        message.append(status_text);
        message.append(": ");
        message.append(body);
        Err(message)
    }
}

/// Whether a member takes part in the cluster: a member that replicates reports
/// that it streams.
pub open spec fn is_healthy(member: ClusterMember) -> bool {
    member.state@ == "running"@ || member.state@ == "streaming"@
}

/// Whether a member can be the leader.
pub open spec fn is_leader(member: ClusterMember) -> bool {
    is_healthy(member) && (member.role@ == "leader"@ || member.role@ == "master"@)
}

/// Whether a member can be read from.
pub open spec fn is_replica(member: ClusterMember) -> bool {
    is_healthy(member) && (member.role@ == "replica"@ || member.role@ == "sync_standby"@
        || member.role@ == "async_standby"@)
}

/// The leader among members: the last that can be one.
pub open spec fn leader_of(members: Seq<ClusterMember>) -> Option<ClusterMember>
    decreases members.len(),
{
    if members.len() == 0 {
        None
    } else if is_leader(members.last()) {
        Some(members.last())
    } else {
        leader_of(members.drop_last())
    }
}

/// The replicas among members, in order.
pub open spec fn replicas_of(members: Seq<ClusterMember>) -> Seq<ClusterMember>
    decreases members.len(),
{
    if members.len() == 0 {
        seq![]
    } else if is_replica(members.last()) {
        replicas_of(members.drop_last()).push(members.last())
    } else {
        replicas_of(members.drop_last())
    }
}

proof fn lemma_roles_differ()
    ensures
        "leader"@ != "replica"@,
        "leader"@ != "sync_standby"@,
        "leader"@ != "async_standby"@,
        "master"@ != "replica"@,
        "master"@ != "sync_standby"@,
        "master"@ != "async_standby"@,
{
    reveal_strlit("leader");
    reveal_strlit("master");
    reveal_strlit("replica");
    reveal_strlit("sync_standby");
    reveal_strlit("async_standby");
    assert("leader"@.len() == 6);
    assert("master"@.len() == 6);
    assert("replica"@.len() == 7);
    assert("sync_standby"@.len() == 12);
    assert("async_standby"@.len() == 13);
}

/// Takes the members of a report as the state of the cluster.
pub fn update_cluster_state(members: Vec<ClusterMember>, now: u64) -> (r: ClusterState)
    ensures
        r.leader == leader_of(members@),
        r.replicas@ == replicas_of(members@),
        r.last_updated == now,
{
    let mut leader: Option<ClusterMember> = None;
    let mut replicas: Vec<ClusterMember> = Vec::new();
    let mut i: usize = 0;
    assert(members@.take(0) =~= seq![]);
    proof {
        lemma_roles_differ();
    }
    while i < members.len()
        invariant
            i <= members@.len(),
            leader == leader_of(members@.take(i as int)),
            replicas@ == replicas_of(members@.take(i as int)),
            "leader"@ != "replica"@,
            "leader"@ != "sync_standby"@,
            "leader"@ != "async_standby"@,
            "master"@ != "replica"@,
            "master"@ != "sync_standby"@,
            "master"@ != "async_standby"@,
        decreases members.len() - i,
    {
        proof {
            assert(members@.take(i + 1).drop_last() =~= members@.take(i as int));
            assert(members@.take(i + 1).last() == members@[i as int]);
        }
        let member = &members[i];
        if same_text(member.state.as_str(), "running") || same_text(
            member.state.as_str(),
            "streaming",
        ) {
            let role = member.role.as_str();
            if same_text(role, "leader") || same_text(role, "master") {
                leader = Some(member.clone());
            } else if same_text(role, "replica") || same_text(role, "sync_standby") || same_text(
                role,
                "async_standby",
            ) {
                replicas.push(member.clone());
            }
        }
        i = i + 1;
    }
    assert(members@.take(members@.len() as int) =~= members@);
    ClusterState { leader, replicas, last_updated: now }
}

/// The state of the cluster after a discovery, and its outcome: the members that
/// were discovered are the new state; a discovery that failed leaves what is
/// known as it was.
pub fn apply_discovery(
    known: Option<ClusterState>,
    discovered: Result<Vec<ClusterMember>, String>,
    now: u64,
) -> (r: (Option<ClusterState>, Result<(), String>))
    ensures
        match discovered {
            Ok(members) => {
                &&& r.1 is Ok
                &&& r.0 matches Some(state)
                &&& state.leader == leader_of(members@)
                &&& state.replicas@ == replicas_of(members@)
                &&& state.last_updated == now
            },
            Err(message) => r.0 == known && r.1 == Err::<(), String>(message),
        },
{
    match discovered {
        Ok(members) => (Some(update_cluster_state(members, now)), Ok(())),
        Err(message) => (known, Err(message)),
    }
}

/// The host of the leader of a state.
pub open spec fn leader_host(state: ClusterState) -> Option<Seq<char>> {
    match state.leader {
        Some(leader) => Some(leader.host@),
        None => None,
    }
}

/// Whether the leader is another one than before; at first it always is.
pub fn leader_changed(old: Option<&ClusterState>, new: &ClusterState) -> (r: bool)
    ensures
        r == (match old {
            Some(state) => leader_host(*state) != leader_host(*new),
            None => true,
        }),
{
    match old {
        None => true,
        Some(state) => match (&state.leader, &new.leader) {
            (Some(a), Some(b)) => !same_text(a.host.as_str(), b.host.as_str()),
            (None, None) => false,
            _ => true,
        },
    }
}

/// The age of a state in seconds.
pub fn get_state_age_secs(state: Option<&ClusterState>, now: u64) -> (r: Option<u64>)
    ensures
        r == (match state {
            Some(s) => Some(
                if now >= s.last_updated {
                    (now - s.last_updated) as u64
                } else {
                    0u64
                },
            ),
            None => None,
        }),
{
    match state {
        Some(s) => Some(
            if now >= s.last_updated {
                now - s.last_updated
            } else {
                0
            },
        ),
        None => None,
    }
}

/// Whether a state is stale: unknown, or older than two refresh intervals.
pub fn is_state_stale(age_secs: Option<u64>, refresh_interval_secs: u64) -> (r: bool)
    requires
        refresh_interval_secs * 2 <= u64::MAX,
    ensures
        r == (match age_secs {
            Some(age) => age > refresh_interval_secs * 2,
            None => true,
        }),
{
    match age_secs {
        Some(age) => age > refresh_interval_secs * 2,
        None => true,
    }
}

/// The rank of a replica by its lag: a lag that is not known ranks last.
pub open spec fn lag_rank(member: ClusterMember) -> i64 {
    match member.lag {
        Some(lag) => lag,
        None => i64::MAX,
    }
}

fn rank(member: &ClusterMember) -> (r: i64)
    ensures
        r == lag_rank(*member),
{
    match member.lag {
        Some(lag) => lag,
        None => i64::MAX,
    }
}

/// The ranks of replicas as keys.
pub open spec fn lag_keys(replicas: Seq<ClusterMember>) -> Seq<NumberKey> {
    replicas.map_values(|m: ClusterMember| NumberKey { number: lag_rank(m) })
}

/// The replicas by ascending lag, those of the same lag in their own order.
pub fn get_replicas_by_lag(replicas: Vec<ClusterMember>) -> (r: Vec<ClusterMember>)
    ensures
        exists|order: Seq<usize>|
            crate::sort::is_stable_order(lag_keys(replicas@), order) && r@
                == #[trigger] crate::sort::arranged(replicas@, order),
{
    let mut keys: Vec<NumberKey> = Vec::new();
    let mut i: usize = 0;
    while i < replicas.len()
        invariant
            i <= replicas@.len(),
            keys@.len() == i,
            forall|k: int| 0 <= k < i ==> (#[trigger] keys@[k]).number == lag_rank(replicas@[k]),
        decreases replicas.len() - i,
    {
        keys.push(NumberKey { number: rank(&replicas[i]) });
        i = i + 1;
    }
    let order = stable_order(&keys);
    assert(keys@ =~= lag_keys(replicas@));
    arrange(replicas, &order)
}

/// The replica for the request with a running number, in turn.
pub fn get_read_replica_round_robin(replicas: &Vec<ClusterMember>, index: usize) -> (r: Option<
    ClusterMember,
>)
    ensures
        r == (if replicas@.len() == 0 {
            None
        } else {
            Some(replicas@[index as int % replicas@.len() as int])
        }),
{
    if replicas.len() == 0 {
        None
    } else {
        Some(replicas[index % replicas.len()].clone())
    }
}

/// Whether a replica may be used under a limit on its lag. Under a limit, a lag
/// that is not known will not do.
pub open spec fn within_lag(member: ClusterMember, max_lag_ms: Option<i64>) -> bool {
    match max_lag_ms {
        None => true,
        Some(max) => member.lag is Some && member.lag->0 <= max,
    }
}

/// Whether the replica at a position is the one to use: of those within the
/// limit, the first with the least lag.
pub open spec fn is_least_lag(
    replicas: Seq<ClusterMember>,
    max_lag_ms: Option<i64>,
    i: int,
) -> bool {
    &&& 0 <= i < replicas.len()
    &&& within_lag(replicas[i], max_lag_ms)
    &&& forall|j: int|
        0 <= j < replicas.len() && within_lag(#[trigger] replicas[j], max_lag_ms) ==> lag_rank(
            replicas[i],
        ) < lag_rank(replicas[j]) || (lag_rank(replicas[i]) == lag_rank(replicas[j]) && i <= j)
}

/// The replica with the least lag, if one is within the limit.
pub fn get_least_lag_replica(replicas: &Vec<ClusterMember>, max_lag_ms: Option<i64>) -> (r: Option<
    ClusterMember,
>)
    ensures
        match r {
            Some(member) => exists|i: int|
                is_least_lag(replicas@, max_lag_ms, i) && member == #[trigger] replicas@[i],
            None => forall|j: int|
                0 <= j < replicas@.len() ==> !within_lag(#[trigger] replicas@[j], max_lag_ms),
        },
{
    let mut best: Option<usize> = None;
    let mut i: usize = 0;
    while i < replicas.len()
        invariant
            i <= replicas@.len(),
            match best {
                Some(b) => b < i && within_lag(replicas@[b as int], max_lag_ms) && forall|j: int|
                    0 <= j < i && within_lag(#[trigger] replicas@[j], max_lag_ms) ==> lag_rank(
                        replicas@[b as int],
                    ) < lag_rank(replicas@[j]) || (lag_rank(replicas@[b as int]) == lag_rank(
                        replicas@[j],
                    ) && b <= j),
                None => forall|j: int|
                    0 <= j < i ==> !within_lag(#[trigger] replicas@[j], max_lag_ms),
            },
        decreases replicas.len() - i,
    {
        let usable: bool = match max_lag_ms {
            None => true,
            Some(max) => match replicas[i].lag {
                Some(lag) => lag <= max,
                None => false,
            },
        };
        if usable {
            let better: bool = match best {
                None => true,
                Some(b) => rank(&replicas[i]) < rank(&replicas[b]),
            };
            if better {
                best = Some(i);
            }
        }
        i = i + 1;
    }
    match best {
        Some(b) => {
            proof {
                assert(is_least_lag(replicas@, max_lag_ms, b as int));
            }
            Some(replicas[b].clone())
        },
        None => None,
    }
}

/// There is at most one replica to use.
pub proof fn law_least_lag_is_unique(
    replicas: Seq<ClusterMember>,
    max_lag_ms: Option<i64>,
    i: int,
    j: int,
)
    requires
        is_least_lag(replicas, max_lag_ms, i),
        is_least_lag(replicas, max_lag_ms, j),
    ensures
        i == j,
{
    assert(within_lag(replicas[i], max_lag_ms));
    assert(within_lag(replicas[j], max_lag_ms));
}

/// Without a limit the replica to use is the first of those ordered by lag.
pub proof fn law_least_lag_comes_first(
    replicas: Seq<ClusterMember>,
    order: Seq<usize>,
    i: int,
)
    requires
        crate::sort::is_stable_order(lag_keys(replicas), order),
        is_least_lag(replicas, None, i),
    ensures
        crate::sort::arranged(replicas, order)[0] == replicas[i],
        order[0] == i,
{
    let keys = lag_keys(replicas);
    crate::sort::lemma_order_covers(keys, order, i);
    let at = choose|at: int| 0 <= at < order.len() && order[at] == i;
    let first = order[0] as int;
    assert(within_lag(replicas[first], None));
    if at > 0 {
        assert(keys[order[0] as int].at_most(keys[order[at] as int]));
        assert(lag_rank(replicas[first]) <= lag_rank(replicas[i]));
        assert(lag_rank(replicas[i]) == lag_rank(replicas[first]));
        assert(keys[order[at] as int].at_most(keys[order[0] as int]));
        assert(order[0] < order[at]);
        assert(false);
    }
}

/// Every replica in turn: as many requests as there are replicas reach each of
/// them once.
pub proof fn law_round_robin_reaches_all(count: int, start: int, target: int)
    requires
        count > 0,
        start >= 0,
        0 <= target < count,
    ensures
        exists|k: int| 0 <= k < count && #[trigger] turn(start, k, count) == target,
{
    let k = (target - start) % count;
    vstd::arithmetic::div_mod::lemma_mod_bound(target - start, count);
    vstd::arithmetic::div_mod::lemma_add_mod_noop_right(start, target - start, count);
    vstd::arithmetic::div_mod::lemma_small_mod(target as nat, count as nat);
    assert(turn(start, k, count) == target);
}

/// The position that the request `k` places after `start` reaches.
pub open spec fn turn(start: int, k: int, count: int) -> int {
    (start + k) % count
}

/// A member of a record is found by its name in an object, and by its place in a
/// list.
pub proof fn law_records_are_objects_or_lists(
    value: crate::json::JsonView,
    name: Seq<char>,
    position: int,
    required: int,
    total: int,
)
    ensures
        value is Object ==> record_value(value, name, position) == crate::json::member_of(
            value,
            name,
        ) && is_record(value, required, total),
        value matches crate::json::JsonView::Array(items) ==> {
            &&& is_record(value, required, total) <==> required <= items.len() <= total
            &&& 0 <= position < items.len() ==> record_value(value, name, position)
                == crate::json::parsed_json(items[position])
            &&& !(0 <= position < items.len()) ==> record_value(value, name, position) is None
        },
        !(value is Object) && !(value is Array) ==> !is_record(value, required, total),
{
}

/// A node is a member where it says who it is, where it is reached, and what it
/// does; what it says is taken as it is. A lag that is no integer is not known.
pub proof fn law_complete_nodes_are_members(value: crate::json::JsonView)
    ensures
        ({
            let name = record_value(value, "name"@, 0);
            let host = record_value(value, "host"@, 1);
            let port = record_value(value, "port"@, 2);
            let role = record_value(value, "role"@, 3);
            let state = record_value(value, "state"@, 4);
            let lag = record_value(value, "lag"@, 5);
            let timeline = record_value(value, "timeline"@, 6);
            let reachable = port matches Some(crate::json::JsonView::Number(digits))
                && crate::text::unsigned_value(digits) is Some && crate::text::unsigned_value(
                digits,
            )->0 <= 65_535;
            let dated = timeline is None || timeline == Some(crate::json::JsonView::Null) || (
            timeline matches Some(crate::json::JsonView::Number(digits))
                && crate::text::signed_value(digits) is Some);
            &&& member_from(value) is Some <==> is_record(value, 5, 7) && (name matches Some(
                crate::json::JsonView::Text(_),
            )) && (host matches Some(crate::json::JsonView::Text(_))) && reachable && (
            role matches Some(crate::json::JsonView::Text(_))) && (state matches Some(
                crate::json::JsonView::Text(_),
            )) && dated
            &&& member_from(value) matches Some(member) ==> {
                &&& name == Some(crate::json::JsonView::Text(member.name))
                &&& host == Some(crate::json::JsonView::Text(member.host))
                &&& role == Some(crate::json::JsonView::Text(member.role))
                &&& state == Some(crate::json::JsonView::Text(member.state))
                &&& member.port == crate::text::unsigned_value(port->0->Number_0)->0
                &&& (lag matches Some(crate::json::JsonView::Number(digits))) ==> member.lag
                    == crate::text::signed_value(lag->0->Number_0)
                &&& !(lag matches Some(crate::json::JsonView::Number(_))) ==> member.lag is None
                &&& (timeline matches Some(crate::json::JsonView::Number(digits)))
                    ==> member.timeline == crate::text::signed_value(timeline->0->Number_0)
                &&& !(timeline matches Some(crate::json::JsonView::Number(_)))
                    ==> member.timeline is None
            }
        }),
{
}

/// A text describes a member where it is JSON that does.
pub proof fn law_texts_describe_members(text: Seq<char>)
    ensures
        crate::json::parsed_json(text) is Some ==> described_member(text) == member_from(
            crate::json::parsed_json(text)->0,
        ),
        crate::json::parsed_json(text) is None ==> described_member(text) is None,
{
}

/// One node more adds its member at the end where it is complete, and nothing
/// otherwise.
pub proof fn law_each_complete_node_is_added(items: Seq<Seq<char>>, item: Seq<char>)
    ensures
        complete_members(seq![]).len() == 0,
        described_member(item) is Some ==> complete_members(items.push(item)) == complete_members(
            items,
        ).push(described_member(item)->0),
        described_member(item) is None ==> complete_members(items.push(item)) == complete_members(
            items,
        ),
{
    assert(items.push(item).drop_last() =~= items);
}

/// A report needs the list of members; its scope is a text or left out.
pub proof fn law_reports_need_their_members(value: crate::json::JsonView)
    ensures
        ({
            let members = record_value(value, "members"@, 0);
            let scope = record_value(value, "scope"@, 1);
            &&& report_from(value) is Some <==> is_record(value, 1, 2) && (members matches Some(
                crate::json::JsonView::Array(_),
            )) && (scope is None || scope == Some(crate::json::JsonView::Null) || (
            scope matches Some(crate::json::JsonView::Text(_))))
            &&& report_from(value) matches Some(report) ==> {
                &&& report.0 == complete_members(members->0->Array_0)
                &&& (scope matches Some(crate::json::JsonView::Text(_))) ==> report.1 == Some(
                    scope->0->Text_0,
                )
                &&& !(scope matches Some(crate::json::JsonView::Text(_))) ==> report.1 is None
            }
        }),
{
}

/// The leader is the last healthy member that leads; without one there is none.
pub proof fn law_the_last_healthy_leader_leads(members: Seq<ClusterMember>, i: int)
    ensures
        0 <= i < members.len() && (members[i].state@ == "running"@ || members[i].state@
            == "streaming"@) && (members[i].role@ == "leader"@ || members[i].role@ == "master"@) && (
        forall|k: int|
            i < k < members.len() ==> !(((#[trigger] members[k]).state@ == "running"@
                || members[k].state@ == "streaming"@) && (members[k].role@ == "leader"@
                || members[k].role@ == "master"@))) ==> leader_of(members) == Some(members[i]),
        (forall|k: int|
            0 <= k < members.len() ==> !(((#[trigger] members[k]).state@ == "running"@
                || members[k].state@ == "streaming"@) && (members[k].role@ == "leader"@
                || members[k].role@ == "master"@))) ==> leader_of(members) is None,
    decreases members.len(),
{
    if members.len() > 0 {
        let n = members.len() - 1;
        assert(members[n] == members.last());
        let shorter = members.drop_last();
        assert forall|k: int| 0 <= k < n implies shorter[k] == #[trigger] members[k] by {}
        law_the_last_healthy_leader_leads(shorter, i);
    }
}

/// One member more is a replica where it is healthy and stands by, and leaves the
/// others in their order.
pub proof fn law_healthy_standbys_are_replicas(
    members: Seq<ClusterMember>,
    member: ClusterMember,
)
    ensures
        replicas_of(seq![]).len() == 0,
        (member.state@ == "running"@ || member.state@ == "streaming"@) && (member.role@
            == "replica"@ || member.role@ == "sync_standby"@ || member.role@ == "async_standby"@)
            ==> replicas_of(members.push(member)) == replicas_of(members).push(member),
        !((member.state@ == "running"@ || member.state@ == "streaming"@) && (member.role@
            == "replica"@ || member.role@ == "sync_standby"@ || member.role@ == "async_standby"@))
            ==> replicas_of(members.push(member)) == replicas_of(members),
{
    assert(members.push(member).drop_last() =~= members);
}

/// Whether the leader is another one is told by its host.
pub proof fn law_leaders_are_told_apart_by_host(state: ClusterState)
    ensures
        state.leader is Some ==> leader_host(state) == Some(state.leader->0.host@),
        state.leader is None ==> leader_host(state) is None,
{
}

/// Under a limit only replicas whose lag is known and within it will do; without
/// one every replica will. None that will do has a smaller lag than the one that
/// is used.
pub proof fn law_no_usable_replica_has_less_lag(
    replicas: Seq<ClusterMember>,
    max_lag_ms: Option<i64>,
    i: int,
    j: int,
)
    requires
        is_least_lag(replicas, max_lag_ms, i),
        0 <= j < replicas.len(),
    ensures
        0 <= i < replicas.len(),
        max_lag_ms is Some ==> replicas[i].lag is Some && replicas[i].lag->0 <= max_lag_ms->0,
        (max_lag_ms is None || (replicas[j].lag is Some && replicas[j].lag->0 <= max_lag_ms->0))
            && replicas[j].lag is Some && replicas[j].lag->0 < i64::MAX ==> replicas[i].lag is Some
            && replicas[i].lag->0 <= replicas[j].lag->0,
        within_lag(replicas[j], max_lag_ms) <==> max_lag_ms is None || (replicas[j].lag is Some
            && replicas[j].lag->0 <= max_lag_ms->0),
        within_lag(replicas[j], max_lag_ms) && replicas[j].lag == replicas[i].lag ==> i <= j,
{
    assert(within_lag(replicas[j], max_lag_ms) ==> lag_rank(replicas[i]) < lag_rank(replicas[j])
        || (lag_rank(replicas[i]) == lag_rank(replicas[j]) && i <= j));
}

/// Ordered by lag, replicas come from the smallest lag up, and those whose lag is
/// not known come last.
pub proof fn law_replicas_come_by_lag(
    replicas: Seq<ClusterMember>,
    order: Seq<usize>,
    i: int,
    j: int,
)
    requires
        crate::sort::is_stable_order(lag_keys(replicas), order),
        0 <= i < j < order.len(),
    ensures
        ({
            let (a, b) = (
                crate::sort::arranged(replicas, order)[i],
                crate::sort::arranged(replicas, order)[j],
            );
            &&& b.lag is Some && b.lag->0 < i64::MAX ==> a.lag is Some && a.lag->0 <= b.lag->0
            &&& a.lag == b.lag ==> order[i] < order[j]
        }),
{
    let keys = lag_keys(replicas);
    assert(keys[order[i] as int].at_most(keys[order[j] as int]));
}

/// An answer is taken from 200 to 299; any other is refused with its status and
/// its body.
pub proof fn law_only_good_answers_are_taken(
    status: u16,
    status_text: &str,
    body: &str,
    r: Result<(), String>,
)
    requires
        call_ensures(check_status, (status, status_text, body), r),
    ensures
        r is Ok <==> 200 <= status < 300,
        r matches Err(message) ==> message@ == "HTTP "@ + status_text@ + ": "@ + body@,
{
}

/// What is known grows older by the second, and is stale once more than two
/// refreshes are missing; what is not known is stale.
pub proof fn law_old_knowledge_is_stale(
    state: ClusterState,
    now: u64,
    interval: u64,
    age: Option<u64>,
    stale: bool,
)
    requires
        now >= state.last_updated,
        interval * 2 <= u64::MAX,
        call_ensures(get_state_age_secs, (Some(&state), now), age),
        call_ensures(is_state_stale, (age, interval), stale),
    ensures
        age == Some((now - state.last_updated) as u64),
        stale <==> now > state.last_updated + interval + interval,
{
}

/// What was never known has no age, and is stale.
pub proof fn law_unknown_states_are_stale(now: u64, interval: u64, age: Option<u64>, stale: bool)
    requires
        interval * 2 <= u64::MAX,
        call_ensures(get_state_age_secs, (None::<&ClusterState>, now), age),
        call_ensures(is_state_stale, (age, interval), stale),
    ensures
        age is None,
        stale,
{
}

/// A discovery that fails leaves what is known as it was, and reports why; one
/// that succeeds replaces it.
pub proof fn law_failed_discoveries_change_nothing(
    known: Option<ClusterState>,
    discovered: Result<Vec<ClusterMember>, String>,
    now: u64,
    r: (Option<ClusterState>, Result<(), String>),
)
    requires
        call_ensures(apply_discovery, (known, discovered, now), r),
    ensures
        r.1 is Ok <==> discovered is Ok,
        discovered matches Err(message) ==> r.0 == known && r.1 == Err::<(), String>(message),
        discovered matches Ok(members) ==> (r.0 matches Some(state) && state.last_updated == now
            && state.leader == leader_of(members@) && state.replicas@ == replicas_of(members@)),
{
}

/// The first discovery counts as a change of the leader, and so does one that
/// finds another host, finds a leader where there was none, or loses it.
pub proof fn law_leader_changes_are_noticed(
    old: ClusterState,
    new: ClusterState,
    first: bool,
    changed: bool,
)
    requires
        call_ensures(leader_changed, (None::<&ClusterState>, &new), first),
        call_ensures(leader_changed, (Some(&old), &new), changed),
    ensures
        first,
        old.leader is None && new.leader is None ==> !changed,
        (old.leader is None) != (new.leader is None) ==> changed,
        old.leader matches Some(a) ==> new.leader matches Some(b) ==> (changed <==> a.host@
            != b.host@),
{
}

/// Replicas take turns by the running number.
pub proof fn law_replicas_take_turns(
    replicas: Vec<ClusterMember>,
    index: usize,
    r: Option<ClusterMember>,
)
    requires
        call_ensures(get_read_replica_round_robin, (&replicas, index), r),
    ensures
        r is None <==> replicas@.len() == 0,
        index < replicas@.len() ==> r == Some(replicas@[index as int]),
        r matches Some(member) ==> replicas@.contains(member),
{
    if index < replicas@.len() {
        vstd::arithmetic::div_mod::lemma_small_mod(index as nat, replicas@.len());
    }
}

/// The endpoint of a cluster stands under its app, at port 8008.
pub proof fn law_clusters_are_asked_at_their_gateway(
    postgres_app_id: &str,
    gateway_subdomain: &str,
    r: String,
)
    requires
        call_ensures(discovery_url, (postgres_app_id, gateway_subdomain), r),
    ensures
        r@ == "https://"@ + postgres_app_id@ + "-8008."@ + gateway_subdomain@ + "/cluster"@,
{
}

} // verus!
