//! Which member of a cluster serves writes and reads.
use crate::connection::QueueMode;
use crate::patroni_discovery::{
    get_least_lag_replica, get_read_replica_round_robin, ClusterMember,
};
use crate::text::{decimal_text, same_text};
use vstd::prelude::*;
use vstd::string::StringExecFns;

verus! {

/// How long, in seconds, a candidate for the leader may take to prove itself.
pub const WRITE_POOL_VERIFY_TIMEOUT_SECS: u64 = 15;

/// How the member for a read is chosen.
#[derive(Debug, Clone, Copy, PartialEq, Eq, Structural)]
pub enum ReadPreference {
    /// All replicas in turn.
    RoundRobin,
    /// The replica with the least lag.
    LeastLag,
    /// Always the leader.
    LeaderOnly,
}

/// A text in lower case.
pub uninterp spec fn lowercased(text: Seq<char>) -> Seq<char>;

/// `str::to_lowercase`: the text with each character in lower case.
#[verifier::external_body]
fn lowercase(text: &str) -> (r: String)
    ensures
        r@ == lowercased(text@),
{
    text.to_lowercase()
}

/// The preference that a name in lower case stands for; any other name stands
/// for the least lag.
pub open spec fn named_preference(name: Seq<char>) -> ReadPreference {
    if name == "round_robin"@ {
        ReadPreference::RoundRobin
    } else if name == "least_lag"@ {
        ReadPreference::LeastLag
    } else if name == "leader_only"@ {
        ReadPreference::LeaderOnly
    } else {
        ReadPreference::LeastLag
    }
}

impl ReadPreference {
    /// The preference that a name in lower case stands for.
    pub fn from_lowercase(name: &str) -> (r: ReadPreference)
        ensures
            r == named_preference(name@),
    {
        if same_text(name, "round_robin") {
            ReadPreference::RoundRobin
        } else if same_text(name, "least_lag") {
            ReadPreference::LeastLag
        } else if same_text(name, "leader_only") {
            ReadPreference::LeaderOnly
        } else {
            ReadPreference::LeastLag
        }
    }
}

impl From<&str> for ReadPreference {
    fn from(name: &str) -> (r: ReadPreference) {
        ReadPreference::from_lowercase(lowercase(name).as_str())
    }
}

impl vstd::std_specs::convert::FromSpecImpl<&str> for ReadPreference {
    open spec fn obeys_from_spec() -> bool {
        true
    }

    open spec fn from_spec(name: &str) -> ReadPreference {
        named_preference(lowercased(name@))
    }
}

/// How the members of a cluster are connected to.
#[derive(Debug, Clone)]
pub struct DatabaseConfig {
    pub database: String,
    pub username: String,
    pub password: String,
    pub max_write_connections: u32,
    pub max_read_connections: u32,
    pub tls_enabled: bool,
    pub tls_ca_cert_path: Option<String>,
}

/// The settings of a pool for one member of a cluster.
#[derive(Debug, Clone)]
pub struct MemberPoolSettings {
    pub host: String,
    pub port: u16,
    pub dbname: String,
    pub user: String,
    pub password: String,
    pub max_size: usize,
    pub wait_timeout_secs: u64,
    pub create_timeout_secs: u64,
    pub recycle_timeout_secs: u64,
    pub queue_mode: QueueMode,
    /// Whether the connection is encrypted; any certificate is accepted.
    pub encrypted: bool,
}

/// The settings of a pool for a member: at most so many connections, fixed
/// timeouts, and those who wait are served in turn.
pub fn create_pool(
    config: &DatabaseConfig,
    host: &str,
    port: u16,
    max_connections: u32,
) -> (r: MemberPoolSettings)
    ensures
        r.host@ == host@,
        r.port == port,
        r.dbname@ == config.database@,
        r.user@ == config.username@,
        r.password@ == config.password@,
        r.max_size == max_connections,
        r.wait_timeout_secs == 5,
        r.create_timeout_secs == 5,
        r.recycle_timeout_secs == 5,
        r.queue_mode == QueueMode::Fifo,
        r.encrypted == config.tls_enabled,
{
    MemberPoolSettings {
        host: host.to_owned(),
        port,
        dbname: config.database.clone(),
        user: config.username.clone(),
        password: config.password.clone(),
        max_size: max_connections as usize,
        wait_timeout_secs: 5,
        create_timeout_secs: 5,
        recycle_timeout_secs: 5,
        queue_mode: QueueMode::Fifo,
        encrypted: config.tls_enabled,
    }
}

/// Where a member is reached: its host and port.
pub open spec fn target_of(member: ClusterMember) -> Seq<char> {
    member.host@ + ":"@ + crate::text::decimal(member.port as nat)
}

/// Where a member is reached.
pub fn member_target(member: &ClusterMember) -> (r: String)
    ensures
        r@ == target_of(*member),
{
    let mut target = member.host.clone();
    target.append(":");
    target.append(decimal_text(member.port as u64).as_str());
    target
}

/// Where the leader is reached.
pub open spec fn leader_target(leader: Option<ClusterMember>) -> Option<Seq<char>> {
    match leader {
        Some(member) => Some(target_of(member)),
        None => None,
    }
}

/// What is done about the pool for writes.
#[derive(Debug, Clone, Copy, PartialEq, Eq, Structural)]
pub enum WritePoolDecision {
    /// It serves the leader already.
    Keep,
    /// No leader is known: it stays as it is.
    KeepWithoutLeader,
    /// It must be built anew for the leader.
    Rebuild,
}

/// The decision about the pool for writes, from the target of the leader and
/// the target it was last installed for.
pub open spec fn write_pool_decision(
    leader: Option<Seq<char>>,
    installed: Option<Seq<char>>,
) -> WritePoolDecision {
    match leader {
        None => WritePoolDecision::KeepWithoutLeader,
        Some(target) => if installed == Some(target) {
            WritePoolDecision::Keep
        } else {
            WritePoolDecision::Rebuild
        },
    }
}

/// Decides about the pool for writes.
pub fn reconcile(leader: &Option<ClusterMember>, installed: &Option<String>) -> (r:
    WritePoolDecision)
    ensures
        r == write_pool_decision(leader_target(*leader), crate::text::optional_view(*installed)),
{
    match leader {
        None => WritePoolDecision::KeepWithoutLeader,
        Some(member) => match installed {
            Some(target) => if same_text(target.as_str(), member_target(member).as_str()) {
                WritePoolDecision::Keep
            } else {
                WritePoolDecision::Rebuild
            },
            None => WritePoolDecision::Rebuild,
        },
    }
}

/// What the verification of a candidate for the leader found.
#[derive(Debug, Clone)]
pub enum Verification {
    /// It answered, and said whether it is still in recovery.
    Answered { in_recovery: bool },
    /// It could not be reached, or failed.
    Failed(String),
    /// It did not answer in time.
    TimedOut,
}

/// Why a candidate was not installed.
#[derive(Debug, Clone)]
pub enum InstallError {
    /// It claims to be the leader but has not finished its promotion.
    InRecovery { name: String },
    /// It did not answer in time.
    TimedOut { name: String },
    /// It could not be reached, or failed.
    Failed(String),
    /// Another member has become the leader in the meantime.
    LeaderChanged { current: Option<String>, target: String },
}

/// Decides whether the pool for a candidate is installed, from what its
/// verification found and from the leader as it is known by then. The target
/// is recorded only with the pool.
pub fn create_write_pool(
    candidate: &ClusterMember,
    verification: Verification,
    current: &Option<ClusterMember>,
) -> (r: Result<String, InstallError>)
    ensures
        match r {
            Ok(target) => verification == (Verification::Answered { in_recovery: false })
                && target@ == target_of(*candidate) && leader_target(*current) == Some(target@),
            Err(InstallError::InRecovery { name }) => verification == (Verification::Answered {
                in_recovery: true,
            }) && name@ == candidate.name@,
            Err(InstallError::TimedOut { name }) => verification == Verification::TimedOut && name@
                == candidate.name@,
            Err(InstallError::Failed(message)) => verification == Verification::Failed(message),
            Err(InstallError::LeaderChanged { current: seen, target }) => verification == (
            Verification::Answered { in_recovery: false }) && target@ == target_of(*candidate)
                && crate::text::optional_view(seen) == leader_target(*current) && leader_target(
                *current,
            ) != Some(target@),
        },
{
    match verification {
        Verification::Failed(message) => return Err(InstallError::Failed(message)),
        Verification::TimedOut => return Err(
            InstallError::TimedOut { name: candidate.name.clone() },
        ),
        Verification::Answered { in_recovery } => if in_recovery {
            return Err(InstallError::InRecovery { name: candidate.name.clone() });
        },
    }
    let target = member_target(candidate);
    match current {
        None => Err(InstallError::LeaderChanged { current: None, target }),
        Some(leader) => {
            let seen = member_target(leader);
            if same_text(seen.as_str(), target.as_str()) {
                Ok(target)
            } else {
                Err(InstallError::LeaderChanged { current: Some(seen), target })
            }
        },
    }
}

/// The target that is recorded after an attempt to install a pool.
pub open spec fn recorded_target(
    installed: Option<Seq<char>>,
    attempt: Result<Seq<char>, ()>,
) -> Option<Seq<char>> {
    match attempt {
        Ok(target) => Some(target),
        Err(_) => installed,
    }
}

/// Records the target of a pool that was installed; after a failure what was
/// recorded stays.
pub fn record_target(installed: Option<String>, attempt: Result<String, InstallError>) -> (r:
    Option<String>)
    ensures
        crate::text::optional_view(r) == recorded_target(
            crate::text::optional_view(installed),
            match attempt {
                Ok(target) => Ok(target@),
                Err(_) => Err(()),
            },
        ),
{
    match attempt {
        Ok(target) => Some(target),
        Err(_) => installed,
    }
}

/// A failed rebuild is tried again as long as the leader stays the same.
pub proof fn law_failed_rebuild_is_retried(leader: Seq<char>, installed: Option<Seq<char>>)
    requires
        write_pool_decision(Some(leader), installed) == WritePoolDecision::Rebuild,
    ensures
        write_pool_decision(Some(leader), recorded_target(installed, Err(())))
            == WritePoolDecision::Rebuild,
{
}

/// After a successful rebuild the pool is kept, and it is rebuilt again exactly
/// when another target leads.
pub proof fn law_installed_pool_is_kept(
    leader: Seq<char>,
    installed: Option<Seq<char>>,
    later: Seq<char>,
)
    ensures
        write_pool_decision(Some(leader), recorded_target(installed, Ok(leader)))
            == WritePoolDecision::Keep,
        write_pool_decision(Some(later), recorded_target(installed, Ok(leader)))
            == WritePoolDecision::Rebuild <==> later != leader,
        write_pool_decision(None, installed) == WritePoolDecision::KeepWithoutLeader,
{
}

/// The leader to start with; there must be one.
pub fn initialize(leader: Option<ClusterMember>) -> (r: Result<ClusterMember, String>)
    ensures
        match r {
            Ok(member) => leader == Some(member),
            Err(message) => leader is None && message@ == "No leader found during initialization"@,
        },
{
    match leader {
        Some(member) => Ok(member),
        None => Err("No leader found during initialization".to_owned()),
    }
}

/// Whether a replica has a host.
pub open spec fn has_host(replicas: Seq<ClusterMember>, host: Seq<char>) -> bool {
    exists|i: int| 0 <= i < replicas.len() && (#[trigger] replicas[i]).host@ == host
}

fn any_host(replicas: &Vec<ClusterMember>, host: &str) -> (r: bool)
    ensures
        r == has_host(replicas@, host@),
{
    let mut i: usize = 0;
    while i < replicas.len()
        invariant
            i <= replicas@.len(),
            forall|k: int| 0 <= k < i ==> (#[trigger] replicas@[k]).host@ != host@,
        decreases replicas.len() - i,
    {
        if same_text(replicas[i].host.as_str(), host) {
            return true;
        }
        i = i + 1;
    }
    false
}

/// The hosts whose pools stay, in order: those that are still replicas.
pub open spec fn kept_hosts(hosts: Seq<Seq<char>>, replicas: Seq<ClusterMember>) -> Seq<Seq<char>>
    decreases hosts.len(),
{
    if hosts.len() == 0 {
        seq![]
    } else if has_host(replicas, hosts.last()) {
        kept_hosts(hosts.drop_last(), replicas).push(hosts.last())
    } else {
        kept_hosts(hosts.drop_last(), replicas)
    }
}

/// The hosts whose pools for reads stay.
pub fn retained_hosts(hosts: &Vec<String>, replicas: &Vec<ClusterMember>) -> (r: Vec<String>)
    ensures
        crate::text::list_view(r@) == kept_hosts(crate::text::list_view(hosts@), replicas@),
{
    let ghost all = crate::text::list_view(hosts@);
    let mut kept: Vec<String> = Vec::new();
    let mut i: usize = 0;
    assert(crate::text::list_view(kept@) =~= kept_hosts(all.take(0), replicas@));
    while i < hosts.len()
        invariant
            i <= hosts@.len(),
            all == crate::text::list_view(hosts@),
            crate::text::list_view(kept@) == kept_hosts(all.take(i as int), replicas@),
        decreases hosts.len() - i,
    {
        proof {
            assert(all.take(i + 1).drop_last() =~= all.take(i as int));
            assert(all.take(i + 1).last() == hosts@[i as int]@);
        }
        if any_host(replicas, hosts[i].as_str()) {
            let ghost before = crate::text::list_view(kept@);
            kept.push(hosts[i].clone());
            assert(crate::text::list_view(kept@) =~= before.push(hosts@[i as int]@));
        }
        i = i + 1;
    }
    assert(all.take(all.len() as int) =~= all);
    kept
}

/// Whether a list holds a host.
pub open spec fn lists_host(hosts: Seq<String>, host: Seq<char>) -> bool {
    exists|i: int| 0 <= i < hosts.len() && (#[trigger] hosts[i])@ == host
}

fn host_listed(hosts: &Vec<String>, host: &str) -> (r: bool)
    ensures
        r == lists_host(hosts@, host@),
{
    let mut i: usize = 0;
    while i < hosts.len()
        invariant
            i <= hosts@.len(),
            forall|k: int| 0 <= k < i ==> (#[trigger] hosts@[k])@ != host@,
        decreases hosts.len() - i,
    {
        if same_text(hosts[i].as_str(), host) {
            return true;
        }
        i = i + 1;
    }
    false
}

/// The next replica, from a position on, that has no pool for reads.
pub fn next_without_pool(hosts: &Vec<String>, replicas: &Vec<ClusterMember>, from: usize) -> (r:
    Option<usize>)
    requires
        from <= replicas@.len(),
    ensures
        match r {
            Some(i) => from <= i < replicas@.len() && !lists_host(
                hosts@,
                replicas@[i as int].host@,
            ) && forall|k: int|
                from <= k < i ==> lists_host(hosts@, (#[trigger] replicas@[k]).host@),
            None => forall|k: int|
                from <= k < replicas@.len() ==> lists_host(
                    hosts@,
                    (#[trigger] replicas@[k]).host@,
                ),
        },
{
    let mut i: usize = from;
    while i < replicas.len()
        invariant
            from <= i <= replicas@.len(),
            forall|k: int| from <= k < i ==> lists_host(hosts@, (#[trigger] replicas@[k]).host@),
        decreases replicas.len() - i,
    {
        if !host_listed(hosts, replicas[i].host.as_str()) {
            return Some(i);
        }
        i = i + 1;
    }
    None
}

/// The member that a read goes to.
#[derive(Debug, Clone)]
pub enum ReadTarget {
    Leader,
    /// A replica; where it has no pool, or its pool gives no connection, the
    /// leader takes its place.
    Replica(ClusterMember),
}

/// Chooses the member for a read. The running number counts the reads that go
/// to replicas in turn.
pub fn get_read_connection(
    preference: ReadPreference,
    replicas: &Vec<ClusterMember>,
    running_number: usize,
    max_lag_ms: Option<i64>,
) -> (r: (ReadTarget, usize))
    ensures
        match preference {
            ReadPreference::LeaderOnly => r.0 == ReadTarget::Leader && r.1 == running_number,
            ReadPreference::RoundRobin => if replicas@.len() == 0 {
                r.0 == ReadTarget::Leader && r.1 == running_number
            } else {
                &&& r.0 == ReadTarget::Replica(
                    replicas@[running_number as int % replicas@.len() as int],
                )
                &&& r.1 == (if running_number == usize::MAX {
                    0
                } else {
                    running_number + 1
                })
            },
            ReadPreference::LeastLag => {
                &&& r.1 == running_number
                &&& match r.0 {
                    ReadTarget::Replica(member) => exists|i: int|
                        crate::patroni_discovery::is_least_lag(replicas@, max_lag_ms, i) && member
                            == #[trigger] replicas@[i],
                    ReadTarget::Leader => forall|j: int|
                        0 <= j < replicas@.len() ==> !crate::patroni_discovery::within_lag(
                            #[trigger] replicas@[j],
                            max_lag_ms,
                        ),
                }
            },
        },
{
    match preference {
        ReadPreference::LeaderOnly => (ReadTarget::Leader, running_number),
        ReadPreference::RoundRobin => match get_read_replica_round_robin(replicas, running_number) {
            None => (ReadTarget::Leader, running_number),
            Some(member) => {
                let next: usize = if running_number == usize::MAX {
                    0
                } else {
                    running_number + 1
                };
                (ReadTarget::Replica(member), next)
            },
        },
        ReadPreference::LeastLag => match get_least_lag_replica(replicas, max_lag_ms) {
            Some(member) => (ReadTarget::Replica(member), running_number),
            None => (ReadTarget::Leader, running_number),
        },
    }
}

/// What is known of a cluster, for display.
#[derive(Debug, Clone)]
pub struct ClusterStats {
    pub write_available: bool,
    pub read_pool_count: usize,
    pub leader_name: Option<String>,
    pub replica_count: usize,
    pub state_age_secs: Option<u64>,
}

/// Gathers what is known of a cluster.
pub fn get_stats(
    write_available: bool,
    read_pool_count: usize,
    leader: &Option<ClusterMember>,
    replicas: &Vec<ClusterMember>,
    state_age_secs: Option<u64>,
) -> (r: ClusterStats)
    ensures
        r.write_available == write_available,
        r.read_pool_count == read_pool_count,
        crate::text::optional_view(r.leader_name) == (match leader {
            Some(member) => Some(member.name@),
            None => None,
        }),
        r.replica_count == replicas@.len(),
        r.state_age_secs == state_age_secs,
{
    ClusterStats {
        write_available,
        read_pool_count,
        leader_name: match leader {
            Some(member) => Some(member.name.clone()),
            None => None,
        },
        replica_count: replicas.len(),
        state_age_secs,
    }
}

/// Names of preferences; any other name asks for the least lag.
pub proof fn law_preferences_are_read_by_name(name: Seq<char>)
    ensures
        named_preference(name) == ReadPreference::RoundRobin <==> name == "round_robin"@,
        named_preference(name) == ReadPreference::LeaderOnly <==> name == "leader_only"@,
        named_preference(name) == ReadPreference::LeastLag <==> name != "round_robin"@ && name
            != "leader_only"@,
{
    reveal_strlit("round_robin");
    reveal_strlit("least_lag");
    reveal_strlit("leader_only");
    assert("round_robin"@.len() == 11 && "round_robin"@[0] == 'r');
    assert("least_lag"@.len() == 9);
    assert("leader_only"@.len() == 11 && "leader_only"@[0] == 'l');
}

/// The pool for writes stays while it serves the leader, or while there is none,
/// and is built anew as soon as it serves another target or nothing.
pub proof fn law_pool_follows_the_leader(
    member: ClusterMember,
    installed: Option<Seq<char>>,
    attempt: Seq<char>,
)
    ensures
        leader_target(None) is None,
        leader_target(Some(member)) == Some(
            member.host@ + ":"@ + crate::text::decimal(member.port as nat),
        ),
        write_pool_decision(None, installed) == WritePoolDecision::KeepWithoutLeader,
        installed is None ==> write_pool_decision(leader_target(Some(member)), installed)
            == WritePoolDecision::Rebuild,
        installed == leader_target(Some(member)) ==> write_pool_decision(
            leader_target(Some(member)),
            installed,
        ) == WritePoolDecision::Keep,
        installed is Some && installed != leader_target(Some(member)) ==> write_pool_decision(
            leader_target(Some(member)),
            installed,
        ) == WritePoolDecision::Rebuild,
        recorded_target(installed, Ok(attempt)) == Some(attempt),
        recorded_target(installed, Err(())) == installed,
{
}

/// A pool for reads stays exactly while its host is that of a replica, and pools
/// stay in their order.
pub proof fn law_pools_of_replicas_stay(
    hosts: Seq<Seq<char>>,
    host: Seq<char>,
    replicas: Seq<ClusterMember>,
    listed: Seq<String>,
)
    ensures
        has_host(replicas, host) <==> exists|i: int|
            0 <= i < replicas.len() && (#[trigger] replicas[i]).host@ == host,
        lists_host(listed, host) <==> exists|i: int|
            0 <= i < listed.len() && (#[trigger] listed[i])@ == host,
        kept_hosts(seq![], replicas).len() == 0,
        (exists|i: int| 0 <= i < replicas.len() && (#[trigger] replicas[i]).host@ == host)
            ==> kept_hosts(hosts.push(host), replicas) == kept_hosts(hosts, replicas).push(host),
        (forall|i: int| 0 <= i < replicas.len() ==> (#[trigger] replicas[i]).host@ != host)
            ==> kept_hosts(hosts.push(host), replicas) == kept_hosts(hosts, replicas),
{
    assert(hosts.push(host).drop_last() =~= hosts);
}

/// A pool for writes is installed exactly where the candidate answered, is not in
/// recovery, and is still the leader; every other end says what stood against it.
pub proof fn law_only_the_leader_is_written_to(
    candidate: ClusterMember,
    verification: Verification,
    current: Option<ClusterMember>,
    r: Result<String, InstallError>,
)
    requires
        call_ensures(create_write_pool, (&candidate, verification, &current), r),
    ensures
        r is Ok <==> verification == (Verification::Answered { in_recovery: false })
            && leader_target(current) == Some(target_of(candidate)),
        verification == Verification::TimedOut <==> r matches Err(InstallError::TimedOut { .. }),
        verification == (Verification::Answered { in_recovery: true }) <==> r matches Err(
            InstallError::InRecovery { .. },
        ),
        verification is Failed <==> r matches Err(InstallError::Failed(_)),
{
}

/// A read goes to a replica wherever the preference allows one and there is one
/// to be used; only the turn of the round-robin moves the running number.
pub proof fn law_reads_go_to_replicas_that_can_be_used(
    preference: ReadPreference,
    replicas: Vec<ClusterMember>,
    running_number: usize,
    max_lag_ms: Option<i64>,
    r: (ReadTarget, usize),
)
    requires
        call_ensures(get_read_connection, (preference, &replicas, running_number, max_lag_ms), r),
    ensures
        preference == ReadPreference::LeaderOnly ==> r.0 is Leader,
        replicas@.len() == 0 ==> r.0 is Leader && r.1 == running_number,
        preference != ReadPreference::RoundRobin ==> r.1 == running_number,
        preference == ReadPreference::RoundRobin && replicas@.len() > 0 ==> r.0
            == ReadTarget::Replica(replicas@[running_number as int % replicas@.len() as int]),
        preference == ReadPreference::RoundRobin && replicas@.len() > 0 && running_number
            < usize::MAX ==> r.1 == running_number + 1,
        preference == ReadPreference::RoundRobin && replicas@.len() > 0 && running_number
            == usize::MAX ==> r.1 == 0,
        r.0 matches ReadTarget::Replica(member) ==> replicas@.contains(member),
{
}

/// Reads in turn come round: as many reads as there are replicas go to each of
/// them once.
pub proof fn law_turns_come_round(
    replicas: Vec<ClusterMember>,
    running_number: usize,
    i: int,
    a: (ReadTarget, usize),
    b: (ReadTarget, usize),
    later: usize,
)
    requires
        0 < i < replicas@.len(),
        later == running_number + i,
        forall|j: int, k: int|
            0 <= j < k < replicas@.len() ==> #[trigger] replicas@[j] != #[trigger] replicas@[k],
        call_ensures(
            get_read_connection,
            (ReadPreference::RoundRobin, &replicas, running_number, None::<i64>),
            a,
        ),
        call_ensures(
            get_read_connection,
            (ReadPreference::RoundRobin, &replicas, later, None::<i64>),
            b,
        ),
    ensures
        a.0 != b.0,
{
    let n = replicas@.len() as int;
    let x = running_number as int % n;
    let y = later as int % n;
    vstd::arithmetic::div_mod::lemma_fundamental_div_mod(running_number as int, n);
    vstd::arithmetic::div_mod::lemma_fundamental_div_mod(later as int, n);
    if x == y {
        let p = running_number as int / n;
        let q = later as int / n;
        assert(n * (q - p) == i) by (nonlinear_arith)
            requires
                running_number as int == n * p + x,
                later as int == n * q + y,
                x == y,
                later == running_number + i,
        ;
        assert(false) by (nonlinear_arith)
            requires
                n * (q - p) == i,
                0 < i < n,
        ;
    }
    if x < y {
        assert(replicas@[x] != replicas@[y]);
    } else {
        assert(replicas@[y] != replicas@[x]);
    }
}

} // verus!
