//! Requests for features, and who supports them.
use crate::ids::Uuid;
use crate::time::Timestamp;
use vstd::prelude::*;

verus! {

/// How many supporters of a request are shown.
pub const SHOWN_VOTES: i64 = 3;

/// What is asked for.
#[derive(Debug, Clone)]
pub struct FeatureRequestTarget {
    pub id: Uuid,
    pub kind: String,
    pub key: String,
    pub title: String,
    pub status: String,
    pub created_at: Timestamp,
    pub updated_at: Timestamp,
}

/// One supporter of a request.
#[derive(Debug, Clone)]
pub struct FeatureRequestVoteSummary {
    pub user_id: Uuid,
    pub user_email: String,
    pub user_display_name: Option<String>,
    pub organization_id: Option<Uuid>,
    pub organization_name: Option<String>,
    pub note: Option<String>,
    pub source: Option<String>,
    pub updated_at: Timestamp,
}

/// One supporter of a request, with the request.
#[derive(Debug, Clone)]
pub struct FeatureRequestVoteRow {
    pub target_id: Uuid,
    pub vote: FeatureRequestVoteSummary,
}

/// A request and how far it is supported.
#[derive(Debug, Clone)]
pub struct FeatureRequestSummary {
    pub target: FeatureRequestTarget,
    pub unique_user_count: i64,
    pub unique_organization_count: i64,
    pub latest_requested_at: Timestamp,
    pub recent_votes: Vec<FeatureRequestVoteSummary>,
}

/// A request and how far it is supported, before its supporters are known.
#[derive(Debug, Clone)]
pub struct FeatureRequestRow {
    pub target: FeatureRequestTarget,
    pub unique_user_count: i64,
    pub unique_organization_count: i64,
    pub latest_requested_at: Timestamp,
}

/// A request to submit.
#[derive(Debug, Clone)]
pub struct SubmitFeatureRequestParams {
    pub kind: String,
    pub key: String,
    pub title: String,
    pub user_id: Uuid,
    pub organization_id: Option<Uuid>,
    pub note: Option<String>,
    pub source: Option<String>,
}

/// A request that was submitted.
#[derive(Debug, Clone)]
pub struct SubmitFeatureRequestResult {
    pub target: FeatureRequestTarget,
    pub unique_user_count: i64,
}

fn copy_vote(vote: &FeatureRequestVoteSummary) -> (r: FeatureRequestVoteSummary)
    ensures
        r == *vote,
{
    FeatureRequestVoteSummary {
        user_id: vote.user_id,
        user_email: vote.user_email.clone(),
        user_display_name: crate::text::copy_optional(&vote.user_display_name),
        organization_id: vote.organization_id,
        organization_name: crate::text::copy_optional(&vote.organization_name),
        note: crate::text::copy_optional(&vote.note),
        source: crate::text::copy_optional(&vote.source),
        updated_at: vote.updated_at,
    }
}

/// The identifiers of the requests on a page, for which supporters are read;
/// none where the page is empty.
pub fn vote_targets(rows: &Vec<FeatureRequestRow>) -> (r: Option<Vec<Uuid>>)
    ensures
        r is None <==> rows@.len() == 0,
        r matches Some(ids) ==> ids@ == rows@.map_values(|row: FeatureRequestRow| row.target.id),
{
    if rows.len() == 0 {
        return None;
    }
    let mut ids: Vec<Uuid> = Vec::new();
    let mut i: usize = 0;
    while i < rows.len()
        invariant
            i <= rows@.len(),
            ids@ == rows@.take(i as int).map_values(|row: FeatureRequestRow| row.target.id),
        decreases rows.len() - i,
    {
        ids.push(rows[i].target.id);
        proof {
            assert(rows@.take(i + 1) =~= rows@.take(i as int).push(rows@[i as int]));
            assert(ids@ =~= rows@.take(i + 1).map_values(|row: FeatureRequestRow| row.target.id));
        }
        i = i + 1;
    }
    assert(rows@.take(rows@.len() as int) =~= rows@);
    Some(ids)
}

/// The supporters of a request, in their order.
pub open spec fn votes_for(votes: Seq<FeatureRequestVoteRow>, id: Uuid) -> Seq<
    FeatureRequestVoteSummary,
> {
    votes.filter(|row: FeatureRequestVoteRow| row.target_id == id).map_values(
        |row: FeatureRequestVoteRow| row.vote,
    )
}

/// Whether a request comes earlier on its page.
pub open spec fn seen_before(rows: Seq<FeatureRequestRow>, at: int) -> bool {
    exists|k: int| 0 <= k < at && (#[trigger] rows[k]).target.id == rows[at].target.id
}

/// What the page shows of a request. Its supporters come with its first
/// appearance.
pub open spec fn shows(
    rows: Seq<FeatureRequestRow>,
    votes: Seq<FeatureRequestVoteRow>,
    at: int,
    summary: FeatureRequestSummary,
) -> bool {
    &&& summary.target == rows[at].target
    &&& summary.unique_user_count == rows[at].unique_user_count
    &&& summary.unique_organization_count == rows[at].unique_organization_count
    &&& summary.latest_requested_at == rows[at].latest_requested_at
    &&& summary.recent_votes@ == (if seen_before(rows, at) {
        seq![]
    } else {
        votes_for(votes, rows[at].target.id)
    })
}

fn collect_votes(votes: &Vec<FeatureRequestVoteRow>, id: Uuid) -> (r: Vec<
    FeatureRequestVoteSummary,
>)
    ensures
        r@ == votes_for(votes@, id),
{
    let mut found: Vec<FeatureRequestVoteSummary> = Vec::new();
    let mut i: usize = 0;
    proof {
        reveal(Seq::filter);
        assert(votes@.take(0) =~= seq![]);
        assert(found@ =~= votes_for(votes@.take(0), id));
    }
    while i < votes.len()
        invariant
            i <= votes@.len(),
            found@ == votes_for(votes@.take(i as int), id),
        decreases votes.len() - i,
    {
        proof {
            reveal(Seq::filter);
            assert(votes@.take(i + 1).drop_last() =~= votes@.take(i as int));
            assert(votes@.take(i + 1).last() == votes@[i as int]);
        }
        if votes[i].target_id == id {
            found.push(copy_vote(&votes[i].vote));
            assert(found@ =~= votes_for(votes@.take(i + 1), id));
        }
        i = i + 1;
    }
    assert(votes@.take(votes@.len() as int) =~= votes@);
    found
}

fn copy_target(target: &FeatureRequestTarget) -> (r: FeatureRequestTarget)
    ensures
        r == *target,
{
    FeatureRequestTarget {
        id: target.id,
        kind: target.kind.clone(),
        key: target.key.clone(),
        title: target.title.clone(),
        status: target.status.clone(),
        created_at: target.created_at,
        updated_at: target.updated_at,
    }
}

/// A page of requests, each with its supporters.
pub fn list_admin(rows: &Vec<FeatureRequestRow>, votes: &Vec<FeatureRequestVoteRow>) -> (r: Vec<
    FeatureRequestSummary,
>)
    ensures
        r@.len() == rows@.len(),
        forall|i: int| 0 <= i < r@.len() ==> shows(rows@, votes@, i, #[trigger] r@[i]),
{
    let mut summaries: Vec<FeatureRequestSummary> = Vec::new();
    let mut i: usize = 0;
    while i < rows.len()
        invariant
            i <= rows@.len(),
            summaries@.len() == i,
            forall|k: int| 0 <= k < i ==> shows(rows@, votes@, k, #[trigger] summaries@[k]),
        decreases rows.len() - i,
    {
        let mut repeated: bool = false;
        let mut k: usize = 0;
        while k < i
            invariant
                k <= i < rows@.len(),
                repeated == exists|j: int|
                    0 <= j < k && (#[trigger] rows@[j]).target.id == rows@[i as int].target.id,
            decreases i - k,
        {
            if rows[k].target.id == rows[i].target.id {
                repeated = true;
            }
            k = k + 1;
        }
        let recent_votes = if repeated {
            Vec::new()
        } else {
            collect_votes(votes, rows[i].target.id)
        };
        summaries.push(
            FeatureRequestSummary {
                target: copy_target(&rows[i].target),
                unique_user_count: rows[i].unique_user_count,
                unique_organization_count: rows[i].unique_organization_count,
                latest_requested_at: rows[i].latest_requested_at,
                recent_votes,
            },
        );
        assert(shows(rows@, votes@, i as int, summaries@[i as int]));
        i = i + 1;
    }
    summaries
}

/// Every supporter of a request on the page is shown with it.
pub proof fn law_votes_stay_with_their_request(
    rows: Seq<FeatureRequestRow>,
    votes: Seq<FeatureRequestVoteRow>,
    at: int,
    summary: FeatureRequestSummary,
    v: int,
)
    requires
        0 <= at < rows.len(),
        !seen_before(rows, at),
        shows(rows, votes, at, summary),
        0 <= v < votes.len(),
        votes[v].target_id == rows[at].target.id,
    ensures
        summary.recent_votes@.contains(votes[v].vote),
{
    let id = rows[at].target.id;
    let keep = |row: FeatureRequestVoteRow| row.target_id == id;
    let kept = votes.filter(keep);
    votes.lemma_filter_contains(keep, v);
    let k = choose|k: int| 0 <= k < kept.len() && kept[k] == votes[v];
    assert(votes_for(votes, id)[k] == votes[v].vote);
}

/// A further vote is shown, last, with the request that it is for, and with no
/// other one.
pub proof fn law_each_vote_is_shown_once(
    votes: Seq<FeatureRequestVoteRow>,
    row: FeatureRequestVoteRow,
    id: Uuid,
)
    ensures
        votes_for(seq![], id).len() == 0,
        row.target_id == id ==> votes_for(votes.push(row), id) == votes_for(votes, id).push(
            row.vote,
        ),
        row.target_id != id ==> votes_for(votes.push(row), id) == votes_for(votes, id),
{
    reveal(Seq::filter);
    assert(votes.push(row).drop_last() =~= votes);
    assert(votes_for(seq![], id) =~= seq![]);
    if row.target_id == id {
        assert(votes_for(votes.push(row), id) =~= votes_for(votes, id).push(row.vote));
    } else {
        assert(votes_for(votes.push(row), id) =~= votes_for(votes, id));
    }
}

/// A summary shows the request and its counts as they are stored; its votes come
/// where the request first appears, and with no later one.
pub proof fn law_summaries_show_their_request(
    rows: Seq<FeatureRequestRow>,
    votes: Seq<FeatureRequestVoteRow>,
    at: int,
    summary: FeatureRequestSummary,
)
    requires
        0 <= at < rows.len(),
        shows(rows, votes, at, summary),
    ensures
        summary.target == rows[at].target,
        summary.unique_user_count == rows[at].unique_user_count,
        summary.unique_organization_count == rows[at].unique_organization_count,
        summary.latest_requested_at == rows[at].latest_requested_at,
        (forall|k: int| 0 <= k < at ==> (#[trigger] rows[k]).target.id != rows[at].target.id)
            ==> summary.recent_votes@ == votes_for(votes, rows[at].target.id),
        (exists|k: int| 0 <= k < at && (#[trigger] rows[k]).target.id == rows[at].target.id)
            ==> summary.recent_votes@.len() == 0,
{
}

} // verus!
