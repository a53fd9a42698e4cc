//! Uploaded files.
use crate::error::RepositoryError;
use crate::ids::Uuid;
use crate::text::same_text;
use crate::time::Timestamp;
use vstd::prelude::*;
use vstd::string::StringExecFns;

verus! {

/// An uploaded file.
#[derive(Debug, Clone)]
pub struct File {
    pub id: Uuid,
    pub filename: String,
    pub bytes: i64,
    pub content_type: String,
    pub purpose: String,
    pub storage_key: String,
    pub workspace_id: Uuid,
    pub uploaded_by_api_key_id: Option<Uuid>,
    pub created_at: Timestamp,
    pub expires_at: Option<Timestamp>,
}

/// How many files a list holds where the caller does not say.
pub const DEFAULT_LIMIT: i64 = 100;

/// The length and the start of a list, with what the caller leaves out filled in.
pub fn list_range(limit: Option<i64>, offset: Option<i64>) -> (r: (i64, i64))
    ensures
        r.0 == (match limit {
            Some(value) => value,
            None => DEFAULT_LIMIT,
        }),
        r.1 == (match offset {
            Some(value) => value,
            None => 0i64,
        }),
{
    let limit: i64 = match limit {
        Some(value) => value,
        None => DEFAULT_LIMIT,
    };
    let offset: i64 = match offset {
        Some(value) => value,
        None => 0,
    };
    (limit, offset)
}

/// What comes after an attempt to store a file.
#[derive(Debug, Clone, Copy, PartialEq, Eq, Structural)]
pub enum CreateStep {
    /// The file is stored.
    Stored,
    /// An earlier attempt stored it, and its answer was lost: it must be read.
    ReadExisting,
}

/// Decides what an attempt to store a file means. The identifier is new, so a
/// record that exists under it was stored by an earlier attempt.
pub fn create(outcome: Result<(), RepositoryError>) -> (r: Result<CreateStep, RepositoryError>)
    ensures
        match outcome {
            Ok(_) => r == Ok::<CreateStep, RepositoryError>(CreateStep::Stored),
            Err(RepositoryError::AlreadyExists) => r == Ok::<CreateStep, RepositoryError>(
                CreateStep::ReadExisting,
            ),
            Err(e) => r == Err::<CreateStep, RepositoryError>(e),
        },
{
    match outcome {
        Ok(_) => Ok(CreateStep::Stored),
        Err(RepositoryError::AlreadyExists) => Ok(CreateStep::ReadExisting),
        Err(e) => Err(e),
    }
}

/// The file that an earlier attempt stored; one that is gone again is an error.
pub fn existing_file(id: Uuid, found: Option<File>) -> (r: Result<File, RepositoryError>)
    ensures
        match r {
            Ok(file) => found == Some(file),
            Err(e) => found is None && e@ == crate::error::RepositoryErrorView::DatabaseError(
                "File "@ + crate::ids::hyphenated(id) + " was reported as existing but not found"@,
            ),
        },
{
    match found {
        Some(file) => Ok(file),
        None => {
            let mut message = "File ".to_owned();
            message.append(id.to_text().as_str());
            message.append(" was reported as existing but not found");
            Err(RepositoryError::DatabaseError(message))
        },
    }
}

/// A value that is bound to a placeholder.
#[derive(Debug, Clone)]
pub enum PageParam {
    Id(Uuid),
    Text(String),
    Count(i64),
}

/// A query and the values to bind, in the order of their placeholders.
#[derive(Debug, Clone)]
pub struct PageQuery {
    pub sql: String,
    pub params: Vec<PageParam>,
}

/// The direction of a list: upwards only where that is asked for.
pub open spec fn direction(order: Seq<char>) -> Seq<char> {
    if order == "asc"@ {
        "ASC"@
    } else {
        "DESC"@
    }
}

/// How the files of a page relate to the one it starts after.
pub open spec fn relation(order: Seq<char>) -> Seq<char> {
    if order == "asc"@ {
        ">"@
    } else {
        "<"@
    }
}

/// The query for a page of files.
pub open spec fn page_text(after: bool, purpose: bool, order: Seq<char>) -> Seq<char> {
    if after && purpose {
        "SELECT f.* FROM files f WHERE f.workspace_id = $1 AND f.purpose = $2 AND f.created_at "@
            + relation(order)
            + " (SELECT created_at FROM files WHERE id = $3) ORDER BY f.created_at "@ + direction(
            order,
        ) + " LIMIT $4"@
    } else if after {
        "SELECT f.* FROM files f WHERE f.workspace_id = $1 AND f.created_at "@ + relation(order)
            + " (SELECT created_at FROM files WHERE id = $2) ORDER BY f.created_at "@ + direction(
            order,
        ) + " LIMIT $3"@
    } else if purpose {
        "SELECT * FROM files WHERE workspace_id = $1 AND purpose = $2 ORDER BY created_at "@
            + direction(order) + " LIMIT $3"@
    } else {
        "SELECT * FROM files WHERE workspace_id = $1 ORDER BY created_at "@ + direction(order)
            + " LIMIT $2"@
    }
}

/// The values that a page of files binds.
pub open spec fn page_params(
    workspace_id: Uuid,
    after: Option<Uuid>,
    limit: i64,
    purpose: Option<String>,
) -> Seq<PageParam> {
    seq![PageParam::Id(workspace_id)] + (match purpose {
        Some(text) => seq![PageParam::Text(text)],
        None => seq![],
    }) + (match after {
        Some(id) => seq![PageParam::Id(id)],
        None => seq![],
    }) + seq![PageParam::Count(limit)]
}

/// The query for the files of a workspace that come after one of them, in one
/// direction, and with one purpose where that is asked for.
pub fn list_with_pagination(
    workspace_id: Uuid,
    after: Option<Uuid>,
    limit: i64,
    order: &str,
    purpose: Option<String>,
) -> (r: PageQuery)
    ensures
        r.sql@ == page_text(after is Some, purpose is Some, order@),
        r.params@ == page_params(workspace_id, after, limit, purpose),
{
    let ascending: bool = same_text(order, "asc");
    let direction_text: &str = if ascending {
        "ASC"
    } else {
        "DESC"
    };
    let relation_text: &str = if ascending {
        ">"
    } else {
        "<"
    };
    let mut params: Vec<PageParam> = Vec::new();
    params.push(PageParam::Id(workspace_id));
    let mut sql: String;
    match (after, purpose) {
        (Some(id), Some(text)) => {
            sql =
            "SELECT f.* FROM files f WHERE f.workspace_id = $1 AND f.purpose = $2 AND f.created_at ".to_owned();
            sql.append(relation_text);
            sql.append(" (SELECT created_at FROM files WHERE id = $3) ORDER BY f.created_at ");
            sql.append(direction_text);
            sql.append(" LIMIT $4");
            params.push(PageParam::Text(text));
            params.push(PageParam::Id(id));
        },
        (Some(id), None) => {
            sql =
            "SELECT f.* FROM files f WHERE f.workspace_id = $1 AND f.created_at ".to_owned();
            sql.append(relation_text);
            sql.append(" (SELECT created_at FROM files WHERE id = $2) ORDER BY f.created_at ");
            sql.append(direction_text);
            sql.append(" LIMIT $3");
            params.push(PageParam::Id(id));
        },
        (None, Some(text)) => {
            sql =
            "SELECT * FROM files WHERE workspace_id = $1 AND purpose = $2 ORDER BY created_at ".to_owned();
            sql.append(direction_text);
            sql.append(" LIMIT $3");
            params.push(PageParam::Text(text));
        },
        (None, None) => {
            sql = "SELECT * FROM files WHERE workspace_id = $1 ORDER BY created_at ".to_owned();
            sql.append(direction_text);
            sql.append(" LIMIT $2");
        },
    }
    params.push(PageParam::Count(limit));
    assert(params@ =~= page_params(workspace_id, after, limit, purpose));
    PageQuery { sql, params }
}

/// Whether a deletion found a file.
pub fn delete(rows_affected: u64) -> (r: bool)
    ensures
        r == (rows_affected > 0),
{
    rows_affected > 0
}

/// A page holds files of the workspace only; upwards from the oldest where that
/// is asked for, and downwards from the newest for any other word.
pub proof fn law_pages_are_asked_for_in_one_direction(order: Seq<char>)
    ensures
        order == "asc"@ ==> page_text(false, false, order)
            == "SELECT * FROM files WHERE workspace_id = $1 ORDER BY created_at "@ + "ASC"@
            + " LIMIT $2"@,
        order != "asc"@ ==> page_text(false, false, order)
            == "SELECT * FROM files WHERE workspace_id = $1 ORDER BY created_at "@ + "DESC"@
            + " LIMIT $2"@,
        order == "asc"@ ==> page_text(false, true, order)
            == "SELECT * FROM files WHERE workspace_id = $1 AND purpose = $2 ORDER BY created_at "@
            + "ASC"@ + " LIMIT $3"@,
        order != "asc"@ ==> page_text(false, true, order)
            == "SELECT * FROM files WHERE workspace_id = $1 AND purpose = $2 ORDER BY created_at "@
            + "DESC"@ + " LIMIT $3"@,
        order == "asc"@ ==> page_text(true, false, order)
            == "SELECT f.* FROM files f WHERE f.workspace_id = $1 AND f.created_at "@ + ">"@
            + " (SELECT created_at FROM files WHERE id = $2) ORDER BY f.created_at "@ + "ASC"@
            + " LIMIT $3"@,
        order != "asc"@ ==> page_text(true, false, order)
            == "SELECT f.* FROM files f WHERE f.workspace_id = $1 AND f.created_at "@ + "<"@
            + " (SELECT created_at FROM files WHERE id = $2) ORDER BY f.created_at "@ + "DESC"@
            + " LIMIT $3"@,
        order == "asc"@ ==> page_text(true, true, order)
            == "SELECT f.* FROM files f WHERE f.workspace_id = $1 AND f.purpose = $2 AND f.created_at "@
            + ">"@ + " (SELECT created_at FROM files WHERE id = $3) ORDER BY f.created_at "@
            + "ASC"@ + " LIMIT $4"@,
        order != "asc"@ ==> page_text(true, true, order)
            == "SELECT f.* FROM files f WHERE f.workspace_id = $1 AND f.purpose = $2 AND f.created_at "@
            + "<"@ + " (SELECT created_at FROM files WHERE id = $3) ORDER BY f.created_at "@
            + "DESC"@ + " LIMIT $4"@,
{
}

/// The workspace is bound first, the limit last; the purpose stands before the
/// file that the page starts after.
pub proof fn law_pages_bind_what_they_ask_for(
    workspace_id: Uuid,
    after: Option<Uuid>,
    limit: i64,
    purpose: Option<String>,
)
    ensures
        ({
            let params = page_params(workspace_id, after, limit, purpose);
            &&& params[0] == PageParam::Id(workspace_id)
            &&& params.last() == PageParam::Count(limit)
            &&& params.len() == 2 + (if after is Some {
                1int
            } else {
                0
            }) + (if purpose is Some {
                1int
            } else {
                0
            })
            &&& purpose matches Some(text) ==> params[1] == PageParam::Text(text)
            &&& after matches Some(id) ==> params[params.len() - 2] == PageParam::Id(id)
        }),
{
}

/// A list begins at the beginning and holds a hundred files, unless the caller
/// says otherwise.
pub proof fn law_lists_have_a_usual_range(
    limit: i64,
    offset: i64,
    given: (i64, i64),
    usual: (i64, i64),
)
    requires
        call_ensures(list_range, (Some(limit), Some(offset)), given),
        call_ensures(list_range, (None::<i64>, None::<i64>), usual),
    ensures
        given == (limit, offset),
        usual == (100i64, 0i64),
{
}

/// A file that is there already was stored by an earlier attempt, and is read; any
/// other failure is passed on.
pub proof fn law_repeated_attempts_store_once(
    outcome: Result<(), RepositoryError>,
    r: Result<CreateStep, RepositoryError>,
)
    requires
        call_ensures(create, (outcome,), r),
    ensures
        r == Ok::<CreateStep, RepositoryError>(CreateStep::Stored) <==> outcome is Ok,
        r == Ok::<CreateStep, RepositoryError>(CreateStep::ReadExisting) <==> (
        outcome matches Err(RepositoryError::AlreadyExists)),
        r matches Err(e) ==> outcome == Err::<(), RepositoryError>(e),
{
}

} // verus!
