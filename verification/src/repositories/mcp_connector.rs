//! Connectors to external servers.
use crate::ids::Uuid;
use crate::json::{write_object, JsonScalar};
use crate::models::{
    CreateMcpConnectorRequest, McpAuthType, McpConnectionStatus, McpConnector,
    UpdateMcpConnectorRequest,
};
use crate::text::{decimal_text, same_text};
use crate::time::Timestamp;
use vstd::prelude::*;
use vstd::string::StringExecFns;

verus! {

/// The configuration of a bearer token, as JSON.
pub open spec fn bearer_config(token: Seq<char>) -> Seq<char> {
    crate::json::written_object(seq![("token"@, crate::json::JsonScalarView::Text(token))])
}

/// Writes the configuration of a bearer token.
pub fn bearer_config_text(token: &str) -> (r: String)
    ensures
        r@ == bearer_config(token@),
        crate::json::member(r@, "token"@) == Some(crate::json::JsonView::Text(token@)),
{
    let mut members: Vec<(String, JsonScalar)> = Vec::new();
    members.push(("token".to_owned(), JsonScalar::Text(token.to_owned())));
    let ghost given = members@;
    proof {
        assert(crate::json::scalars_view(given) =~= seq![
            ("token"@, crate::json::JsonScalarView::Text(token@)),
        ]);
    }
    let text = write_object(members);
    assert(crate::json::member(text@, given[0].0@) == Some(
        crate::json::scalar_json(given[0].1@),
    ));
    text
}

/// The configuration that a request for a new connector stores: that of its
/// token, where it has one.
pub fn create(request: &CreateMcpConnectorRequest) -> (r: Option<String>)
    ensures
        crate::text::optional_view(r) == (match request.bearer_token {
            Some(token) => Some(bearer_config(token@)),
            None => None,
        }),
{
    match &request.bearer_token {
        Some(token) => Some(bearer_config_text(token.as_str())),
        None => None,
    }
}

/// A value that is bound to a placeholder.
#[derive(Debug, Clone)]
pub enum UpdateParam {
    Now(Timestamp),
    Text(String),
    Json(String),
    Flag(bool),
    Id(Uuid),
}

/// A bound value with its text as characters.
pub enum UpdateParamView {
    Now(Timestamp),
    Text(Seq<char>),
    Json(Seq<char>),
    Flag(bool),
    Id(Uuid),
}

impl View for UpdateParam {
    type V = UpdateParamView;

    open spec fn view(&self) -> UpdateParamView {
        match self {
            UpdateParam::Now(t) => UpdateParamView::Now(*t),
            UpdateParam::Text(text) => UpdateParamView::Text(text@),
            UpdateParam::Json(text) => UpdateParamView::Json(text@),
            UpdateParam::Flag(flag) => UpdateParamView::Flag(*flag),
            UpdateParam::Id(id) => UpdateParamView::Id(*id),
        }
    }
}

/// A column that a request sets, and its new value.
pub type Assignment = (Seq<char>, UpdateParamView);

/// One assignment, or none.
pub open spec fn assign(column: Seq<char>, value: Option<UpdateParamView>) -> Seq<Assignment> {
    match value {
        Some(v) => seq![(column, v)],
        None => seq![],
    }
}

/// The text of an optional value as a bound value.
pub open spec fn text_param(value: Option<String>) -> Option<UpdateParamView> {
    match value {
        Some(text) => Some(UpdateParamView::Text(text@)),
        None => None,
    }
}

/// What a request sets, in the order in which it is written.
pub open spec fn assignments(request: UpdateMcpConnectorRequest) -> Seq<Assignment> {
    assign("name"@, text_param(request.name)) + assign(
        "description"@,
        text_param(request.description),
    ) + assign("mcp_server_url"@, text_param(request.mcp_server_url)) + assign(
        "auth_type"@,
        match request.auth_type {
            Some(auth) => Some(UpdateParamView::Text(auth.name())),
            None => None,
        },
    ) + assign(
        "auth_config"@,
        match request.bearer_token {
            Some(token) => Some(UpdateParamView::Json(bearer_config(token@))),
            None => None,
        },
    ) + assign(
        "is_active"@,
        match request.is_active {
            Some(flag) => Some(UpdateParamView::Flag(flag)),
            None => None,
        },
    )
}

/// The beginning of the statement.
pub const UPDATE_HEAD: &'static str = "UPDATE mcp_connectors SET updated_at = $1";

/// The statement up to and with the assignments.
pub open spec fn assignments_text(list: Seq<Assignment>) -> Seq<char>
    decreases list.len(),
{
    if list.len() == 0 {
        UPDATE_HEAD@
    } else {
        assignments_text(list.drop_last()) + ", "@ + list.last().0 + " = $"@
            + crate::text::decimal((list.len() + 1) as nat)
    }
}

/// The statement: one placeholder for the time, one for each assignment, and
/// one for the connector.
pub open spec fn update_text(list: Seq<Assignment>) -> Seq<char> {
    assignments_text(list) + " WHERE id = $"@ + crate::text::decimal((list.len() + 2) as nat)
        + " RETURNING *"@
}

/// The values to bind, in the order of their placeholders.
pub open spec fn bound_values(list: Seq<Assignment>, now: Timestamp, id: Uuid) -> Seq<
    UpdateParamView,
> {
    seq![UpdateParamView::Now(now)] + list.map_values(|a: Assignment| a.1) + seq![
        UpdateParamView::Id(id),
    ]
}

/// The views of bound values.
pub open spec fn params_view(params: Seq<UpdateParam>) -> Seq<UpdateParamView> {
    params.map_values(|p: UpdateParam| p@)
}

/// A statement and the values to bind.
#[derive(Debug, Clone)]
pub struct UpdateStatement {
    pub sql: String,
    pub params: Vec<UpdateParam>,
}

/// Whether a statement begins with the assignments of a list and binds them.
pub open spec fn holds(
    statement: UpdateStatement,
    list: Seq<Assignment>,
    now: Timestamp,
) -> bool {
    &&& statement.sql@ == assignments_text(list)
    &&& params_view(statement.params@) == seq![UpdateParamView::Now(now)] + list.map_values(
        |a: Assignment| a.1,
    )
}

fn set_column(
    statement: &mut UpdateStatement,
    column: &str,
    value: Option<UpdateParam>,
    Ghost(list): Ghost<Seq<Assignment>>,
    now: Timestamp,
)
    requires
        holds(*old(statement), list, now),
        list.len() < 100,
    ensures
        holds(
            *final(statement),
            list + assign(
                column@,
                match value {
                    Some(v) => Some(v@),
                    None => None,
                },
            ),
            now,
        ),
{
    match value {
        None => {
            assert(list + seq![] =~= list);
        },
        Some(v) => {
            let ghost longer = list.push((column@, v@));
            proof {
                assert(params_view(statement.params@).len() == list.len() + 1);
                assert(statement.params@.len() == list.len() + 1);
            }
            let number: u64 = statement.params.len() as u64 + 1;
            statement.sql.append(", ");
            statement.sql.append(column);
            statement.sql.append(" = $");
            statement.sql.append(decimal_text(number).as_str());
            let ghost before = params_view(statement.params@);
            statement.params.push(v);
            proof {
                assert(longer.drop_last() =~= list);
                assert(list + assign(column@, Some(v@)) =~= longer);
                assert(params_view(statement.params@) =~= before.push(v@));
                assert(longer.map_values(|a: Assignment| a.1) =~= list.map_values(
                    |a: Assignment| a.1,
                ).push(v@));
                assert(params_view(statement.params@) =~= seq![UpdateParamView::Now(now)]
                    + longer.map_values(|a: Assignment| a.1));
            }
        },
    }
}

fn text_value(value: &Option<String>) -> (r: Option<UpdateParam>)
    ensures
        text_param(*value) == (match r {
            Some(v) => Some(v@),
            None => None,
        }),
{
    match value {
        Some(text) => Some(UpdateParam::Text(text.clone())),
        None => None,
    }
}

/// The statement that changes a connector. What the request leaves out keeps
/// its value.
pub fn update(id: Uuid, request: &UpdateMcpConnectorRequest, now: Timestamp) -> (r: UpdateStatement)
    ensures
        r.sql@ == update_text(assignments(*request)),
        params_view(r.params@) == bound_values(assignments(*request), now, id),
{
    let mut params: Vec<UpdateParam> = Vec::new();
    params.push(UpdateParam::Now(now));
    let mut statement = UpdateStatement { sql: UPDATE_HEAD.to_owned(), params };
    let ghost list0: Seq<Assignment> = seq![];
    proof {
        assert(params_view(statement.params@) =~= seq![UpdateParamView::Now(now)]
            + list0.map_values(|a: Assignment| a.1));
    }
    set_column(&mut statement, "name", text_value(&request.name), Ghost(list0), now);
    let ghost list1 = list0 + assign("name"@, text_param(request.name));
    set_column(&mut statement, "description", text_value(&request.description), Ghost(list1), now);
    let ghost list2 = list1 + assign("description"@, text_param(request.description));
    set_column(
        &mut statement,
        "mcp_server_url",
        text_value(&request.mcp_server_url),
        Ghost(list2),
        now,
    );
    let ghost list3 = list2 + assign("mcp_server_url"@, text_param(request.mcp_server_url));
    let auth_type = match &request.auth_type {
        Some(auth) => Some(UpdateParam::Text(auth.as_str().to_owned())),
        None => None,
    };
    let ghost auth_view = match request.auth_type {
        Some(auth) => Some(UpdateParamView::Text(auth.name())),
        None => None,
    };
    set_column(&mut statement, "auth_type", auth_type, Ghost(list3), now);
    let ghost list4 = list3 + assign("auth_type"@, auth_view);
    let auth_config = match &request.bearer_token {
        Some(token) => Some(UpdateParam::Json(bearer_config_text(token.as_str()))),
        None => None,
    };
    let ghost config_view = match &request.bearer_token {
        Some(token) => Some(UpdateParamView::Json(bearer_config(token@))),
        None => None,
    };
    set_column(&mut statement, "auth_config", auth_config, Ghost(list4), now);
    let ghost list5 = list4 + assign("auth_config"@, config_view);
    let is_active = match request.is_active {
        Some(flag) => Some(UpdateParam::Flag(flag)),
        None => None,
    };
    let ghost active_view = match request.is_active {
        Some(flag) => Some(UpdateParamView::Flag(flag)),
        None => None,
    };
    set_column(&mut statement, "is_active", is_active, Ghost(list5), now);
    let ghost list6 = list5 + assign("is_active"@, active_view);
    proof {
        assert(list6 =~= assignments(*request));
        assert(params_view(statement.params@).len() == list6.len() + 1);
        assert(statement.params@.len() == list6.len() + 1);
        assert(list6.len() <= 6);
    }
    let number: u64 = statement.params.len() as u64 + 1;
    statement.sql.append(" WHERE id = $");
    statement.sql.append(decimal_text(number).as_str());
    statement.sql.append(" RETURNING *");
    let ghost before = params_view(statement.params@);
    statement.params.push(UpdateParam::Id(id));
    proof {
        assert(params_view(statement.params@) =~= before + seq![UpdateParamView::Id(id)]);
    }
    statement
}

/// Every placeholder of the statement has a value bound to it: their highest
/// number is the number of values, and the one of an assignment is that of its
/// value.
pub proof fn law_placeholders_match_values(
    request: UpdateMcpConnectorRequest,
    now: Timestamp,
    id: Uuid,
    i: int,
)
    requires
        0 <= i < assignments(request).len(),
    ensures
        bound_values(assignments(request), now, id).len() == assignments(request).len() + 2,
        bound_values(assignments(request), now, id)[i + 1] == assignments(request)[i].1,
        bound_values(assignments(request), now, id)[assignments(request).len() as int + 1]
            == UpdateParamView::Id(id),
{
}

/// Reports a connector that does not exist.
pub fn delete(rows_deleted: u64) -> (r: Result<(), String>)
    ensures
        match r {
            Ok(_) => rows_deleted > 0,
            Err(message) => rows_deleted == 0 && message@ == "MCP connector not found"@,
        },
{
    if rows_deleted == 0 {
        Err("MCP connector not found".to_owned())
    } else {
        Ok(())
    }
}

/// A new status of a connector, as it is stored.
#[derive(Debug, Clone, Copy)]
pub struct StatusChange {
    pub status: &'static str,
    /// When the connector was last connected, where that changes.
    pub last_connected_at: Option<Timestamp>,
}

/// The change of the status of a connector: the time of the last connection
/// moves only with a connection.
pub fn update_connection_status(status: McpConnectionStatus, now: Timestamp) -> (r: StatusChange)
    ensures
        r.status@ == status.name(),
        r.last_connected_at == (if status == McpConnectionStatus::Connected {
            Some(now)
        } else {
            None
        }),
{
    StatusChange {
        status: status.as_str(),
        last_connected_at: if status == McpConnectionStatus::Connected {
            Some(now)
        } else {
            None
        },
    }
}

/// A connector as it is stored.
#[derive(Debug, Clone)]
pub struct McpConnectorRow {
    pub id: Uuid,
    pub organization_id: Uuid,
    pub name: String,
    pub description: Option<String>,
    pub mcp_server_url: String,
    pub auth_type: String,
    pub auth_config: Option<String>,
    pub is_active: bool,
    pub created_by: Uuid,
    pub created_at: Timestamp,
    pub updated_at: Timestamp,
    pub last_connected_at: Option<Timestamp>,
    pub connection_status: String,
    pub error_message: Option<String>,
    pub capabilities: Option<String>,
    pub metadata: Option<String>,
}

/// The authentication type that a stored name stands for.
pub open spec fn named_auth_type(name: Seq<char>) -> Option<McpAuthType> {
    if name == "none"@ {
        Some(McpAuthType::NoAuth)
    } else if name == "bearer"@ {
        Some(McpAuthType::Bearer)
    } else {
        None
    }
}

/// The status that a stored name stands for; any other name is pending.
pub open spec fn named_status(name: Seq<char>) -> McpConnectionStatus {
    if name == "pending"@ {
        McpConnectionStatus::Pending
    } else if name == "connected"@ {
        McpConnectionStatus::Connected
    } else if name == "failed"@ {
        McpConnectionStatus::Failed
    } else {
        McpConnectionStatus::Pending
    }
}

/// Reads a stored connector.
pub fn row_to_connector(row: McpConnectorRow) -> (r: Result<McpConnector, String>)
    ensures
        match r {
            Ok(connector) => {
                &&& named_auth_type(row.auth_type@) == Some(connector.auth_type)
                &&& connector.connection_status == named_status(row.connection_status@)
                &&& connector.id == row.id
                &&& connector.organization_id == row.organization_id
                &&& connector.name == row.name
                &&& connector.description == row.description
                &&& connector.mcp_server_url == row.mcp_server_url
                &&& connector.auth_config == row.auth_config
                &&& connector.is_active == row.is_active
                &&& connector.created_by == row.created_by
                &&& connector.created_at == row.created_at
                &&& connector.updated_at == row.updated_at
                &&& connector.last_connected_at == row.last_connected_at
                &&& connector.error_message == row.error_message
                &&& connector.capabilities == row.capabilities
                &&& connector.metadata == row.metadata
            },
            Err(message) => named_auth_type(row.auth_type@) is None && message@
                == "Invalid auth type: "@ + row.auth_type@,
        },
{
    let auth_type = if same_text(row.auth_type.as_str(), "none") {
        McpAuthType::NoAuth
    } else if same_text(row.auth_type.as_str(), "bearer") {
        McpAuthType::Bearer
    } else {
        let mut message = "Invalid auth type: ".to_owned();
        message.append(row.auth_type.as_str());
        return Err(message);
    };
    let connection_status = if same_text(row.connection_status.as_str(), "pending") {
        McpConnectionStatus::Pending
    } else if same_text(row.connection_status.as_str(), "connected") {
        McpConnectionStatus::Connected
    } else if same_text(row.connection_status.as_str(), "failed") {
        McpConnectionStatus::Failed
    } else {
        McpConnectionStatus::Pending
    };
    Ok(
        McpConnector {
            id: row.id,
            organization_id: row.organization_id,
            name: row.name,
            description: row.description,
            mcp_server_url: row.mcp_server_url,
            auth_type,
            auth_config: row.auth_config,
            is_active: row.is_active,
            created_by: row.created_by,
            created_at: row.created_at,
            updated_at: row.updated_at,
            last_connected_at: row.last_connected_at,
            connection_status,
            error_message: row.error_message,
            capabilities: row.capabilities,
            metadata: row.metadata,
        },
    )
}

/// Stored names stand for what they were written for.
pub proof fn law_stored_names_read_back(auth_type: McpAuthType, status: McpConnectionStatus)
    ensures
        named_auth_type(auth_type.name()) == Some(auth_type),
        named_status(status.name()) == status,
{
    reveal_strlit("none");
    reveal_strlit("bearer");
    reveal_strlit("pending");
    reveal_strlit("connected");
    reveal_strlit("failed");
    assert("none"@.len() == 4);
    assert("bearer"@.len() == 6);
    assert("pending"@.len() == 7);
    assert("connected"@.len() == 9);
    assert("failed"@.len() == 6);
}

/// A change sets each column that the request names, to the value that it gives,
/// and no other one.
pub proof fn law_given_columns_are_set(request: UpdateMcpConnectorRequest)
    ensures
        ({
            let list = assignments(request);
            &&& list.len() == (if request.name is Some {
                1int
            } else {
                0
            }) + (if request.description is Some {
                1int
            } else {
                0
            }) + (if request.mcp_server_url is Some {
                1int
            } else {
                0
            }) + (if request.auth_type is Some {
                1int
            } else {
                0
            }) + (if request.bearer_token is Some {
                1int
            } else {
                0
            }) + (if request.is_active is Some {
                1int
            } else {
                0
            })
            &&& request.name matches Some(text) ==> list.contains(
                ("name"@, UpdateParamView::Text(text@)),
            )
            &&& request.description matches Some(text) ==> list.contains(
                ("description"@, UpdateParamView::Text(text@)),
            )
            &&& request.mcp_server_url matches Some(text) ==> list.contains(
                ("mcp_server_url"@, UpdateParamView::Text(text@)),
            )
            &&& request.auth_type == Some(McpAuthType::NoAuth) ==> list.contains(
                ("auth_type"@, UpdateParamView::Text("none"@)),
            )
            &&& request.auth_type == Some(McpAuthType::Bearer) ==> list.contains(
                ("auth_type"@, UpdateParamView::Text("bearer"@)),
            )
            &&& request.bearer_token matches Some(token) ==> list.contains(
                (
                    "auth_config"@,
                    UpdateParamView::Json(
                        crate::json::written_object(
                            seq![("token"@, crate::json::JsonScalarView::Text(token@))],
                        ),
                    ),
                ),
            )
            &&& request.is_active matches Some(flag) ==> list.contains(
                ("is_active"@, UpdateParamView::Flag(flag)),
            )
        }),
{
    let list = assignments(request);
    let a = assign("name"@, text_param(request.name));
    let b = assign("description"@, text_param(request.description));
    let c = assign("mcp_server_url"@, text_param(request.mcp_server_url));
    let auth = match request.auth_type {
        Some(auth) => Some(UpdateParamView::Text(auth.name())),
        None => None,
    };
    let d = assign("auth_type"@, auth);
    let config = match request.bearer_token {
        Some(token) => Some(UpdateParamView::Json(bearer_config(token@))),
        None => None,
    };
    let e = assign("auth_config"@, config);
    assert(a.len() > 0 ==> list[0] == a[0]);
    assert(b.len() > 0 ==> list[a.len() as int] == b[0]);
    assert(c.len() > 0 ==> list[(a.len() + b.len()) as int] == c[0]);
    assert(d.len() > 0 ==> list[(a.len() + b.len() + c.len()) as int] == d[0]);
    assert(e.len() > 0 ==> list[(a.len() + b.len() + c.len() + d.len()) as int] == e[0]);
    if let Some(flag) = request.is_active {
        assert(list[list.len() - 1] == ("is_active"@, UpdateParamView::Flag(flag)));
    }
}

/// Each assignment is written behind the ones before it, under the number at
/// which its value is bound; the row is found by the identifier, bound last.
pub proof fn law_assignments_are_written_in_order(
    list: Seq<Assignment>,
    column: Seq<char>,
    value: UpdateParamView,
    now: Timestamp,
    id: Uuid,
)
    ensures
        assignments_text(seq![]) == "UPDATE mcp_connectors SET updated_at = $1"@,
        assignments_text(list.push((column, value))) == assignments_text(list) + ", "@ + column
            + " = $"@ + crate::text::decimal((list.len() + 2) as nat),
        update_text(list) == assignments_text(list) + " WHERE id = $"@ + crate::text::decimal(
            (list.len() + 2) as nat,
        ) + " RETURNING *"@,
        bound_values(list, now, id)[0] == UpdateParamView::Now(now),
        bound_values(list.push((column, value)), now, id)[list.len() as int + 1] == value,
        bound_values(list, now, id).last() == UpdateParamView::Id(id),
{
    assert(list.push((column, value)).drop_last() =~= list);
}

/// Two kinds of authentication are known; a status that is not known is pending.
pub proof fn law_connector_names_are_read(name: Seq<char>)
    ensures
        named_auth_type(name) == Some(McpAuthType::NoAuth) <==> name == "none"@,
        named_auth_type(name) == Some(McpAuthType::Bearer) <==> name == "bearer"@,
        named_auth_type(name) is None <==> name != "none"@ && name != "bearer"@,
        named_status(name) == McpConnectionStatus::Connected <==> name == "connected"@,
        named_status(name) == McpConnectionStatus::Failed <==> name == "failed"@,
{
    law_stored_names_read_back(McpAuthType::NoAuth, McpConnectionStatus::Connected);
    law_stored_names_read_back(McpAuthType::Bearer, McpConnectionStatus::Failed);
    reveal_strlit("none");
    reveal_strlit("bearer");
    reveal_strlit("pending");
    reveal_strlit("connected");
    reveal_strlit("failed");
    assert("none"@.len() == 4);
    assert("bearer"@.len() == 6);
    assert("pending"@.len() == 7);
    assert("connected"@.len() == 9);
    assert("failed"@.len() == 6);
}

/// A connector is read field by field, where its kind of authentication is known.
pub proof fn law_connectors_are_read_field_by_field(
    row: McpConnectorRow,
    r: Result<McpConnector, String>,
)
    requires
        call_ensures(row_to_connector, (row,), r),
    ensures
        r is Ok <==> row.auth_type@ == "none"@ || row.auth_type@ == "bearer"@,
        r matches Err(message) ==> message@ == "Invalid auth type: "@ + row.auth_type@,
        r matches Ok(connector) ==> {
            &&& connector.id == row.id
            &&& connector.organization_id == row.organization_id
            &&& connector.name == row.name
            &&& connector.description == row.description
            &&& connector.mcp_server_url == row.mcp_server_url
            &&& connector.auth_type == McpAuthType::Bearer <==> row.auth_type@ == "bearer"@
            &&& connector.auth_config == row.auth_config
            &&& connector.is_active == row.is_active
            &&& connector.created_by == row.created_by
            &&& connector.created_at == row.created_at
            &&& connector.updated_at == row.updated_at
            &&& connector.last_connected_at == row.last_connected_at
            &&& connector.connection_status == McpConnectionStatus::Connected
                <==> row.connection_status@ == "connected"@
            &&& connector.connection_status == McpConnectionStatus::Failed
                <==> row.connection_status@ == "failed"@
            &&& connector.error_message == row.error_message
            &&& connector.capabilities == row.capabilities
            &&& connector.metadata == row.metadata
        },
{
    law_connector_names_are_read(row.auth_type@);
    law_connector_names_are_read(row.connection_status@);
}

/// Only a connection moves the time of the last connection.
pub proof fn law_only_connections_are_dated(
    status: McpConnectionStatus,
    now: Timestamp,
    r: StatusChange,
)
    requires
        call_ensures(update_connection_status, (status, now), r),
    ensures
        status == McpConnectionStatus::Connected ==> r.last_connected_at == Some(now) && r.status@
            == "connected"@,
        status != McpConnectionStatus::Connected ==> r.last_connected_at is None,
        status == McpConnectionStatus::Failed ==> r.status@ == "failed"@,
        status == McpConnectionStatus::Pending ==> r.status@ == "pending"@,
{
}

} // verus!
