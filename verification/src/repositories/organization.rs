//! Organizations and their members.
use crate::error::RepositoryError;
use crate::ids::Uuid;
use crate::models::{CreateOrganizationRequest, Organization, OrganizationMember, OrganizationRole};
use crate::text::same_text;
use crate::time::Timestamp;
use vstd::prelude::*;
use vstd::string::StringExecFns;

verus! {

/// A failure that the database reports: a code of five characters, and a
/// message.
#[derive(Debug, Clone)]
pub struct SqlFailure {
    pub code: String,
    pub message: String,
}

/// A failure of a statement.
#[derive(Debug, Clone)]
pub struct DbFailure {
    /// Whether the connection is closed.
    pub is_closed: bool,
    /// What the database reports, where it reports anything.
    pub sql: Option<SqlFailure>,
    /// The failure in words.
    pub text: String,
}

/// What a failure means.
pub open spec fn failure_meaning(failure: DbFailure) -> crate::error::RepositoryErrorView {
    if failure.is_closed {
        crate::error::RepositoryErrorView::ConnectionFailed("Connection closed"@)
    } else {
        match failure.sql {
            None => crate::error::RepositoryErrorView::DatabaseError(failure.text@),
            Some(sql) => if sql.code@ == "23505"@ {
                crate::error::RepositoryErrorView::AlreadyExists
            } else if sql.code@ == "23503"@ {
                crate::error::RepositoryErrorView::ForeignKeyViolation(sql.message@)
            } else if sql.code@ == "23502"@ {
                crate::error::RepositoryErrorView::RequiredFieldMissing(sql.message@)
            } else if sql.code@ == "23514"@ {
                crate::error::RepositoryErrorView::ValidationFailed(sql.message@)
            } else if sql.code@ == "23001"@ {
                crate::error::RepositoryErrorView::DependencyExists(sql.message@)
            } else if sql.code@ == "40001"@ || sql.code@ == "40P01"@ {
                crate::error::RepositoryErrorView::TransactionConflict
            } else if sql.code@ == "28P01"@ || sql.code@ == "28000"@ {
                crate::error::RepositoryErrorView::AuthenticationFailed
            } else if sql.code@ == "08000"@ || sql.code@ == "08003"@ || sql.code@ == "08006"@ {
                crate::error::RepositoryErrorView::ConnectionFailed(sql.message@)
            } else {
                crate::error::RepositoryErrorView::DatabaseError(
                    "Database error ("@ + sql.code@ + "): "@ + sql.message@,
                )
            },
        }
    }
}

/// Finds out what a failure means.
pub fn map_db_error(failure: DbFailure) -> (r: RepositoryError)
    ensures
        r@ == failure_meaning(failure),
{
    if failure.is_closed {
        return RepositoryError::ConnectionFailed("Connection closed".to_owned());
    }
    match failure.sql {
        None => RepositoryError::DatabaseError(failure.text),
        Some(sql) => {
            let code = sql.code.as_str();
            if same_text(code, "23505") {
                RepositoryError::AlreadyExists
            } else if same_text(code, "23503") {
                RepositoryError::ForeignKeyViolation(sql.message)
            } else if same_text(code, "23502") {
                RepositoryError::RequiredFieldMissing(sql.message)
            } else if same_text(code, "23514") {
                RepositoryError::ValidationFailed(sql.message)
            } else if same_text(code, "23001") {
                RepositoryError::DependencyExists(sql.message)
            } else if same_text(code, "40001") || same_text(code, "40P01") {
                RepositoryError::TransactionConflict
            } else if same_text(code, "28P01") || same_text(code, "28000") {
                RepositoryError::AuthenticationFailed
            } else if same_text(code, "08000") || same_text(code, "08003") || same_text(
                code,
                "08006",
            ) {
                RepositoryError::ConnectionFailed(sql.message)
            } else {
                let mut message = "Database error (".to_owned();
                message.append(code);
                message.append("): ");
                message.append(sql.message.as_str());
                RepositoryError::DatabaseError(message)
            }
        },
    }
}

/// The role that a stored name stands for.
pub open spec fn named_role(name: Seq<char>) -> Option<OrganizationRole> {
    if name == "owner"@ {
        Some(OrganizationRole::Owner)
    } else if name == "admin"@ {
        Some(OrganizationRole::Admin)
    } else if name == "member"@ {
        Some(OrganizationRole::Member)
    } else {
        None
    }
}

/// Reads the name of a role.
pub fn role_from_name(name: &str) -> (r: Option<OrganizationRole>)
    ensures
        r == named_role(name@),
{
    if same_text(name, "owner") {
        Some(OrganizationRole::Owner)
    } else if same_text(name, "admin") {
        Some(OrganizationRole::Admin)
    } else if same_text(name, "member") {
        Some(OrganizationRole::Member)
    } else {
        None
    }
}

/// The name of a role stands for it.
pub proof fn law_role_names_read_back(role: OrganizationRole)
    ensures
        named_role(role.name()) == Some(role),
{
    reveal_strlit("owner");
    reveal_strlit("admin");
    reveal_strlit("member");
    assert("owner"@[0] == 'o');
    assert("admin"@[0] == 'a');
    assert("member"@.len() == 6);
    assert("owner"@.len() == 5);
    assert("admin"@.len() == 5);
}

/// A member as it is stored.
#[derive(Debug, Clone)]
pub struct OrganizationMemberRow {
    pub id: Uuid,
    pub organization_id: Uuid,
    pub user_id: Uuid,
    pub role: String,
    pub joined_at: Timestamp,
    pub invited_by: Option<Uuid>,
}

/// Reads a stored member.
pub fn row_to_db_org_member(row: OrganizationMemberRow) -> (r: Result<OrganizationMember, String>)
    ensures
        match r {
            Ok(member) => {
                &&& named_role(row.role@) == Some(member.role)
                &&& member.id == row.id
                &&& member.organization_id == row.organization_id
                &&& member.user_id == row.user_id
                &&& member.joined_at == row.joined_at
                &&& member.invited_by == row.invited_by
            },
            Err(message) => named_role(row.role@) is None && message@ == "Invalid role: "@
                + row.role@,
        },
{
    match role_from_name(row.role.as_str()) {
        Some(role) => Ok(
            OrganizationMember {
                id: row.id,
                organization_id: row.organization_id,
                user_id: row.user_id,
                role,
                joined_at: row.joined_at,
                invited_by: row.invited_by,
            },
        ),
        None => {
            let mut message = "Invalid role: ".to_owned();
            message.append(row.role.as_str());
            Err(message)
        },
    }
}

/// An organization with its owner.
#[derive(Debug, Clone)]
pub struct OwnedOrganization {
    pub id: Uuid,
    pub name: String,
    pub description: Option<String>,
    pub owner_id: Uuid,
    /// The settings, as JSON.
    pub settings: String,
    pub is_active: bool,
    pub created_at: Timestamp,
    pub updated_at: Timestamp,
}

/// An organization with its owner; every organization has one. Settings that
/// were never set are empty.
pub fn db_to_domain_organization(organization: Organization, owner: Option<Uuid>) -> (r: Result<
    OwnedOrganization,
    String,
>)
    ensures
        match r {
            Ok(owned) => {
                &&& owner == Some(owned.owner_id)
                &&& owned.id == organization.id
                &&& owned.name == organization.name
                &&& owned.description == organization.description
                &&& owned.settings@ == (match organization.settings {
                    Some(settings) => settings@,
                    None => "null"@,
                })
                &&& owned.is_active == organization.is_active
                &&& owned.created_at == organization.created_at
                &&& owned.updated_at == organization.updated_at
            },
            Err(message) => owner is None && message@ == "Organization has no owner: "@
                + crate::ids::hyphenated(organization.id),
        },
{
    match owner {
        None => {
            let mut message = "Organization has no owner: ".to_owned();
            message.append(organization.id.to_text().as_str());
            Err(message)
        },
        Some(owner_id) => Ok(
            OwnedOrganization {
                id: organization.id,
                name: organization.name,
                description: organization.description,
                owner_id,
                settings: match organization.settings {
                    Some(settings) => settings,
                    None => "null".to_owned(),
                },
                is_active: organization.is_active,
                created_at: organization.created_at,
                updated_at: organization.updated_at,
            },
        ),
    }
}

/// What is stored for a new organization: where no name to show is given, its
/// name is shown.
pub fn create(name: String, display_name: Option<String>, description: Option<String>) -> (r:
    CreateOrganizationRequest)
    ensures
        r.name == name,
        r.display_name@ == (match display_name {
            Some(shown) => shown@,
            None => name@,
        }),
        r.description == description,
{
    let display_name = match display_name {
        Some(shown) => shown,
        None => name.clone(),
    };
    CreateOrganizationRequest { name, display_name, description }
}

/// Refuses to add a user who is a member.
pub fn add_member(is_member: bool) -> (r: Result<(), RepositoryError>)
    ensures
        is_member ==> r == Err::<(), RepositoryError>(RepositoryError::AlreadyExists),
        !is_member ==> r is Ok,
{
    if is_member {
        Err(RepositoryError::AlreadyExists)
    } else {
        Ok(())
    }
}

/// What organizations are ordered by.
#[derive(Debug, Clone, Copy, PartialEq, Eq, Structural)]
pub enum OrganizationOrderBy {
    CreatedAt,
}

/// The direction in which organizations are ordered.
#[derive(Debug, Clone, Copy, PartialEq, Eq, Structural)]
pub enum OrganizationOrderDirection {
    Asc,
    Desc,
}

/// The query for the organizations of a user: the oldest first, unless asked
/// otherwise.
pub fn list_organizations_by_user(
    order_by: Option<OrganizationOrderBy>,
    order_direction: Option<OrganizationOrderDirection>,
) -> (r: String)
    ensures
        r@
            == "SELECT DISTINCT o.* FROM organizations o INNER JOIN organization_members om ON o.id = om.organization_id WHERE om.user_id = $1 AND o.is_active = true ORDER BY o.created_at "@
            + (if order_direction == Some(OrganizationOrderDirection::Desc) {
            "DESC"@
        } else {
            "ASC"@
        }) + " LIMIT $2 OFFSET $3"@,
{
    let column = match order_by {
        Some(OrganizationOrderBy::CreatedAt) => "created_at ",
        None => "created_at ",
    };
    let direction = match order_direction {
        Some(OrganizationOrderDirection::Desc) => "DESC",
        Some(OrganizationOrderDirection::Asc) => "ASC",
        None => "ASC",
    };
    let mut sql =
        "SELECT DISTINCT o.* FROM organizations o INNER JOIN organization_members om ON o.id = om.organization_id WHERE om.user_id = $1 AND o.is_active = true ORDER BY o.".to_owned();
    sql.append(column);
    proof {
        reveal_strlit(
            "SELECT DISTINCT o.* FROM organizations o INNER JOIN organization_members om ON o.id = om.organization_id WHERE om.user_id = $1 AND o.is_active = true ORDER BY o.",
        );
        reveal_strlit(
            "SELECT DISTINCT o.* FROM organizations o INNER JOIN organization_members om ON o.id = om.organization_id WHERE om.user_id = $1 AND o.is_active = true ORDER BY o.created_at ",
        );
        reveal_strlit("created_at ");
        assert(sql@
            =~= "SELECT DISTINCT o.* FROM organizations o INNER JOIN organization_members om ON o.id = om.organization_id WHERE om.user_id = $1 AND o.is_active = true ORDER BY o.created_at "@);
    }
    sql.append(direction);
    sql.append(" LIMIT $2 OFFSET $3");
    sql
}

/// Whether a statement removed what it was to remove.
pub fn removed(rows_affected: u64) -> (r: bool)
    ensures
        r == (rows_affected > 0),
{
    rows_affected > 0
}

/// Roles are read by name, in lower case.
pub proof fn law_roles_are_read_by_name(name: Seq<char>)
    ensures
        named_role(name) == Some(OrganizationRole::Owner) <==> name == "owner"@,
        named_role(name) == Some(OrganizationRole::Admin) <==> name == "admin"@,
        named_role(name) == Some(OrganizationRole::Member) <==> name == "member"@,
{
    reveal_strlit("owner");
    reveal_strlit("admin");
    reveal_strlit("member");
    assert("owner"@[0] == 'o' && "admin"@[0] == 'a' && "member"@[0] == 'm');
}

/// What the database reports of a broken rule is told by its code; a closed
/// connection comes before any code.
pub proof fn law_failures_are_told_by_code(failure: DbFailure, sql: SqlFailure)
    ensures
        failure.is_closed ==> failure_meaning(failure)
            == crate::error::RepositoryErrorView::ConnectionFailed("Connection closed"@),
        !failure.is_closed && failure.sql is None ==> failure_meaning(failure)
            == crate::error::RepositoryErrorView::DatabaseError(failure.text@),
        !failure.is_closed && failure.sql == Some(sql) ==> {
            let code = sql.code@;
            let meaning = failure_meaning(failure);
            &&& code == "23505"@ ==> meaning == crate::error::RepositoryErrorView::AlreadyExists
            &&& code == "23503"@ ==> meaning
                == crate::error::RepositoryErrorView::ForeignKeyViolation(sql.message@)
            &&& code == "23502"@ ==> meaning
                == crate::error::RepositoryErrorView::RequiredFieldMissing(sql.message@)
            &&& code == "23514"@ ==> meaning == crate::error::RepositoryErrorView::ValidationFailed(
                sql.message@,
            )
            &&& code == "23001"@ ==> meaning == crate::error::RepositoryErrorView::DependencyExists(
                sql.message@,
            )
            &&& code == "40001"@ || code == "40P01"@ ==> meaning
                == crate::error::RepositoryErrorView::TransactionConflict
            &&& code == "28P01"@ || code == "28000"@ ==> meaning
                == crate::error::RepositoryErrorView::AuthenticationFailed
            &&& code == "08000"@ || code == "08003"@ || code == "08006"@ ==> meaning
                == crate::error::RepositoryErrorView::ConnectionFailed(sql.message@)
        },
{
    reveal_strlit("23505");
    reveal_strlit("23503");
    reveal_strlit("23502");
    reveal_strlit("23514");
    reveal_strlit("23001");
    reveal_strlit("40001");
    reveal_strlit("40P01");
    reveal_strlit("28P01");
    reveal_strlit("28000");
    reveal_strlit("08000");
    reveal_strlit("08003");
    reveal_strlit("08006");
    assert("23505"@[4] == '5' && "23503"@[4] == '3' && "23502"@[4] == '2' && "23514"@[4] == '4'
        && "23001"@[4] == '1');
    assert("23505"@[0] == '2' && "23503"@[0] == '2' && "23502"@[0] == '2' && "23514"@[0] == '2'
        && "23001"@[0] == '2' && "40001"@[0] == '4' && "40P01"@[0] == '4' && "28P01"@[0] == '2'
        && "28000"@[0] == '2' && "08000"@[0] == '0' && "08003"@[0] == '0' && "08006"@[0] == '0');
    assert("23505"@[1] == '3' && "23503"@[1] == '3' && "23502"@[1] == '3' && "23514"@[1] == '3'
        && "23001"@[1] == '3' && "28P01"@[1] == '8' && "28000"@[1] == '8');
}

/// A member is read field by field, where the role is known.
pub proof fn law_members_are_read_field_by_field(
    row: OrganizationMemberRow,
    r: Result<OrganizationMember, String>,
)
    requires
        call_ensures(row_to_db_org_member, (row,), r),
    ensures
        r is Ok <==> row.role@ == "owner"@ || row.role@ == "admin"@ || row.role@ == "member"@,
        r matches Ok(member) ==> {
            &&& member.id == row.id
            &&& member.organization_id == row.organization_id
            &&& member.user_id == row.user_id
            &&& member.joined_at == row.joined_at
            &&& member.invited_by == row.invited_by
            &&& member.role == OrganizationRole::Owner <==> row.role@ == "owner"@
            &&& member.role == OrganizationRole::Admin <==> row.role@ == "admin"@
        },
        r matches Err(message) ==> message@ == "Invalid role: "@ + row.role@,
{
    law_roles_are_read_by_name(row.role@);
}

/// An organization is shown with its owner, and with settings of null where it has
/// none; without an owner it is not shown.
pub proof fn law_organizations_are_shown_with_their_owner(
    organization: Organization,
    owner: Option<Uuid>,
    r: Result<OwnedOrganization, String>,
)
    requires
        call_ensures(db_to_domain_organization, (organization, owner), r),
    ensures
        r is Ok <==> owner is Some,
        r matches Ok(owned) ==> {
            &&& owner == Some(owned.owner_id)
            &&& owned.id == organization.id
            &&& owned.name == organization.name
            &&& owned.description == organization.description
            &&& owned.is_active == organization.is_active
            &&& owned.created_at == organization.created_at
            &&& owned.updated_at == organization.updated_at
            &&& organization.settings matches Some(settings) ==> owned.settings@ == settings@
            &&& organization.settings is None ==> owned.settings@ == "null"@
        },
        r matches Err(message) ==> message@ == "Organization has no owner: "@
            + crate::ids::hyphenated(organization.id),
{
}

} // verus!
