//! Invitations to organizations.
use crate::ids::Uuid;
use crate::models::{InvitationStatus, OrganizationRole};
use crate::repositories::organization::role_from_name;
use crate::text::same_text;
use crate::time::Timestamp;
use rand::RngExt;
use vstd::prelude::*;
use vstd::string::StrSliceExecFns;
use vstd::string::StringExecFns;

verus! {

/// How far the message about an invitation has come.
#[derive(Debug, Clone, Copy, PartialEq, Eq, Structural)]
pub enum InvitationEmailStatus {
    NotAttempted,
    Sent,
    Failed,
    Skipped,
}

impl InvitationEmailStatus {
    /// The name under which a status is stored.
    pub open spec fn name(self) -> Seq<char> {
        match self {
            InvitationEmailStatus::NotAttempted => "not_attempted"@,
            InvitationEmailStatus::Sent => "sent"@,
            InvitationEmailStatus::Failed => "failed"@,
            InvitationEmailStatus::Skipped => "skipped"@,
        }
    }

    /// The name under which a status is stored.
    pub fn as_str(&self) -> (r: &'static str)
        ensures
            r@ == self.name(),
    {
        match self {
            InvitationEmailStatus::NotAttempted => "not_attempted",
            InvitationEmailStatus::Sent => "sent",
            InvitationEmailStatus::Failed => "failed",
            InvitationEmailStatus::Skipped => "skipped",
        }
    }
}

/// The status that a stored name stands for.
pub open spec fn named_status(name: Seq<char>) -> Option<InvitationStatus> {
    if name == "pending"@ {
        Some(InvitationStatus::Pending)
    } else if name == "accepted"@ {
        Some(InvitationStatus::Accepted)
    } else if name == "declined"@ {
        Some(InvitationStatus::Declined)
    } else if name == "expired"@ {
        Some(InvitationStatus::Expired)
    } else {
        None
    }
}

/// Reads the name of a status.
pub fn status_from_name(name: &str) -> (r: Option<InvitationStatus>)
    ensures
        r == named_status(name@),
{
    if same_text(name, "pending") {
        Some(InvitationStatus::Pending)
    } else if same_text(name, "accepted") {
        Some(InvitationStatus::Accepted)
    } else if same_text(name, "declined") {
        Some(InvitationStatus::Declined)
    } else if same_text(name, "expired") {
        Some(InvitationStatus::Expired)
    } else {
        None
    }
}

/// The status of the message that a stored name stands for.
pub open spec fn named_email_status(name: Seq<char>) -> Option<InvitationEmailStatus> {
    if name == "not_attempted"@ {
        Some(InvitationEmailStatus::NotAttempted)
    } else if name == "sent"@ {
        Some(InvitationEmailStatus::Sent)
    } else if name == "failed"@ {
        Some(InvitationEmailStatus::Failed)
    } else if name == "skipped"@ {
        Some(InvitationEmailStatus::Skipped)
    } else {
        None
    }
}

/// Reads the name of the status of a message.
pub fn email_status_from_name(name: &str) -> (r: Option<InvitationEmailStatus>)
    ensures
        r == named_email_status(name@),
{
    if same_text(name, "not_attempted") {
        Some(InvitationEmailStatus::NotAttempted)
    } else if same_text(name, "sent") {
        Some(InvitationEmailStatus::Sent)
    } else if same_text(name, "failed") {
        Some(InvitationEmailStatus::Failed)
    } else if same_text(name, "skipped") {
        Some(InvitationEmailStatus::Skipped)
    } else {
        None
    }
}

/// The name of a status stands for it.
pub proof fn law_status_names_read_back(status: InvitationStatus, email: InvitationEmailStatus)
    ensures
        named_status(status.name()) == Some(status),
        named_email_status(email.name()) == Some(email),
{
    reveal_strlit("pending");
    reveal_strlit("accepted");
    reveal_strlit("declined");
    reveal_strlit("expired");
    reveal_strlit("not_attempted");
    reveal_strlit("sent");
    reveal_strlit("failed");
    reveal_strlit("skipped");
    assert("pending"@[0] == 'p' && "pending"@.len() == 7);
    assert("accepted"@[0] == 'a' && "accepted"@.len() == 8);
    assert("declined"@[0] == 'd' && "declined"@.len() == 8);
    assert("expired"@[0] == 'e' && "expired"@.len() == 7);
    assert("not_attempted"@.len() == 13);
    assert("sent"@.len() == 4);
    assert("failed"@.len() == 6);
    assert("skipped"@.len() == 7);
}

/// An invitation as it is stored.
#[derive(Debug, Clone)]
pub struct InvitationRow {
    pub id: Uuid,
    pub organization_id: Uuid,
    pub email: String,
    pub role: String,
    pub invited_by_user_id: Uuid,
    pub status: String,
    pub token: String,
    pub created_at: Timestamp,
    pub expires_at: Timestamp,
    pub responded_at: Option<Timestamp>,
    pub email_status: String,
    pub email_sent_at: Option<Timestamp>,
    pub email_last_error: Option<String>,
    pub email_message_id: Option<String>,
}

/// An invitation, with how far the message about it has come.
#[derive(Debug, Clone)]
pub struct Invitation {
    pub id: Uuid,
    pub organization_id: Uuid,
    pub email: String,
    pub role: OrganizationRole,
    pub invited_by_user_id: Uuid,
    pub status: InvitationStatus,
    pub token: String,
    pub created_at: Timestamp,
    pub expires_at: Timestamp,
    pub responded_at: Option<Timestamp>,
    pub email_status: InvitationEmailStatus,
    pub email_sent_at: Option<Timestamp>,
    pub email_last_error: Option<String>,
    pub email_message_id: Option<String>,
}

/// What is said of a name that stands for nothing.
pub open spec fn unknown_name(name: Seq<char>, expected: Seq<char>) -> Seq<char> {
    "unknown variant `"@ + name + "`, expected one of "@ + expected
}

fn unknown_name_text(name: &str, expected: &str) -> (r: String)
    ensures
        r@ == unknown_name(name@, expected@),
{
    let mut message = "unknown variant `".to_owned();
    message.append(name);
    message.append("`, expected one of ");
    message.append(expected);
    message
}

pub const ROLE_NAMES: &'static str = "`owner`, `admin`, `member`";

pub const STATUS_NAMES: &'static str = "`pending`, `accepted`, `declined`, `expired`";

pub const EMAIL_STATUS_NAMES: &'static str = "`not_attempted`, `sent`, `failed`, `skipped`";

/// What is wrong with a stored invitation, if anything.
pub open spec fn invitation_fault(row: InvitationRow) -> Option<Seq<char>> {
    if crate::repositories::organization::named_role(row.role@) is None {
        Some(unknown_name(row.role@, ROLE_NAMES@))
    } else if named_status(row.status@) is None {
        Some(unknown_name(row.status@, STATUS_NAMES@))
    } else if named_email_status(row.email_status@) is None {
        Some(unknown_name(row.email_status@, EMAIL_STATUS_NAMES@))
    } else {
        None
    }
}

/// Reads a stored invitation.
pub fn row_to_db_invitation(row: InvitationRow) -> (r: Result<Invitation, String>)
    ensures
        match r {
            Ok(invitation) => {
                &&& invitation_fault(row) is None
                &&& crate::repositories::organization::named_role(row.role@) == Some(
                    invitation.role,
                )
                &&& named_status(row.status@) == Some(invitation.status)
                &&& named_email_status(row.email_status@) == Some(invitation.email_status)
                &&& invitation.id == row.id
                &&& invitation.organization_id == row.organization_id
                &&& invitation.email == row.email
                &&& invitation.invited_by_user_id == row.invited_by_user_id
                &&& invitation.token == row.token
                &&& invitation.created_at == row.created_at
                &&& invitation.expires_at == row.expires_at
                &&& invitation.responded_at == row.responded_at
                &&& invitation.email_sent_at == row.email_sent_at
                &&& invitation.email_last_error == row.email_last_error
                &&& invitation.email_message_id == row.email_message_id
            },
            Err(message) => invitation_fault(row) == Some(message@),
        },
{
    let role = match role_from_name(row.role.as_str()) {
        Some(role) => role,
        None => return Err(unknown_name_text(row.role.as_str(), ROLE_NAMES)),
    };
    let status = match status_from_name(row.status.as_str()) {
        Some(status) => status,
        None => return Err(unknown_name_text(row.status.as_str(), STATUS_NAMES)),
    };
    let email_status = match email_status_from_name(row.email_status.as_str()) {
        Some(status) => status,
        None => return Err(unknown_name_text(row.email_status.as_str(), EMAIL_STATUS_NAMES)),
    };
    Ok(
        Invitation {
            id: row.id,
            organization_id: row.organization_id,
            email: row.email,
            role,
            invited_by_user_id: row.invited_by_user_id,
            status,
            token: row.token,
            created_at: row.created_at,
            expires_at: row.expires_at,
            responded_at: row.responded_at,
            email_status,
            email_sent_at: row.email_sent_at,
            email_last_error: row.email_last_error,
            email_message_id: row.email_message_id,
        },
    )
}

/// The characters that tokens are made of.
pub const CHARSET: &'static str = "abcdefghijklmnopqrstuvwxyzABCDEFGHIJKLMNOPQRSTUVWXYZ0123456789";

/// How many characters there are.
pub const CHARSET_LENGTH: usize = 62;

/// How long a token is.
pub const TOKEN_LENGTH: usize = 64;

/// `rand::RngExt::random_range` on the generator that `rand::rng` gives: some
/// number below `bound`. Which one it is depends on chance.
#[verifier::external_body]
fn random_below(bound: usize) -> (r: usize)
    requires
        bound > 0,
    ensures
        r < bound,
{
    rand::rng().random_range(0..bound)
}

/// The characters at positions.
pub open spec fn characters_at(choices: Seq<usize>) -> Seq<char> {
    choices.map_values(|at: usize| CHARSET@[at as int])
}

proof fn lemma_charset_length()
    ensures
        CHARSET@.len() == CHARSET_LENGTH,
{
    reveal_strlit("abcdefghijklmnopqrstuvwxyzABCDEFGHIJKLMNOPQRSTUVWXYZ0123456789");
}

/// The token that choices of characters give.
pub fn token_from_choices(choices: &Vec<usize>) -> (r: String)
    requires
        forall|i: int| 0 <= i < choices@.len() ==> (#[trigger] choices@[i]) < CHARSET_LENGTH,
    ensures
        r@ == characters_at(choices@),
{
    let mut token = String::new();
    let mut i: usize = 0;
    while i < choices.len()
        invariant
            i <= choices@.len(),
            forall|k: int| 0 <= k < choices@.len() ==> (#[trigger] choices@[k]) < CHARSET_LENGTH,
            token@ == characters_at(choices@.take(i as int)),
        decreases choices.len() - i,
    {
        proof {
            lemma_charset_length();
            assert(choices@[i as int] < CHARSET_LENGTH);
            assert(choices@.take(i + 1) =~= choices@.take(i as int).push(choices@[i as int]));
        }
        let at: usize = choices[i];
        token.append(CHARSET.substring_char(at, at + 1));
        proof {
            assert(CHARSET@.subrange(at as int, at + 1) =~= seq![CHARSET@[at as int]]);
            assert(token@ =~= characters_at(choices@.take(i + 1)));
        }
        i = i + 1;
    }
    assert(choices@.take(choices@.len() as int) =~= choices@);
    token
}

/// A new token: each of its characters is drawn on its own.
pub fn generate_token() -> (r: String)
    ensures
        r@.len() == TOKEN_LENGTH,
        forall|i: int| 0 <= i < r@.len() ==> CHARSET@.contains(#[trigger] r@[i]),
{
    let mut choices: Vec<usize> = Vec::new();
    while choices.len() < TOKEN_LENGTH
        invariant
            choices@.len() <= TOKEN_LENGTH,
            forall|i: int| 0 <= i < choices@.len() ==> (#[trigger] choices@[i]) < CHARSET_LENGTH,
        decreases TOKEN_LENGTH - choices.len(),
    {
        choices.push(random_below(CHARSET_LENGTH));
    }
    let token = token_from_choices(&choices);
    proof {
        lemma_charset_length();
        assert forall|i: int| 0 <= i < token@.len() implies CHARSET@.contains(
            #[trigger] token@[i],
        ) by {
            assert(choices@[i] < CHARSET_LENGTH);
            assert(token@[i] == CHARSET@[choices@[i] as int]);
        }
    }
    token
}

/// A request for an invitation.
#[derive(Debug, Clone)]
pub struct CreateInvitationRequest {
    pub email: String,
    pub role: OrganizationRole,
    pub expires_in_hours: i64,
}

/// What is stored for a new invitation.
#[derive(Debug, Clone)]
pub struct NewInvitation {
    pub organization_id: Uuid,
    pub email: String,
    pub role: &'static str,
    pub invited_by_user_id: Uuid,
    pub token: String,
    pub expires_at: Timestamp,
}

/// A new invitation. It lapses after the hours that are asked for.
pub fn create(
    organization_id: Uuid,
    request: CreateInvitationRequest,
    invited_by: Uuid,
    token: String,
    now: Timestamp,
) -> (r: NewInvitation)
    requires
        now.well_formed(),
        crate::time::MIN_SECONDS <= now.seconds + request.expires_in_hours * 3600
            <= crate::time::MAX_SECONDS,
    ensures
        r.organization_id == organization_id,
        r.email == request.email,
        r.role@ == request.role.name(),
        r.invited_by_user_id == invited_by,
        r.token == token,
        r.expires_at.well_formed(),
        r.expires_at.instant() == now.instant() + request.expires_in_hours * 3600
            * crate::time::NANOS_PER_SECOND,
{
    let seconds: i64 = request.expires_in_hours * 3600;
    NewInvitation {
        organization_id,
        email: request.email,
        role: request.role.as_str(),
        invited_by_user_id: invited_by,
        token,
        expires_at: now.plus_seconds(seconds),
    }
}

/// How the message about an invitation went.
#[derive(Debug, Clone)]
pub enum EmailOutcome {
    Sent { message_id: Option<String> },
    Failed { error: String },
    Skipped,
}

/// What is stored of how a message went.
#[derive(Debug, Clone)]
pub struct EmailRecord {
    pub email_status: InvitationEmailStatus,
    pub email_sent_at: Option<Timestamp>,
    pub email_last_error: Option<String>,
    pub email_message_id: Option<String>,
}

/// What is stored of how a message went: nothing of an earlier attempt stays.
pub fn record_email(outcome: EmailOutcome, now: Timestamp) -> (r: EmailRecord)
    ensures
        match outcome {
            EmailOutcome::Sent { message_id } => r == (EmailRecord {
                email_status: InvitationEmailStatus::Sent,
                email_sent_at: Some(now),
                email_last_error: None,
                email_message_id: message_id,
            }),
            EmailOutcome::Failed { error } => r == (EmailRecord {
                email_status: InvitationEmailStatus::Failed,
                email_sent_at: None,
                email_last_error: Some(error),
                email_message_id: None,
            }),
            EmailOutcome::Skipped => r == (EmailRecord {
                email_status: InvitationEmailStatus::Skipped,
                email_sent_at: None,
                email_last_error: None,
                email_message_id: None,
            }),
        },
{
    match outcome {
        EmailOutcome::Sent { message_id } => EmailRecord {
            email_status: InvitationEmailStatus::Sent,
            email_sent_at: Some(now),
            email_last_error: None,
            email_message_id: message_id,
        },
        EmailOutcome::Failed { error } => EmailRecord {
            email_status: InvitationEmailStatus::Failed,
            email_sent_at: None,
            email_last_error: Some(error),
            email_message_id: None,
        },
        EmailOutcome::Skipped => EmailRecord {
            email_status: InvitationEmailStatus::Skipped,
            email_sent_at: None,
            email_last_error: None,
            email_message_id: None,
        },
    }
}

/// A status to filter by, as it is stored.
pub fn status_filter(status: Option<InvitationStatus>) -> (r: Option<&'static str>)
    ensures
        match (status, r) {
            (Some(s), Some(name)) => name@ == s.name(),
            (None, None) => true,
            _ => false,
        },
{
    match status {
        Some(status) => Some(status.as_str()),
        None => None,
    }
}

/// A status of messages to filter by, as it is stored.
pub fn email_status_filter(status: Option<InvitationEmailStatus>) -> (r: Option<&'static str>)
    ensures
        match (status, r) {
            (Some(s), Some(name)) => name@ == s.name(),
            (None, None) => true,
            _ => false,
        },
{
    match status {
        Some(status) => Some(status.as_str()),
        None => None,
    }
}

/// Whether an invitation was there to delete.
pub fn delete(rows_affected: u64) -> (r: bool)
    ensures
        r == (rows_affected > 0),
{
    rows_affected > 0
}

/// Statuses are stored under these names, and read under them only.
pub proof fn law_statuses_are_read_by_name(name: Seq<char>)
    ensures
        named_status(name) == Some(InvitationStatus::Pending) <==> name == "pending"@,
        named_status(name) == Some(InvitationStatus::Accepted) <==> name == "accepted"@,
        named_status(name) == Some(InvitationStatus::Declined) <==> name == "declined"@,
        named_status(name) == Some(InvitationStatus::Expired) <==> name == "expired"@,
        named_email_status(name) == Some(InvitationEmailStatus::NotAttempted) <==> name
            == "not_attempted"@,
        named_email_status(name) == Some(InvitationEmailStatus::Sent) <==> name == "sent"@,
        named_email_status(name) == Some(InvitationEmailStatus::Failed) <==> name == "failed"@,
        named_email_status(name) == Some(InvitationEmailStatus::Skipped) <==> name == "skipped"@,
{
    reveal_strlit("pending");
    reveal_strlit("accepted");
    reveal_strlit("declined");
    reveal_strlit("expired");
    reveal_strlit("not_attempted");
    reveal_strlit("sent");
    reveal_strlit("failed");
    reveal_strlit("skipped");
    assert("pending"@[0] == 'p' && "accepted"@[0] == 'a' && "declined"@[0] == 'd' && "expired"@[0]
        == 'e');
    assert("not_attempted"@[0] == 'n' && "sent"@[1] == 'e' && "failed"@[0] == 'f' && "skipped"@[1]
        == 'k' && "sent"@[0] == 's' && "skipped"@[0] == 's');
}

/// An invitation is read where its three names are known; otherwise the first
/// name that is not known is reported, with the names that are.
pub proof fn law_unknown_names_are_reported(row: InvitationRow)
    ensures
        ({
            let role = row.role@;
            let status = row.status@;
            let email = row.email_status@;
            let role_known = role == "owner"@ || role == "admin"@ || role == "member"@;
            let status_known = status == "pending"@ || status == "accepted"@ || status
                == "declined"@ || status == "expired"@;
            let email_known = email == "not_attempted"@ || email == "sent"@ || email == "failed"@
                || email == "skipped"@;
            &&& invitation_fault(row) is None <==> role_known && status_known && email_known
            &&& !role_known ==> invitation_fault(row) == Some(
                "unknown variant `"@ + role + "`, expected one of "@
                    + "`owner`, `admin`, `member`"@,
            )
            &&& role_known && !status_known ==> invitation_fault(row) == Some(
                "unknown variant `"@ + status + "`, expected one of "@
                    + "`pending`, `accepted`, `declined`, `expired`"@,
            )
            &&& role_known && status_known && !email_known ==> invitation_fault(row) == Some(
                "unknown variant `"@ + email + "`, expected one of "@
                    + "`not_attempted`, `sent`, `failed`, `skipped`"@,
            )
        }),
{
}

/// A token has one letter or digit for each choice: the letters in lower case
/// come first, then those in upper case, then the digits.
pub proof fn law_tokens_are_letters_and_digits(choices: Seq<usize>, i: int)
    requires
        0 <= i < choices.len(),
    ensures
        characters_at(choices).len() == choices.len(),
        choices[i] < 26 ==> characters_at(choices)[i] as int == 'a' as int + choices[i],
        26 <= choices[i] < 52 ==> characters_at(choices)[i] as int == 'A' as int + (choices[i]
            - 26),
        52 <= choices[i] < 62 ==> characters_at(choices)[i] as int == '0' as int + (choices[i]
            - 52),
{
    reveal_strlit("abcdefghijklmnopqrstuvwxyzABCDEFGHIJKLMNOPQRSTUVWXYZ0123456789");
    let at = choices[i] as int;
    if at < 62 {
        assert(characters_at(choices)[i] == CHARSET@[at]);
    }
}

/// What is known of a message is stored under its name.
pub proof fn law_email_names_are_those_of_the_stored_values()
    ensures
        InvitationEmailStatus::NotAttempted.name() == "not_attempted"@,
        InvitationEmailStatus::Sent.name() == "sent"@,
        InvitationEmailStatus::Failed.name() == "failed"@,
        InvitationEmailStatus::Skipped.name() == "skipped"@,
{
}

/// An invitation is read field by field, where its three names are known.
pub proof fn law_invitations_are_read_field_by_field(
    row: InvitationRow,
    r: Result<Invitation, String>,
)
    requires
        call_ensures(row_to_db_invitation, (row,), r),
    ensures
        r is Ok <==> (row.role@ == "owner"@ || row.role@ == "admin"@ || row.role@ == "member"@) && (
        row.status@ == "pending"@ || row.status@ == "accepted"@ || row.status@ == "declined"@
            || row.status@ == "expired"@) && (row.email_status@ == "not_attempted"@
            || row.email_status@ == "sent"@ || row.email_status@ == "failed"@ || row.email_status@
            == "skipped"@),
        r matches Ok(invitation) ==> {
            &&& invitation.id == row.id
            &&& invitation.organization_id == row.organization_id
            &&& invitation.email == row.email
            &&& invitation.invited_by_user_id == row.invited_by_user_id
            &&& invitation.token == row.token
            &&& invitation.created_at == row.created_at
            &&& invitation.expires_at == row.expires_at
            &&& invitation.responded_at == row.responded_at
            &&& invitation.email_sent_at == row.email_sent_at
            &&& invitation.email_last_error == row.email_last_error
            &&& invitation.email_message_id == row.email_message_id
            &&& invitation.status == InvitationStatus::Accepted <==> row.status@ == "accepted"@
            &&& invitation.role == OrganizationRole::Owner <==> row.role@ == "owner"@
            &&& invitation.email_status == InvitationEmailStatus::Sent <==> row.email_status@
                == "sent"@
        },
{
    law_unknown_names_are_reported(row);
    law_statuses_are_read_by_name(row.status@);
    law_statuses_are_read_by_name(row.email_status@);
    crate::repositories::organization::law_roles_are_read_by_name(row.role@);
}

/// An invitation lapses as many hours after it is made as the request says, and
/// is for the address and the role that the request names.
pub proof fn law_invitations_last_their_hours(
    organization_id: Uuid,
    request: CreateInvitationRequest,
    invited_by: Uuid,
    token: String,
    now: Timestamp,
    r: NewInvitation,
)
    requires
        call_ensures(create, (organization_id, request, invited_by, token, now), r),
    ensures
        r.organization_id == organization_id,
        r.email == request.email,
        r.invited_by_user_id == invited_by,
        r.token == token,
        request.role == OrganizationRole::Owner ==> r.role@ == "owner"@,
        request.role == OrganizationRole::Admin ==> r.role@ == "admin"@,
        request.role == OrganizationRole::Member ==> r.role@ == "member"@,
        r.expires_at.instant() - now.instant() == request.expires_in_hours * 3_600_000_000_000,
{
}

/// A message is dated only where it was sent, and keeps no error of an earlier
/// attempt; a failure keeps its error.
pub proof fn law_messages_are_recorded_as_they_went(
    message_id: Option<String>,
    error: String,
    now: Timestamp,
    sent: EmailRecord,
    failed: EmailRecord,
    skipped: EmailRecord,
)
    requires
        call_ensures(record_email, (EmailOutcome::Sent { message_id }, now), sent),
        call_ensures(record_email, (EmailOutcome::Failed { error }, now), failed),
        call_ensures(record_email, (EmailOutcome::Skipped, now), skipped),
    ensures
        sent.email_status == InvitationEmailStatus::Sent && sent.email_sent_at == Some(now)
            && sent.email_message_id == message_id && sent.email_last_error is None,
        failed.email_status == InvitationEmailStatus::Failed && failed.email_sent_at is None
            && failed.email_message_id is None && failed.email_last_error == Some(error),
        skipped.email_status == InvitationEmailStatus::Skipped && skipped.email_sent_at is None
            && skipped.email_message_id is None && skipped.email_last_error is None,
{
}

} // verus!
