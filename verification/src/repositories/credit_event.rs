//! Events at which credit can be claimed with a code.
use crate::error::{not_found, validation_failed, RepositoryError};
use crate::ids::Uuid;
use crate::text::has_part;
use vstd::prelude::*;
use vstd::string::StringExecFns;

verus! {

/// Reports an event that does not exist, before codes are stored for it.
pub fn generate_codes(event_id: Uuid, event_found: bool) -> (r: Result<(), RepositoryError>)
    ensures
        match r {
            Ok(_) => event_found,
            Err(e) => !event_found && e@ == crate::error::RepositoryErrorView::NotFound(
                "Credit event not found: "@ + crate::ids::hyphenated(event_id),
            ),
        },
{
    if event_found {
        Ok(())
    } else {
        let mut message = "Credit event not found: ".to_owned();
        message.append(event_id.to_text().as_str());
        Err(not_found(message.as_str()))
    }
}

/// What happened while a code was claimed.
#[derive(Debug, Clone, Copy, PartialEq, Eq, Structural)]
pub enum ClaimEvent {
    /// The claims of the event were counted up, unless it is over or its claims
    /// are used up.
    Counted { rows_updated: u64 },
    /// The code was marked as claimed, unless it was claimed already. The event
    /// that it belongs to comes back.
    Marked(Option<Uuid>),
    /// The claim was stored.
    Stored,
}

/// What to do next.
#[derive(Debug, Clone, Copy, PartialEq, Eq, Structural)]
pub enum ClaimAction {
    /// Mark the code as claimed.
    MarkCode,
    /// Store the claim under this event.
    StoreClaim { credit_event_id: Uuid },
    /// Make everything permanent.
    Commit,
}

/// What is answered where no claim is left.
pub const NO_CLAIMS_LEFT: &'static str = "Event is inactive or max claims reached";

/// Decides how claiming a code goes on. Whatever is refused leaves nothing
/// behind: the steps before it are undone.
pub fn claim_code(event: ClaimEvent) -> (r: Result<ClaimAction, RepositoryError>)
    ensures
        match event {
            ClaimEvent::Counted { rows_updated } => if rows_updated == 0 {
                r matches Err(e) && e@ == crate::error::RepositoryErrorView::ValidationFailed(
                    NO_CLAIMS_LEFT@,
                )
            } else {
                r == Ok::<ClaimAction, RepositoryError>(ClaimAction::MarkCode)
            },
            ClaimEvent::Marked(None) => r == Err::<ClaimAction, RepositoryError>(
                RepositoryError::AlreadyExists,
            ),
            ClaimEvent::Marked(Some(credit_event_id)) => r == Ok::<ClaimAction, RepositoryError>(
                ClaimAction::StoreClaim { credit_event_id },
            ),
            ClaimEvent::Stored => r == Ok::<ClaimAction, RepositoryError>(ClaimAction::Commit),
        },
{
    match event {
        ClaimEvent::Counted { rows_updated } => if rows_updated == 0 {
            Err(validation_failed(NO_CLAIMS_LEFT))
        } else {
            Ok(ClaimAction::MarkCode)
        },
        ClaimEvent::Marked(None) => Err(RepositoryError::AlreadyExists),
        ClaimEvent::Marked(Some(credit_event_id)) => Ok(
            ClaimAction::StoreClaim { credit_event_id },
        ),
        ClaimEvent::Stored => Ok(ClaimAction::Commit),
    }
}

/// What went wrong with an event, as callers see it.
#[derive(Debug, Clone)]
pub enum CreditEventError {
    NotFound(String),
    CodeAlreadyClaimed,
    MaxClaimsReached,
    ValidationError(String),
    UserAlreadyClaimed,
    InternalError(String),
}

/// An error with its message as characters.
pub enum CreditEventErrorView {
    NotFound(Seq<char>),
    CodeAlreadyClaimed,
    MaxClaimsReached,
    ValidationError(Seq<char>),
    UserAlreadyClaimed,
    InternalError(Seq<char>),
}

impl View for CreditEventError {
    type V = CreditEventErrorView;

    open spec fn view(&self) -> CreditEventErrorView {
        match self {
            CreditEventError::NotFound(m) => CreditEventErrorView::NotFound(m@),
            CreditEventError::CodeAlreadyClaimed => CreditEventErrorView::CodeAlreadyClaimed,
            CreditEventError::MaxClaimsReached => CreditEventErrorView::MaxClaimsReached,
            CreditEventError::ValidationError(m) => CreditEventErrorView::ValidationError(m@),
            CreditEventError::UserAlreadyClaimed => CreditEventErrorView::UserAlreadyClaimed,
            CreditEventError::InternalError(m) => CreditEventErrorView::InternalError(m@),
        }
    }
}

/// Whether a message says that the claims are used up.
pub open spec fn speaks_of_max_claims(message: Seq<char>) -> bool {
    crate::text::contains_text(message, "max claims"@) || crate::text::contains_text(
        message,
        "max_claims"@,
    )
}

/// Whether a message names the rule that a user claims once.
pub open spec fn speaks_of_one_claim(message: Seq<char>) -> bool {
    crate::text::contains_text(message, "credit_claims_event_user"@) || crate::text::contains_text(
        message,
        "credit_event_id_user_id"@,
    )
}

/// What callers see of an error. An error that is none of a repository has only
/// its text.
pub open spec fn mapped_error(
    error: Option<crate::error::RepositoryErrorView>,
    text: Seq<char>,
) -> CreditEventErrorView {
    match error {
        Some(crate::error::RepositoryErrorView::NotFound(m)) => CreditEventErrorView::NotFound(m),
        Some(
            crate::error::RepositoryErrorView::AlreadyExists,
        ) => CreditEventErrorView::CodeAlreadyClaimed,
        Some(crate::error::RepositoryErrorView::ValidationFailed(m)) => if speaks_of_max_claims(
            m,
        ) {
            CreditEventErrorView::MaxClaimsReached
        } else {
            CreditEventErrorView::ValidationError(m)
        },
        _ => if speaks_of_one_claim(text) {
            CreditEventErrorView::UserAlreadyClaimed
        } else {
            CreditEventErrorView::InternalError(text)
        },
    }
}

/// Turns an error into what callers see of it.
pub fn map_error(error: &Option<RepositoryError>, text: &str) -> (r: CreditEventError)
    ensures
        r@ == mapped_error(
            match *error {
                Some(e) => Some(e@),
                None => None,
            },
            text@,
        ),
{
    match error {
        Some(RepositoryError::NotFound(message)) => CreditEventError::NotFound(message.clone()),
        Some(RepositoryError::AlreadyExists) => CreditEventError::CodeAlreadyClaimed,
        Some(RepositoryError::ValidationFailed(message)) => {
            if has_part(message.as_str(), "max claims") || has_part(
                message.as_str(),
                "max_claims",
            ) {
                CreditEventError::MaxClaimsReached
            } else {
                CreditEventError::ValidationError(message.clone())
            }
        },
        _ => {
            if has_part(text, "credit_claims_event_user") || has_part(
                text,
                "credit_event_id_user_id",
            ) {
                CreditEventError::UserAlreadyClaimed
            } else {
                CreditEventError::InternalError(text.to_owned())
            }
        },
    }
}

/// A claim that is refused because none is left is reported as that, and one of
/// a code that was claimed before as that.
pub proof fn law_refused_claims_are_told_apart(text: Seq<char>)
    ensures
        mapped_error(
            Some(crate::error::RepositoryErrorView::ValidationFailed(NO_CLAIMS_LEFT@)),
            text,
        ) is MaxClaimsReached,
        mapped_error(
            Some(crate::error::RepositoryErrorView::AlreadyExists),
            text,
        ) is CodeAlreadyClaimed,
{
    reveal_strlit("Event is inactive or max claims reached");
    reveal_strlit("max claims");
    assert(NO_CLAIMS_LEFT@.subrange(21, 31) =~= "max claims"@);
    assert(crate::text::occurs_at(NO_CLAIMS_LEFT@, "max claims"@, 21));
}

/// What a caller sees of a refusal: the missing record, the code that was
/// claimed before, the claims that are used up, or the rule that was broken; of
/// other failures, whether the user claimed before.
pub proof fn law_failures_are_shown_as_what_they_are(
    error: Option<crate::error::RepositoryErrorView>,
    text: Seq<char>,
    m: Seq<char>,
)
    ensures
        error == Some(crate::error::RepositoryErrorView::NotFound(m)) ==> mapped_error(error, text)
            == CreditEventErrorView::NotFound(m),
        error == Some(crate::error::RepositoryErrorView::AlreadyExists) ==> mapped_error(
            error,
            text,
        ) == CreditEventErrorView::CodeAlreadyClaimed,
        error == Some(crate::error::RepositoryErrorView::ValidationFailed(m)) ==> mapped_error(
            error,
            text,
        ) == (if crate::text::contains_text(m, "max claims"@) || crate::text::contains_text(
            m,
            "max_claims"@,
        ) {
            CreditEventErrorView::MaxClaimsReached
        } else {
            CreditEventErrorView::ValidationError(m)
        }),
        !(error matches Some(crate::error::RepositoryErrorView::NotFound(_))) && !(error matches Some(
            crate::error::RepositoryErrorView::AlreadyExists,
        )) && !(error matches Some(crate::error::RepositoryErrorView::ValidationFailed(_)))
            ==> mapped_error(error, text) == (if crate::text::contains_text(
            text,
            "credit_claims_event_user"@,
        ) || crate::text::contains_text(text, "credit_event_id_user_id"@) {
            CreditEventErrorView::UserAlreadyClaimed
        } else {
            CreditEventErrorView::InternalError(text)
        }),
{
}

/// A claim takes its steps in turn: it is counted, its code is marked, it is
/// stored under the event of the code, and made permanent. It is refused where no
/// claim is left, or where the code was claimed before, and nowhere else.
pub proof fn law_claims_take_their_steps_in_turn(
    rows_updated: u64,
    credit_event_id: Uuid,
    counted: Result<ClaimAction, RepositoryError>,
    marked: Result<ClaimAction, RepositoryError>,
    used: Result<ClaimAction, RepositoryError>,
    stored: Result<ClaimAction, RepositoryError>,
)
    requires
        call_ensures(claim_code, (ClaimEvent::Counted { rows_updated },), counted),
        call_ensures(claim_code, (ClaimEvent::Marked(Some(credit_event_id)),), marked),
        call_ensures(claim_code, (ClaimEvent::Marked(None),), used),
        call_ensures(claim_code, (ClaimEvent::Stored,), stored),
    ensures
        rows_updated > 0 ==> counted == Ok::<ClaimAction, RepositoryError>(ClaimAction::MarkCode),
        rows_updated == 0 ==> (counted matches Err(e) && e@
            == crate::error::RepositoryErrorView::ValidationFailed(
            "Event is inactive or max claims reached"@,
        )),
        marked == Ok::<ClaimAction, RepositoryError>(ClaimAction::StoreClaim { credit_event_id }),
        used == Err::<ClaimAction, RepositoryError>(RepositoryError::AlreadyExists),
        stored == Ok::<ClaimAction, RepositoryError>(ClaimAction::Commit),
{
}

} // verus!
