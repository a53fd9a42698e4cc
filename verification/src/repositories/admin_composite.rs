//! What administrators change: prices, limits, and messages about them.
use crate::ids::Uuid;
use crate::models::OrganizationLimitsHistory;
use crate::text::{same_optional_text, same_text};
use crate::time::Timestamp;
use vstd::prelude::*;
use vstd::string::StringExecFns;

verus! {

/// How far a planned change of prices has come.
#[derive(Debug, Clone, Copy, PartialEq, Eq, Structural)]
pub enum ScheduledPricingChangeStatus {
    Pending,
    Applying,
    Applied,
    Failed,
    Cancelled,
}

impl ScheduledPricingChangeStatus {
    /// The name under which a status is stored.
    pub open spec fn name(self) -> Seq<char> {
        match self {
            ScheduledPricingChangeStatus::Pending => "pending"@,
            ScheduledPricingChangeStatus::Applying => "applying"@,
            ScheduledPricingChangeStatus::Applied => "applied"@,
            ScheduledPricingChangeStatus::Failed => "failed"@,
            ScheduledPricingChangeStatus::Cancelled => "cancelled"@,
        }
    }

    /// The name under which a status is stored.
    pub fn as_str(&self) -> (r: &'static str)
        ensures
            r@ == self.name(),
    {
        match self {
            ScheduledPricingChangeStatus::Pending => "pending",
            ScheduledPricingChangeStatus::Applying => "applying",
            ScheduledPricingChangeStatus::Applied => "applied",
            ScheduledPricingChangeStatus::Failed => "failed",
            ScheduledPricingChangeStatus::Cancelled => "cancelled",
        }
    }

    /// Whether a change can still take effect.
    pub open spec fn is_open(self) -> bool {
        self == ScheduledPricingChangeStatus::Pending || self
            == ScheduledPricingChangeStatus::Applying
    }

    /// Reads the name of a status.
    pub fn parse(name: &str) -> (r: Option<ScheduledPricingChangeStatus>)
        ensures
            r == named_status(name@),
    {
        if same_text(name, "pending") {
            Some(ScheduledPricingChangeStatus::Pending)
        } else if same_text(name, "applying") {
            Some(ScheduledPricingChangeStatus::Applying)
        } else if same_text(name, "applied") {
            Some(ScheduledPricingChangeStatus::Applied)
        } else if same_text(name, "failed") {
            Some(ScheduledPricingChangeStatus::Failed)
        } else if same_text(name, "cancelled") {
            Some(ScheduledPricingChangeStatus::Cancelled)
        } else {
            None
        }
    }
}

/// The status that a stored name stands for.
pub open spec fn named_status(name: Seq<char>) -> Option<ScheduledPricingChangeStatus> {
    if name == "pending"@ {
        Some(ScheduledPricingChangeStatus::Pending)
    } else if name == "applying"@ {
        Some(ScheduledPricingChangeStatus::Applying)
    } else if name == "applied"@ {
        Some(ScheduledPricingChangeStatus::Applied)
    } else if name == "failed"@ {
        Some(ScheduledPricingChangeStatus::Failed)
    } else if name == "cancelled"@ {
        Some(ScheduledPricingChangeStatus::Cancelled)
    } else {
        None
    }
}

/// The name of a status stands for it.
pub proof fn law_status_names_read_back(status: ScheduledPricingChangeStatus)
    ensures
        named_status(status.name()) == Some(status),
{
    reveal_strlit("pending");
    reveal_strlit("applying");
    reveal_strlit("applied");
    reveal_strlit("failed");
    reveal_strlit("cancelled");
    assert("pending"@.len() == 7 && "pending"@[0] == 'p');
    assert("applying"@.len() == 8);
    assert("applied"@.len() == 7 && "applied"@[0] == 'a');
    assert("failed"@.len() == 6);
    assert("cancelled"@.len() == 9);
}

/// The prices of a model; those that are absent do not change.
#[derive(Debug, Clone, Copy, PartialEq, Eq, Structural)]
pub struct PriceSet {
    pub input_cost_per_token: Option<i64>,
    pub output_cost_per_token: Option<i64>,
    pub cache_read_cost_per_token: Option<i64>,
    pub cost_per_image: Option<i64>,
}

/// A planned change of prices, as it is stored.
#[derive(Debug, Clone)]
pub struct ScheduledPricingChangeRow {
    pub id: Uuid,
    pub batch_id: Uuid,
    pub model_id: Uuid,
    pub model_name: String,
    pub model_display_name: String,
    pub new_prices: PriceSet,
    pub old_prices: PriceSet,
    pub effective_at: Timestamp,
    pub status: String,
    pub apply_attempts: i32,
    pub applied_at: Option<Timestamp>,
    pub last_error: Option<String>,
    pub created_by_user_id: Option<Uuid>,
    pub created_by_user_email: Option<String>,
    pub change_reason: Option<String>,
    pub created_at: Timestamp,
}

/// A planned change of prices.
#[derive(Debug, Clone)]
pub struct ScheduledPricingChange {
    pub id: Uuid,
    pub batch_id: Uuid,
    pub model_id: Uuid,
    pub model_name: String,
    pub model_display_name: String,
    pub new_prices: PriceSet,
    pub old_prices: PriceSet,
    pub effective_at: Timestamp,
    pub status: ScheduledPricingChangeStatus,
    pub apply_attempts: i32,
    pub applied_at: Option<Timestamp>,
    pub last_error: Option<String>,
    pub created_by_user_id: Option<Uuid>,
    pub created_by_user_email: Option<String>,
    pub change_reason: Option<String>,
    pub created_at: Timestamp,
}

/// What a stored change says; a message where its status is not known.
pub open spec fn change_of(row: ScheduledPricingChangeRow) -> Result<
    ScheduledPricingChange,
    Seq<char>,
> {
    match named_status(row.status@) {
        Some(status) => Ok(
            ScheduledPricingChange {
                id: row.id,
                batch_id: row.batch_id,
                model_id: row.model_id,
                model_name: row.model_name,
                model_display_name: row.model_display_name,
                new_prices: row.new_prices,
                old_prices: row.old_prices,
                effective_at: row.effective_at,
                status,
                apply_attempts: row.apply_attempts,
                applied_at: row.applied_at,
                last_error: row.last_error,
                created_by_user_id: row.created_by_user_id,
                created_by_user_email: row.created_by_user_email,
                change_reason: row.change_reason,
                created_at: row.created_at,
            },
        ),
        None => Err("unknown scheduled pricing change status '"@ + row.status@ + "'"@),
    }
}

/// Reads a stored change.
pub fn row_to_scheduled_pricing_change(row: ScheduledPricingChangeRow) -> (r: Result<
    ScheduledPricingChange,
    String,
>)
    ensures
        change_of(row) == (match r {
            Ok(change) => Ok(change),
            Err(message) => Err(message@),
        }),
{
    let status = match ScheduledPricingChangeStatus::parse(row.status.as_str()) {
        Some(status) => status,
        None => {
            let mut message = "unknown scheduled pricing change status '".to_owned();
            message.append(row.status.as_str());
            message.append("'");
            return Err(message);
        },
    };
    Ok(
        ScheduledPricingChange {
            id: row.id,
            batch_id: row.batch_id,
            model_id: row.model_id,
            model_name: row.model_name,
            model_display_name: row.model_display_name,
            new_prices: row.new_prices,
            old_prices: row.old_prices,
            effective_at: row.effective_at,
            status,
            apply_attempts: row.apply_attempts,
            applied_at: row.applied_at,
            last_error: row.last_error,
            created_by_user_id: row.created_by_user_id,
            created_by_user_email: row.created_by_user_email,
            change_reason: row.change_reason,
            created_at: row.created_at,
        },
    )
}

/// The rule that a model has one open change.
pub const OPEN_CHANGE_CONSTRAINT: &'static str = "uq_scheduled_pricing_change_open_per_model";

/// The code of a broken uniqueness rule.
pub const UNIQUE_VIOLATION: &'static str = "23505";

/// Whether storing a change failed because the model has an open change.
pub fn is_open_conflict(code: &Option<String>, constraint: &Option<String>) -> (r: bool)
    ensures
        r == (crate::text::optional_view(*code) == Some(UNIQUE_VIOLATION@)
            && crate::text::optional_view(*constraint) == Some(OPEN_CHANGE_CONSTRAINT@)),
{
    same_optional_text(code, &Some(UNIQUE_VIOLATION.to_owned())) && same_optional_text(
        constraint,
        &Some(OPEN_CHANGE_CONSTRAINT.to_owned()),
    )
}

/// What stored changes say, in the order they come in; the message of the first
/// whose status is not known.
pub open spec fn changes_of(rows: Seq<ScheduledPricingChangeRow>) -> Result<
    Seq<ScheduledPricingChange>,
    Seq<char>,
>
    decreases rows.len(),
{
    if rows.len() == 0 {
        Ok(seq![])
    } else {
        match changes_of(rows.drop_last()) {
            Ok(changes) => match change_of(rows.last()) {
                Ok(change) => Ok(changes.push(change)),
                Err(message) => Err(message),
            },
            Err(message) => Err(message),
        }
    }
}

fn read_changes(rows: Vec<ScheduledPricingChangeRow>) -> (r: Result<
    Vec<ScheduledPricingChange>,
    String,
>)
    ensures
        changes_of(rows@) == (match r {
            Ok(changes) => Ok(changes@),
            Err(message) => Err(message@),
        }),
{
    let ghost all = rows@;
    let mut changes: Vec<ScheduledPricingChange> = Vec::new();
    assert(all.take(0) =~= seq![]);
    for row in each: rows
        invariant
            each.seq() == all,
            changes_of(all.take(each.index() as int)) == Ok::<
                Seq<ScheduledPricingChange>,
                Seq<char>,
            >(changes@),
    {
        let ghost done = each.index() as int;
        proof {
            assert(all.take(done + 1).drop_last() =~= all.take(done));
            assert(all.take(done + 1).last() == row);
        }
        match row_to_scheduled_pricing_change(row) {
            Ok(change) => {
                changes.push(change);
            },
            Err(message) => {
                proof {
                    lemma_first_fault(all, done + 1, message@);
                }
                return Err(message);
            },
        }
    }
    assert(all.take(all.len() as int) =~= all);
    Ok(changes)
}

/// A fault among the first changes is the fault of them all.
proof fn lemma_first_fault(rows: Seq<ScheduledPricingChangeRow>, n: int, message: Seq<char>)
    requires
        0 <= n <= rows.len(),
        changes_of(rows.take(n)) == Err::<Seq<ScheduledPricingChange>, Seq<char>>(message),
    ensures
        changes_of(rows) == Err::<Seq<ScheduledPricingChange>, Seq<char>>(message),
    decreases rows.len(),
{
    if n == rows.len() {
        assert(rows.take(n) =~= rows);
    } else {
        assert(rows.drop_last().take(n) =~= rows.take(n));
        lemma_first_fault(rows.drop_last(), n, message);
    }
}

/// A change of prices that is to be stored.
#[derive(Debug, Clone)]
pub struct ScheduledPricingChangeInsert {
    pub model_id: Uuid,
    pub model_name: String,
    pub model_display_name: String,
    pub new_prices: PriceSet,
    pub old_prices: PriceSet,
    pub effective_at: Timestamp,
}

/// Who asked for a change, and why.
#[derive(Debug, Clone)]
pub struct ChangeAuthor {
    pub user_id: Option<Uuid>,
    pub user_email: Option<String>,
    pub reason: Option<String>,
}

/// How far the storing of a batch has come: the statement that is being carried
/// out, all in one transaction.
#[derive(Debug, Clone)]
pub enum BatchState {
    /// Reading the changes that the batch has already.
    ReadingBatch,
    /// Storing the change at a position.
    Storing { position: usize, stored: Vec<ScheduledPricingChange> },
    Committing { stored: Vec<ScheduledPricingChange> },
    Ended,
}

/// What a statement gave back.
#[derive(Debug, Clone)]
pub enum BatchEvent {
    BatchRead(Vec<ScheduledPricingChangeRow>),
    ChangeStored(ScheduledPricingChangeRow),
    /// The change was not stored.
    StoreRefused { code: Option<String>, constraint: Option<String> },
    Committed,
}

/// What comes next. Whatever ends without a commit leaves nothing stored.
#[derive(Debug, Clone)]
pub enum BatchAction {
    /// Stores the change at a position.
    Store { position: usize },
    Commit,
    /// Ends with the changes of the batch.
    Answer(Vec<ScheduledPricingChange>),
    /// Ends in an error: a model has an open change.
    Conflict { model_name: String },
    /// Ends in an error: a stored change cannot be read.
    Unreadable { message: String },
    /// Ends in the error with which the change was refused.
    Fail,
}

/// A state, with its changes as a sequence.
pub enum BatchStateView {
    ReadingBatch,
    Storing { position: int, stored: Seq<ScheduledPricingChange> },
    Committing { stored: Seq<ScheduledPricingChange> },
    Ended,
}

/// An event, with its rows as a sequence and its texts as characters.
pub enum BatchEventView {
    BatchRead(Seq<ScheduledPricingChangeRow>),
    ChangeStored(ScheduledPricingChangeRow),
    StoreRefused { code: Option<Seq<char>>, constraint: Option<Seq<char>> },
    Committed,
}

/// An action, with its changes as a sequence and its texts as characters.
pub enum BatchActionView {
    Store { position: int },
    Commit,
    Answer(Seq<ScheduledPricingChange>),
    Conflict { model_name: Seq<char> },
    Unreadable { message: Seq<char> },
    Fail,
}

impl View for BatchState {
    type V = BatchStateView;

    open spec fn view(&self) -> BatchStateView {
        match self {
            BatchState::ReadingBatch => BatchStateView::ReadingBatch,
            BatchState::Storing { position, stored } => BatchStateView::Storing {
                position: *position as int,
                stored: stored@,
            },
            BatchState::Committing { stored } => BatchStateView::Committing { stored: stored@ },
            BatchState::Ended => BatchStateView::Ended,
        }
    }
}

impl View for BatchEvent {
    type V = BatchEventView;

    open spec fn view(&self) -> BatchEventView {
        match self {
            BatchEvent::BatchRead(rows) => BatchEventView::BatchRead(rows@),
            BatchEvent::ChangeStored(row) => BatchEventView::ChangeStored(*row),
            BatchEvent::StoreRefused { code, constraint } => BatchEventView::StoreRefused {
                code: crate::text::optional_view(*code),
                constraint: crate::text::optional_view(*constraint),
            },
            BatchEvent::Committed => BatchEventView::Committed,
        }
    }
}

impl View for BatchAction {
    type V = BatchActionView;

    open spec fn view(&self) -> BatchActionView {
        match self {
            BatchAction::Store { position } => BatchActionView::Store { position: *position as int },
            BatchAction::Commit => BatchActionView::Commit,
            BatchAction::Answer(changes) => BatchActionView::Answer(changes@),
            BatchAction::Conflict { model_name } => BatchActionView::Conflict {
                model_name: model_name@,
            },
            BatchAction::Unreadable { message } => BatchActionView::Unreadable { message: message@ },
            BatchAction::Fail => BatchActionView::Fail,
        }
    }
}

/// Whether an event is one that a state of a batch with so many changes waits
/// for.
pub open spec fn batch_expects(count: int, state: BatchStateView, event: BatchEventView) -> bool {
    match state {
        BatchStateView::ReadingBatch => event is BatchRead,
        BatchStateView::Storing { position, .. } => 0 <= position < count && (event is ChangeStored
            || event is StoreRefused),
        BatchStateView::Committing { .. } => event is Committed,
        BatchStateView::Ended => false,
    }
}

/// What comes once `stored` holds the first changes of a batch: the next of
/// them, or the commit.
pub open spec fn after_storing(count: int, stored: Seq<ScheduledPricingChange>) -> (
    BatchStateView,
    BatchActionView,
) {
    let position = stored.len() as int;
    if position < count {
        (BatchStateView::Storing { position, stored }, BatchActionView::Store { position })
    } else {
        (BatchStateView::Committing { stored }, BatchActionView::Commit)
    }
}

/// Whether a state has stored exactly the changes before its position.
pub open spec fn batch_state_ok(state: BatchStateView) -> bool {
    state matches BatchStateView::Storing { position, stored } ==> position == stored.len()
}

/// The state and the action that follow on a state by an event.
pub open spec fn batch_next(
    changes: Seq<ScheduledPricingChangeInsert>,
    state: BatchStateView,
    event: BatchEventView,
) -> (BatchStateView, BatchActionView) {
    match (state, event) {
        (BatchStateView::ReadingBatch, BatchEventView::BatchRead(rows)) => if rows.len() > 0 {
            match changes_of(rows) {
                Ok(existing) => (BatchStateView::Ended, BatchActionView::Answer(existing)),
                Err(message) => (BatchStateView::Ended, BatchActionView::Unreadable { message }),
            }
        } else {
            after_storing(changes.len() as int, seq![])
        },
        (BatchStateView::Storing { stored, .. }, BatchEventView::ChangeStored(row)) => match change_of(
            row,
        ) {
            Ok(change) => after_storing(changes.len() as int, stored.push(change)),
            Err(message) => (BatchStateView::Ended, BatchActionView::Unreadable { message }),
        },
        (
            BatchStateView::Storing { position, .. },
            BatchEventView::StoreRefused { code, constraint },
        ) => if code == Some(UNIQUE_VIOLATION@) && constraint == Some(OPEN_CHANGE_CONSTRAINT@) {
            (
                BatchStateView::Ended,
                BatchActionView::Conflict { model_name: changes[position].model_name@ },
            )
        } else {
            (BatchStateView::Ended, BatchActionView::Fail)
        },
        (BatchStateView::Committing { stored }, BatchEventView::Committed) => (
            BatchStateView::Ended,
            BatchActionView::Answer(stored),
        ),
        _ => (BatchStateView::Ended, BatchActionView::Fail),
    }
}

fn store_next(count: usize, stored: Vec<ScheduledPricingChange>) -> (r: (BatchState, BatchAction))
    ensures
        (r.0@, r.1@) == after_storing(count as int, stored@),
        batch_state_ok(r.0@),
{
    let position: usize = stored.len();
    if position < count {
        (BatchState::Storing { position, stored }, BatchAction::Store { position })
    } else {
        (BatchState::Committing { stored }, BatchAction::Commit)
    }
}

/// Decides the next statement in the storing of a confirmed batch. A batch that
/// was confirmed before is answered with the changes it has; any other is stored
/// whole or not at all.
pub fn insert_scheduled_pricing_changes(
    changes: &Vec<ScheduledPricingChangeInsert>,
    state: BatchState,
    event: BatchEvent,
) -> (r: (BatchState, BatchAction))
    requires
        batch_state_ok(state@),
        batch_expects(changes@.len() as int, state@, event@),
    ensures
        (r.0@, r.1@) == batch_next(changes@, state@, event@),
        batch_state_ok(r.0@),
{
    match (state, event) {
        (BatchState::ReadingBatch, BatchEvent::BatchRead(rows)) => if rows.len() > 0 {
            match read_changes(rows) {
                Ok(existing) => (BatchState::Ended, BatchAction::Answer(existing)),
                Err(message) => (BatchState::Ended, BatchAction::Unreadable { message }),
            }
        } else {
            let stored: Vec<ScheduledPricingChange> = Vec::new();
            assert(stored@ =~= seq![]);
            store_next(changes.len(), stored)
        },
        (
            BatchState::Storing { position: _, stored },
            BatchEvent::ChangeStored(row),
        ) => match row_to_scheduled_pricing_change(row) {
            Ok(change) => {
                let mut longer = stored;
                longer.push(change);
                store_next(changes.len(), longer)
            },
            Err(message) => (BatchState::Ended, BatchAction::Unreadable { message }),
        },
        (
            BatchState::Storing { position, stored: _ },
            BatchEvent::StoreRefused { code, constraint },
        ) => if is_open_conflict(&code, &constraint) {
            let model_name = changes[position].model_name.clone();
            (BatchState::Ended, BatchAction::Conflict { model_name })
        } else {
            (BatchState::Ended, BatchAction::Fail)
        },
        (BatchState::Committing { stored }, BatchEvent::Committed) => (
            BatchState::Ended,
            BatchAction::Answer(stored),
        ),
        _ => (BatchState::Ended, BatchAction::Fail),
    }
}

/// Whether a stored change can still take effect.
pub open spec fn is_open_row(row: ScheduledPricingChangeRow) -> bool {
    named_status(row.status@) matches Some(status) && status.is_open()
}

/// Whether a model has an open change in a table.
pub open spec fn has_open(table: Seq<ScheduledPricingChangeRow>, model_id: Uuid) -> bool {
    exists|i: int|
        0 <= i < table.len() && (#[trigger] table[i]).model_id == model_id && is_open_row(table[i])
}

/// Whether a row is what storing a change of a batch makes of it.
pub open spec fn stores(
    row: ScheduledPricingChangeRow,
    batch_id: Uuid,
    change: ScheduledPricingChangeInsert,
    author: ChangeAuthor,
) -> bool {
    &&& row.batch_id == batch_id
    &&& row.model_id == change.model_id
    &&& row.model_name == change.model_name
    &&& row.model_display_name == change.model_display_name
    &&& row.new_prices == change.new_prices
    &&& row.old_prices == change.old_prices
    &&& row.effective_at == change.effective_at
    &&& row.created_by_user_id == author.user_id
    &&& row.created_by_user_email == author.user_email
    &&& row.change_reason == author.reason
    &&& row.status@ == ScheduledPricingChangeStatus::Pending.name()
}

/// Whether each row is what storing the change at its place makes of it.
pub open spec fn store_all(
    rows: Seq<ScheduledPricingChangeRow>,
    batch_id: Uuid,
    changes: Seq<ScheduledPricingChangeInsert>,
    author: ChangeAuthor,
) -> bool {
    &&& rows.len() == changes.len()
    &&& forall|i: int|
        0 <= i < rows.len() ==> stores(#[trigger] rows[i], batch_id, changes[i], author)
}

/// Whether rows are those of a batch in a table, in some order.
pub open spec fn lists_batch(
    rows: Seq<ScheduledPricingChangeRow>,
    table: Seq<ScheduledPricingChangeRow>,
    batch_id: Uuid,
) -> bool {
    rows.to_multiset() == table.filter(
        |row: ScheduledPricingChangeRow| row.batch_id == batch_id,
    ).to_multiset()
}

/// A table after a batch was confirmed, and what was answered.
pub struct BatchOutcome {
    pub table: Seq<ScheduledPricingChangeRow>,
    pub answer: BatchActionView,
}

/// Carries out an action and all that follow on it. A model that has an open
/// change is refused another; any other change at a position is stored as the
/// row at that position of `drawn`. The table changes only by a commit.
pub open spec fn run_batch(
    table: Seq<ScheduledPricingChangeRow>,
    changes: Seq<ScheduledPricingChangeInsert>,
    drawn: Seq<ScheduledPricingChangeRow>,
    stored: int,
    reached: (BatchStateView, BatchActionView),
) -> BatchOutcome
    decreases changes.len() - stored,
{
    match reached.1 {
        BatchActionView::Store { position } => if position == stored && 0 <= stored
            < changes.len() {
            if has_open(table + drawn.take(stored), changes[stored].model_id) {
                BatchOutcome {
                    table,
                    answer: batch_next(
                        changes,
                        reached.0,
                        BatchEventView::StoreRefused {
                            code: Some(UNIQUE_VIOLATION@),
                            constraint: Some(OPEN_CHANGE_CONSTRAINT@),
                        },
                    ).1,
                }
            } else {
                run_batch(
                    table,
                    changes,
                    drawn,
                    stored + 1,
                    batch_next(changes, reached.0, BatchEventView::ChangeStored(drawn[stored])),
                )
            }
        } else {
            BatchOutcome { table, answer: reached.1 }
        },
        BatchActionView::Commit => BatchOutcome {
            table: table + drawn.take(stored),
            answer: batch_next(changes, reached.0, BatchEventView::Committed).1,
        },
        answer => BatchOutcome { table, answer },
    }
}

/// Confirms a batch of which `read` was found in a table.
pub open spec fn confirm(
    table: Seq<ScheduledPricingChangeRow>,
    read: Seq<ScheduledPricingChangeRow>,
    changes: Seq<ScheduledPricingChangeInsert>,
    drawn: Seq<ScheduledPricingChangeRow>,
) -> BatchOutcome {
    run_batch(
        table,
        changes,
        drawn,
        0,
        batch_next(changes, BatchStateView::ReadingBatch, BatchEventView::BatchRead(read)),
    )
}

/// Whether a change of a batch is the first whose model has an open change by
/// then.
pub open spec fn first_conflict(
    table: Seq<ScheduledPricingChangeRow>,
    changes: Seq<ScheduledPricingChangeInsert>,
    drawn: Seq<ScheduledPricingChangeRow>,
    at: int,
) -> bool {
    &&& 0 <= at < changes.len()
    &&& has_open(table + drawn.take(at), changes[at].model_id)
    &&& no_conflict_before(table, changes, drawn, at)
}

/// Whether no change of a batch before a position finds its model with an open
/// change.
pub open spec fn no_conflict_before(
    table: Seq<ScheduledPricingChangeRow>,
    changes: Seq<ScheduledPricingChangeInsert>,
    drawn: Seq<ScheduledPricingChangeRow>,
    end: int,
) -> bool {
    forall|i: int|
        0 <= i < end ==> !has_open(table + drawn.take(i), (#[trigger] changes[i]).model_id)
}

/// What pending rows say can be read, and says what they store.
proof fn lemma_pending_rows_are_read(rows: Seq<ScheduledPricingChangeRow>)
    requires
        forall|i: int|
            0 <= i < rows.len() ==> (#[trigger] rows[i]).status@
                == ScheduledPricingChangeStatus::Pending.name(),
    ensures
        changes_of(rows) matches Ok(list) && list.len() == rows.len() && (forall|i: int|
            0 <= i < rows.len() ==> change_of(rows[i]) == Ok::<ScheduledPricingChange, Seq<char>>(
                #[trigger] list[i],
            )),
    decreases rows.len(),
{
    if rows.len() > 0 {
        law_status_names_read_back(ScheduledPricingChangeStatus::Pending);
        let shorter = rows.drop_last();
        assert forall|i: int| 0 <= i < shorter.len() implies (#[trigger] shorter[i]).status@
            == ScheduledPricingChangeStatus::Pending.name() by {
            assert(shorter[i] == rows[i]);
        }
        lemma_pending_rows_are_read(shorter);
        assert(rows[rows.len() - 1] == rows.last());
    }
}

proof fn lemma_run_stores(
    table: Seq<ScheduledPricingChangeRow>,
    batch_id: Uuid,
    changes: Seq<ScheduledPricingChangeInsert>,
    author: ChangeAuthor,
    drawn: Seq<ScheduledPricingChangeRow>,
    stored: int,
    end: int,
)
    requires
        store_all(drawn, batch_id, changes, author),
        0 <= stored <= end <= changes.len(),
        no_conflict_before(table, changes, drawn, end),
        end == changes.len() || has_open(table + drawn.take(end), changes[end].model_id),
    ensures
        changes_of(drawn.take(stored)) is Ok,
        run_batch(
            table,
            changes,
            drawn,
            stored,
            after_storing(changes.len() as int, changes_of(drawn.take(stored))->Ok_0),
        ) == (if end == changes.len() {
            BatchOutcome {
                table: table + drawn,
                answer: BatchActionView::Answer(changes_of(drawn)->Ok_0),
            }
        } else {
            BatchOutcome {
                table,
                answer: BatchActionView::Conflict { model_name: changes[end].model_name@ },
            }
        }),
    decreases changes.len() - stored,
{
    let first = drawn.take(stored);
    assert forall|i: int| 0 <= i < first.len() implies (#[trigger] first[i]).status@
        == ScheduledPricingChangeStatus::Pending.name() by {
        assert(first[i] == drawn[i]);
    }
    lemma_pending_rows_are_read(first);
    if stored == changes.len() {
        assert(first =~= drawn);
    } else if stored < end {
        assert(!has_open(table + drawn.take(stored), changes[stored].model_id));
        let longer = drawn.take(stored + 1);
        assert(longer.drop_last() =~= first);
        assert(longer.last() == drawn[stored]);
        assert(stores(drawn[stored], batch_id, changes[stored], author));
        law_status_names_read_back(ScheduledPricingChangeStatus::Pending);
        lemma_run_stores(table, batch_id, changes, author, drawn, stored + 1, end);
    }
}

/// A batch of which nothing is stored, and whose models have no open change, is
/// stored whole: the table gains its changes and no others, and they are the
/// answer, in the order they were asked for.
pub proof fn law_a_new_batch_is_stored_whole(
    table: Seq<ScheduledPricingChangeRow>,
    batch_id: Uuid,
    changes: Seq<ScheduledPricingChangeInsert>,
    author: ChangeAuthor,
    drawn: Seq<ScheduledPricingChangeRow>,
)
    requires
        store_all(drawn, batch_id, changes, author),
        no_conflict_before(table, changes, drawn, changes.len() as int),
    ensures
        confirm(table, seq![], changes, drawn).table == table + drawn,
        confirm(table, seq![], changes, drawn).answer matches BatchActionView::Answer(answer)
            && answer.len() == changes.len() && (forall|i: int|
            0 <= i < changes.len() ==> change_of(drawn[i]) == Ok::<
                ScheduledPricingChange,
                Seq<char>,
            >(#[trigger] answer[i])),
{
    assert(drawn.take(0) =~= seq![]);
    lemma_run_stores(table, batch_id, changes, author, drawn, 0, changes.len() as int);
    assert forall|i: int| 0 <= i < drawn.len() implies (#[trigger] drawn[i]).status@
        == ScheduledPricingChangeStatus::Pending.name() by {
        assert(stores(drawn[i], batch_id, changes[i], author));
    }
    lemma_pending_rows_are_read(drawn);
}

/// A batch that asks for a change of a model with an open change is refused with
/// the name of the first such model, and nothing of it is stored.
pub proof fn law_a_conflict_stores_nothing(
    table: Seq<ScheduledPricingChangeRow>,
    batch_id: Uuid,
    changes: Seq<ScheduledPricingChangeInsert>,
    author: ChangeAuthor,
    drawn: Seq<ScheduledPricingChangeRow>,
    at: int,
)
    requires
        store_all(drawn, batch_id, changes, author),
        first_conflict(table, changes, drawn, at),
    ensures
        confirm(table, seq![], changes, drawn).table == table,
        confirm(table, seq![], changes, drawn).answer == (BatchActionView::Conflict {
            model_name: changes[at].model_name@,
        }),
{
    assert(drawn.take(0) =~= seq![]);
    lemma_run_stores(table, batch_id, changes, author, drawn, 0, at);
}

/// Where no model of a batch has an open change and none comes twice, no change
/// of it meets a conflict.
pub proof fn law_separate_models_do_not_conflict(
    table: Seq<ScheduledPricingChangeRow>,
    batch_id: Uuid,
    changes: Seq<ScheduledPricingChangeInsert>,
    author: ChangeAuthor,
    drawn: Seq<ScheduledPricingChangeRow>,
)
    requires
        store_all(drawn, batch_id, changes, author),
        forall|i: int|
            0 <= i < changes.len() ==> !has_open(table, (#[trigger] changes[i]).model_id),
        forall|i: int, j: int|
            0 <= i < j < changes.len() ==> (#[trigger] changes[i]).model_id != (
            #[trigger] changes[j]).model_id,
    ensures
        no_conflict_before(table, changes, drawn, changes.len() as int),
{
    assert forall|i: int| 0 <= i < changes.len() implies !has_open(
        table + drawn.take(i),
        (#[trigger] changes[i]).model_id,
    ) by {
        let grown = table + drawn.take(i);
        if has_open(grown, changes[i].model_id) {
            let k = choose|k: int|
                0 <= k < grown.len() && (#[trigger] grown[k]).model_id == changes[i].model_id
                    && is_open_row(grown[k]);
            if k < table.len() {
                assert(table[k] == grown[k]);
                assert(has_open(table, changes[i].model_id));
            } else {
                let j = k - table.len();
                assert(grown[k] == drawn[j]);
                assert(stores(drawn[j], batch_id, changes[j], author));
                assert(changes[j].model_id != changes[i].model_id);
            }
        }
    }
}

/// A batch of which anything is stored is not stored again, whatever it asks
/// for: the table stays as it is, and the answer is what is stored.
pub proof fn law_a_stored_batch_is_not_stored_again(
    table: Seq<ScheduledPricingChangeRow>,
    read: Seq<ScheduledPricingChangeRow>,
    changes: Seq<ScheduledPricingChangeInsert>,
    drawn: Seq<ScheduledPricingChangeRow>,
)
    requires
        read.len() > 0,
    ensures
        confirm(table, read, changes, drawn).table == table,
        confirm(table, read, changes, drawn).answer == (match changes_of(read) {
            Ok(existing) => BatchActionView::Answer(existing),
            Err(message) => BatchActionView::Unreadable { message },
        }),
{
}

/// Confirming a batch twice is confirming it once: the second time adds nothing
/// and answers exactly the changes that the first time stored, whatever it asks
/// for.
pub proof fn law_confirming_twice_is_confirming_once(
    table: Seq<ScheduledPricingChangeRow>,
    batch_id: Uuid,
    changes: Seq<ScheduledPricingChangeInsert>,
    author: ChangeAuthor,
    drawn: Seq<ScheduledPricingChangeRow>,
    read: Seq<ScheduledPricingChangeRow>,
    changes_again: Seq<ScheduledPricingChangeInsert>,
    drawn_again: Seq<ScheduledPricingChangeRow>,
)
    requires
        changes.len() > 0,
        lists_batch(seq![], table, batch_id),
        store_all(drawn, batch_id, changes, author),
        no_conflict_before(table, changes, drawn, changes.len() as int),
        lists_batch(read, confirm(table, seq![], changes, drawn).table, batch_id),
    ensures
        ({
            let first = confirm(table, seq![], changes, drawn);
            let second = confirm(first.table, read, changes_again, drawn_again);
            &&& second.table == first.table
            &&& read.to_multiset() == drawn.to_multiset()
            &&& second.answer matches BatchActionView::Answer(answer)
            &&& answer.len() == changes.len()
            &&& forall|i: int|
                0 <= i < answer.len() ==> change_of(read[i]) == Ok::<
                    ScheduledPricingChange,
                    Seq<char>,
                >(#[trigger] answer[i])
        }),
{
    law_a_new_batch_is_stored_whole(table, batch_id, changes, author, drawn);
    lemma_batch_after_storing(table, batch_id, changes, author, drawn, read);
    assert forall|i: int| 0 <= i < read.len() implies (#[trigger] read[i]).status@
        == ScheduledPricingChangeStatus::Pending.name() by {
        let k = choose|k: int| 0 <= k < drawn.len() && drawn[k] == read[i];
        assert(stores(drawn[k], batch_id, changes[k], author));
    }
    lemma_pending_rows_are_read(read);
    law_a_stored_batch_is_not_stored_again(table + drawn, read, changes_again, drawn_again);
}

/// Where a batch had no changes, those that were stored are all it has.
proof fn lemma_batch_after_storing(
    table: Seq<ScheduledPricingChangeRow>,
    batch_id: Uuid,
    changes: Seq<ScheduledPricingChangeInsert>,
    author: ChangeAuthor,
    drawn: Seq<ScheduledPricingChangeRow>,
    read: Seq<ScheduledPricingChangeRow>,
)
    requires
        lists_batch(seq![], table, batch_id),
        store_all(drawn, batch_id, changes, author),
        lists_batch(read, table + drawn, batch_id),
    ensures
        read.to_multiset() == drawn.to_multiset(),
        read.len() == drawn.len(),
        forall|i: int| 0 <= i < read.len() ==> drawn.contains(#[trigger] read[i]),
{
    let own = |row: ScheduledPricingChangeRow| row.batch_id == batch_id;
    let none: Seq<ScheduledPricingChangeRow> = seq![];
    assert(table.filter(own) =~= none) by {
        none.to_multiset_ensures();
        table.filter(own).to_multiset_ensures();
    }
    assert forall|i: int| 0 <= i < drawn.len() implies own(#[trigger] drawn[i]) by {
        assert(stores(drawn[i], batch_id, changes[i], author));
    }
    lemma_all_kept(drawn, own);
    Seq::filter_distributes_over_add(table, drawn, own);
    assert(none + drawn =~= drawn);
    read.to_multiset_ensures();
    drawn.to_multiset_ensures();
    assert forall|i: int| 0 <= i < read.len() implies drawn.contains(#[trigger] read[i]) by {
        assert(read.contains(read[i]));
        assert(read.to_multiset().count(read[i]) > 0);
    }
}

/// A filter that keeps every row changes nothing.
proof fn lemma_all_kept(
    rows: Seq<ScheduledPricingChangeRow>,
    keep: spec_fn(ScheduledPricingChangeRow) -> bool,
)
    requires
        forall|i: int| 0 <= i < rows.len() ==> keep(#[trigger] rows[i]),
    ensures
        rows.filter(keep) == rows,
    decreases rows.len(),
{
    reveal(Seq::filter);
    if rows.len() > 0 {
        let shorter = rows.drop_last();
        assert forall|i: int| 0 <= i < shorter.len() implies keep(#[trigger] shorter[i]) by {
            assert(shorter[i] == rows[i]);
        }
        lemma_all_kept(shorter, keep);
        assert(keep(rows[rows.len() - 1]));
        assert(shorter.push(rows.last()) =~= rows);
    }
}

/// The part of a change that moves on.
#[derive(Debug, Clone)]
pub struct ChangeProgress {
    pub status: ScheduledPricingChangeStatus,
    pub apply_attempts: i32,
    pub applied_at: Option<Timestamp>,
    pub last_error: Option<String>,
}

/// What is done to a change.
#[derive(Debug, Clone)]
pub enum ChangeCommand {
    /// An administrator takes it back.
    Cancel,
    /// Its time has come, or not, and it is taken up.
    Claim { is_due: bool },
    /// It was applied.
    MarkApplied { now: Timestamp },
    /// It could not be applied; it may be tried again, or not.
    MarkFailed { error: String, retryable: bool },
    /// It is being applied for too long, or not.
    Recover { is_stale: bool, max_attempts: i32 },
}

/// What is said of a change that was never heard of again.
pub const TIMED_OUT: &'static str = "apply timed out";

/// Whether a change follows from another by a command. Nothing else of it
/// changes.
pub open spec fn follows(
    before: ChangeProgress,
    command: ChangeCommand,
    after: ChangeProgress,
) -> bool {
    match command {
        ChangeCommand::Cancel => {
            &&& before.status == ScheduledPricingChangeStatus::Pending
            &&& after == (ChangeProgress {
                status: ScheduledPricingChangeStatus::Cancelled,
                ..before
            })
        },
        ChangeCommand::Claim { is_due } => {
            &&& before.status == ScheduledPricingChangeStatus::Pending
            &&& is_due
            &&& after == (ChangeProgress {
                status: ScheduledPricingChangeStatus::Applying,
                apply_attempts: (before.apply_attempts + 1) as i32,
                ..before
            })
        },
        ChangeCommand::MarkApplied { now } => {
            &&& before.status == ScheduledPricingChangeStatus::Applying
            &&& after == (ChangeProgress {
                status: ScheduledPricingChangeStatus::Applied,
                applied_at: Some(now),
                last_error: None,
                ..before
            })
        },
        ChangeCommand::MarkFailed { error, retryable } => {
            &&& before.status == ScheduledPricingChangeStatus::Applying
            &&& after == (ChangeProgress {
                status: if retryable {
                    ScheduledPricingChangeStatus::Pending
                } else {
                    ScheduledPricingChangeStatus::Failed
                },
                last_error: Some(error),
                ..before
            })
        },
        ChangeCommand::Recover { is_stale, max_attempts } => {
            &&& before.status == ScheduledPricingChangeStatus::Applying
            &&& is_stale
            &&& if before.apply_attempts >= max_attempts {
                &&& after.status == ScheduledPricingChangeStatus::Failed
                &&& crate::text::optional_view(after.last_error) == Some(
                    match before.last_error {
                        Some(error) => error@,
                        None => TIMED_OUT@,
                    },
                )
                &&& after.apply_attempts == before.apply_attempts
                &&& after.applied_at == before.applied_at
            } else {
                after == (ChangeProgress { status: ScheduledPricingChangeStatus::Pending, ..before })
            }
        },
    }
}

/// Whether a command does anything to a change.
pub open spec fn applies(before: ChangeProgress, command: ChangeCommand) -> bool {
    match command {
        ChangeCommand::Cancel => before.status == ScheduledPricingChangeStatus::Pending,
        ChangeCommand::Claim { is_due } => before.status == ScheduledPricingChangeStatus::Pending
            && is_due,
        ChangeCommand::MarkApplied { .. } => before.status
            == ScheduledPricingChangeStatus::Applying,
        ChangeCommand::MarkFailed { .. } => before.status == ScheduledPricingChangeStatus::Applying,
        ChangeCommand::Recover { is_stale, .. } => before.status
            == ScheduledPricingChangeStatus::Applying && is_stale,
    }
}

/// What a command does to a change, where it does anything.
pub fn advance(before: ChangeProgress, command: ChangeCommand) -> (r: Option<ChangeProgress>)
    requires
        command is Claim ==> before.apply_attempts < i32::MAX,
    ensures
        match r {
            Some(after) => applies(before, command) && follows(before, command, after),
            None => !applies(before, command),
        },
{
    match command {
        ChangeCommand::Cancel => if before.status == ScheduledPricingChangeStatus::Pending {
            Some(ChangeProgress { status: ScheduledPricingChangeStatus::Cancelled, ..before })
        } else {
            None
        },
        ChangeCommand::Claim { is_due } => if before.status
            == ScheduledPricingChangeStatus::Pending && is_due {
            let apply_attempts: i32 = before.apply_attempts + 1;
            Some(
                ChangeProgress {
                    status: ScheduledPricingChangeStatus::Applying,
                    apply_attempts,
                    ..before
                },
            )
        } else {
            None
        },
        ChangeCommand::MarkApplied { now } => if before.status
            == ScheduledPricingChangeStatus::Applying {
            Some(
                ChangeProgress {
                    status: ScheduledPricingChangeStatus::Applied,
                    applied_at: Some(now),
                    last_error: None,
                    ..before
                },
            )
        } else {
            None
        },
        ChangeCommand::MarkFailed { error, retryable } => if before.status
            == ScheduledPricingChangeStatus::Applying {
            Some(
                ChangeProgress {
                    status: if retryable {
                        ScheduledPricingChangeStatus::Pending
                    } else {
                        ScheduledPricingChangeStatus::Failed
                    },
                    last_error: Some(error),
                    ..before
                },
            )
        } else {
            None
        },
        ChangeCommand::Recover { is_stale, max_attempts } => if before.status
            == ScheduledPricingChangeStatus::Applying && is_stale {
            if before.apply_attempts >= max_attempts {
                Some(
                    ChangeProgress {
                        status: ScheduledPricingChangeStatus::Failed,
                        apply_attempts: before.apply_attempts,
                        applied_at: before.applied_at,
                        last_error: match before.last_error {
                            Some(error) => Some(error),
                            None => Some(TIMED_OUT.to_owned()),
                        },
                    },
                )
            } else {
                Some(ChangeProgress { status: ScheduledPricingChangeStatus::Pending, ..before })
            }
        } else {
            None
        },
    }
}

/// A change that was applied, failed or was cancelled never changes again.
pub proof fn law_closed_changes_stay(before: ChangeProgress, command: ChangeCommand)
    requires
        !before.status.is_open(),
    ensures
        !applies(before, command),
{
}

/// Only a change that was taken up becomes applied or failed, and each time it
/// is taken up counts as one attempt.
pub proof fn law_attempts_are_counted(
    before: ChangeProgress,
    command: ChangeCommand,
    after: ChangeProgress,
)
    requires
        before.apply_attempts < i32::MAX,
        follows(before, command, after),
    ensures
        after.status == ScheduledPricingChangeStatus::Applied || after.status
            == ScheduledPricingChangeStatus::Failed ==> before.status
            == ScheduledPricingChangeStatus::Applying,
        after.apply_attempts == before.apply_attempts + (if command is Claim {
            1int
        } else {
            0int
        }),
{
}

/// A change that was forgotten goes back to be tried again only while it has
/// attempts left.
pub proof fn law_recovered_changes_have_attempts_left(
    before: ChangeProgress,
    is_stale: bool,
    max_attempts: i32,
    after: ChangeProgress,
)
    requires
        follows(before, (ChangeCommand::Recover { is_stale, max_attempts }), after),
    ensures
        after.status == ScheduledPricingChangeStatus::Pending <==> after.apply_attempts
            < max_attempts,
        after.status == ScheduledPricingChangeStatus::Failed <==> after.apply_attempts
            >= max_attempts,
        after.status == ScheduledPricingChangeStatus::Failed ==> after.last_error is Some,
{
}

/// How a message about a model went.
#[derive(Debug, Clone, Copy, PartialEq, Eq, Structural)]
pub enum DeliveryStatus {
    Sent,
    NotSent,
}

/// When a message was sent, if it was.
pub fn email_sent_at(status: DeliveryStatus, now: Timestamp) -> (r: Option<Timestamp>)
    ensures
        r == (if status == DeliveryStatus::Sent {
            Some(now)
        } else {
            None
        }),
{
    if status == DeliveryStatus::Sent {
        Some(now)
    } else {
        None
    }
}

/// The number under which a limit is stored: one that is too large for the
/// column wraps around.
pub open spec fn stored_limit(limit: u32) -> int {
    if limit <= i32::MAX {
        limit as int
    } else {
        limit - 0x1_0000_0000
    }
}

/// The limit that a stored number stands for; zero and negative ones stand for
/// none.
pub open spec fn read_limit(stored: i32) -> Option<u32> {
    if stored > 0 {
        Some(stored as u32)
    } else {
        None
    }
}

/// The number under which a limit on concurrent requests is stored.
pub fn concurrent_limit_column(limit: Option<u32>) -> (r: Option<i32>)
    ensures
        match (limit, r) {
            (Some(value), Some(stored)) => stored == stored_limit(value),
            (None, None) => true,
            _ => false,
        },
{
    match limit {
        Some(value) => {
            proof {
                if value > i32::MAX {
                    assert(#[verifier::truncate] (value as i32) == value - 0x1_0000_0000)
                        by (bit_vector)
                        requires
                            value > 0x7fff_ffffu32,
                    ;
                }
            }
            Some(#[verifier::truncate] (value as i32))
        },
        None => None,
    }
}

/// Reports an organization whose limit was not set because it does not exist or
/// is not active.
pub fn update_organization_concurrent_limit(organization_id: Uuid, rows_updated: u64) -> (r: Result<
    (),
    String,
>)
    ensures
        match r {
            Ok(_) => rows_updated > 0,
            Err(message) => rows_updated == 0 && message@
                == "Organization not found or inactive: "@ + crate::ids::hyphenated(
                organization_id,
            ),
        },
{
    if rows_updated == 0 {
        Err(organization_missing(organization_id))
    } else {
        Ok(())
    }
}

fn organization_missing(organization_id: Uuid) -> (r: String)
    ensures
        r@ == "Organization not found or inactive: "@ + crate::ids::hyphenated(organization_id),
{
    let mut message = "Organization not found or inactive: ".to_owned();
    message.append(organization_id.to_text().as_str());
    message
}

/// The limit on concurrent requests of an organization. The outer option tells
/// whether the organization exists and is active.
pub fn get_organization_concurrent_limit(
    organization_id: Uuid,
    row: Option<Option<i32>>,
) -> (r: Result<Option<u32>, String>)
    ensures
        match r {
            Ok(limit) => row is Some && limit == (match row->0 {
                Some(stored) => read_limit(stored),
                None => None,
            }),
            Err(message) => row is None && message@ == "Organization not found or inactive: "@
                + crate::ids::hyphenated(organization_id),
        },
{
    match row {
        None => Err(organization_missing(organization_id)),
        Some(None) => Ok(None),
        Some(Some(stored)) => if stored > 0 {
            Ok(Some(stored as u32))
        } else {
            Ok(None)
        },
    }
}

/// A limit above zero that fits the column is read back as it was set; any other
/// is read back as none.
pub proof fn law_limits_read_back(limit: u32)
    ensures
        0 < limit <= i32::MAX ==> read_limit(stored_limit(limit) as i32) == Some(limit),
        limit == 0 || limit > i32::MAX ==> read_limit(stored_limit(limit) as i32) is None,
{
}

/// The limit of one type of credit, as administrators see it.
#[derive(Debug, Clone)]
pub struct OrganizationLimits {
    pub organization_id: Uuid,
    pub spend_limit: i64,
    pub credit_type: String,
    pub source: Option<String>,
    pub currency: String,
    pub effective_from: Timestamp,
}

/// What administrators see of a limit.
pub fn organization_limits(history: OrganizationLimitsHistory) -> (r: OrganizationLimits)
    ensures
        r.organization_id == history.organization_id,
        r.spend_limit == history.spend_limit,
        r.credit_type == history.credit_type,
        r.source == history.source,
        r.currency == history.currency,
        r.effective_from == history.effective_from,
{
    OrganizationLimits {
        organization_id: history.organization_id,
        spend_limit: history.spend_limit,
        credit_type: history.credit_type,
        source: history.source,
        currency: history.currency,
        effective_from: history.effective_from,
    }
}

/// The names under which statuses are stored, and no others, are read; a change
/// is open while it is pending or being applied.
pub proof fn law_statuses_are_read_by_name(name: Seq<char>, status: ScheduledPricingChangeStatus)
    ensures
        named_status(name) == Some(ScheduledPricingChangeStatus::Pending) <==> name == "pending"@,
        named_status(name) == Some(ScheduledPricingChangeStatus::Applying) <==> name == "applying"@,
        named_status(name) == Some(ScheduledPricingChangeStatus::Applied) <==> name == "applied"@,
        named_status(name) == Some(ScheduledPricingChangeStatus::Failed) <==> name == "failed"@,
        named_status(name) == Some(ScheduledPricingChangeStatus::Cancelled) <==> name
            == "cancelled"@,
        status.is_open() <==> status == ScheduledPricingChangeStatus::Pending || status
            == ScheduledPricingChangeStatus::Applying,
{
    law_status_names_read_back(ScheduledPricingChangeStatus::Pending);
    law_status_names_read_back(ScheduledPricingChangeStatus::Applying);
    law_status_names_read_back(ScheduledPricingChangeStatus::Applied);
    law_status_names_read_back(ScheduledPricingChangeStatus::Failed);
    law_status_names_read_back(ScheduledPricingChangeStatus::Cancelled);
}

/// A change that is read holds the row's own values, each in its own place.
pub proof fn law_read_change_holds_its_row(row: ScheduledPricingChangeRow)
    ensures
        change_of(row) is Ok <==> row.status@ == "pending"@ || row.status@ == "applying"@
            || row.status@ == "applied"@ || row.status@ == "failed"@ || row.status@ == "cancelled"@,
        change_of(row) matches Ok(change) ==> {
            &&& change.new_prices == row.new_prices
            &&& change.old_prices == row.old_prices
            &&& change.id == row.id
            &&& change.batch_id == row.batch_id
            &&& change.model_id == row.model_id
            &&& change.model_name == row.model_name
            &&& change.model_display_name == row.model_display_name
            &&& change.effective_at == row.effective_at
            &&& change.apply_attempts == row.apply_attempts
            &&& change.applied_at == row.applied_at
            &&& change.last_error == row.last_error
            &&& change.created_by_user_id == row.created_by_user_id
            &&& change.created_by_user_email == row.created_by_user_email
            &&& change.change_reason == row.change_reason
            &&& change.created_at == row.created_at
            &&& change.status.name() == row.status@
        },
        change_of(row) matches Err(message) ==> message
            == "unknown scheduled pricing change status '"@ + row.status@ + "'"@,
{
    law_statuses_are_read_by_name(row.status@, ScheduledPricingChangeStatus::Pending);
}

/// Rows are read in their order, one for one, where each can be read; otherwise
/// the first that cannot be read is told.
pub proof fn law_rows_are_read_in_order(rows: Seq<ScheduledPricingChangeRow>)
    ensures
        changes_of(rows) is Ok <==> forall|i: int|
            0 <= i < rows.len() ==> change_of(#[trigger] rows[i]) is Ok,
        changes_of(rows) matches Ok(list) ==> list.len() == rows.len() && forall|i: int|
            0 <= i < rows.len() ==> #[trigger] list[i] == change_of(rows[i])->Ok_0,
        changes_of(rows) matches Err(message) ==> exists|i: int|
            0 <= i < rows.len() && change_of(#[trigger] rows[i]) == Err::<
                ScheduledPricingChange,
                Seq<char>,
            >(message) && forall|k: int| 0 <= k < i ==> change_of(#[trigger] rows[k]) is Ok,
    decreases rows.len(),
{
    if rows.len() > 0 {
        let n = rows.len() - 1;
        let shorter = rows.drop_last();
        law_rows_are_read_in_order(shorter);
        assert forall|k: int| 0 <= k < n implies #[trigger] rows[k] == shorter[k] by {}
        assert(rows[n] == rows.last());
        match changes_of(shorter) {
            Ok(list) => {
                assert forall|k: int| 0 <= k < n implies change_of(#[trigger] rows[k]) is Ok by {
                    assert(change_of(shorter[k]) is Ok);
                }
            },
            Err(message) => {
                let i = choose|i: int|
                    0 <= i < shorter.len() && change_of(#[trigger] shorter[i]) == Err::<
                        ScheduledPricingChange,
                        Seq<char>,
                    >(message) && forall|k: int|
                        0 <= k < i ==> change_of(#[trigger] shorter[k]) is Ok;
                assert(change_of(rows[i]) == Err::<ScheduledPricingChange, Seq<char>>(message));
                assert forall|k: int| 0 <= k < i implies change_of(#[trigger] rows[k]) is Ok by {
                    assert(change_of(shorter[k]) is Ok);
                }
            },
        }
    }
}

/// The answer to a new batch holds, at each place, what was asked for at that
/// place: the model, the new prices and the old ones, and the time.
pub proof fn law_answer_holds_what_was_asked_for(
    table: Seq<ScheduledPricingChangeRow>,
    batch_id: Uuid,
    changes: Seq<ScheduledPricingChangeInsert>,
    author: ChangeAuthor,
    drawn: Seq<ScheduledPricingChangeRow>,
)
    requires
        store_all(drawn, batch_id, changes, author),
        no_conflict_before(table, changes, drawn, changes.len() as int),
    ensures
        confirm(table, seq![], changes, drawn).answer matches BatchActionView::Answer(answer)
            && answer.len() == changes.len() && (forall|i: int|
            0 <= i < changes.len() ==> (#[trigger] answer[i]).new_prices == changes[i].new_prices
                && answer[i].old_prices == changes[i].old_prices && answer[i].model_id
                == changes[i].model_id && answer[i].model_name == changes[i].model_name
                && answer[i].model_display_name == changes[i].model_display_name
                && answer[i].effective_at == changes[i].effective_at && answer[i].batch_id
                == batch_id && answer[i].created_by_user_id == author.user_id
                && answer[i].change_reason == author.reason && answer[i].status
                == ScheduledPricingChangeStatus::Pending),
{
    law_a_new_batch_is_stored_whole(table, batch_id, changes, author, drawn);
    let answer = confirm(table, seq![], changes, drawn).answer->Answer_0;
    assert forall|i: int| 0 <= i < changes.len() implies (#[trigger] answer[i]).new_prices
        == changes[i].new_prices && answer[i].old_prices == changes[i].old_prices
        && answer[i].model_id == changes[i].model_id && answer[i].model_name
        == changes[i].model_name && answer[i].model_display_name == changes[i].model_display_name
        && answer[i].effective_at == changes[i].effective_at && answer[i].batch_id == batch_id
        && answer[i].created_by_user_id == author.user_id && answer[i].change_reason
        == author.reason && answer[i].status == ScheduledPricingChangeStatus::Pending by {
        assert(stores(drawn[i], batch_id, changes[i], author));
        law_read_change_holds_its_row(drawn[i]);
        law_status_names_read_back(ScheduledPricingChangeStatus::Pending);
        assert(change_of(drawn[i])->Ok_0 == answer[i]);
    }
}

/// What a batch goes through: what it has already is the answer; otherwise its
/// changes are stored one after another, each row that comes back is added as it
/// is read, and after the last the batch is committed and answered. A refusal for
/// an open change names the model that was being stored; any other refusal is
/// passed on.
pub proof fn law_batch_takes_every_step_in_turn(
    changes: Seq<ScheduledPricingChangeInsert>,
    rows: Seq<ScheduledPricingChangeRow>,
    stored: Seq<ScheduledPricingChange>,
    row: ScheduledPricingChangeRow,
    code: Option<Seq<char>>,
    constraint: Option<Seq<char>>,
)
    requires
        stored.len() < changes.len(),
    ensures
        ({
            let first = batch_next(
                changes,
                BatchStateView::ReadingBatch,
                BatchEventView::BatchRead(rows),
            );
            &&& rows.len() > 0 ==> first.0 is Ended
            &&& rows.len() > 0 && changes_of(rows) is Ok ==> first.1 == BatchActionView::Answer(
                changes_of(rows)->Ok_0,
            )
            &&& rows.len() > 0 && changes_of(rows) is Err ==> first.1 == (
            BatchActionView::Unreadable { message: changes_of(rows)->Err_0 })
            &&& rows.len() == 0 ==> first.1 == (BatchActionView::Store { position: 0 }) && first.0
                == (BatchStateView::Storing { position: 0, stored: seq![] })
        }),
        ({
            let state = BatchStateView::Storing { position: stored.len() as int, stored };
            let next = batch_next(changes, state, BatchEventView::ChangeStored(row));
            &&& change_of(row) is Err ==> next.0 is Ended && next.1 == (
            BatchActionView::Unreadable { message: change_of(row)->Err_0 })
            &&& change_of(row) is Ok && stored.len() + 1 < changes.len() ==> next.1 == (
            BatchActionView::Store { position: (stored.len() + 1) as int }) && next.0 == (
            BatchStateView::Storing {
                position: (stored.len() + 1) as int,
                stored: stored.push(change_of(row)->Ok_0),
            })
            &&& change_of(row) is Ok && stored.len() + 1 == changes.len() ==> next.1 is Commit
                && next.0 == (BatchStateView::Committing {
                stored: stored.push(change_of(row)->Ok_0),
            })
        }),
        ({
            let state = BatchStateView::Storing { position: stored.len() as int, stored };
            let next = batch_next(
                changes,
                state,
                BatchEventView::StoreRefused { code, constraint },
            );
            &&& next.0 is Ended
            &&& code == Some("23505"@) && constraint == Some(
                "uq_scheduled_pricing_change_open_per_model"@,
            ) ==> next.1 == (BatchActionView::Conflict {
                model_name: changes[stored.len() as int].model_name@,
            })
            &&& code != Some("23505"@) || constraint != Some(
                "uq_scheduled_pricing_change_open_per_model"@,
            ) ==> next.1 is Fail
        }),
        batch_next(changes, BatchStateView::Committing { stored }, BatchEventView::Committed) == (
            BatchStateView::Ended,
            BatchActionView::Answer(stored),
        ),
        batch_next(
            seq![],
            BatchStateView::ReadingBatch,
            BatchEventView::BatchRead(seq![]),
        ).1 is Commit,
{
}

/// Only a pending change is cancelled, and nothing else of it changes.
pub proof fn law_cancelling_ends_a_pending_change(before: ChangeProgress, after: ChangeProgress)
    ensures
        applies(before, ChangeCommand::Cancel) <==> before.status
            == ScheduledPricingChangeStatus::Pending,
        follows(before, ChangeCommand::Cancel, after) ==> after.status
            == ScheduledPricingChangeStatus::Cancelled && after.apply_attempts
            == before.apply_attempts && after.applied_at == before.applied_at && after.last_error
            == before.last_error,
{
}

/// Only a pending change whose time has come is taken up, as one attempt more.
pub proof fn law_due_changes_are_taken_up(
    before: ChangeProgress,
    is_due: bool,
    after: ChangeProgress,
)
    requires
        before.apply_attempts < i32::MAX,
    ensures
        applies(before, (ChangeCommand::Claim { is_due })) <==> before.status
            == ScheduledPricingChangeStatus::Pending && is_due,
        follows(before, (ChangeCommand::Claim { is_due }), after) ==> after.status
            == ScheduledPricingChangeStatus::Applying && after.apply_attempts
            == before.apply_attempts + 1 && after.applied_at == before.applied_at
            && after.last_error == before.last_error,
{
}

/// A change that is being applied becomes applied at the time it was, without an
/// error; or, where it could not be applied, goes back to be tried again or
/// fails, with the error.
pub proof fn law_attempts_end_as_they_went(
    before: ChangeProgress,
    now: Timestamp,
    error: String,
    retryable: bool,
    after: ChangeProgress,
)
    ensures
        applies(before, (ChangeCommand::MarkApplied { now })) <==> before.status
            == ScheduledPricingChangeStatus::Applying,
        follows(before, (ChangeCommand::MarkApplied { now }), after) ==> after.status
            == ScheduledPricingChangeStatus::Applied && after.applied_at == Some(now)
            && after.last_error is None && after.apply_attempts == before.apply_attempts,
        applies(before, (ChangeCommand::MarkFailed { error, retryable })) <==> before.status
            == ScheduledPricingChangeStatus::Applying,
        follows(before, (ChangeCommand::MarkFailed { error, retryable }), after) ==> after.status
            == (if retryable {
            ScheduledPricingChangeStatus::Pending
        } else {
            ScheduledPricingChangeStatus::Failed
        }) && after.last_error == Some(error) && after.apply_attempts == before.apply_attempts
            && after.applied_at == before.applied_at,
{
}

/// A change that is being applied for too long goes back to be tried again while
/// it has attempts left, and fails otherwise, with the error it had or one that
/// says it timed out.
pub proof fn law_stale_changes_are_recovered(
    before: ChangeProgress,
    is_stale: bool,
    max_attempts: i32,
    after: ChangeProgress,
)
    ensures
        applies(before, (ChangeCommand::Recover { is_stale, max_attempts })) <==> before.status
            == ScheduledPricingChangeStatus::Applying && is_stale,
        follows(before, (ChangeCommand::Recover { is_stale, max_attempts }), after) ==> {
            &&& after.apply_attempts == before.apply_attempts
            &&& after.applied_at == before.applied_at
            &&& before.apply_attempts < max_attempts ==> after.status
                == ScheduledPricingChangeStatus::Pending && after.last_error == before.last_error
            &&& before.apply_attempts >= max_attempts ==> after.status
                == ScheduledPricingChangeStatus::Failed && after.last_error is Some
            &&& before.apply_attempts >= max_attempts && before.last_error is Some
                ==> after.last_error->0@ == before.last_error->0@
            &&& before.apply_attempts >= max_attempts && before.last_error is None
                ==> after.last_error->0@ == "apply timed out"@
        },
{
}

/// Limits that fit the column are stored as they are, those that do not as
/// numbers below zero; numbers above zero are limits, and no others are.
pub proof fn law_limits_are_stored_as_they_are(limit: u32, stored: i32)
    ensures
        limit < 0x8000_0000 ==> stored_limit(limit) == limit,
        limit >= 0x8000_0000 ==> stored_limit(limit) == limit - 0x1_0000_0000 && stored_limit(limit)
            < 0,
        stored > 0 ==> read_limit(stored) == Some(stored as u32),
        stored <= 0 ==> read_limit(stored) is None,
{
}

/// A stored change is read field by field: the new prices are the new prices of
/// its row, the old ones the old ones, and so is all else.
pub proof fn law_stored_change_is_read_field_by_field(
    row: ScheduledPricingChangeRow,
    r: Result<ScheduledPricingChange, String>,
)
    requires
        call_ensures(row_to_scheduled_pricing_change, (row,), r),
    ensures
        r is Ok <==> row.status@ == "pending"@ || row.status@ == "applying"@ || row.status@
            == "applied"@ || row.status@ == "failed"@ || row.status@ == "cancelled"@,
        r matches Ok(change) ==> {
            &&& change.new_prices == row.new_prices
            &&& change.old_prices == row.old_prices
            &&& change.id == row.id
            &&& change.batch_id == row.batch_id
            &&& change.model_id == row.model_id
            &&& change.model_name == row.model_name
            &&& change.model_display_name == row.model_display_name
            &&& change.effective_at == row.effective_at
            &&& change.apply_attempts == row.apply_attempts
            &&& change.applied_at == row.applied_at
            &&& change.last_error == row.last_error
            &&& change.created_by_user_id == row.created_by_user_id
            &&& change.created_by_user_email == row.created_by_user_email
            &&& change.change_reason == row.change_reason
            &&& change.created_at == row.created_at
            &&& change.status == ScheduledPricingChangeStatus::Pending <==> row.status@
                == "pending"@
            &&& change.status == ScheduledPricingChangeStatus::Applying <==> row.status@
                == "applying"@
            &&& change.status == ScheduledPricingChangeStatus::Applied <==> row.status@
                == "applied"@
            &&& change.status == ScheduledPricingChangeStatus::Failed <==> row.status@ == "failed"@
            &&& change.status == ScheduledPricingChangeStatus::Cancelled <==> row.status@
                == "cancelled"@
        },
        r matches Err(message) ==> message@ == "unknown scheduled pricing change status '"@
            + row.status@ + "'"@,
{
    law_read_change_holds_its_row(row);
    law_statuses_are_read_by_name(row.status@, ScheduledPricingChangeStatus::Pending);
}

/// A message is dated only where it was sent, and an organization is told as
/// missing exactly where no row was changed or found.
pub proof fn law_missing_organizations_are_told(
    organization_id: Uuid,
    rows_updated: u64,
    stored: Option<i32>,
    now: Timestamp,
    status: DeliveryStatus,
    updated: Result<(), String>,
    read: Result<Option<u32>, String>,
    missing: Result<Option<u32>, String>,
    sent: Option<Timestamp>,
)
    requires
        call_ensures(update_organization_concurrent_limit, (organization_id, rows_updated), updated),
        call_ensures(get_organization_concurrent_limit, (organization_id, Some(stored)), read),
        call_ensures(
            get_organization_concurrent_limit,
            (organization_id, None::<Option<i32>>),
            missing,
        ),
        call_ensures(email_sent_at, (status, now), sent),
    ensures
        updated is Ok <==> rows_updated > 0,
        read is Ok,
        missing matches Err(message) && message@ == "Organization not found or inactive: "@
            + crate::ids::hyphenated(organization_id),
        sent == Some(now) <==> status == DeliveryStatus::Sent,
        sent is None <==> status != DeliveryStatus::Sent,
{
}

/// A refusal means an open change exactly where the rule for open changes was
/// broken.
pub proof fn law_open_changes_are_told_by_their_rule(
    code: Option<String>,
    constraint: Option<String>,
    r: bool,
)
    requires
        call_ensures(is_open_conflict, (&code, &constraint), r),
    ensures
        r <==> (code matches Some(c) && c@ == "23505"@) && (constraint matches Some(name) && name@
            == OPEN_CHANGE_CONSTRAINT@),
{
}

} // verus!
