//! Conversations and their copies.
use crate::ids::Uuid;
use crate::json::{parse, set_text_member, Json, JsonText};
use crate::time::Timestamp;
use vstd::prelude::*;
use vstd::string::StringExecFns;

verus! {

/// The identifier of a conversation.
#[derive(Debug, Clone, Copy, PartialEq, Eq, Structural, PartialOrd, Ord, Hash)]
pub struct ConversationId(pub Uuid);

/// The plain identifiers of conversations, in order.
pub fn plain_ids(ids: &Vec<ConversationId>) -> (r: Vec<Uuid>)
    ensures
        r@ == ids@.map_values(|id: ConversationId| id.0),
{
    let mut plain: Vec<Uuid> = Vec::new();
    let mut i: usize = 0;
    while i < ids.len()
        invariant
            i <= ids@.len(),
            plain@.len() == i,
            forall|k: int| 0 <= k < i ==> #[trigger] plain@[k] == ids@[k].0,
        decreases ids.len() - i,
    {
        plain.push(ids[i].0);
        i = i + 1;
    }
    assert(plain@ =~= ids@.map_values(|id: ConversationId| id.0));
    plain
}

/// When a mark (pinned or archived) is set: now, or not at all.
pub fn marked_at(is_marked: bool, now: Timestamp) -> (r: Option<Timestamp>)
    ensures
        r == (if is_marked {
            Some(now)
        } else {
            None
        }),
{
    if is_marked {
        Some(now)
    } else {
        None
    }
}

/// The copy of a response: the fresh identifier beside the last place where
/// the original's identifier is listed.
pub open spec fn copy_of(originals: Seq<Uuid>, fresh: Seq<Uuid>, id: Uuid) -> Option<Uuid>
    decreases originals.len(),
{
    if originals.len() == 0 || fresh.len() != originals.len() {
        None
    } else if originals.last() == id {
        Some(fresh.last())
    } else {
        copy_of(originals.drop_last(), fresh.drop_last(), id)
    }
}

/// Finds the copy of a response.
pub fn find_copy(originals: &Vec<Uuid>, fresh: &Vec<Uuid>, id: Uuid) -> (r: Option<Uuid>)
    requires
        originals@.len() == fresh@.len(),
    ensures
        r == copy_of(originals@, fresh@, id),
{
    let mut left: usize = originals.len();
    assert(originals@.take(left as int) =~= originals@);
    assert(fresh@.take(left as int) =~= fresh@);
    while left > 0
        invariant
            left <= originals@.len(),
            originals@.len() == fresh@.len(),
            copy_of(originals@, fresh@, id) == copy_of(
                originals@.take(left as int),
                fresh@.take(left as int),
                id,
            ),
        decreases left,
    {
        if originals[left - 1] == id {
            return Some(fresh[left - 1]);
        }
        proof {
            assert(originals@.take(left as int).drop_last() =~= originals@.take(left - 1));
            assert(fresh@.take(left as int).drop_last() =~= fresh@.take(left - 1));
        }
        left = left - 1;
    }
    None
}

/// The links of a response: the one it answers, and the JSON list of those that
/// answer it.
#[derive(Debug, Clone)]
pub struct ResponseLinks {
    pub previous_response_id: Option<Uuid>,
    pub next_response_ids: Option<String>,
}

/// The list of answers of a copied response.
#[derive(Debug, Clone)]
pub enum NextResponses {
    /// There is none.
    Absent,
    /// What is stored is no list and stays as it is.
    Unchanged(String),
    /// The copies of the listed responses.
    Copies(Vec<String>),
}

/// A list of answers with its texts as characters.
pub enum NextResponsesView {
    Absent,
    Unchanged(Seq<char>),
    Copies(Seq<Seq<char>>),
}

impl View for NextResponses {
    type V = NextResponsesView;

    open spec fn view(&self) -> NextResponsesView {
        match self {
            NextResponses::Absent => NextResponsesView::Absent,
            NextResponses::Unchanged(text) => NextResponsesView::Unchanged(text@),
            NextResponses::Copies(ids) => NextResponsesView::Copies(crate::text::list_view(ids@)),
        }
    }
}

/// The response that an element of a stored list names.
pub open spec fn listed_response(item: Seq<char>) -> Option<Uuid> {
    match crate::json::parsed_json(item) {
        Some(crate::json::JsonView::Text(text)) => match crate::ids::parsed_uuid(text) {
            Some(value) => Some(Uuid { value }),
            None => None,
        },
        _ => None,
    }
}

/// The copies of listed responses, in order; what names no response, or one
/// that has no copy, is left out.
pub open spec fn listed_copies(
    items: Seq<Seq<char>>,
    originals: Seq<Uuid>,
    fresh: Seq<Uuid>,
) -> Seq<Uuid>
    decreases items.len(),
{
    if items.len() == 0 {
        seq![]
    } else {
        let before = listed_copies(items.drop_last(), originals, fresh);
        match listed_response(items.last()) {
            Some(id) => match copy_of(originals, fresh, id) {
                Some(copy) => before.push(copy),
                None => before,
            },
            None => before,
        }
    }
}

/// How identifiers are written.
pub open spec fn written_ids(ids: Seq<Uuid>) -> Seq<Seq<char>> {
    ids.map_values(|id: Uuid| crate::ids::hyphenated(id))
}

/// The list of answers of the copy of a response with a stored list.
pub open spec fn copied_next(
    stored: Option<Seq<char>>,
    originals: Seq<Uuid>,
    fresh: Seq<Uuid>,
) -> NextResponsesView {
    match stored {
        None => NextResponsesView::Absent,
        Some(text) => match crate::json::parsed_json(text) {
            Some(crate::json::JsonView::Array(items)) => NextResponsesView::Copies(
                written_ids(listed_copies(items, originals, fresh)),
            ),
            _ => NextResponsesView::Unchanged(text),
        },
    }
}

fn copies_of(items: &Vec<String>, originals: &Vec<Uuid>, fresh: &Vec<Uuid>) -> (r: Vec<String>)
    requires
        originals@.len() == fresh@.len(),
    ensures
        crate::text::list_view(r@) == written_ids(
            listed_copies(crate::text::list_view(items@), originals@, fresh@),
        ),
{
    let ghost all = crate::text::list_view(items@);
    let mut copies: Vec<String> = Vec::new();
    let mut i: usize = 0;
    proof {
        assert(crate::text::list_view(copies@) =~= written_ids(
            listed_copies(all.take(0), originals@, fresh@),
        ));
    }
    while i < items.len()
        invariant
            i <= items@.len(),
            all == crate::text::list_view(items@),
            originals@.len() == fresh@.len(),
            crate::text::list_view(copies@) == written_ids(
                listed_copies(all.take(i as int), originals@, fresh@),
            ),
        decreases items.len() - i,
    {
        proof {
            assert(all.take(i + 1).drop_last() =~= all.take(i as int));
            assert(all.take(i + 1).last() == items@[i as int]@);
        }
        let ghost before = listed_copies(all.take(i as int), originals@, fresh@);
        let listed = match parse(items[i].as_str()) {
            Some(Json::Text(text)) => Uuid::parse_str(text.as_str()),
            _ => None,
        };
        match listed {
            Some(id) => match find_copy(originals, fresh, id) {
                Some(copy) => {
                    let written = copy.to_text();
                    let ghost texts = crate::text::list_view(copies@);
                    copies.push(written);
                    proof {
                        assert(crate::text::list_view(copies@) =~= texts.push(written@));
                        assert(written_ids(before.push(copy)) =~= written_ids(before).push(
                            crate::ids::hyphenated(copy),
                        ));
                    }
                },
                None => {},
            },
            None => {},
        }
        i = i + 1;
    }
    proof {
        assert(all.take(all.len() as int) =~= all);
    }
    copies
}

/// The links of the copy of a response.
#[derive(Debug, Clone)]
pub struct CopiedLinks {
    pub previous_response_id: Option<Uuid>,
    pub next_response_ids: NextResponses,
}

/// Points the links of a response at the copies of the responses they name. A
/// link out of the conversation is dropped.
pub fn copy_links(links: &ResponseLinks, originals: &Vec<Uuid>, fresh: &Vec<Uuid>) -> (r:
    CopiedLinks)
    requires
        originals@.len() == fresh@.len(),
    ensures
        r.previous_response_id == (match links.previous_response_id {
            Some(id) => copy_of(originals@, fresh@, id),
            None => None,
        }),
        r.next_response_ids@ == copied_next(
            crate::text::optional_view(links.next_response_ids),
            originals@,
            fresh@,
        ),
{
    let previous_response_id = match links.previous_response_id {
        Some(id) => find_copy(originals, fresh, id),
        None => None,
    };
    let next_response_ids = match &links.next_response_ids {
        None => NextResponses::Absent,
        Some(text) => match parse(text.as_str()) {
            Some(Json::Array(items)) => NextResponses::Copies(copies_of(&items, originals, fresh)),
            _ => NextResponses::Unchanged(text.clone()),
        },
    };
    CopiedLinks { previous_response_id, next_response_ids }
}

/// An item of a response, as JSON.
#[derive(Debug, Clone)]
pub struct ResponseItem {
    pub response_id: Uuid,
    pub item: String,
    pub created_at: Timestamp,
}

/// The copy of an item. Where the item is an object, its member `id` becomes
/// the new message identifier; the time it was made stays, and with it the
/// order of the items.
#[derive(Debug, Clone)]
pub struct CopiedItem {
    pub id: Uuid,
    pub response_id: Uuid,
    pub item: String,
    pub created_at: Timestamp,
}

/// The message identifier of an item.
pub open spec fn message_id(id: Uuid) -> Seq<char> {
    "msg_"@ + crate::ids::simple(id)
}

/// The JSON of the copy of an item; nothing where the item is not JSON.
pub open spec fn copied_text(item: Seq<char>, new_id: Uuid) -> Option<Seq<char>> {
    match crate::json::parsed_json(item) {
        Some(crate::json::JsonView::Object(_)) => crate::json::text_with_member(
            item,
            "id"@,
            message_id(new_id),
        ),
        _ => crate::json::rewritten_json(item),
    }
}

/// Copies an item under a fresh identifier; nothing where it is not JSON. The
/// copy of an object has its own message identifier and otherwise the members
/// of the original.
pub fn copy_item(
    item: &ResponseItem,
    new_id: Uuid,
    originals: &Vec<Uuid>,
    fresh: &Vec<Uuid>,
) -> (r: Option<CopiedItem>)
    requires
        originals@.len() == fresh@.len(),
    ensures
        r is Some <==> crate::json::parsed_json(item.item@) is Some,
        r matches Some(copy) ==> is_item_copy(copy, *item, new_id, originals@, fresh@),
        r matches Some(copy) ==> (crate::json::parsed_json(item.item@) matches Some(
            crate::json::JsonView::Object(_),
        )) ==> crate::json::parsed_json(copy.item@) is Some ==> crate::json::has_member_set(
            crate::json::parsed_json(item.item@)->0,
            crate::json::parsed_json(copy.item@)->0,
            "id"@,
            message_id(new_id),
        ),
        r matches Some(copy) ==> crate::json::rewritten_json(item.item@) == Some(item.item@)
            ==> crate::json::rewritten_json(copy.item@) == Some(copy.item@),
        r matches Some(copy) ==> crate::json::rewritten_json(item.item@) == Some(item.item@)
            ==> forall|other: Seq<char>|
            other != "id"@ ==> #[trigger] crate::json::member(copy.item@, other)
                == crate::json::member(item.item@, other),
{
    let response_id = match find_copy(originals, fresh, item.response_id) {
        Some(copy) => copy,
        None => item.response_id,
    };
    let text = match parse(item.item.as_str()) {
        None => return None,
        Some(Json::Object(_)) => {
            let mut new_message_id = "msg_".to_owned();
            new_message_id.append(new_id.to_simple_text().as_str());
            match set_text_member(item.item.as_str(), "id", new_message_id.as_str()) {
                Some(written) => written,
                None => return None,
            }
        },
        Some(_) => match JsonText::parse(item.item.as_str()) {
            Some(value) => value.text,
            None => return None,
        },
    };
    Some(CopiedItem { id: new_id, response_id, item: text, created_at: item.created_at })
}

/// How far the copying of a conversation has come: the statement that is being
/// carried out.
#[derive(Debug, Clone)]
pub enum CloneState {
    CopyingConversation,
    ReadingResponses,
    /// Copying the response at a position.
    CopyingResponse { originals: Vec<Uuid>, fresh: Vec<Uuid>, position: usize },
    /// Reading the links of the response at a position.
    ReadingLinks { originals: Vec<Uuid>, fresh: Vec<Uuid>, position: usize },
    /// Writing the links of the copy at a position.
    WritingLinks { originals: Vec<Uuid>, fresh: Vec<Uuid>, position: usize },
    ReadingItems { originals: Vec<Uuid>, fresh: Vec<Uuid> },
    /// Copying the items from a position on.
    CopyingItems { copies: Vec<CopiedItem>, position: usize },
    Committing,
    ReadingCopy,
    Ended,
}

/// What a statement gave back. Fresh identifiers come with the rows that they
/// are for.
#[derive(Debug, Clone)]
pub enum CloneEvent {
    /// Whether the conversation was found and copied.
    ConversationCopied(bool),
    ResponsesRead { originals: Vec<Uuid>, fresh: Vec<Uuid> },
    LinksRead(Option<ResponseLinks>),
    ItemsRead { items: Vec<ResponseItem>, fresh: Vec<Uuid> },
    Written,
    Committed,
    CopyRead,
}

/// What comes next.
#[derive(Debug, Clone)]
pub enum CloneAction {
    /// Ends without a copy and without any change.
    GiveUp,
    /// Ends in an error and without any change: the item at a position is not
    /// JSON.
    RefuseItem { position: usize },
    /// Reads the responses of the original in the order they were made.
    ReadResponses,
    CopyResponse { original: Uuid, copy: Uuid },
    ReadLinks { original: Uuid },
    WriteLinks { copy: Uuid, links: CopiedLinks },
    /// Reads the items of the original in the order they were made.
    ReadItems,
    /// Writes the item at a position as its copy.
    WriteItem { position: usize, copy: CopiedItem },
    Commit,
    /// Reads the finished copy.
    ReadCopy,
    /// Ends with the copy that was read.
    Finish,
}

/// Whether a state is one that a copy can be in.
pub open spec fn clone_state_ok(state: CloneState) -> bool {
    match state {
        CloneState::CopyingResponse { originals, fresh, position } => originals@.len()
            == fresh@.len() && position < originals@.len(),
        CloneState::ReadingLinks { originals, fresh, position } => originals@.len() == fresh@.len()
            && position < originals@.len(),
        CloneState::WritingLinks { originals, fresh, position } => originals@.len() == fresh@.len()
            && position < originals@.len(),
        CloneState::ReadingItems { originals, fresh } => originals@.len() == fresh@.len(),
        CloneState::CopyingItems { copies, position } => position < copies@.len(),
        _ => true,
    }
}

/// Whether an event is one that a state waits for.
pub open spec fn clone_expects(state: CloneState, event: CloneEvent) -> bool {
    match state {
        CloneState::CopyingConversation => event is ConversationCopied,
        CloneState::ReadingResponses => event matches CloneEvent::ResponsesRead {
            originals,
            fresh,
        } && originals@.len() == fresh@.len(),
        CloneState::CopyingResponse { .. } => event is Written,
        CloneState::ReadingLinks { .. } => event is LinksRead,
        CloneState::WritingLinks { .. } => event is Written,
        CloneState::ReadingItems { .. } => event matches CloneEvent::ItemsRead { items, fresh }
            && items@.len() == fresh@.len(),
        CloneState::CopyingItems { .. } => event is Written,
        CloneState::Committing => event is Committed,
        CloneState::ReadingCopy => event is CopyRead,
        CloneState::Ended => false,
    }
}

/// Whether an item is JSON.
pub open spec fn is_readable(item: ResponseItem) -> bool {
    crate::json::parsed_json(item.item@) is Some
}

/// Whether `copy` is the copy of an item under a fresh identifier.
pub open spec fn is_item_copy(
    copy: CopiedItem,
    item: ResponseItem,
    new_id: Uuid,
    originals: Seq<Uuid>,
    fresh: Seq<Uuid>,
) -> bool {
    &&& copy.id == new_id
    &&& copy.response_id == (match copy_of(originals, fresh, item.response_id) {
        Some(response) => response,
        None => item.response_id,
    })
    &&& copied_text(item.item@, new_id) == Some(copy.item@)
    &&& copy.created_at == item.created_at
}

/// Whether `links` are the links of the copy of a response.
pub open spec fn are_links_copied(
    links: CopiedLinks,
    stored: ResponseLinks,
    originals: Seq<Uuid>,
    fresh: Seq<Uuid>,
) -> bool {
    &&& links.previous_response_id == (match stored.previous_response_id {
        Some(id) => copy_of(originals, fresh, id),
        None => None,
    })
    &&& links.next_response_ids@ == copied_next(
        crate::text::optional_view(stored.next_response_ids),
        originals,
        fresh,
    )
}

/// What comes after the links of the response at `position` are dealt with: the
/// links of the next response, or the items.
pub open spec fn after_links(
    originals: Vec<Uuid>,
    fresh: Vec<Uuid>,
    position: int,
    next: CloneState,
    action: CloneAction,
) -> bool {
    if position + 1 < originals@.len() {
        &&& next == CloneState::ReadingLinks {
            originals,
            fresh,
            position: (position + 1) as usize,
        }
        &&& action == CloneAction::ReadLinks { original: originals@[position + 1] }
    } else {
        next == (CloneState::ReadingItems { originals, fresh }) && action == CloneAction::ReadItems
    }
}

/// Whether a step leads from a state, by an event, to a next state with an
/// action.
pub open spec fn clone_leads_to(
    state: CloneState,
    event: CloneEvent,
    next: CloneState,
    action: CloneAction,
) -> bool {
    match (state, event) {
        (CloneState::CopyingConversation, CloneEvent::ConversationCopied(found)) => if found {
            next == CloneState::ReadingResponses && action == CloneAction::ReadResponses
        } else {
            next == CloneState::Ended && action == CloneAction::GiveUp
        },
        (CloneState::ReadingResponses, CloneEvent::ResponsesRead { originals, fresh }) =>
            if originals@.len() > 0 {
            &&& next == CloneState::CopyingResponse { originals, fresh, position: 0 }
            &&& action == CloneAction::CopyResponse { original: originals@[0], copy: fresh@[0] }
        } else {
            next == (CloneState::ReadingItems { originals, fresh }) && action
                == CloneAction::ReadItems
        },
        (
            CloneState::CopyingResponse { originals, fresh, position },
            CloneEvent::Written,
        ) => if position + 1 < originals@.len() {
            &&& next == CloneState::CopyingResponse {
                originals,
                fresh,
                position: (position + 1) as usize,
            }
            &&& action == CloneAction::CopyResponse {
                original: originals@[position + 1],
                copy: fresh@[position + 1],
            }
        } else {
            &&& next == CloneState::ReadingLinks { originals, fresh, position: 0 }
            &&& action == CloneAction::ReadLinks { original: originals@[0] }
        },
        (
            CloneState::ReadingLinks { originals, fresh, position },
            CloneEvent::LinksRead(stored),
        ) => match stored {
            Some(links) => {
                &&& next == CloneState::WritingLinks { originals, fresh, position }
                &&& action matches CloneAction::WriteLinks { copy, links: copied }
                &&& copy == fresh@[position as int]
                &&& are_links_copied(copied, links, originals@, fresh@)
            },
            None => after_links(originals, fresh, position as int, next, action),
        },
        (CloneState::WritingLinks { originals, fresh, position }, CloneEvent::Written) =>
            after_links(originals, fresh, position as int, next, action),
        (
            CloneState::ReadingItems { originals, fresh },
            CloneEvent::ItemsRead { items, fresh: item_ids },
        ) => if exists|k: int| 0 <= k < items@.len() && !is_readable(#[trigger] items@[k]) {
            &&& next == CloneState::Ended
            &&& action matches CloneAction::RefuseItem { position }
            &&& position < items@.len()
            &&& !is_readable(items@[position as int])
            &&& forall|k: int| 0 <= k < position ==> is_readable(#[trigger] items@[k])
        } else if items@.len() > 0 {
            &&& next matches CloneState::CopyingItems { copies, position }
            &&& position == 0
            &&& copies@.len() == items@.len()
            &&& forall|k: int|
                0 <= k < items@.len() ==> is_item_copy(
                    #[trigger] copies@[k],
                    items@[k],
                    item_ids@[k],
                    originals@,
                    fresh@,
                )
            &&& action matches CloneAction::WriteItem { position: first, copy }
            &&& first == 0
            &&& is_item_copy(copy, items@[0], item_ids@[0], originals@, fresh@)
        } else {
            next == CloneState::Committing && action == CloneAction::Commit
        },
        (CloneState::CopyingItems { copies, position }, CloneEvent::Written) => if position + 1
            < copies@.len() {
            &&& next == CloneState::CopyingItems { copies, position: (position + 1) as usize }
            &&& action matches CloneAction::WriteItem { position: at, copy }
            &&& at == position + 1
            &&& same_item(copy, copies@[position + 1])
        } else {
            next == CloneState::Committing && action == CloneAction::Commit
        },
        (CloneState::Committing, CloneEvent::Committed) => next == CloneState::ReadingCopy
            && action == CloneAction::ReadCopy,
        (CloneState::ReadingCopy, CloneEvent::CopyRead) => next == CloneState::Ended && action
            == CloneAction::Finish,
        _ => false,
    }
}

/// Whether two copies of an item say the same.
pub open spec fn same_item(a: CopiedItem, b: CopiedItem) -> bool {
    &&& a.id == b.id
    &&& a.response_id == b.response_id
    &&& a.item@ == b.item@
    &&& a.created_at == b.created_at
}

fn duplicate_item(item: &CopiedItem) -> (r: CopiedItem)
    ensures
        same_item(r, *item),
{
    CopiedItem {
        id: item.id,
        response_id: item.response_id,
        item: item.item.clone(),
        created_at: item.created_at,
    }
}

fn copy_items(
    items: &Vec<ResponseItem>,
    item_ids: &Vec<Uuid>,
    originals: &Vec<Uuid>,
    fresh: &Vec<Uuid>,
) -> (r: Result<Vec<CopiedItem>, usize>)
    requires
        items@.len() == item_ids@.len(),
        originals@.len() == fresh@.len(),
    ensures
        match r {
            Ok(copies) => {
                &&& copies@.len() == items@.len()
                &&& forall|k: int| 0 <= k < items@.len() ==> is_readable(#[trigger] items@[k])
                &&& forall|k: int|
                    0 <= k < items@.len() ==> is_item_copy(
                        #[trigger] copies@[k],
                        items@[k],
                        item_ids@[k],
                        originals@,
                        fresh@,
                    )
            },
            Err(position) => {
                &&& position < items@.len()
                &&& !is_readable(items@[position as int])
                &&& forall|k: int| 0 <= k < position ==> is_readable(#[trigger] items@[k])
            },
        },
{
    let mut copies: Vec<CopiedItem> = Vec::new();
    let mut i: usize = 0;
    while i < items.len()
        invariant
            i <= items@.len(),
            originals@.len() == fresh@.len(),
            items@.len() == item_ids@.len(),
            copies@.len() == i,
            forall|k: int|
                0 <= k < i ==> is_item_copy(
                    #[trigger] copies@[k],
                    items@[k],
                    item_ids@[k],
                    originals@,
                    fresh@,
                ),
            forall|k: int| 0 <= k < i ==> is_readable(#[trigger] items@[k]),
        decreases items.len() - i,
    {
        match copy_item(&items[i], item_ids[i], originals, fresh) {
            Some(copy) => {
                copies.push(copy);
            },
            None => return Err(i),
        }
        i = i + 1;
    }
    Ok(copies)
}

fn links_or_items(originals: Vec<Uuid>, fresh: Vec<Uuid>, position: usize) -> (r: (
    CloneState,
    CloneAction,
))
    requires
        originals@.len() == fresh@.len(),
        position < originals@.len(),
    ensures
        after_links(originals, fresh, position as int, r.0, r.1),
        clone_state_ok(r.0),
{
    if position < originals.len() - 1 {
        let original = originals[position + 1];
        (
            CloneState::ReadingLinks { originals, fresh, position: position + 1 },
            CloneAction::ReadLinks { original },
        )
    } else {
        (CloneState::ReadingItems { originals, fresh }, CloneAction::ReadItems)
    }
}

/// Decides the next statement in the copying of a conversation.
pub fn clone_conversation(state: CloneState, event: CloneEvent) -> (r: (CloneState, CloneAction))
    requires
        clone_state_ok(state),
        clone_expects(state, event),
    ensures
        clone_leads_to(state, event, r.0, r.1),
        clone_state_ok(r.0),
{
    match (state, event) {
        (CloneState::CopyingConversation, CloneEvent::ConversationCopied(found)) => if found {
            (CloneState::ReadingResponses, CloneAction::ReadResponses)
        } else {
            (CloneState::Ended, CloneAction::GiveUp)
        },
        (CloneState::ReadingResponses, CloneEvent::ResponsesRead { originals, fresh }) =>
            if originals.len() > 0 {
            let original = originals[0];
            let copy = fresh[0];
            (
                CloneState::CopyingResponse { originals, fresh, position: 0 },
                CloneAction::CopyResponse { original, copy },
            )
        } else {
            (CloneState::ReadingItems { originals, fresh }, CloneAction::ReadItems)
        },
        (
            CloneState::CopyingResponse { originals, fresh, position },
            CloneEvent::Written,
        ) => if position < originals.len() - 1 {
            let original = originals[position + 1];
            let copy = fresh[position + 1];
            (
                CloneState::CopyingResponse { originals, fresh, position: position + 1 },
                CloneAction::CopyResponse { original, copy },
            )
        } else {
            let original = originals[0];
            (
                CloneState::ReadingLinks { originals, fresh, position: 0 },
                CloneAction::ReadLinks { original },
            )
        },
        (
            CloneState::ReadingLinks { originals, fresh, position },
            CloneEvent::LinksRead(stored),
        ) => match stored {
            Some(links) => {
                let copied = copy_links(&links, &originals, &fresh);
                let copy = fresh[position];
                (
                    CloneState::WritingLinks { originals, fresh, position },
                    CloneAction::WriteLinks { copy, links: copied },
                )
            },
            None => links_or_items(originals, fresh, position),
        },
        (CloneState::WritingLinks { originals, fresh, position }, CloneEvent::Written) =>
            links_or_items(originals, fresh, position),
        (
            CloneState::ReadingItems { originals, fresh },
            CloneEvent::ItemsRead { items, fresh: item_ids },
        ) => {
            let copies = match copy_items(&items, &item_ids, &originals, &fresh) {
                Ok(copies) => copies,
                Err(position) => return (
                    CloneState::Ended,
                    CloneAction::RefuseItem { position },
                ),
            };
            if copies.len() > 0 {
                assert(is_item_copy(copies@[0], items@[0], item_ids@[0], originals@, fresh@));
                let copy = duplicate_item(&copies[0]);
                (
                    CloneState::CopyingItems { copies, position: 0 },
                    CloneAction::WriteItem { position: 0, copy },
                )
            } else {
                (CloneState::Committing, CloneAction::Commit)
            }
        },
        (CloneState::CopyingItems { copies, position }, CloneEvent::Written) => if position
            < copies.len() - 1 {
            let copy = duplicate_item(&copies[position + 1]);
            (
                CloneState::CopyingItems { copies, position: position + 1 },
                CloneAction::WriteItem { position: position + 1, copy },
            )
        } else {
            (CloneState::Committing, CloneAction::Commit)
        },
        (CloneState::Committing, CloneEvent::Committed) => (
            CloneState::ReadingCopy,
            CloneAction::ReadCopy,
        ),
        (CloneState::ReadingCopy, CloneEvent::CopyRead) => (
            CloneState::Ended,
            CloneAction::Finish,
        ),
        _ => (CloneState::Ended, CloneAction::GiveUp),
    }
}

/// Draws fresh random identifiers of version 4.
pub fn fresh_ids(count: usize) -> (r: Vec<Uuid>)
    ensures
        r@.len() == count,
        forall|k: int| 0 <= k < count ==> crate::ids::is_version_four(#[trigger] r@[k]),
{
    let mut ids: Vec<Uuid> = Vec::new();
    let mut i: usize = 0;
    while i < count
        invariant
            i <= count,
            ids@.len() == i,
            forall|k: int| 0 <= k < i ==> crate::ids::is_version_four(#[trigger] ids@[k]),
        decreases count - i,
    {
        ids.push(Uuid::new_v4());
        i = i + 1;
    }
    ids
}

/// A copy is always one of the fresh identifiers, so that the links of a copied
/// conversation never lead back into the original.
pub proof fn law_copies_are_fresh(originals: Seq<Uuid>, fresh: Seq<Uuid>, id: Uuid)
    requires
        originals.len() == fresh.len(),
    ensures
        copy_of(originals, fresh, id) is Some <==> originals.contains(id),
        copy_of(originals, fresh, id) matches Some(copy) ==> fresh.contains(copy),
    decreases originals.len(),
{
    if originals.len() > 0 {
        let n = originals.len() as int;
        if originals.last() == id {
            assert(originals[n - 1] == id);
            assert(fresh[n - 1] == fresh.last());
        } else {
            law_copies_are_fresh(originals.drop_last(), fresh.drop_last(), id);
            if originals.contains(id) {
                let k = choose|k: int| 0 <= k < n && originals[k] == id;
                assert(originals.drop_last()[k] == id);
            }
            if originals.drop_last().contains(id) {
                let k = choose|k: int| 0 <= k < n - 1 && originals.drop_last()[k] == id;
                assert(originals[k] == id);
            }
            match copy_of(originals, fresh, id) {
                Some(copy) => {
                    let k = choose|k: int|
                        0 <= k < fresh.drop_last().len() && fresh.drop_last()[k] == copy;
                    assert(fresh[k] == copy);
                },
                None => {},
            }
        }
    }
}

/// The copies of listed responses are all fresh identifiers.
pub proof fn law_listed_copies_are_fresh(
    items: Seq<Seq<char>>,
    originals: Seq<Uuid>,
    fresh: Seq<Uuid>,
    k: int,
)
    requires
        originals.len() == fresh.len(),
        0 <= k < listed_copies(items, originals, fresh).len(),
    ensures
        fresh.contains(listed_copies(items, originals, fresh)[k]),
    decreases items.len(),
{
    let before = listed_copies(items.drop_last(), originals, fresh);
    if k < before.len() {
        law_listed_copies_are_fresh(items.drop_last(), originals, fresh, k);
    } else {
        match listed_response(items.last()) {
            Some(id) => {
                law_copies_are_fresh(originals, fresh, id);
            },
            None => {},
        }
    }
}

/// Where no response is listed twice, each has the copy made for it.
pub proof fn law_each_response_has_its_own_copy(originals: Seq<Uuid>, fresh: Seq<Uuid>, i: int)
    requires
        originals.len() == fresh.len(),
        originals.no_duplicates(),
        0 <= i < originals.len(),
    ensures
        copy_of(originals, fresh, originals[i]) == Some(fresh[i]),
    decreases originals.len(),
{
    if i < originals.len() - 1 {
        assert(originals.last() != originals[i]);
        let shorter = originals.drop_last();
        assert(shorter.no_duplicates()) by {
            assert forall|a: int, b: int|
                0 <= a < shorter.len() && 0 <= b < shorter.len() && a != b implies shorter[a]
                != shorter[b] by {
                assert(shorter[a] == originals[a] && shorter[b] == originals[b]);
            }
        }
        law_each_response_has_its_own_copy(shorter, fresh.drop_last(), i);
    }
}

/// A copy is committed only after every response has been copied: the links are
/// read only once the last response is written, and the items only once the
/// last links are dealt with.
pub proof fn law_links_follow_all_responses(
    state: CloneState,
    event: CloneEvent,
    next: CloneState,
    action: CloneAction,
)
    requires
        clone_state_ok(state),
        clone_leads_to(state, event, next, action),
    ensures
        state is CopyingResponse && next is ReadingLinks ==> state->CopyingResponse_position + 1
            == state->CopyingResponse_originals@.len(),
        next is Committing ==> state is ReadingItems || state is CopyingItems,
        state is CopyingItems && next is Committing ==> state->CopyingItems_position + 1
            == state->CopyingItems_copies@.len(),
        action is Commit <==> next is Committing,
{
}

/// The copy of a response is the fresh identifier beside the last place where the
/// response is listed; a response that is not listed has none.
pub proof fn law_copy_stands_beside_its_original(
    originals: Seq<Uuid>,
    fresh: Seq<Uuid>,
    id: Uuid,
    i: int,
)
    requires
        originals.len() == fresh.len(),
    ensures
        0 <= i < originals.len() && originals[i] == id && (forall|k: int|
            i < k < originals.len() ==> #[trigger] originals[k] != id) ==> copy_of(
            originals,
            fresh,
            id,
        ) == Some(fresh[i]),
        (forall|k: int| 0 <= k < originals.len() ==> #[trigger] originals[k] != id) ==> copy_of(
            originals,
            fresh,
            id,
        ) is None,
    decreases originals.len(),
{
    if originals.len() > 0 {
        let n = originals.len() - 1;
        assert(originals.last() == originals[n]);
        law_copy_stands_beside_its_original(originals.drop_last(), fresh.drop_last(), id, i);
        assert forall|k: int| 0 <= k < n implies originals.drop_last()[k] == originals[k] by {}
    }
}

/// An element of a list names a response where it is a text that is the form of
/// an identifier.
pub proof fn law_elements_name_responses(item: Seq<char>, text: Seq<char>)
    ensures
        crate::json::parsed_json(item) == Some(crate::json::JsonView::Text(text))
            && crate::ids::parsed_uuid(text) is Some ==> listed_response(item) == Some(
            Uuid { value: crate::ids::parsed_uuid(text)->0 },
        ),
        crate::json::parsed_json(item) == Some(crate::json::JsonView::Text(text))
            && crate::ids::parsed_uuid(text) is None ==> listed_response(item) is None,
        !(crate::json::parsed_json(item) matches Some(crate::json::JsonView::Text(_)))
            ==> listed_response(item) is None,
{
}

/// A longer list gives the copies of the shorter one and then the copy of the
/// added response, if it is among the originals; an empty list gives none. No
/// identifier of the original conversation is kept.
pub proof fn law_each_listed_response_gives_its_copy(
    items: Seq<Seq<char>>,
    item: Seq<char>,
    originals: Seq<Uuid>,
    fresh: Seq<Uuid>,
    i: int,
)
    requires
        originals.len() == fresh.len(),
    ensures
        listed_copies(seq![], originals, fresh).len() == 0,
        0 <= i < originals.len() && listed_response(item) == Some(originals[i]) && (forall|k: int|
            i < k < originals.len() ==> #[trigger] originals[k] != originals[i]) ==> listed_copies(
            items.push(item),
            originals,
            fresh,
        ) == listed_copies(items, originals, fresh).push(fresh[i]),
        listed_response(item) is None || !originals.contains(listed_response(item)->0)
            ==> listed_copies(items.push(item), originals, fresh) == listed_copies(
            items,
            originals,
            fresh,
        ),
{
    assert(items.push(item).drop_last() =~= items);
    assert(items.push(item).last() == item);
    match listed_response(item) {
        Some(id) => {
            law_copy_stands_beside_its_original(originals, fresh, id, i);
            law_copies_are_fresh(originals, fresh, id);
        },
        None => {},
    }
}

/// A stored list, however long, becomes a list of copies, each written in the
/// usual form of an identifier; what is stored and is no list stays as it is,
/// and where nothing is stored there is nothing.
pub proof fn law_stored_lists_become_lists_of_copies(
    text: Seq<char>,
    originals: Seq<Uuid>,
    fresh: Seq<Uuid>,
)
    ensures
        crate::json::parsed_json(text) matches Some(crate::json::JsonView::Array(items)) ==> {
            let copies = listed_copies(items, originals, fresh);
            &&& copied_next(Some(text), originals, fresh) matches NextResponsesView::Copies(list)
            &&& list.len() == copies.len()
            &&& forall|k: int|
                0 <= k < list.len() ==> #[trigger] list[k] == crate::ids::hyphenated(copies[k])
        },
        !(crate::json::parsed_json(text) matches Some(crate::json::JsonView::Array(_)))
            ==> copied_next(Some(text), originals, fresh) == NextResponsesView::Unchanged(text),
        copied_next(None, originals, fresh) is Absent,
{
}

/// The links of a copy stay within the copied conversation: the response it
/// answers is the copy of the one that the original answers, and the stored list
/// of answers becomes the list of their copies.
pub proof fn law_links_of_a_copy_are_copies(
    links: CopiedLinks,
    stored: ResponseLinks,
    originals: Seq<Uuid>,
    fresh: Seq<Uuid>,
    i: int,
)
    requires
        originals.len() == fresh.len(),
        are_links_copied(links, stored, originals, fresh),
    ensures
        stored.previous_response_id is None ==> links.previous_response_id is None,
        0 <= i < originals.len() && stored.previous_response_id == Some(originals[i]) && (forall|
            k: int,
        |
            i < k < originals.len() ==> #[trigger] originals[k] != originals[i])
            ==> links.previous_response_id == Some(fresh[i]),
        stored.previous_response_id is Some && !originals.contains(stored.previous_response_id->0)
            ==> links.previous_response_id is None,
        stored.next_response_ids is None ==> links.next_response_ids is Absent,
        stored.next_response_ids is Some && (crate::json::parsed_json(
            stored.next_response_ids->0@,
        ) matches Some(crate::json::JsonView::Array(_))) ==> links.next_response_ids is Copies,
        stored.next_response_ids is Some && !(crate::json::parsed_json(
            stored.next_response_ids->0@,
        ) matches Some(crate::json::JsonView::Array(_))) ==> links.next_response_ids@
            == NextResponsesView::Unchanged(stored.next_response_ids->0@),
{
    match stored.previous_response_id {
        Some(id) => {
            law_copy_stands_beside_its_original(originals, fresh, id, i);
            law_copies_are_fresh(originals, fresh, id);
        },
        None => {},
    }
}

/// The copy of an item belongs to the copy of its response, keeps its time, and
/// as an object carries a message identifier made of its own identifier.
pub proof fn law_copied_item_belongs_to_the_copied_response(
    copy: CopiedItem,
    item: ResponseItem,
    new_id: Uuid,
    originals: Seq<Uuid>,
    fresh: Seq<Uuid>,
    i: int,
)
    requires
        originals.len() == fresh.len(),
        is_item_copy(copy, item, new_id, originals, fresh),
    ensures
        copy.id == new_id,
        copy.created_at == item.created_at,
        0 <= i < originals.len() && item.response_id == originals[i] && (forall|k: int|
            i < k < originals.len() ==> #[trigger] originals[k] != originals[i])
            ==> copy.response_id == fresh[i],
        !originals.contains(item.response_id) ==> copy.response_id == item.response_id,
        (crate::json::parsed_json(item.item@) matches Some(crate::json::JsonView::Object(_)))
            ==> Some(copy.item@) == crate::json::text_with_member(
            item.item@,
            "id"@,
            "msg_"@ + crate::ids::simple(new_id),
        ),
        !(crate::json::parsed_json(item.item@) matches Some(crate::json::JsonView::Object(_)))
            ==> Some(copy.item@) == crate::json::rewritten_json(item.item@),
{
    law_copy_stands_beside_its_original(originals, fresh, item.response_id, i);
    law_copies_are_fresh(originals, fresh, item.response_id);
}

/// What a copy goes through: without the conversation it ends with nothing done;
/// otherwise every response is copied in turn under its fresh identifier, then
/// the links of every response are read and written to its copy, then every item
/// is written, and only then is the copy committed and read.
pub proof fn law_copying_takes_every_step_in_turn(
    state: CloneState,
    event: CloneEvent,
    next: CloneState,
    action: CloneAction,
)
    requires
        clone_state_ok(state),
        clone_expects(state, event),
        clone_leads_to(state, event, next, action),
    ensures
        event == CloneEvent::ConversationCopied(false) ==> next is Ended && action is GiveUp,
        event == CloneEvent::ConversationCopied(true) ==> next is ReadingResponses
            && action is ReadResponses,
        event matches CloneEvent::ResponsesRead { originals, fresh } ==> if originals@.len() == 0 {
            next is ReadingItems && action is ReadItems
        } else {
            &&& next == (CloneState::CopyingResponse { originals, fresh, position: 0 })
            &&& action == (CloneAction::CopyResponse { original: originals@[0], copy: fresh@[0] })
        },
        state matches CloneState::CopyingResponse { originals, fresh, position } ==> if position + 1
            < originals@.len() {
            &&& next matches CloneState::CopyingResponse {
                originals: o,
                fresh: f,
                position: p,
            }
            &&& o == originals && f == fresh && p == (position + 1) as usize
            &&& action == (CloneAction::CopyResponse {
                original: originals@[position + 1],
                copy: fresh@[position + 1],
            })
        } else {
            &&& next == (CloneState::ReadingLinks { originals, fresh, position: 0 })
            &&& action == (CloneAction::ReadLinks { original: originals@[0] })
        },
        state matches CloneState::ReadingLinks { originals, fresh, position } ==> (
        event matches CloneEvent::LinksRead(Some(stored)) ==> {
            &&& next == (CloneState::WritingLinks { originals, fresh, position })
            &&& action matches CloneAction::WriteLinks { copy, links }
            &&& copy == fresh@[position as int]
            &&& are_links_copied(links, stored, originals@, fresh@)
        }),
        state is WritingLinks || event == CloneEvent::LinksRead(None) ==> {
            let (originals, fresh, position) = if state is WritingLinks {
                (
                    state->WritingLinks_originals,
                    state->WritingLinks_fresh,
                    state->WritingLinks_position,
                )
            } else {
                (
                    state->ReadingLinks_originals,
                    state->ReadingLinks_fresh,
                    state->ReadingLinks_position,
                )
            };
            if position + 1 < originals@.len() {
                &&& next matches CloneState::ReadingLinks { originals: o, fresh: f, position: p }
                &&& o == originals && f == fresh && p == (position + 1) as usize
                &&& action == (CloneAction::ReadLinks { original: originals@[position + 1] })
            } else {
                &&& next == (CloneState::ReadingItems { originals, fresh })
                &&& action is ReadItems
            }
        },
        event matches CloneEvent::ItemsRead { items, fresh } ==> if items@.len() == 0 {
            next is Committing && action is Commit
        } else if next is Ended {
            &&& action matches CloneAction::RefuseItem { position }
            &&& crate::json::parsed_json(items@[position as int].item@) is None
        } else {
            &&& next matches CloneState::CopyingItems { copies, position }
            &&& position == 0 && copies@.len() == items@.len()
            &&& forall|k: int|
                0 <= k < items@.len() ==> (#[trigger] copies@[k]).id == fresh@[k]
                    && copies@[k].created_at == items@[k].created_at
            &&& action matches CloneAction::WriteItem { position: at, copy }
            &&& at == 0 && copy.id == fresh@[0]
        },
        (event matches CloneEvent::ItemsRead { items, fresh }) && (exists|k: int|
            0 <= k < event->items@.len() && crate::json::parsed_json(
                (#[trigger] event->items@[k]).item@,
            ) is None) ==> next is Ended && action is RefuseItem,
        state matches CloneState::CopyingItems { copies, position } ==> if position + 1
            < copies@.len() {
            &&& next == (CloneState::CopyingItems { copies, position: (position + 1) as usize })
            &&& action matches CloneAction::WriteItem { position: at, copy }
            &&& at == position + 1
            &&& copy.id == copies@[position + 1].id
            &&& copy.response_id == copies@[position + 1].response_id
            &&& copy.item@ == copies@[position + 1].item@
            &&& copy.created_at == copies@[position + 1].created_at
        } else {
            next is Committing && action is Commit
        },
        event is Committed ==> next is ReadingCopy && action is ReadCopy,
        event is CopyRead ==> next is Ended && action is Finish,
{
    if event is ItemsRead {
        let items = event->items@;
        assert forall|k: int|
            0 <= k < items.len() && crate::json::parsed_json(
                (#[trigger] items[k]).item@,
            ) is None implies !is_readable(items[k]) by {}
        if next is CopyingItems {
            let copies = next->CopyingItems_copies@;
            assert forall|k: int| 0 <= k < items.len() implies (#[trigger] copies[k]).id
                == event->ItemsRead_fresh@[k] && copies[k].created_at == items[k].created_at by {}
        }
    }
}

proof fn lemma_named_copies(
    items: Seq<Seq<char>>,
    places: Seq<int>,
    originals: Seq<Uuid>,
    fresh: Seq<Uuid>,
)
    requires
        originals.len() == fresh.len(),
        forall|i: int, k: int|
            0 <= i < k < originals.len() ==> #[trigger] originals[i] != #[trigger] originals[k],
        places.len() == items.len(),
        forall|k: int|
            0 <= k < items.len() ==> 0 <= #[trigger] places[k] < originals.len()
                && listed_response(items[k]) == Some(originals[places[k]]),
    ensures
        listed_copies(items, originals, fresh).len() == items.len(),
        forall|k: int|
            0 <= k < items.len() ==> #[trigger] listed_copies(items, originals, fresh)[k]
                == fresh[places[k]],
    decreases items.len(),
{
    if items.len() == 0 {
        assert(items =~= seq![]);
    } else {
        let n = items.len() - 1;
        let shorter = items.drop_last();
        lemma_named_copies(shorter, places.drop_last(), originals, fresh);
        assert(shorter.push(items[n]) =~= items);
        assert(places[n] == places.last());
        law_each_listed_response_gives_its_copy(shorter, items[n], originals, fresh, places[n]);
    }
}

/// A stored list of responses of the conversation, of any length, becomes the
/// list of their copies, in the same order.
pub proof fn law_any_list_becomes_its_copies_in_order(
    links: ResponseLinks,
    originals: Vec<Uuid>,
    fresh: Vec<Uuid>,
    text: String,
    items: Seq<Seq<char>>,
    places: Seq<int>,
    r: CopiedLinks,
)
    requires
        call_ensures(copy_links, (&links, &originals, &fresh), r),
        originals@.len() == fresh@.len(),
        forall|i: int, k: int|
            0 <= i < k < originals@.len() ==> #[trigger] originals@[i] != #[trigger] originals@[k],
        links.next_response_ids == Some(text),
        crate::json::parsed_json(text@) == Some(crate::json::JsonView::Array(items)),
        places.len() == items.len(),
        forall|k: int|
            0 <= k < items.len() ==> 0 <= #[trigger] places[k] < originals@.len()
                && listed_response(items[k]) == Some(originals@[places[k]]),
    ensures
        r.next_response_ids matches NextResponses::Copies(list) && list@.len() == items.len() && (
        forall|k: int|
            0 <= k < items.len() ==> (#[trigger] list@[k])@ == crate::ids::hyphenated(
                fresh@[places[k]],
            )),
{
    lemma_named_copies(items, places, originals@, fresh@);
    law_stored_lists_become_lists_of_copies(text@, originals@, fresh@);
    assert(r.next_response_ids is Copies);
    let list = r.next_response_ids->Copies_0;
    let copies = listed_copies(items, originals@, fresh@);
    assert(crate::text::list_view(list@).len() == copies.len());
    assert forall|k: int| 0 <= k < items.len() implies (#[trigger] list@[k])@
        == crate::ids::hyphenated(fresh@[places[k]]) by {
        assert(crate::text::list_view(list@)[k] == list@[k]@);
        assert(copies[k] == fresh@[places[k]]);
    }
}

/// Every stored list becomes a list, also an empty one and one of a single
/// element; a value that is no list stays as it is, and where nothing is stored
/// there is nothing. The response that is answered becomes its copy, or nothing
/// where it has none.
pub proof fn law_only_lists_are_rewritten(
    links: ResponseLinks,
    originals: Vec<Uuid>,
    fresh: Vec<Uuid>,
    i: int,
    r: CopiedLinks,
)
    requires
        call_ensures(copy_links, (&links, &originals, &fresh), r),
        originals@.len() == fresh@.len(),
    ensures
        links.next_response_ids is None ==> r.next_response_ids is Absent,
        links.next_response_ids matches Some(text) ==> (crate::json::parsed_json(
            text@,
        ) matches Some(crate::json::JsonView::Array(_))) ==> r.next_response_ids is Copies,
        links.next_response_ids matches Some(text) ==> !(crate::json::parsed_json(
            text@,
        ) matches Some(crate::json::JsonView::Array(_))) ==> (
        r.next_response_ids matches NextResponses::Unchanged(kept) && kept@ == text@),
        links.previous_response_id is None ==> r.previous_response_id is None,
        links.previous_response_id matches Some(id) ==> !originals@.contains(id)
            ==> r.previous_response_id is None,
        0 <= i < originals@.len() && links.previous_response_id == Some(originals@[i]) && (forall|
            k: int,
        |
            i < k < originals@.len() ==> #[trigger] originals@[k] != originals@[i])
            ==> r.previous_response_id == Some(fresh@[i]),
{
    match links.next_response_ids {
        Some(text) => {
            law_stored_lists_become_lists_of_copies(text@, originals@, fresh@);
        },
        None => {},
    }
    match links.previous_response_id {
        Some(id) => {
            law_copy_stands_beside_its_original(originals@, fresh@, id, i);
            law_copies_are_fresh(originals@, fresh@, id);
        },
        None => {},
    }
}

} // verus!
