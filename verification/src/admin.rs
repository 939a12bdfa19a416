use vstd::prelude::*;
use crate::cache::{codes_distinct, listed_map, LinkEntry};
use crate::error::WebServerError;
use crate::redirect_handler::{header_text, resolve};
use crate::state::{AppState, StateView};
use crate::users::Authorization;

verus! {

/// A row mutation that the durable store is to carry out.
#[derive(Debug)]
pub enum StoreWrite {
    Insert { code: String, destination: String },
    Update { code: String, destination: String },
    Remove { code: String },
}

/// A row mutation as a value.
pub enum WriteView {
    Insert { code: Seq<char>, destination: Seq<char> },
    Update { code: Seq<char>, destination: Seq<char> },
    Remove { code: Seq<char> },
}

impl View for StoreWrite {
    type V = WriteView;

    open spec fn view(&self) -> WriteView {
        match *self {
            StoreWrite::Insert { code, destination } => WriteView::Insert {
                code: code@,
                destination: destination@,
            },
            StoreWrite::Update { code, destination } => WriteView::Update {
                code: code@,
                destination: destination@,
            },
            StoreWrite::Remove { code } => WriteView::Remove { code: code@ },
        }
    }
}

/// What the durable store answered to a row mutation.
#[derive(Clone, Copy, Debug, PartialEq, Eq, Structural)]
pub enum WriteOutcome {
    /// The write was carried out and affected this many rows.
    Rows(u64),
    /// The write failed.
    Failed,
}

/// The confirmation of an admin write.
#[derive(Clone, Copy, Debug, PartialEq, Eq, Structural)]
pub enum WriteReply {
    Added,
    Edited,
    Removed,
}

impl WriteReply {
    pub open spec fn status_of(self) -> u16 {
        match self {
            WriteReply::Added => 201,
            WriteReply::Edited => 200,
            WriteReply::Removed => 200,
        }
    }

    /// The HTTP status of the confirmation.
    pub fn status(&self) -> (code: u16)
        ensures
            code == self.status_of(),
    {
        match self {
            WriteReply::Added => 201,
            WriteReply::Edited => 200,
            WriteReply::Removed => 200,
        }
    }

    /// The body of the confirmation.
    pub fn body(&self) -> (text: &'static str)
        ensures
            text@ == match *self {
                WriteReply::Added => r#"{"message":"Link added!"}"#@,
                WriteReply::Edited => r#"{"message":"Link edited!"}\n"#@,
                WriteReply::Removed => r#"{"message":"Link removed!"}"#@,
            },
    {
        match self {
            WriteReply::Added => r#"{"message":"Link added!"}"#,
            WriteReply::Edited => r#"{"message":"Link edited!"}\n"#,
            WriteReply::Removed => r#"{"message":"Link removed!"}"#,
        }
    }
}

/// The mappings as values, of a planned write or of its refusal.
pub open spec fn plan_view(plan: Result<StoreWrite, WebServerError>) -> Result<WriteView, WebServerError> {
    match plan {
        Ok(write) => Ok(write@),
        Err(e) => Err(e),
    }
}

/// Validation of an addition: the code must be new to the cache and not
/// reserved.
pub open spec fn add_plan(s: StateView, code: Seq<char>, destination: Seq<char>) -> Result<
    WriteView,
    WebServerError,
> {
    if s.links is None {
        Err(WebServerError::Uninitialized)
    } else if s.links->0.contains_key(code) {
        Err(WebServerError::Conflict)
    } else if s.disallowed is None {
        Err(WebServerError::Uninitialized)
    } else if s.disallowed->0.contains(code) {
        Err(WebServerError::Conflict)
    } else {
        Ok(WriteView::Insert { code, destination })
    }
}

/// Validation of an edit: the code must be in the cache.
pub open spec fn edit_plan(s: StateView, code: Seq<char>, destination: Seq<char>) -> Result<
    WriteView,
    WebServerError,
> {
    if s.links is None {
        Err(WebServerError::Uninitialized)
    } else if !s.links->0.contains_key(code) {
        Err(WebServerError::NotFound)
    } else {
        Ok(WriteView::Update { code, destination })
    }
}

/// Validation of a deletion: the code must be in the cache.
pub open spec fn delete_plan(s: StateView, code: Seq<char>) -> Result<WriteView, WebServerError> {
    if s.links is None {
        Err(WebServerError::Uninitialized)
    } else if !s.links->0.contains_key(code) {
        Err(WebServerError::NotFound)
    } else {
        Ok(WriteView::Remove { code })
    }
}

/// The mappings after the write was applied to them.
pub open spec fn written(links: Map<Seq<char>, Seq<char>>, write: WriteView) -> Map<Seq<char>, Seq<char>> {
    match write {
        WriteView::Insert { code, destination } => links.insert(code, destination),
        WriteView::Update { code, destination } => if links.contains_key(code) {
            links.insert(code, destination)
        } else {
            links
        },
        WriteView::Remove { code } => links.remove(code),
    }
}

/// The confirmation that belongs to a write.
pub open spec fn reply_to(write: WriteView) -> WriteReply {
    match write {
        WriteView::Insert { .. } => WriteReply::Added,
        WriteView::Update { .. } => WriteReply::Edited,
        WriteView::Remove { .. } => WriteReply::Removed,
    }
}

/// What is answered once the durable store has reported on a write: a
/// failed write and a row count other than one are errors of their own.
pub open spec fn settled_reply(s: StateView, write: WriteView, outcome: WriteOutcome) -> Result<
    WriteReply,
    WebServerError,
> {
    match outcome {
        WriteOutcome::Failed => Err(WebServerError::StoreUnavailable),
        WriteOutcome::Rows(n) => if n != 1 {
            Err(WebServerError::ConsistencyViolation)
        } else if s.links is None {
            Err(WebServerError::Uninitialized)
        } else {
            Ok(reply_to(write))
        },
    }
}

/// The state once the durable store has reported on a write: the cache
/// follows the write when it is confirmed, and is untouched otherwise.
pub open spec fn settled_state(s: StateView, write: WriteView, outcome: WriteOutcome) -> StateView {
    if settled_reply(s, write, outcome) is Ok {
        StateView { links: Some(written(s.links->0, write)), ..s }
    } else {
        s
    }
}

/// All mappings of the cache, each code once, in no particular order.
pub fn list(_auth: &Authorization, state: &AppState) -> (links: Result<Vec<LinkEntry>, WebServerError>)
    requires
        state.wf(),
    ensures
        match links {
            Ok(entries) => state@.links == Some(listed_map(entries@)) && codes_distinct(entries@),
            Err(e) => e == WebServerError::Uninitialized && state@.links is None,
        },
{
    match &state.links {
        Some(cache) => Ok(cache.list_all()),
        None => Err(WebServerError::Uninitialized),
    }
}

/// First phase of an addition: validates it against the cache and the
/// reserved codes, and names the row to insert. The cache is not touched
/// before [`settle`] learns what the durable store did.
pub fn add(_auth: &Authorization, state: &AppState, code: String, destination: String) -> (plan: Result<
    StoreWrite,
    WebServerError,
>)
    requires
        state.wf(),
    ensures
        plan_view(plan) == add_plan(state@, code@, destination@),
{
    match &state.links {
        None => Err(WebServerError::Uninitialized),
        Some(cache) => {
            if cache.contains(code.as_str()) {
                return Err(WebServerError::Conflict);
            }
            match &state.disallowed {
                None => Err(WebServerError::Uninitialized),
                Some(reserved) => {
                    if reserved.contains(code.as_str()) {
                        Err(WebServerError::Conflict)
                    } else {
                        Ok(StoreWrite::Insert { code, destination })
                    }
                },
            }
        },
    }
}

/// First phase of an edit: the code must be in the cache; names the row to
/// update.
pub fn edit(_auth: &Authorization, state: &AppState, code: String, destination: String) -> (plan: Result<
    StoreWrite,
    WebServerError,
>)
    requires
        state.wf(),
    ensures
        plan_view(plan) == edit_plan(state@, code@, destination@),
{
    match &state.links {
        None => Err(WebServerError::Uninitialized),
        Some(cache) => {
            if cache.contains(code.as_str()) {
                Ok(StoreWrite::Update { code, destination })
            } else {
                Err(WebServerError::NotFound)
            }
        },
    }
}

/// First phase of a deletion: the code must be in the cache; names the row
/// to delete.
pub fn delete(_auth: &Authorization, state: &AppState, code: String) -> (plan: Result<
    StoreWrite,
    WebServerError,
>)
    requires
        state.wf(),
    ensures
        plan_view(plan) == delete_plan(state@, code@),
{
    match &state.links {
        None => Err(WebServerError::Uninitialized),
        Some(cache) => {
            if cache.contains(code.as_str()) {
                Ok(StoreWrite::Remove { code })
            } else {
                Err(WebServerError::NotFound)
            }
        },
    }
}

/// Last phase of an admin write: given what the durable store answered,
/// applies the write to the cache if exactly one row was affected, and
/// leaves the cache as it was otherwise.
pub fn settle(_auth: &Authorization, state: &mut AppState, write: StoreWrite, outcome: WriteOutcome) -> (reply:
    Result<WriteReply, WebServerError>)
    requires
        old(state).wf(),
    ensures
        final(state).wf(),
        final(state)@ == settled_state(old(state)@, write@, outcome),
        reply == settled_reply(old(state)@, write@, outcome),
{
    match outcome {
        WriteOutcome::Failed => Err(WebServerError::StoreUnavailable),
        WriteOutcome::Rows(n) => {
            if n != 1 {
                return Err(WebServerError::ConsistencyViolation);
            }
            match state.links.take() {
                None => Err(WebServerError::Uninitialized),
                Some(mut cache) => {
                    let reply = match write {
                        StoreWrite::Insert { code, destination } => {
                            cache.insert(code, destination);
                            WriteReply::Added
                        },
                        StoreWrite::Update { code, destination } => {
                            cache.update(code, destination);
                            WriteReply::Edited
                        },
                        StoreWrite::Remove { code } => {
                            cache.remove(code.as_str());
                            WriteReply::Removed
                        },
                    };
                    state.links = Some(cache);
                    Ok(reply)
                },
            }
        },
    }
}

/// A code that is neither present nor reserved can be added, and once the
/// durable store has confirmed the one new row, the code resolves to the
/// destination it was added with, provided that destination can be sent
/// as a redirect target.
pub proof fn added_code_resolves(s: StateView, code: Seq<char>, destination: Seq<char>)
    requires
        s.links is Some,
        s.disallowed is Some,
        !s.links->0.contains_key(code),
        !s.disallowed->0.contains(code),
        header_text(destination),
    ensures
        add_plan(s, code, destination) is Ok,
        settled_reply(s, add_plan(s, code, destination)->Ok_0, WriteOutcome::Rows(1)) == Ok::<
            WriteReply,
            WebServerError,
        >(WriteReply::Added),
        resolve(settled_state(s, add_plan(s, code, destination)->Ok_0, WriteOutcome::Rows(1)), code)
            == Ok::<Seq<char>, WebServerError>(destination),
{
}

/// A present code can be edited, and once the durable store has confirmed
/// the one changed row, the code resolves to the new destination,
/// provided that destination can be sent as a redirect target.
pub proof fn edited_code_resolves(s: StateView, code: Seq<char>, destination: Seq<char>)
    requires
        s.links is Some,
        s.links->0.contains_key(code),
        header_text(destination),
    ensures
        edit_plan(s, code, destination) is Ok,
        settled_reply(s, edit_plan(s, code, destination)->Ok_0, WriteOutcome::Rows(1)) == Ok::<
            WriteReply,
            WebServerError,
        >(WriteReply::Edited),
        resolve(settled_state(s, edit_plan(s, code, destination)->Ok_0, WriteOutcome::Rows(1)), code)
            == Ok::<Seq<char>, WebServerError>(destination),
{
}

/// An edit is never refused as a conflict, whatever the state and the
/// code.
pub proof fn edit_never_conflicts(s: StateView, code: Seq<char>, destination: Seq<char>)
    ensures
        edit_plan(s, code, destination) != Err::<WriteView, WebServerError>(WebServerError::Conflict),
{
}

/// A present code can be deleted, and once the durable store has
/// confirmed the one deleted row, the code is not found.
pub proof fn deleted_code_not_found(s: StateView, code: Seq<char>)
    requires
        s.links is Some,
        s.links->0.contains_key(code),
    ensures
        delete_plan(s, code) is Ok,
        settled_reply(s, delete_plan(s, code)->Ok_0, WriteOutcome::Rows(1)) == Ok::<
            WriteReply,
            WebServerError,
        >(WriteReply::Removed),
        resolve(settled_state(s, delete_plan(s, code)->Ok_0, WriteOutcome::Rows(1)), code) == Err::<
            Seq<char>,
            WebServerError,
        >(WebServerError::NotFound),
{
}

/// The addition of a reserved code is a conflict, whatever the cache
/// holds.
pub proof fn reserved_code_conflicts(s: StateView, code: Seq<char>, destination: Seq<char>)
    requires
        s.links is Some,
        s.disallowed is Some,
        s.disallowed->0.contains(code),
    ensures
        add_plan(s, code, destination) == Err::<WriteView, WebServerError>(WebServerError::Conflict),
{
}

/// Of two additions of one fresh code that are carried out one after the
/// other, the first succeeds and the second is a conflict.
pub proof fn second_add_conflicts(s: StateView, code: Seq<char>, first: Seq<char>, second: Seq<char>)
    requires
        s.links is Some,
        s.disallowed is Some,
        !s.links->0.contains_key(code),
        !s.disallowed->0.contains(code),
    ensures
        add_plan(s, code, first) is Ok,
        add_plan(settled_state(s, add_plan(s, code, first)->Ok_0, WriteOutcome::Rows(1)), code, second)
            == Err::<WriteView, WebServerError>(WebServerError::Conflict),
{
}

/// A write that the durable store did not confirm with exactly one
/// affected row is an error and leaves the state as it was.
pub proof fn unconfirmed_write_changes_nothing(s: StateView, write: WriteView, outcome: WriteOutcome)
    requires
        outcome != WriteOutcome::Rows(1),
    ensures
        settled_reply(s, write, outcome) is Err,
        settled_state(s, write, outcome) == s,
{
}

/// The codes that have a durable row once the store has answered a write:
/// a confirmed insertion adds the row of its code, a confirmed deletion
/// drops it, and anything else leaves the rows as they were.
pub open spec fn rows_after(rows: Set<Seq<char>>, write: WriteView, outcome: WriteOutcome) -> Set<Seq<char>> {
    match (write, outcome) {
        (WriteView::Insert { code, .. }, WriteOutcome::Rows(1)) => rows.insert(code),
        (WriteView::Remove { code }, WriteOutcome::Rows(1)) => rows.remove(code),
        _ => rows,
    }
}

/// The cache never runs ahead of the durable store: if every cached code
/// has a durable row before a write, every cached code has one after the
/// write was settled. This holds of a store in which a code names at most
/// one row, so that no write affects more than one.
pub proof fn cache_stays_behind_store(
    s: StateView,
    rows: Set<Seq<char>>,
    write: WriteView,
    outcome: WriteOutcome,
)
    requires
        s.links is Some,
        s.links->0.dom().subset_of(rows),
        outcome matches WriteOutcome::Rows(n) ==> n <= 1,
    ensures
        settled_state(s, write, outcome).links is Some,
        settled_state(s, write, outcome).links->0.dom().subset_of(rows_after(rows, write, outcome)),
{
}

} // verus!
