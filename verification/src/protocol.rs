use vstd::prelude::*;
use vstd::string::*;

use crate::auth::{auth_error, authorize, authorized, CountOutcome};
use crate::errors::{status_of, AppError};
use crate::names::{
    extension_of, file_extension, paste_url, paste_url_spec, stored_filename,
    stored_filename_spec, wf_uuid,
};
use crate::outside::{fresh_uuid, now_unix_seconds};
use crate::types::{FileNameWrapper, IdTokenParam, PasteInfo, TokenParam};

verus! {

/// What the handler sees of the first multipart field of an upload: the
/// `filename` attribute of its `Content-Disposition` header, already
/// decoded to text by the HTTP layer, or nothing when the attribute is
/// absent.
pub struct UploadField {
    pub file_name: Option<String>,
}

/// The create-paste handler, between two suspension points. Each state
/// names the outside result the handler is waiting for.
pub enum NewPasteState {
    /// Waiting for the token count from the metadata store.
    Authorizing,
    /// Waiting for the first multipart field of the request body.
    AwaitingField { id: String },
    /// Waiting for the body to be streamed into the named file.
    AwaitingWrite { id: String, filename: String },
    /// Waiting for the paste row to be inserted.
    AwaitingInsert { filename: String },
    /// The response has been issued.
    Done,
}

/// One outside result, handed back to the create-paste handler.
pub enum NewPasteEvent {
    /// The outcome of counting the request's token in the tokens table.
    TokenCount(CountOutcome),
    /// The first multipart field, or `None` when the body has no field or
    /// its parsing failed.
    FieldRead(Option<UploadField>),
    /// The byte count streamed to disk, or `None` on a read or write
    /// failure.
    Written(Option<u64>),
    /// Whether inserting the paste row succeeded.
    Inserted(bool),
}

/// What the create-paste handler asks its surroundings to do next.
pub enum NewPasteAction {
    /// Count the rows of the tokens table whose value equals the token.
    LookUpToken { token: String },
    /// Read the first field of the multipart request body.
    ReadField,
    /// Stream the field's bytes into this file under the storage directory.
    WriteFile { filename: String },
    /// Insert this row into the pastes table.
    InsertRow { row: PasteInfo },
    /// Send the response; every failure carries an empty body.
    Respond { status: u16, body: String },
}

/// A terminal step of the create-paste handler: respond with the given
/// status and an empty body.
pub open spec fn new_responds(post: NewPasteState, action: NewPasteAction, code: u16) -> bool {
    &&& post is Done
    &&& action matches NewPasteAction::Respond { status, body } && status == code && body@
        == Seq::<char>::empty()
}

/// The transition relation of the create-paste handler. It is a relation,
/// not a function, in exactly two places: the fresh id is random (only its
/// canonical shape is known) and the row's timestamp is read from the
/// clock (nothing is known of it).
pub open spec fn new_paste_transition(
    pre: NewPasteState,
    event: NewPasteEvent,
    base: Seq<char>,
    post: NewPasteState,
    action: NewPasteAction,
) -> bool {
    match (pre, event) {
        (NewPasteState::Authorizing, NewPasteEvent::TokenCount(o)) => if authorized(o) {
            &&& post matches NewPasteState::AwaitingField { id } && wf_uuid(id@)
            &&& action is ReadField
        } else {
            new_responds(post, action, status_of(auth_error(o)))
        },
        (NewPasteState::AwaitingField { id }, NewPasteEvent::FieldRead(field)) => match field {
            Option::Some(f) => match f.file_name {
                Option::Some(n) => {
                    &&& post matches NewPasteState::AwaitingWrite { id: pid, filename }
                        && pid@ == id@ && filename@ == stored_filename_spec(
                        id@,
                        extension_of(n@),
                    )
                    &&& action matches NewPasteAction::WriteFile { filename: af } && af@
                        == stored_filename_spec(id@, extension_of(n@))
                },
                Option::None => new_responds(post, action, status_of(AppError::BadRequest)),
            },
            Option::None => new_responds(post, action, status_of(AppError::BadRequest)),
        },
        (NewPasteState::AwaitingWrite { id, filename }, NewPasteEvent::Written(w)) => match w {
            Option::Some(total) => if total > u32::MAX as u64 {
                new_responds(post, action, status_of(AppError::IoError))
            } else {
                &&& post matches NewPasteState::AwaitingInsert { filename: pf } && pf@
                    == filename@
                &&& action matches NewPasteAction::InsertRow { row } && row.id@ == id@
                    && row.filename@ == filename@ && row.size == total as u32
            },
            Option::None => new_responds(post, action, status_of(AppError::IoError)),
        },
        (NewPasteState::AwaitingInsert { filename }, NewPasteEvent::Inserted(ok)) => if ok {
            &&& post is Done
            &&& action matches NewPasteAction::Respond { status, body } && status == 200 && body@
                == paste_url_spec(base, filename@)
        } else {
            new_responds(post, action, status_of(AppError::StorageError))
        },
        _ => new_responds(post, action, status_of(AppError::Internal)),
    }
}

/// Begin a create-paste request: the first thing the handler does is look
/// the presented token up.
pub fn new_paste_start(params: TokenParam) -> (r: (NewPasteState, NewPasteAction))
    ensures
        r.0 is Authorizing,
        r.1 matches NewPasteAction::LookUpToken { token } && token@ == params.token@,
{
    (
        NewPasteState::Authorizing,
        NewPasteAction::LookUpToken { token: params.token },
    )
}

fn new_respond_empty(code: u16) -> (r: (NewPasteState, NewPasteAction))
    ensures
        new_responds(r.0, r.1, code),
{
    (
        NewPasteState::Done,
        NewPasteAction::Respond { status: code, body: String::new() },
    )
}

/// Advance the create-paste handler by one outside result.
///
/// On a token count other than exactly 1 the request ends with 401 or 500
/// and nothing has been written. A missing field or missing upload
/// filename ends it with 400. Otherwise a fresh id is drawn, the upload
/// name's extension decides the stored filename, the body is streamed to
/// that file, a row with the written size is inserted, and the response is
/// 200 with the paste's public URL. Any event that does not belong to the
/// state answers 500.
pub fn new_paste_step(state: NewPasteState, event: NewPasteEvent, base_url: &str) -> (r: (
    NewPasteState,
    NewPasteAction,
))
    ensures
        new_paste_transition(state, event, base_url@, r.0, r.1),
{
    match (state, event) {
        (NewPasteState::Authorizing, NewPasteEvent::TokenCount(o)) => match authorize(o) {
            Ok(_) => {
                let id = fresh_uuid();
                (NewPasteState::AwaitingField { id }, NewPasteAction::ReadField)
            },
            Err(e) => new_respond_empty(e.status_code()),
        },
        (NewPasteState::AwaitingField { id }, NewPasteEvent::FieldRead(field)) => match field {
            Option::Some(f) => match f.file_name {
                Option::Some(n) => {
                    let ext = file_extension(n.as_str());
                    let filename = stored_filename(id.as_str(), &ext);
                    let announced = filename.clone();
                    (
                        NewPasteState::AwaitingWrite { id, filename },
                        NewPasteAction::WriteFile { filename: announced },
                    )
                },
                Option::None => new_respond_empty(AppError::BadRequest.status_code()),
            },
            Option::None => new_respond_empty(AppError::BadRequest.status_code()),
        },
        (NewPasteState::AwaitingWrite { id, filename }, NewPasteEvent::Written(w)) => match w {
            Option::Some(total) => if total > u32::MAX as u64 {
                new_respond_empty(AppError::IoError.status_code())
            } else {
                let kept = filename.clone();
                let row = PasteInfo {
                    id,
                    size: total as u32,
                    filename,
                    timestamp: now_unix_seconds(),
                };
                (
                    NewPasteState::AwaitingInsert { filename: kept },
                    NewPasteAction::InsertRow { row },
                )
            },
            Option::None => new_respond_empty(AppError::IoError.status_code()),
        },
        (NewPasteState::AwaitingInsert { filename }, NewPasteEvent::Inserted(ok)) => if ok {
            let body = paste_url(base_url, filename.as_str());
            (NewPasteState::Done, NewPasteAction::Respond { status: 200, body })
        } else {
            new_respond_empty(AppError::StorageError.status_code())
        },
        (_, _) => new_respond_empty(AppError::Internal.status_code()),
    }
}

/// A create-paste request whose token is absent from the tokens table is
/// answered 401 with an empty body at once: the handler's only action is
/// the response itself, so neither the storage directory nor the pastes
/// table is touched.
pub proof fn lemma_unauthorized_upload_touches_nothing(
    o: CountOutcome,
    base: Seq<char>,
    post: NewPasteState,
    action: NewPasteAction,
)
    requires
        o == CountOutcome::Count(0i32) || o == CountOutcome::NoRow,
        new_paste_transition(
            NewPasteState::Authorizing,
            NewPasteEvent::TokenCount(o),
            base,
            post,
            action,
        ),
    ensures
        post is Done,
        action matches NewPasteAction::Respond { status, body } && status == 401 && body@
            == Seq::<char>::empty(),
        !(action is WriteFile),
        !(action is InsertRow),
{
}

/// The outcome of the atomic "delete the row and return its filename"
/// round-trip against the pastes table.
pub enum PopOutcome {
    /// The row existed; this was its filename column.
    Row(FileNameWrapper),
    /// No row matched the id.
    NoRow,
    /// Any other metadata-store failure.
    Failure,
}

/// The delete-paste handler, between two suspension points.
pub enum DeleteState {
    /// Waiting for the token count from the metadata store.
    Authorizing { id: String },
    /// Waiting for the atomic row-delete-and-return round-trip.
    AwaitingPop,
    /// Waiting for the on-disk file to be unlinked.
    AwaitingUnlink,
    /// The response has been issued.
    Done,
}

/// One outside result, handed back to the delete-paste handler.
pub enum DeleteEvent {
    /// The outcome of counting the request's token in the tokens table.
    TokenCount(CountOutcome),
    /// The outcome of deleting the row and reading back its filename.
    Popped(PopOutcome),
    /// Whether unlinking the file succeeded.
    Unlinked(bool),
}

/// What the delete-paste handler asks its surroundings to do next. Every
/// response of this handler has an empty body.
pub enum DeleteAction {
    /// Count the rows of the tokens table whose value equals the token.
    LookUpToken { token: String },
    /// Atomically delete the row with this id and return its filename.
    PopRow { id: String },
    /// Unlink this file under the storage directory.
    RemoveFile { filename: String },
    /// Send the response.
    Respond { status: u16 },
}

/// A terminal step of the delete-paste handler.
pub open spec fn delete_responds(post: DeleteState, action: DeleteAction, code: u16) -> bool {
    &&& post is Done
    &&& action matches DeleteAction::Respond { status } && status == code
}

/// The transition relation of the delete-paste handler.
pub open spec fn delete_transition(
    pre: DeleteState,
    event: DeleteEvent,
    post: DeleteState,
    action: DeleteAction,
) -> bool {
    match (pre, event) {
        (DeleteState::Authorizing { id }, DeleteEvent::TokenCount(o)) => if authorized(o) {
            &&& post is AwaitingPop
            &&& action matches DeleteAction::PopRow { id: aid } && aid@ == id@
        } else {
            delete_responds(post, action, status_of(auth_error(o)))
        },
        (DeleteState::AwaitingPop, DeleteEvent::Popped(p)) => match p {
            PopOutcome::Row(f) => {
                &&& post is AwaitingUnlink
                &&& action matches DeleteAction::RemoveFile { filename } && filename@
                    == f.filename@
            },
            PopOutcome::NoRow => delete_responds(post, action, status_of(AppError::NotFound)),
            PopOutcome::Failure => delete_responds(
                post,
                action,
                status_of(AppError::StorageError),
            ),
        },
        (DeleteState::AwaitingUnlink, DeleteEvent::Unlinked(ok)) => if ok {
            delete_responds(post, action, 200)
        } else {
            delete_responds(post, action, status_of(AppError::IoError))
        },
        _ => delete_responds(post, action, status_of(AppError::Internal)),
    }
}

/// A delete-paste request whose token is absent from the tokens table is
/// answered 401 at once: the handler's only action is the response
/// itself, so no row is popped and no file is unlinked.
pub proof fn lemma_unauthorized_delete_touches_nothing(
    pre: DeleteState,
    o: CountOutcome,
    post: DeleteState,
    action: DeleteAction,
)
    requires
        pre is Authorizing,
        o == CountOutcome::Count(0i32) || o == CountOutcome::NoRow,
        delete_transition(pre, DeleteEvent::TokenCount(o), post, action),
    ensures
        post is Done,
        action matches DeleteAction::Respond { status } && status == 401,
        !(action is PopRow),
        !(action is RemoveFile),
{
}

/// Begin a delete-paste request: look the presented token up, remembering
/// the id to delete.
pub fn delete_paste_start(params: IdTokenParam) -> (r: (DeleteState, DeleteAction))
    ensures
        r.0 matches DeleteState::Authorizing { id } && id@ == params.id@,
        r.1 matches DeleteAction::LookUpToken { token } && token@ == params.token@,
{
    (
        DeleteState::Authorizing { id: params.id },
        DeleteAction::LookUpToken { token: params.token },
    )
}

fn delete_respond(code: u16) -> (r: (DeleteState, DeleteAction))
    ensures
        delete_responds(r.0, r.1, code),
{
    (DeleteState::Done, DeleteAction::Respond { status: code })
}

/// Advance the delete-paste handler by one outside result.
///
/// On a token count other than exactly 1 the request ends with 401 or 500
/// and no row or file is touched. The row is then deleted and its filename
/// read back in one round-trip: a missing row ends the request with 404,
/// any other store failure with 500. Unlinking the returned filename ends
/// it with 200, or 500 when the unlink fails. Any event that does not
/// belong to the state answers 500.
pub fn delete_paste_step(state: DeleteState, event: DeleteEvent) -> (r: (DeleteState, DeleteAction))
    ensures
        delete_transition(state, event, r.0, r.1),
{
    match (state, event) {
        (DeleteState::Authorizing { id }, DeleteEvent::TokenCount(o)) => match authorize(o) {
            Ok(_) => (DeleteState::AwaitingPop, DeleteAction::PopRow { id }),
            Err(e) => delete_respond(e.status_code()),
        },
        (DeleteState::AwaitingPop, DeleteEvent::Popped(p)) => match p {
            PopOutcome::Row(f) => (
                DeleteState::AwaitingUnlink,
                DeleteAction::RemoveFile { filename: f.filename },
            ),
            PopOutcome::NoRow => delete_respond(AppError::NotFound.status_code()),
            PopOutcome::Failure => delete_respond(AppError::StorageError.status_code()),
        },
        (DeleteState::AwaitingUnlink, DeleteEvent::Unlinked(ok)) => if ok {
            delete_respond(200)
        } else {
            delete_respond(AppError::IoError.status_code())
        },
        (_, _) => delete_respond(AppError::Internal.status_code()),
    }
}

} // verus!
