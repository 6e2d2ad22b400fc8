use vstd::prelude::*;

use crate::store::{created, delete_post, has_id, has_uuid_id, update_post, views, StoreError, TodoStore};
use crate::todo::{CreateTodo, Todo, TodoView, UpdateTodo};

verus! {

pub const STATUS_OK: u16 = 200;

pub const STATUS_CREATED: u16 = 201;

pub const STATUS_NO_CONTENT: u16 = 204;

pub const STATUS_NOT_FOUND: u16 = 404;

pub const STATUS_INTERNAL_ERROR: u16 = 500;

/// What a reply carries: one record, a list of records, or nothing.
#[derive(Debug)]
pub enum Body {
    Record(Todo),
    Records(Vec<Todo>),
    Empty,
}

/// An HTTP status code and the body to encode as JSON.
#[derive(Debug)]
pub struct Response {
    pub status: u16,
    pub body: Body,
}

/// The status code that reports a failed store operation.
pub open spec fn error_status(e: StoreError) -> u16 {
    match e {
        StoreError::NotFound => STATUS_NOT_FOUND,
        StoreError::DuplicateId => STATUS_INTERNAL_ERROR,
    }
}

/// The reply to a failed store operation: its status and no body.
pub fn error_reply(e: StoreError) -> (r: Response)
    ensures
        r.status == error_status(e),
        r.body is Empty,
{
    let status = match e {
        StoreError::NotFound => STATUS_NOT_FOUND,
        StoreError::DuplicateId => STATUS_INTERNAL_ERROR,
    };
    Response { status, body: Body::Empty }
}

/// The reply to a create: `201` with the new record, or the error's status.
pub fn create_reply(outcome: Result<Todo, StoreError>) -> (r: Response)
    ensures
        match outcome {
            Ok(t) => r.status == STATUS_CREATED && r.body is Record && r.body->Record_0@ == t@,
            Err(e) => r.status == error_status(e) && r.body is Empty,
        },
{
    match outcome {
        Ok(t) => Response { status: STATUS_CREATED, body: Body::Record(t) },
        Err(e) => error_reply(e),
    }
}

/// The reply to an update: `200` with the updated record, or the error's
/// status.
pub fn update_reply(outcome: Result<Todo, StoreError>) -> (r: Response)
    ensures
        match outcome {
            Ok(t) => r.status == STATUS_OK && r.body is Record && r.body->Record_0@ == t@,
            Err(e) => r.status == error_status(e) && r.body is Empty,
        },
{
    match outcome {
        Ok(t) => Response { status: STATUS_OK, body: Body::Record(t) },
        Err(e) => error_reply(e),
    }
}

/// The reply to a delete: `204` with no body, or the error's status.
pub fn delete_reply(outcome: Result<(), StoreError>) -> (r: Response)
    ensures
        r.body is Empty,
        match outcome {
            Ok(_) => r.status == STATUS_NO_CONTENT,
            Err(e) => r.status == error_status(e),
        },
{
    match outcome {
        Ok(_) => Response { status: STATUS_NO_CONTENT, body: Body::Empty },
        Err(e) => error_reply(e),
    }
}

/// GET on the collection: `200` with every record, an empty list for an
/// empty store.
pub fn get_todos_handler(store: &TodoStore) -> (r: Response)
    ensures
        r.status == STATUS_OK,
        r.body is Records,
        views(r.body->Records_0@) == store@,
{
    Response { status: STATUS_OK, body: Body::Records(store.list()) }
}

/// POST on the collection: `201` with a new record under a fresh UUID, or
/// `500` with the store unchanged when the drawn identifier was in use,
/// which needs a stored UUID-shaped identifier and so never happens on an
/// empty store.
pub fn create_todo_handler(store: &mut TodoStore, req: CreateTodo) -> (r: Response)
    requires
        old(store).wf(),
    ensures
        final(store).wf(),
        r.status == STATUS_CREATED || r.status == STATUS_INTERNAL_ERROR,
        r.status == STATUS_CREATED ==> r.body is Record && created(
            old(store)@,
            req.title@,
            r.body->Record_0@,
            final(store)@,
        ),
        r.status == STATUS_INTERNAL_ERROR ==> r.body is Empty && final(store)@ == old(store)@
            && has_uuid_id(old(store)@),
        old(store)@.len() == 0 ==> r.status == STATUS_CREATED,
{
    let outcome = store.create(req.title);
    create_reply(outcome)
}

/// PUT on record `id`: `200` with the updated record, or `404` with the
/// store unchanged when no record has that identifier.
pub fn update_todo_handler(store: &mut TodoStore, id: String, req: UpdateTodo) -> (r: Response)
    requires
        old(store).wf(),
    ensures
        final(store).wf(),
        if has_id(old(store)@, id@) {
            r.status == STATUS_OK && r.body is Record && update_post(
                old(store)@,
                id@,
                req@,
                Ok::<TodoView, StoreError>(r.body->Record_0@),
                final(store)@,
            )
        } else {
            r.status == STATUS_NOT_FOUND && r.body is Empty && final(store)@ == old(store)@
        },
{
    let outcome = store.update(&id, req);
    update_reply(outcome)
}

/// DELETE on record `id`: `204` with the record removed, or `404` with the
/// store unchanged when no record has that identifier.
pub fn delete_todo_handler(store: &mut TodoStore, id: String) -> (r: Response)
    requires
        old(store).wf(),
    ensures
        final(store).wf(),
        r.body is Empty,
        if has_id(old(store)@, id@) {
            r.status == STATUS_NO_CONTENT && delete_post(
                old(store)@,
                id@,
                Ok(()),
                final(store)@,
            )
        } else {
            r.status == STATUS_NOT_FOUND && final(store)@ == old(store)@
        },
{
    let outcome = store.delete(&id);
    delete_reply(outcome)
}

} // verus!
