use vstd::prelude::*;
use crate::error::{AppError, database_error_text};
use crate::model::{CreateTodo, PaginationQuery, Todo, TodoView, title_is_valid, title_error_text};
use crate::response::{ApiResponse, Reply};
use crate::store::{TodoStore, find, has_id, index_of, is_insert_pos, later, views, window};

verus! {

/// The 128-bit value of the UUID written in `s`, or `None` where `s` is not a
/// UUID in any of the forms the parser reads.
pub uninterp spec fn uuid_text_value(s: Seq<char>) -> Option<u128>;

/// Relies on uuid::Uuid::parse_str, whose result depends on the text alone;
/// `as_u128` only reads the parsed bytes back as one big-endian integer.
#[verifier::external_body]
fn uuid_from_str(s: &str) -> (r: Option<u128>)
    ensures
        r == uuid_text_value(s@),
        s@.len() == 0 ==> r is None,
{
    uuid::Uuid::parse_str(s).ok().map(|u| u.as_u128())
}

/// The message of the error given for an identifier that is not a UUID.
pub open spec fn bad_id_text() -> Seq<char> {
    "Invalid todo id"@
}

/// Turns the parser's verdict on a path identifier into the identifier, or a
/// validation error where the text was not a UUID.
pub fn id_from_parsed(parsed: Option<u128>) -> (r: Result<u128, AppError>)
    ensures
        parsed is Some ==> r == Ok::<u128, AppError>(parsed->0),
        parsed is None ==> r is Err && r->Err_0 is ValidationError && r->Err_0->ValidationError_0@
            == bad_id_text(),
{
    match parsed {
        Some(v) => Ok(v),
        None => Err(AppError::ValidationError("Invalid todo id".to_owned())),
    }
}

/// Reads the identifier of a record from the text of a request path.
pub fn parse_todo_id(text: &str) -> (r: Result<u128, AppError>)
    ensures
        uuid_text_value(text@) is Some ==> r == Ok::<u128, AppError>(uuid_text_value(text@)->0),
        uuid_text_value(text@) is None ==> r is Err && r->Err_0 is ValidationError
            && r->Err_0->ValidationError_0@ == bad_id_text(),
{
    id_from_parsed(uuid_from_str(text))
}

/// The text of the health check's payload.
pub open spec fn healthy_text() -> Seq<char> {
    "Service is healthy"@
}

/// The text of the confirmation of a deletion.
pub open spec fn deleted_text() -> Seq<char> {
    "Todo deleted successfully"@
}

/// `GET /health`.
pub fn health_check() -> (r: Reply<String>)
    ensures
        r.status == 200,
        r.body.is_success(),
        r.body.data->0@ == healthy_text(),
{
    Reply { status: 200, body: ApiResponse::success("Service is healthy".to_owned()) }
}

/// The reply to a create request, from what the insert returned.
pub fn created_reply(result: Result<Todo, AppError>) -> (r: Reply<Todo>)
    ensures
        result is Ok ==> r.status == 201 && r.body.is_success_with(result->Ok_0),
        result is Err ==> r.status == result->Err_0.status_spec() && r.body.is_error_with(
            result->Err_0.message_spec(),
        ),
{
    match result {
        Ok(t) => Reply { status: 201, body: ApiResponse::success(t) },
        Err(e) => e.into_reply(),
    }
}

/// The reply to a list request, from what the query returned.
pub fn listed_reply(result: Result<Vec<Todo>, AppError>) -> (r: Reply<Vec<Todo>>)
    ensures
        result is Ok ==> r.status == 200 && r.body.is_success_with(result->Ok_0),
        result is Err ==> r.status == result->Err_0.status_spec() && r.body.is_error_with(
            result->Err_0.message_spec(),
        ),
{
    match result {
        Ok(v) => Reply { status: 200, body: ApiResponse::success(v) },
        Err(e) => e.into_reply(),
    }
}

/// The reply to a fetch or an update of one record, from what the query
/// returned: the record, or 404 where no record matched.
pub fn found_reply(result: Result<Option<Todo>, AppError>) -> (r: Reply<Todo>)
    ensures
        result is Ok && result->Ok_0 is Some ==> r.status == 200 && r.body.is_success_with(
            result->Ok_0->0,
        ),
        result is Ok && result->Ok_0 is None ==> r.status == 404 && r.body.is_error_with(
            AppError::NotFound.message_spec(),
        ),
        result is Err ==> r.status == result->Err_0.status_spec() && r.body.is_error_with(
            result->Err_0.message_spec(),
        ),
{
    match result {
        Ok(Some(t)) => Reply { status: 200, body: ApiResponse::success(t) },
        Ok(None) => AppError::NotFound.into_reply(),
        Err(e) => e.into_reply(),
    }
}

/// The reply to a delete request, from the number of rows it removed.
pub fn deleted_reply(result: Result<u64, AppError>) -> (r: Reply<String>)
    ensures
        result is Ok && result->Ok_0 > 0 ==> r.status == 200 && r.body.is_success()
            && r.body.data->0@ == deleted_text(),
        result is Ok && result->Ok_0 == 0 ==> r.status == 404 && r.body.is_error_with(
            AppError::NotFound.message_spec(),
        ),
        result is Err ==> r.status == result->Err_0.status_spec() && r.body.is_error_with(
            result->Err_0.message_spec(),
        ),
{
    match result {
        Ok(n) => {
            if n > 0 {
                Reply {
                    status: 200,
                    body: ApiResponse::success("Todo deleted successfully".to_owned()),
                }
            } else {
                AppError::NotFound.into_reply()
            }
        },
        Err(e) => e.into_reply(),
    }
}

/// `POST /todos` against `store`. The identifier and the time of creation
/// are drawn by the caller, as a database draws them for its insert.
pub fn create_todo(store: &mut TodoStore, input: CreateTodo, id: u128, now: i64) -> (r: Reply<
    Todo,
>)
    requires
        old(store).wf(),
    ensures
        final(store).wf(),
        !title_is_valid(input.title@) ==> r.status == 400 && r.body.is_error_with(
            title_error_text(),
        ) && final(store)@ == old(store)@,
        title_is_valid(input.title@) && has_id(old(store)@, id) ==> r.status == 500
            && r.body.is_error_with(database_error_text())
            && final(store)@ == old(store)@,
        title_is_valid(input.title@) && !has_id(old(store)@, id) ==> {
            let t = r.body.data->0@;
            &&& r.status == 201
            &&& r.body.is_success()
            &&& t == TodoView {
                id,
                title: input.title@,
                completed: input.completed_spec(),
                created_at: now,
                updated_at: now,
            }
            &&& exists|p: int|
                is_insert_pos(old(store)@, p, now) && final(store)@ == old(store)@.insert(p, t)
        },
{
    if let Err(e) = input.validate() {
        return e.into_reply();
    }
    let completed = input.completed_or_default();
    created_reply(store.insert(id, input.title, completed, now))
}

/// `GET /todos` against `store`: one page of the records, newest first.
pub fn get_todos(store: &TodoStore, query: PaginationQuery) -> (r: Reply<Vec<Todo>>)
    requires
        store.wf(),
    ensures
        r.status == 200,
        r.body.is_success(),
        views(r.body.data->0@) == window(store@, query.offset_spec(), query.limit_spec() as int),
{
    let limit = query.page_size();
    let offset = query.offset();
    listed_reply(Ok(store.list(limit as u64, offset)))
}

/// `GET /todos/{id}` against `store`.
pub fn get_todo(store: &TodoStore, id: u128) -> (r: Reply<Todo>)
    requires
        store.wf(),
    ensures
        find(store@, id) is None ==> r.status == 404 && r.body.is_error_with(
            AppError::NotFound.message_spec(),
        ),
        find(store@, id) is Some ==> r.status == 200 && r.body.is_success() && find(store@, id)
            == Some(r.body.data->0@),
{
    found_reply(Ok(store.get(id)))
}

/// `PUT /todos/{id}` against `store`, at time `now`.
pub fn update_todo(store: &mut TodoStore, id: u128, input: CreateTodo, now: i64) -> (r: Reply<
    Todo,
>)
    requires
        old(store).wf(),
    ensures
        final(store).wf(),
        !title_is_valid(input.title@) ==> r.status == 400 && r.body.is_error_with(
            title_error_text(),
        ) && final(store)@ == old(store)@,
        title_is_valid(input.title@) && !has_id(old(store)@, id) ==> r.status == 404
            && r.body.is_error_with(AppError::NotFound.message_spec()) && final(store)@ == old(
            store,
        )@,
        title_is_valid(input.title@) && has_id(old(store)@, id) ==> {
            let k = index_of(old(store)@, id);
            let before = old(store)@[k];
            let t = r.body.data->0@;
            &&& r.status == 200
            &&& r.body.is_success()
            &&& t == TodoView {
                id,
                title: input.title@,
                completed: input.completed_spec(),
                created_at: before.created_at,
                updated_at: later(before.updated_at, now),
            }
            &&& final(store)@ == old(store)@.update(k, t)
        },
{
    if let Err(e) = input.validate() {
        return e.into_reply();
    }
    let completed = input.completed_or_default();
    found_reply(Ok(store.update(id, input.title, completed, now)))
}

/// `DELETE /todos/{id}` against `store`.
pub fn delete_todo(store: &mut TodoStore, id: u128) -> (r: Reply<String>)
    requires
        old(store).wf(),
    ensures
        final(store).wf(),
        !has_id(old(store)@, id) ==> r.status == 404 && r.body.is_error_with(
            AppError::NotFound.message_spec(),
        ) && final(store)@ == old(store)@,
        has_id(old(store)@, id) ==> r.status == 200 && r.body.is_success() && r.body.data->0@
            == deleted_text() && final(store)@ == old(store)@.remove(index_of(old(store)@, id)),
{
    let n = store.delete(id);
    deleted_reply(Ok(n))
}

/// Out-of-range paging is clamped, not refused: a page size above 100 lists
/// what a page size of 100 lists, one below 1 what a page size of 1 lists,
/// and a page below 1 what the first page lists.
pub proof fn lemma_paging_clamped(s: Seq<TodoView>, query: PaginationQuery)
    ensures
        query.limit is Some && query.limit->0 > 100 ==> {
            let q = PaginationQuery { page: query.page, limit: Some(100) };
            window(s, query.offset_spec(), query.limit_spec() as int) == window(
                s,
                q.offset_spec(),
                q.limit_spec() as int,
            )
        },
        query.limit is Some && query.limit->0 < 1 ==> {
            let q = PaginationQuery { page: query.page, limit: Some(1) };
            window(s, query.offset_spec(), query.limit_spec() as int) == window(
                s,
                q.offset_spec(),
                q.limit_spec() as int,
            )
        },
        query.page is Some && query.page->0 < 1 ==> {
            let q = PaginationQuery { page: Some(1), limit: query.limit };
            window(s, query.offset_spec(), query.limit_spec() as int) == window(
                s,
                q.offset_spec(),
                q.limit_spec() as int,
            )
        },
{
}

} // verus!
