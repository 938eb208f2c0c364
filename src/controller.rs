use vstd::prelude::*;

use crate::outcome::{respond, screen, Action, Failure};
use crate::status::Status;
use crate::table::{Record, Table};

verus! {

/// The answer to a rejected payload: a 400 carrying the validator's message.
pub open spec fn rejected<T>(validation: Result<(), String>, r: Result<T, Failure>) -> bool {
    &&& r is Err
    &&& r->Err_0.status == Status::BadRequest
    &&& r->Err_0.message@ == validation->Err_0@
}

/// What `store` does. A rejected payload is answered with a 400 before the
/// table is touched. An accepted one is created: on success the new row is
/// returned; a storage failure is a 500, with the table unchanged.
pub open spec fn store_post<D: Clone>(
    before: Table<D>,
    data: D,
    validation: Result<(), String>,
    r: Result<Record<D>, Failure>,
    after: Table<D>,
) -> bool {
    match validation {
        Err(_) => after@ == before@ && after.issued() == before.issued() && rejected(validation, r),
        Ok(_) => {
            &&& r is Ok <==> before.has_room()
            &&& match r {
                Ok(rec) => {
                    &&& 1 <= rec.id
                    &&& after.issued() == before.issued() + 1
                    &&& !before@.contains_key(rec.id as int)
                    &&& after@ == before@.insert(rec.id as int, data)
                    &&& cloned(data, rec.data)
                },
                Err(f) => after@ == before@ && after.issued() == before.issued()
                    && f.status == Status::InternalServerError,
            }
        },
    }
}

/// What `index` returns: every row, in order of identifier.
pub open spec fn index_post<D: Clone>(t: Table<D>, r: Result<Vec<Record<D>>, Failure>) -> bool {
    &&& r is Ok
    &&& crate::table::get_all_post(t, r->Ok_0@)
}

/// What `show` returns: row `id`, or a 404 if there is none.
pub open spec fn show_post<D: Clone>(t: Table<D>, id: i32, r: Result<Record<D>, Failure>) -> bool {
    &&& r is Ok <==> t@.contains_key(id as int)
    &&& match r {
        Ok(rec) => rec.id == id && cloned(t@[id as int], rec.data),
        Err(f) => f.status == Status::NotFound,
    }
}

/// What `update` does. A rejected payload is answered with a 400 before the
/// table is touched. An accepted one replaces the data of row `id`; when there
/// is no such row the answer is a 500, with the table unchanged.
pub open spec fn update_post<D: Clone>(
    before: Table<D>,
    id: i32,
    data: D,
    validation: Result<(), String>,
    r: Result<Record<D>, Failure>,
    after: Table<D>,
) -> bool {
    match validation {
        Err(_) => after@ == before@ && after.issued() == before.issued() && rejected(validation, r),
        Ok(_) => {
            &&& r is Ok <==> before@.contains_key(id as int)
            &&& match r {
                Ok(rec) => {
                    &&& rec.id == id
                    &&& after.issued() == before.issued()
                    &&& after@ == before@.insert(id as int, data)
                    &&& cloned(data, rec.data)
                },
                Err(f) => after@ == before@ && after.issued() == before.issued()
                    && f.status == Status::InternalServerError,
            }
        },
    }
}

/// What `destroy` does: removes row `id` and answers with an empty success,
/// or answers with a 500, changing nothing, if there is no such row.
pub open spec fn destroy_post<D>(before: Table<D>, id: i32, r: Result<(), Failure>, after: Table<D>) -> bool {
    &&& r is Ok <==> before@.contains_key(id as int)
    &&& match r {
        Ok(_) => after@ == before@.remove(id as int) && after.issued() == before.issued(),
        Err(f) => after@ == before@ && after.issued() == before.issued()
            && f.status == Status::InternalServerError,
    }
}

/// Handles `POST /`: validates the payload, then creates the row.
pub fn store<D: Clone>(table: &mut Table<D>, data: D, validation: Result<(), String>) -> (r: Result<
    Record<D>,
    Failure,
>)
    requires
        old(table).wf(),
    ensures
        final(table).wf(),
        store_post(*old(table), data, validation, r, *final(table)),
{
    match screen(validation) {
        Err(f) => Err(f),
        Ok(()) => respond(Action::Store, table.create(data)),
    }
}

/// Handles a create request; it answers exactly as `store` does.
pub fn create<D: Clone>(table: &mut Table<D>, data: D, validation: Result<(), String>) -> (r: Result<
    Record<D>,
    Failure,
>)
    requires
        old(table).wf(),
    ensures
        final(table).wf(),
        store_post(*old(table), data, validation, r, *final(table)),
{
    store(table, data, validation)
}

/// Handles `GET /`: lists every row.
pub fn index<D: Clone>(table: &Table<D>) -> (r: Result<Vec<Record<D>>, Failure>)
    requires
        table.wf(),
    ensures
        index_post(*table, r),
{
    respond(Action::Index, Ok(table.get_all()))
}

/// Handles `GET /:id`: returns row `id`; a missed lookup is a 404.
pub fn show<D: Clone>(table: &Table<D>, id: i32) -> (r: Result<Record<D>, Failure>)
    ensures
        show_post(*table, id, r),
{
    respond(Action::Show, table.find(id))
}

/// Handles `PUT /:id`: validates the payload, then replaces row `id`.
pub fn update<D: Clone>(
    table: &mut Table<D>,
    id: i32,
    data: D,
    validation: Result<(), String>,
) -> (r: Result<Record<D>, Failure>)
    requires
        old(table).wf(),
    ensures
        final(table).wf(),
        update_post(*old(table), id, data, validation, r, *final(table)),
{
    match screen(validation) {
        Err(f) => Err(f),
        Ok(()) => respond(Action::Update, table.update(id, data)),
    }
}

/// Handles `DELETE /:id`: removes row `id`; any failure is a 500.
pub fn destroy<D>(table: &mut Table<D>, id: i32) -> (r: Result<(), Failure>)
    requires
        old(table).wf(),
    ensures
        final(table).wf(),
        destroy_post(*old(table), id, r, *final(table)),
{
    respond(Action::Destroy, table.delete(id))
}

} // verus!
