use vstd::prelude::*;

use crate::controller::{destroy_post, index_post, show_post, store_post, update_post};
use crate::outcome::{DataError, Failure};
use crate::status::Status;
use crate::table::{create_post, factory_post, find_post, lemma_listing_is_rows, lemma_listing_len, Record, Table};

verus! {

/// A row just created is found under the identifier it was given, holding
/// the data it was created from.
pub proof fn law_create_then_find<D: Clone>(
    t0: Table<D>,
    data: D,
    made: Result<Record<D>, DataError>,
    t1: Table<D>,
    found: Result<Record<D>, DataError>,
)
    requires
        t0.has_room(),
        create_post(t0, data, made, t1),
        find_post(t1, made->Ok_0.id, found),
    ensures
        made is Ok,
        found is Ok,
        found->Ok_0.id == made->Ok_0.id,
        cloned(data, found->Ok_0.data),
{
}

/// A payload that fails validation is answered with a 400 by both `store` and
/// `update`, and the table is left as it was.
pub proof fn law_rejected_payload<D: Clone>(
    t: Table<D>,
    id: i32,
    data: D,
    validation: Result<(), String>,
    stored: Result<Record<D>, Failure>,
    t1: Table<D>,
    updated: Result<Record<D>, Failure>,
    t2: Table<D>,
)
    requires
        validation is Err,
        store_post(t, data, validation, stored, t1),
        update_post(t, id, data, validation, updated, t2),
    ensures
        stored is Err && stored->Err_0.status == Status::BadRequest,
        updated is Err && updated->Err_0.status == Status::BadRequest,
        t1@ == t@,
        t2@ == t@,
{
}

/// For an identifier that holds no row, `show` answers 404 while `destroy`
/// and `update` answer 500.
pub proof fn law_absent_id<D: Clone>(
    t: Table<D>,
    id: i32,
    data: D,
    shown: Result<Record<D>, Failure>,
    destroyed: Result<(), Failure>,
    t1: Table<D>,
    updated: Result<Record<D>, Failure>,
    t2: Table<D>,
)
    requires
        !t@.contains_key(id as int),
        show_post(t, id, shown),
        destroy_post(t, id, destroyed, t1),
        update_post(t, id, data, Ok(()), updated, t2),
    ensures
        shown is Err && shown->Err_0.status == Status::NotFound,
        destroyed is Err && destroyed->Err_0.status == Status::InternalServerError,
        updated is Err && updated->Err_0.status == Status::InternalServerError,
{
}

/// Destroying a row succeeds once; destroying it again fails with a 500.
pub proof fn law_destroy_twice<D>(
    t0: Table<D>,
    id: i32,
    first: Result<(), Failure>,
    t1: Table<D>,
    second: Result<(), Failure>,
    t2: Table<D>,
)
    requires
        t0@.contains_key(id as int),
        destroy_post(t0, id, first, t1),
        destroy_post(t1, id, second, t2),
    ensures
        first is Ok,
        second is Err,
        second->Err_0.status == Status::InternalServerError,
        t2@ == t0@.remove(id as int),
{
}

/// `index` lists exactly the rows of the table, each once per identifier, and
/// as many as `count` reports, which is the number of rows.
pub proof fn law_index_is_rows<D: Clone>(t: Table<D>, listed: Result<Vec<Record<D>>, Failure>, n: i64)
    requires
        t.wf(),
        index_post(t, listed),
        n == t.listing().len(),
    ensures
        listed is Ok,
        listed->Ok_0@.len() == n,
        n == t@.dom().len(),
        forall|k: int|
            #![trigger listed->Ok_0@[k]]
            0 <= k < n ==> {
                let rec = listed->Ok_0@[k];
                t@.contains_key(rec.id as int) && cloned(t@[rec.id as int], rec.data)
            },
        forall|id: int|
            #[trigger] t@.contains_key(id) ==> exists|k: int|
                0 <= k < n && (#[trigger] listed->Ok_0@[k]).id == id,
{
    lemma_listing_is_rows(t.slots());
    lemma_listing_len(t.slots());
    let v = listed->Ok_0@;
    let l = t.listing();
    assert forall|id: int| #[trigger] t@.contains_key(id) implies exists|k: int|
        0 <= k < n && (#[trigger] v[k]).id == id by {
        let k = choose|k: int| 0 <= k < l.len() && (#[trigger] l[k]).id == id;
        assert(v[k].id == l[k].id);
    }
    assert forall|k: int| 0 <= k < n implies {
        let rec = #[trigger] v[k];
        t@.contains_key(rec.id as int) && cloned(t@[rec.id as int], rec.data)
    } by {
        assert(v[k].id == l[k].id);
        let lk = l[k];
        assert(t@[lk.id as int] == lk.data);
    }
}

/// A row made by `factory` is found under the identifier it was given.
pub proof fn law_factory_then_find<D: Clone>(
    t0: Table<D>,
    made: Result<Record<D>, DataError>,
    t1: Table<D>,
    found: Result<Record<D>, DataError>,
)
    requires
        t0.has_room(),
        factory_post(t0, made, t1),
        find_post(t1, made->Ok_0.id, found),
    ensures
        made is Ok,
        found is Ok,
        found->Ok_0.id == made->Ok_0.id,
        cloned(t1@[made->Ok_0.id as int], found->Ok_0.data),
{
}

} // verus!
