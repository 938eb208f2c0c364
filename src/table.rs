use vstd::prelude::*;

use crate::outcome::DataError;

verus! {

/// One persisted entity: the storage-assigned identifier and the entity's data.
pub struct Record<D> {
    pub id: i32,
    pub data: D,
}

/// The rows that a sequence of slots holds: slot `k` stores the row whose
/// identifier is `k + 1`, or nothing once that row was deleted.
pub open spec fn rows_of<D>(slots: Seq<Option<D>>) -> Map<int, D> {
    Map::new(
        |id: int| 1 <= id <= slots.len() && slots[id - 1] is Some,
        |id: int| slots[id - 1]->Some_0,
    )
}

/// The live rows of the slots as records, in order of identifier.
pub open spec fn listing_of<D>(slots: Seq<Option<D>>) -> Seq<Record<D>>
    decreases slots.len(),
{
    if slots.len() == 0 {
        Seq::empty()
    } else {
        let prev = listing_of(slots.drop_last());
        match slots.last() {
            Some(d) => prev.push(Record { id: slots.len() as i32, data: d }),
            None => prev,
        }
    }
}

/// Each listed record is a row of the slots, and each row is listed.
pub proof fn lemma_listing_is_rows<D>(slots: Seq<Option<D>>)
    requires
        slots.len() <= i32::MAX,
    ensures
        forall|k: int|
            0 <= k < listing_of(slots).len() ==> {
                let rec = #[trigger] listing_of(slots)[k];
                &&& rows_of(slots).contains_key(rec.id as int)
                &&& rows_of(slots)[rec.id as int] == rec.data
            },
        forall|id: int|
            #[trigger] rows_of(slots).contains_key(id) ==> exists|k: int|
                0 <= k < listing_of(slots).len() && (#[trigger] listing_of(slots)[k]).id == id,
    decreases slots.len(),
{
    if slots.len() > 0 {
        let prev = slots.drop_last();
        lemma_listing_is_rows(prev);
        let n = slots.len() as int;
        assert forall|id: int| #[trigger] rows_of(slots).contains_key(id) && id < n implies
            rows_of(prev).contains_key(id) && rows_of(prev)[id] == rows_of(slots)[id] by {
            assert(prev[id - 1] == slots[id - 1]);
        }
        assert forall|id: int| #[trigger] rows_of(prev).contains_key(id) implies
            rows_of(slots).contains_key(id) && rows_of(prev)[id] == rows_of(slots)[id] by {
            assert(prev[id - 1] == slots[id - 1]);
        }
        let l = listing_of(slots);
        let lp = listing_of(prev);
        match slots.last() {
            Some(d) => {
                assert(l == lp.push(Record { id: n as i32, data: d }));
                assert forall|id: int| #[trigger] rows_of(slots).contains_key(id) implies exists|k: int|
                    0 <= k < l.len() && (#[trigger] l[k]).id == id by {
                    if id < n {
                        let k = choose|k: int| 0 <= k < lp.len() && (#[trigger] lp[k]).id == id;
                        assert(l[k] == lp[k]);
                    } else {
                        assert(l[l.len() - 1].id == id);
                    }
                }
            },
            None => {
                assert(l == lp);
                assert forall|id: int| #[trigger] rows_of(slots).contains_key(id) implies exists|k: int|
                    0 <= k < l.len() && (#[trigger] l[k]).id == id by {
                    assert(id < n);
                }
            },
        }
    }
}

/// There are as many listed records as rows.
pub proof fn lemma_listing_len<D>(slots: Seq<Option<D>>)
    ensures
        rows_of(slots).dom().finite(),
        listing_of(slots).len() == rows_of(slots).dom().len(),
    decreases slots.len(),
{
    if slots.len() == 0 {
        assert(rows_of(slots).dom() =~= Set::<int>::empty());
    } else {
        let prev = slots.drop_last();
        lemma_listing_len(prev);
        let n = slots.len() as int;
        match slots.last() {
            Some(_) => {
                assert(rows_of(slots).dom() =~= rows_of(prev).dom().insert(n));
                assert(!rows_of(prev).dom().contains(n));
            },
            None => {
                assert(rows_of(slots).dom() =~= rows_of(prev).dom());
            },
        }
    }
}

/// What `Table::create` does: on success the table gains one row under an
/// identifier it did not hold, holding `data`, and a copy of that row is
/// returned; it succeeds exactly when an identifier is left, and otherwise
/// fails with a storage error and changes nothing.
pub open spec fn create_post<D: Clone>(
    before: Table<D>,
    data: D,
    r: Result<Record<D>, DataError>,
    after: Table<D>,
) -> bool {
    &&& r is Ok <==> before.has_room()
    &&& match r {
        Ok(rec) => {
            &&& 1 <= rec.id
            &&& after.issued() == before.issued() + 1
            &&& !before@.contains_key(rec.id as int)
            &&& after@ == before@.insert(rec.id as int, data)
            &&& cloned(data, rec.data)
        },
        Err(e) => after@ == before@ && after.issued() == before.issued() && e is Storage,
    }
}

/// What `Table::factory` does: as `create`, with data that the entity kind
/// supplies itself.
pub open spec fn factory_post<D: Clone>(
    before: Table<D>,
    r: Result<Record<D>, DataError>,
    after: Table<D>,
) -> bool {
    &&& r is Ok <==> before.has_room()
    &&& match r {
        Ok(rec) => {
            &&& 1 <= rec.id
            &&& after.issued() == before.issued() + 1
            &&& !before@.contains_key(rec.id as int)
            &&& after@ == before@.insert(rec.id as int, after@[rec.id as int])
            &&& cloned(after@[rec.id as int], rec.data)
        },
        Err(e) => after@ == before@ && after.issued() == before.issued() && e is Storage,
    }
}

/// What `Table::find` returns: a copy of row `id` if there is one, else a
/// not-found error.
pub open spec fn find_post<D: Clone>(t: Table<D>, id: i32, r: Result<Record<D>, DataError>) -> bool {
    &&& r is Ok <==> t@.contains_key(id as int)
    &&& match r {
        Ok(rec) => rec.id == id && cloned(t@[id as int], rec.data),
        Err(e) => e is NotFound,
    }
}

/// What `Table::update` does: replaces the data of row `id` and returns a copy
/// of the row, or fails not-found, changing nothing, if there is no such row.
pub open spec fn update_post<D: Clone>(
    before: Table<D>,
    id: i32,
    data: D,
    r: Result<Record<D>, DataError>,
    after: Table<D>,
) -> bool {
    &&& r is Ok <==> before@.contains_key(id as int)
    &&& match r {
        Ok(rec) => {
            &&& rec.id == id
            &&& after.issued() == before.issued()
            &&& after@ == before@.insert(id as int, data)
            &&& cloned(data, rec.data)
        },
        Err(e) => after@ == before@ && after.issued() == before.issued() && e is NotFound,
    }
}

/// What `Table::delete` does: removes row `id`, or fails not-found, changing
/// nothing, if there is no such row.
pub open spec fn delete_post<D>(before: Table<D>, id: i32, r: Result<(), DataError>, after: Table<D>) -> bool {
    &&& r is Ok <==> before@.contains_key(id as int)
    &&& match r {
        Ok(_) => after@ == before@.remove(id as int) && after.issued() == before.issued(),
        Err(e) => after@ == before@ && after.issued() == before.issued() && e is NotFound,
    }
}

/// What `Table::get_all` returns: a copy of each live row, in order of
/// identifier.
pub open spec fn get_all_post<D: Clone>(t: Table<D>, rows: Seq<Record<D>>) -> bool {
    &&& rows.len() == t.listing().len()
    &&& forall|k: int|
        #![trigger rows[k]]
        0 <= k < rows.len() ==> rows[k].id == t.listing()[k].id && cloned(t.listing()[k].data, rows[k].data)
}

/// An in-memory table of one entity kind. Identifiers are assigned on
/// creation, counting up from 1, and are never reused after a deletion.
pub struct Table<D> {
    slots: Vec<Option<D>>,
}

impl<D> View for Table<D> {
    type V = Map<int, D>;

    open spec fn view(&self) -> Map<int, D> {
        rows_of(self.slots())
    }
}

impl<D> Table<D> {
    pub closed spec fn slots(&self) -> Seq<Option<D>> {
        self.slots@
    }

    /// How many identifiers have been handed out, deleted rows included.
    pub open spec fn issued(&self) -> nat {
        self.slots().len()
    }

    /// Whether a new row can still be given an identifier.
    pub open spec fn has_room(&self) -> bool {
        self.issued() < i32::MAX
    }

    /// Every identifier handed out fits an `i32`.
    pub open spec fn wf(&self) -> bool {
        self.issued() <= i32::MAX
    }

    /// The live rows as records, in order of identifier.
    pub open spec fn listing(&self) -> Seq<Record<D>> {
        listing_of(self.slots())
    }

    /// An empty table.
    pub fn new() -> (r: Table<D>)
        ensures
            r.wf(),
            r.issued() == 0,
            r@ == Map::<int, D>::empty(),
    {
        let r = Table { slots: Vec::new() };
        assert(r@ =~= Map::<int, D>::empty());
        r
    }

    /// Persists a new row holding `data` under a fresh identifier, and
    /// returns it. Fails with a storage error once every `i32` identifier has
    /// been handed out.
    pub fn create(&mut self, data: D) -> (r: Result<Record<D>, DataError>)
        where D: Clone,
        requires
            old(self).wf(),
        ensures
            final(self).wf(),
            create_post(*old(self), data, r, *final(self)),
    {
        if self.slots.len() >= i32::MAX as usize {
            return Err(DataError::Storage { message: "no identifier is left for a new row".to_string() });
        }
        let id = (self.slots.len() + 1) as i32;
        let copy = data.clone();
        let ghost before = self@;
        self.slots.push(Some(data));
        assert(self@ =~= before.insert(id as int, data));
        Ok(Record { id, data: copy })
    }

    /// Creates a row holding the entity's default data, for test setup. Fails
    /// as `create` does.
    pub fn factory(&mut self) -> (r: Result<Record<D>, DataError>)
        where D: Clone + Default,
        requires
            old(self).wf(),
        ensures
            final(self).wf(),
            factory_post(*old(self), r, *final(self)),
    {
        let data = D::default();
        self.create(data)
    }

    /// The row with identifier `id`; a not-found error if there is none.
    pub fn find(&self, id: i32) -> (r: Result<Record<D>, DataError>)
        where D: Clone,
        ensures
            find_post(*self, id, r),
    {
        if id < 1 || id as usize > self.slots.len() {
            return Err(DataError::NotFound { message: "no row has that identifier".to_string() });
        }
        match &self.slots[(id - 1) as usize] {
            Some(d) => Ok(Record { id, data: d.clone() }),
            None => Err(DataError::NotFound { message: "no row has that identifier".to_string() }),
        }
    }

    /// Replaces the data of row `id` with `data` and returns the row; a
    /// not-found error, with nothing changed, if there is no such row.
    pub fn update(&mut self, id: i32, data: D) -> (r: Result<Record<D>, DataError>)
        where D: Clone,
        requires
            old(self).wf(),
        ensures
            final(self).wf(),
            update_post(*old(self), id, data, r, *final(self)),
    {
        if id < 1 || id as usize > self.slots.len() || self.slots[(id - 1) as usize].is_none() {
            return Err(DataError::NotFound { message: "no row has that identifier".to_string() });
        }
        let copy = data.clone();
        let ghost before = self@;
        self.slots[(id - 1) as usize] = Some(data);
        assert(self@ =~= before.insert(id as int, data));
        Ok(Record { id, data: copy })
    }

    /// Deletes row `id`; a not-found error, with nothing changed, if there is
    /// no such row. A second delete of one id therefore fails.
    pub fn delete(&mut self, id: i32) -> (r: Result<(), DataError>)
        requires
            old(self).wf(),
        ensures
            final(self).wf(),
            delete_post(*old(self), id, r, *final(self)),
    {
        if id < 1 || id as usize > self.slots.len() || self.slots[(id - 1) as usize].is_none() {
            return Err(DataError::NotFound { message: "no row has that identifier".to_string() });
        }
        let ghost before = self@;
        self.slots[(id - 1) as usize] = None;
        assert(self@ =~= before.remove(id as int));
        Ok(())
    }

    /// Every row of the table, in order of identifier.
    pub fn get_all(&self) -> (r: Vec<Record<D>>)
        where D: Clone,
        requires
            self.wf(),
        ensures
            get_all_post(*self, r@),
    {
        let mut out: Vec<Record<D>> = Vec::new();
        let mut i: usize = 0;
        while i < self.slots.len()
            invariant
                self.wf(),
                i <= self.slots@.len(),
                out@.len() == listing_of(self.slots@.take(i as int)).len(),
                forall|k: int|
                    #![trigger out@[k]]
                    0 <= k < out@.len() ==> out@[k].id == listing_of(self.slots@.take(i as int))[k].id
                        && cloned(listing_of(self.slots@.take(i as int))[k].data, out@[k].data),
            decreases self.slots@.len() - i,
        {
            let ghost prev = self.slots@.take(i as int);
            let ghost next = self.slots@.take(i as int + 1);
            assert(next.drop_last() =~= prev);
            match &self.slots[i] {
                Some(d) => {
                    out.push(Record { id: (i + 1) as i32, data: d.clone() });
                },
                None => {},
            }
            i = i + 1;
        }
        assert(self.slots@.take(i as int) =~= self.slots@);
        assert(listing_of(self.slots@.take(i as int)) == self.listing());
        out
    }

    /// The number of rows in the table.
    pub fn count(&self) -> (r: i64)
        requires
            self.wf(),
        ensures
            r == self.listing().len(),
            r == self@.dom().len(),
    {
        let mut n: i64 = 0;
        let mut i: usize = 0;
        while i < self.slots.len()
            invariant
                self.wf(),
                i <= self.slots@.len(),
                n == listing_of(self.slots@.take(i as int)).len(),
                n <= i,
            decreases self.slots@.len() - i,
        {
            let ghost prev = self.slots@.take(i as int);
            let ghost next = self.slots@.take(i as int + 1);
            assert(next.drop_last() =~= prev);
            if self.slots[i].is_some() {
                n = n + 1;
            }
            i = i + 1;
        }
        assert(self.slots@.take(i as int) =~= self.slots@);
        proof {
            lemma_listing_len(self.slots@);
        }
        n
    }
}

} // verus!
