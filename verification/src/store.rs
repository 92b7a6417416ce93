use vstd::pervasive::VecAdditionalExecFns;
use vstd::prelude::*;

use crate::error::Error;
use crate::hunt::{shiny_views, Hunt, HuntView};
use crate::models;
use crate::models::{hunt_row_wf, HuntRowView, ShinyView};
use crate::shiny::Shiny;

verus! {

broadcast use vstd::seq_lib::group_filter_ensures, Seq::lemma_filter_push;

/// Mathematical value of the store: both tables and the next free primary
/// key of each.
#[verifier::ext_equal]
pub ghost struct StoreView {
    pub hunts: Seq<HuntRowView>,
    pub shinies: Seq<ShinyView>,
    pub next_hunt_id: int,
    pub next_shiny_id: int,
}

/// Mathematical value of a sequence of stored hunt rows.
pub open spec fn hunt_row_views(v: Seq<models::Hunt>) -> Seq<HuntRowView> {
    v.map_values(|r: models::Hunt| r@)
}

/// Mathematical value of a sequence of stored shiny rows.
pub open spec fn shiny_row_views(v: Seq<models::Shiny>) -> Seq<ShinyView> {
    v.map_values(|r: models::Shiny| r@)
}

/// Whether some hunt row carries the primary key `id`.
pub open spec fn hunt_present(rows: Seq<HuntRowView>, id: int) -> bool {
    exists|i: int| 0 <= i < rows.len() && (#[trigger] rows[i]).id == id
}

/// Whether some shiny row carries the primary key `id`.
pub open spec fn shiny_present(rows: Seq<ShinyView>, id: int) -> bool {
    exists|i: int| 0 <= i < rows.len() && (#[trigger] rows[i]).id == id
}

/// No two hunt rows share a primary key.
pub open spec fn hunt_ids_unique(rows: Seq<HuntRowView>) -> bool {
    forall|i: int, j: int|
        0 <= i < j < rows.len() ==> (#[trigger] rows[i]).id != (#[trigger] rows[j]).id
}

/// No two shiny rows share a primary key.
pub open spec fn shiny_ids_unique(rows: Seq<ShinyView>) -> bool {
    forall|i: int, j: int|
        0 <= i < j < rows.len() ==> (#[trigger] rows[i]).id != (#[trigger] rows[j]).id
}

/// The store's invariant: assigned keys are positive, unique and below the
/// next free key, and every hunt row is well formed.
pub open spec fn store_inv(s: StoreView) -> bool {
    &&& 1 <= s.next_hunt_id <= i32::MAX
    &&& 1 <= s.next_shiny_id <= i32::MAX
    &&& forall|i: int|
        0 <= i < s.hunts.len() ==> 1 <= (#[trigger] s.hunts[i]).id < s.next_hunt_id
            && hunt_row_wf(s.hunts[i])
    &&& hunt_ids_unique(s.hunts)
    &&& forall|i: int|
        0 <= i < s.shinies.len() ==> 1 <= (#[trigger] s.shinies[i]).id < s.next_shiny_id
    &&& shiny_ids_unique(s.shinies)
}

/// The shiny rows grouped under the hunt with primary key `id`, in store
/// order.
pub open spec fn shinies_of(shinies: Seq<ShinyView>, id: int) -> Seq<ShinyView> {
    shinies.filter(|s: ShinyView| s.hunt_id == Some(id))
}

/// The domain value the store yields for the hunt row `row`: the row
/// together with the shiny rows whose foreign key names it.
pub open spec fn hunt_of_row(s: StoreView, row: HuntRowView) -> HuntView {
    HuntView { row, shinies: shinies_of(s.shinies, row.id) }
}

/// Keyed storage for hunt and shiny records: the authoritative in-memory
/// state of both tables. A durable mirror, if any, is reconciled outside
/// the library against the values returned here.
pub struct Store {
    pub hunts: Vec<models::Hunt>,
    pub shinies: Vec<models::Shiny>,
    pub next_hunt_id: i32,
    pub next_shiny_id: i32,
}

impl View for Store {
    type V = StoreView;

    open spec fn view(&self) -> StoreView {
        StoreView {
            hunts: hunt_row_views(self.hunts@),
            shinies: shiny_row_views(self.shinies@),
            next_hunt_id: self.next_hunt_id as int,
            next_shiny_id: self.next_shiny_id as int,
        }
    }
}

impl Store {
    /// The store's invariant; see [`store_inv`].
    pub open spec fn inv(&self) -> bool {
        store_inv(self@)
    }

    /// An empty store: no rows, first assigned key is one in both tables.
    pub fn new() -> (r: Store)
        ensures
            r@.hunts.len() == 0,
            r@.shinies.len() == 0,
            r@.next_hunt_id == 1,
            r@.next_shiny_id == 1,
            r.inv(),
    {
        Store { hunts: Vec::new(), shinies: Vec::new(), next_hunt_id: 1, next_shiny_id: 1 }
    }

    /// Index of the hunt row keyed `id`, if any.
    fn find_hunt_row(&self, id: i32) -> (r: Option<usize>)
        ensures
            match r {
                Some(j) => j < self@.hunts.len() && self@.hunts[j as int].id == id as int,
                None => !hunt_present(self@.hunts, id as int),
            },
    {
        let mut i: usize = 0;
        while i < self.hunts.len()
            invariant
                i <= self.hunts.len(),
                forall|k: int| 0 <= k < i ==> (#[trigger] self@.hunts[k]).id != id as int,
            decreases self.hunts.len() - i,
        {
            if self.hunts[i].id == id {
                return Some(i);
            }
            i += 1;
        }
        None
    }

    /// Index of the shiny row keyed `id`, if any.
    fn find_shiny_row(&self, id: i32) -> (r: Option<usize>)
        ensures
            match r {
                Some(j) => j < self@.shinies.len() && self@.shinies[j as int].id == id as int,
                None => !shiny_present(self@.shinies, id as int),
            },
    {
        let mut i: usize = 0;
        while i < self.shinies.len()
            invariant
                i <= self.shinies.len(),
                forall|k: int| 0 <= k < i ==> (#[trigger] self@.shinies[k]).id != id as int,
            decreases self.shinies.len() - i,
        {
            if self.shinies[i].id == id {
                return Some(i);
            }
            i += 1;
        }
        None
    }

    /// The shiny rows whose foreign key names the hunt keyed `hunt_id`,
    /// in store order.
    fn collect_shinies_for(&self, hunt_id: i32) -> (r: Vec<models::Shiny>)
        ensures
            shiny_row_views(r@) == shinies_of(self@.shinies, hunt_id as int),
    {
        let mut r: Vec<models::Shiny> = Vec::new();
        let mut i: usize = 0;
        while i < self.shinies.len()
            invariant
                i <= self.shinies.len(),
                shiny_row_views(r@) == shinies_of(self@.shinies.take(i as int), hunt_id as int),
            decreases self.shinies.len() - i,
        {
            let row = &self.shinies[i];
            let keep = match row.hunt_id {
                Some(h) => h == hunt_id,
                None => false,
            };
            proof {
                assert(self@.shinies.take(i + 1) =~= self@.shinies.take(i as int).push(
                    self@.shinies[i as int],
                ));
            }
            if keep {
                r.push(row.clone());
                proof {
                    assert(shiny_row_views(r@) =~= shinies_of(
                        self@.shinies.take(i as int),
                        hunt_id as int,
                    ).push(self@.shinies[i as int]));
                }
            }
            i += 1;
        }
        proof {
            assert(self@.shinies.take(self@.shinies.len() as int) =~= self@.shinies);
        }
        r
    }

    /// Returns the hunt keyed `hunt_id` with its shiny rows grouped under
    /// it, or `NotFound` if no hunt row carries that key.
    pub fn load_hunt_by_id(&self, hunt_id: i32) -> (r: Result<Hunt, Error>)
        ensures
            hunt_present(self@.hunts, hunt_id as int) ==> {
                &&& r is Ok
                &&& exists|j: int|
                    0 <= j < self@.hunts.len() && (#[trigger] self@.hunts[j]).id == hunt_id as int
                        && r->Ok_0@ == hunt_of_row(self@, self@.hunts[j])
            },
            !hunt_present(self@.hunts, hunt_id as int) ==> r == Err::<Hunt, Error>(
                Error::NotFound,
            ),
    {
        match self.find_hunt_row(hunt_id) {
            Some(j) => {
                let row = self.hunts[j].clone();
                let shinies = self.collect_shinies_for(hunt_id);
                let h = Hunt::from_db_hunt_and_shinies(row, shinies);
                Ok(h)
            }
            None => Err(Error::NotFound),
        }
    }

    /// Returns every hunt, each with its shiny rows grouped under it, in
    /// store order.
    pub fn load_all_hunts(&self) -> (r: Result<Vec<Hunt>, Error>)
        ensures
            r is Ok,
            r->Ok_0@.len() == self@.hunts.len(),
            forall|j: int|
                0 <= j < self@.hunts.len() ==> (#[trigger] r->Ok_0@[j])@ == hunt_of_row(
                    self@,
                    self@.hunts[j],
                ),
    {
        let mut out: Vec<Hunt> = Vec::new();
        let mut i: usize = 0;
        while i < self.hunts.len()
            invariant
                i <= self.hunts.len(),
                out@.len() == i,
                forall|j: int|
                    0 <= j < i ==> (#[trigger] out@[j])@ == hunt_of_row(self@, self@.hunts[j]),
            decreases self.hunts.len() - i,
        {
            let row = self.hunts[i].clone();
            let shinies = self.collect_shinies_for(row.id);
            let h = Hunt::from_db_hunt_and_shinies(row, shinies);
            out.push(h);
            i += 1;
        }
        Ok(out)
    }

    /// Returns the shiny keyed `shiny_id`, or `NotFound` if no shiny row
    /// carries that key.
    pub fn load_shiny_by_id(&self, shiny_id: i32) -> (r: Result<Shiny, Error>)
        ensures
            shiny_present(self@.shinies, shiny_id as int) ==> {
                &&& r is Ok
                &&& exists|j: int|
                    0 <= j < self@.shinies.len() && (#[trigger] self@.shinies[j]).id
                        == shiny_id as int && r->Ok_0@ == self@.shinies[j]
            },
            !shiny_present(self@.shinies, shiny_id as int) ==> r == Err::<Shiny, Error>(
                Error::NotFound,
            ),
    {
        match self.find_shiny_row(shiny_id) {
            Some(j) => Ok(Shiny::from_db_shiny(self.shinies[j].clone())),
            None => Err(Error::NotFound),
        }
    }

    /// Returns every shiny in store order.
    pub fn load_all_shinies(&self) -> (r: Result<Vec<Shiny>, Error>)
        ensures
            r is Ok,
            shiny_views(r->Ok_0@) == self@.shinies,
    {
        let mut out: Vec<Shiny> = Vec::new();
        let mut i: usize = 0;
        while i < self.shinies.len()
            invariant
                i <= self.shinies.len(),
                out@.len() == i,
                forall|j: int| 0 <= j < i ==> (#[trigger] out@[j])@ == self@.shinies[j],
            decreases self.shinies.len() - i,
        {
            out.push(Shiny::from_db_shiny(self.shinies[i].clone()));
            i += 1;
        }
        proof {
            assert(shiny_views(out@) =~= self@.shinies);
        }
        Ok(out)
    }
}

/// The store transition that overwrites the hunt row keyed `row.id` with
/// `row` and touches nothing else.
pub open spec fn store_hunt_overwritten(pre: StoreView, row: HuntRowView, post: StoreView) -> bool {
    &&& exists|j: int|
        0 <= j < pre.hunts.len() && (#[trigger] pre.hunts[j]).id == row.id && post.hunts
            == pre.hunts.update(j, row)
    &&& post.shinies == pre.shinies
    &&& post.next_hunt_id == pre.next_hunt_id
    &&& post.next_shiny_id == pre.next_shiny_id
}

/// Overwriting a row in place keeps every present key present.
pub proof fn lemma_present_after_update(pre: Seq<HuntRowView>, j: int, row: HuntRowView, x: int)
    requires
        0 <= j < pre.len(),
        pre[j].id == row.id,
        hunt_present(pre, x),
    ensures
        hunt_present(pre.update(j, row), x),
{
    let t = choose|t: int| 0 <= t < pre.len() && (#[trigger] pre[t]).id == x;
    if t == j {
        assert(pre.update(j, row)[j].id == x);
    } else {
        assert(pre.update(j, row)[t].id == x);
    }
}

/// What `upsert_hunt` does: a present key overwrites that row in place, an
/// absent key inserts a new row under the next free key, and the returned
/// hunt is the freshly stored row with its grouped shinies.
pub open spec fn upsert_hunt_post(
    pre: StoreView,
    h: HuntView,
    post: StoreView,
    r: Result<Hunt, Error>,
) -> bool {
    if hunt_present(pre.hunts, h.row.id) {
        &&& r is Ok
        &&& store_hunt_overwritten(pre, h.row, post)
        &&& r->Ok_0@ == hunt_of_row(post, h.row)
    } else if pre.next_hunt_id < i32::MAX {
        let row = (HuntRowView { id: pre.next_hunt_id, ..h.row });
        &&& r is Ok
        &&& store_hunt_inserted(pre, row, post)
        &&& r->Ok_0@ == hunt_of_row(post, row)
    } else {
        &&& r == Err::<Hunt, Error>(Error::Overflow)
        &&& post == pre
    }
}

/// What `upsert_shiny` does; symmetric to `upsert_hunt_post`.
pub open spec fn upsert_shiny_post(
    pre: StoreView,
    sv: ShinyView,
    post: StoreView,
    r: Result<Shiny, Error>,
) -> bool {
    if shiny_present(pre.shinies, sv.id) {
        &&& r is Ok
        &&& exists|j: int|
            0 <= j < pre.shinies.len() && (#[trigger] pre.shinies[j]).id == sv.id
                && post.shinies == pre.shinies.update(j, sv)
        &&& post.hunts == pre.hunts
        &&& post.next_hunt_id == pre.next_hunt_id
        &&& post.next_shiny_id == pre.next_shiny_id
        &&& r->Ok_0@ == sv
    } else if pre.next_shiny_id < i32::MAX {
        let row = (ShinyView { id: pre.next_shiny_id, ..sv });
        &&& r is Ok
        &&& post.shinies == pre.shinies.push(row)
        &&& post.hunts == pre.hunts
        &&& post.next_hunt_id == pre.next_hunt_id
        &&& post.next_shiny_id == pre.next_shiny_id + 1
        &&& r->Ok_0@ == row
    } else {
        &&& r == Err::<Shiny, Error>(Error::Overflow)
        &&& post == pre
    }
}

/// The store transition that inserts `row` as a new hunt row under the
/// next free key and touches nothing else; `row` already carries that key.
pub open spec fn store_hunt_inserted(pre: StoreView, row: HuntRowView, post: StoreView) -> bool {
    &&& post.hunts == pre.hunts.push(row)
    &&& post.shinies == pre.shinies
    &&& post.next_hunt_id == pre.next_hunt_id + 1
    &&& post.next_shiny_id == pre.next_shiny_id
}

/// Removing one row keeps every other key present.
pub proof fn lemma_present_after_remove(pre: Seq<HuntRowView>, j: int, x: int)
    requires
        0 <= j < pre.len(),
        hunt_present(pre, x),
        x != pre[j].id,
    ensures
        hunt_present(pre.remove(j), x),
{
    let t = choose|t: int| 0 <= t < pre.len() && (#[trigger] pre[t]).id == x;
    if t < j {
        assert(pre.remove(j)[t].id == x);
    } else {
        assert(pre.remove(j)[t - 1].id == x);
    }
}

/// The store transition that removes the hunt row keyed `id`, clears the
/// foreign key of every shiny that named it, and touches nothing else.
pub open spec fn store_hunt_deleted(pre: StoreView, id: int, post: StoreView) -> bool {
    &&& exists|j: int|
        0 <= j < pre.hunts.len() && (#[trigger] pre.hunts[j]).id == id && post.hunts
            == pre.hunts.remove(j)
    &&& post.shinies == null_out_hunt(pre.shinies, id)
    &&& post.next_hunt_id == pre.next_hunt_id
    &&& post.next_shiny_id == pre.next_shiny_id
}

/// The store transition that removes the shiny row keyed `id` and touches
/// nothing else.
pub open spec fn store_shiny_deleted(pre: StoreView, id: int, post: StoreView) -> bool {
    &&& exists|j: int|
        0 <= j < pre.shinies.len() && (#[trigger] pre.shinies[j]).id == id && post.shinies
            == pre.shinies.remove(j)
    &&& post.hunts == pre.hunts
    &&& post.next_hunt_id == pre.next_hunt_id
    &&& post.next_shiny_id == pre.next_shiny_id
}

/// The shiny rows after the hunt keyed `id` is deleted: foreign keys that
/// named it are cleared, everything else is kept.
pub open spec fn null_out_hunt(shinies: Seq<ShinyView>, id: int) -> Seq<ShinyView> {
    shinies.map_values(
        |s: ShinyView|
            if s.hunt_id == Some(id) {
                ShinyView { hunt_id: None, ..s }
            } else {
                s
            },
    )
}

impl Store {
    /// Overwrites the hunt row keyed `hunt.id` if present, otherwise
    /// inserts a new row under a fresh store-assigned key; returns the
    /// freshly stored row, with its grouped shinies, for the caller to
    /// adopt. Fails with `Overflow`, changing nothing, only when the key
    /// space is exhausted.
    pub fn upsert_hunt(&mut self, hunt: &Hunt) -> (r: Result<Hunt, Error>)
        requires
            old(self).inv(),
            hunt.wf(),
        ensures
            final(self).inv(),
            upsert_hunt_post(old(self)@, hunt@, final(self)@, r),
    {
        match self.find_hunt_row(hunt.id) {
            Some(j) => {
                self.hunts.set(j, hunt.copy_into_db_hunt());
                proof {
                    assert(self@.hunts =~= old(self)@.hunts.update(j as int, hunt@.row));
                }
                let shinies = self.collect_shinies_for(hunt.id);
                let stored = Hunt::from_db_hunt_and_shinies(hunt.copy_into_db_hunt(), shinies);
                proof {
                    assert(stored@ =~= hunt_of_row(self@, hunt@.row));
                }
                Ok(stored)
            }
            None => {
                if self.next_hunt_id == i32::MAX {
                    return Err(Error::Overflow);
                }
                let mut row = hunt.copy_into_db_hunt();
                row.id = self.next_hunt_id;
                proof {
                    assert(row@ =~= (HuntRowView { id: self@.next_hunt_id, ..hunt@.row }));
                }
                let stored_row = row.clone();
                self.hunts.push(row);
                self.next_hunt_id = self.next_hunt_id + 1;
                proof {
                    assert(self@.hunts =~= old(self)@.hunts.push(stored_row@));
                }
                let shinies = self.collect_shinies_for(stored_row.id);
                let stored = Hunt::from_db_hunt_and_shinies(stored_row, shinies);
                proof {
                    assert(stored@ =~= hunt_of_row(
                        self@,
                        (HuntRowView { id: old(self)@.next_hunt_id, ..hunt@.row }),
                    ));
                }
                Ok(stored)
            }
        }
    }

    /// Overwrites the shiny row keyed `shiny.id` if present, otherwise
    /// inserts a new row under a fresh store-assigned key; returns the
    /// freshly stored row for the caller to adopt. Fails with `Overflow`,
    /// changing nothing, only when the key space is exhausted.
    pub fn upsert_shiny(&mut self, shiny: &Shiny) -> (r: Result<Shiny, Error>)
        requires
            old(self).inv(),
        ensures
            final(self).inv(),
            upsert_shiny_post(old(self)@, shiny@, final(self)@, r),
    {
        match self.find_shiny_row(shiny.id) {
            Some(j) => {
                self.shinies.set(j, shiny.copy_into_db_shiny());
                proof {
                    assert(self@.shinies =~= old(self)@.shinies.update(j as int, shiny@));
                }
                let stored = Shiny::from_db_shiny(shiny.copy_into_db_shiny());
                Ok(stored)
            }
            None => {
                if self.next_shiny_id == i32::MAX {
                    return Err(Error::Overflow);
                }
                let mut row = shiny.copy_into_db_shiny();
                row.id = self.next_shiny_id;
                proof {
                    assert(row@ =~= (ShinyView { id: self@.next_shiny_id, ..shiny@ }));
                }
                let stored_row = row.clone();
                self.shinies.push(row);
                self.next_shiny_id = self.next_shiny_id + 1;
                proof {
                    assert(self@.shinies =~= old(self)@.shinies.push(stored_row@));
                }
                Ok(Shiny::from_db_shiny(stored_row))
            }
        }
    }

    /// Removes the hunt row keyed `hunt_id` and clears the foreign key of
    /// every shiny that named it; the shinies themselves are kept. Fails
    /// with `NotFound`, changing nothing, if no hunt row carries that key.
    pub fn delete_hunt(&mut self, hunt_id: i32) -> (r: Result<(), Error>)
        requires
            old(self).inv(),
        ensures
            final(self).inv(),
            if hunt_present(old(self)@.hunts, hunt_id as int) {
                &&& r == Ok::<(), Error>(())
                &&& store_hunt_deleted(old(self)@, hunt_id as int, final(self)@)
            } else {
                &&& r == Err::<(), Error>(Error::NotFound)
                &&& final(self)@ == old(self)@
            },
    {
        let j = match self.find_hunt_row(hunt_id) {
            Some(j) => j,
            None => {
                return Err(Error::NotFound);
            },
        };
        self.hunts.remove(j);
        proof {
            assert(self@.hunts =~= old(self)@.hunts.remove(j as int));
        }
        let ghost mid = self@;
        let mut k: usize = 0;
        while k < self.shinies.len()
            invariant
                k <= self.shinies.len(),
                self@.shinies.len() == mid.shinies.len(),
                self@.hunts == mid.hunts,
                self@.next_hunt_id == mid.next_hunt_id,
                self@.next_shiny_id == mid.next_shiny_id,
                forall|t: int|
                    0 <= t < k ==> self@.shinies[t] == null_out_hunt(mid.shinies, hunt_id as int)[t],
                forall|t: int| k <= t < mid.shinies.len() ==> self@.shinies[t] == mid.shinies[t],
            decreases self.shinies.len() - k,
        {
            let clear = match self.shinies[k].hunt_id {
                Some(h) => h == hunt_id,
                None => false,
            };
            if clear {
                let mut row = self.shinies[k].clone();
                row.hunt_id = None;
                self.shinies.set(k, row);
            }
            k += 1;
        }
        proof {
            assert(self@.shinies =~= null_out_hunt(mid.shinies, hunt_id as int));
        }
        Ok(())
    }

    /// Removes the shiny row keyed `shiny_id`. Fails with `NotFound`,
    /// changing nothing, if no shiny row carries that key.
    pub fn delete_shiny(&mut self, shiny_id: i32) -> (r: Result<(), Error>)
        requires
            old(self).inv(),
        ensures
            final(self).inv(),
            if shiny_present(old(self)@.shinies, shiny_id as int) {
                &&& r == Ok::<(), Error>(())
                &&& store_shiny_deleted(old(self)@, shiny_id as int, final(self)@)
            } else {
                &&& r == Err::<(), Error>(Error::NotFound)
                &&& final(self)@ == old(self)@
            },
    {
        match self.find_shiny_row(shiny_id) {
            Some(j) => {
                self.shinies.remove(j);
                proof {
                    assert(self@.shinies =~= old(self)@.shinies.remove(j as int));
                }
                Ok(())
            }
            None => Err(Error::NotFound),
        }
    }
}

/// Every grouped shiny row is one of the store's shiny rows.
proof fn lemma_shinies_of_element_from(rows: Seq<ShinyView>, hid: int, i: int)
    requires
        0 <= i < shinies_of(rows, hid).len(),
    ensures
        exists|t: int| 0 <= t < rows.len() && rows[t] == shinies_of(rows, hid)[i],
    decreases rows.len(),
{
    reveal(Seq::filter);
    if rows.len() == 0 {
        assert(shinies_of(rows, hid).len() == 0);
    } else {
        let dl = rows.drop_last();
        let f = shinies_of(rows, hid);
        let fdl = shinies_of(dl, hid);
        if rows.last().hunt_id == Some(hid) {
            assert(f == fdl.push(rows.last()));
            if i < fdl.len() {
                lemma_shinies_of_element_from(dl, hid, i);
                let t = choose|t: int| 0 <= t < dl.len() && dl[t] == fdl[i];
                assert(rows[t] == f[i]);
            } else {
                assert(rows[rows.len() - 1] == f[i]);
            }
        } else {
            assert(f == fdl);
            lemma_shinies_of_element_from(dl, hid, i);
            let t = choose|t: int| 0 <= t < dl.len() && dl[t] == fdl[i];
            assert(rows[t] == f[i]);
        }
    }
}

/// Grouping keeps primary keys unique.
proof fn lemma_shinies_of_unique_ids(rows: Seq<ShinyView>, hid: int)
    requires
        shiny_ids_unique(rows),
    ensures
        shiny_ids_unique(shinies_of(rows, hid)),
    decreases rows.len(),
{
    reveal(Seq::filter);
    if rows.len() == 0 {
    } else {
        let dl = rows.drop_last();
        assert(shiny_ids_unique(dl));
        lemma_shinies_of_unique_ids(dl, hid);
        let f = shinies_of(rows, hid);
        let fdl = shinies_of(dl, hid);
        if rows.last().hunt_id == Some(hid) {
            assert(f == fdl.push(rows.last()));
            assert forall|m: int| 0 <= m < fdl.len() implies (#[trigger] fdl[m]).id
                != rows.last().id by {
                lemma_shinies_of_element_from(dl, hid, m);
                let t = choose|t: int| 0 <= t < dl.len() && dl[t] == fdl[m];
                assert(rows[t] == dl[t]);
            }
            assert forall|m1: int, m2: int| 0 <= m1 < m2 < f.len() implies (#[trigger] f[m1]).id
                != (#[trigger] f[m2]).id by {
                if m2 == f.len() - 1 {
                    assert(f[m1] == fdl[m1]);
                } else {
                    assert(f[m1] == fdl[m1]);
                    assert(f[m2] == fdl[m2]);
                }
            }
        } else {
            assert(f == fdl);
        }
    }
}

/// Law: storing back an unmodified loaded hunt is idempotent. If the hunt
/// under index `j` is loaded and handed back to `upsert_hunt` untouched,
/// the call succeeds, the store is unchanged, and the returned row equals
/// the loaded one.
pub proof fn lemma_upsert_load_round_trip(
    pre: StoreView,
    j: int,
    post: StoreView,
    r: Result<Hunt, Error>,
)
    requires
        store_inv(pre),
        0 <= j < pre.hunts.len(),
        upsert_hunt_post(pre, hunt_of_row(pre, pre.hunts[j]), post, r),
    ensures
        r is Ok,
        post == pre,
        r->Ok_0@ == hunt_of_row(pre, pre.hunts[j]),
{
    let row = pre.hunts[j];
    assert(hunt_present(pre.hunts, row.id));
    let j2 = choose|j2: int|
        0 <= j2 < pre.hunts.len() && (#[trigger] pre.hunts[j2]).id == row.id && post.hunts
            == pre.hunts.update(j2, row);
    assert(j2 == j);
    assert(post.hunts =~= pre.hunts);
    assert(post =~= pre);
}

/// Law: a loaded hunt groups every shiny whose foreign key names it under
/// itself exactly once — the shiny is among the grouped rows, any grouped
/// row carrying its key is that shiny, and no key appears twice.
pub proof fn lemma_load_groups_shiny_exactly_once(s: StoreView, j: int, k: int)
    requires
        store_inv(s),
        0 <= j < s.hunts.len(),
        0 <= k < s.shinies.len(),
        s.shinies[k].hunt_id == Some(s.hunts[j].id),
    ensures
        ({
            let grouped = hunt_of_row(s, s.hunts[j]).shinies;
            &&& grouped.contains(s.shinies[k])
            &&& forall|m: int|
                0 <= m < grouped.len() && (#[trigger] grouped[m]).id == s.shinies[k].id
                    ==> grouped[m] == s.shinies[k]
            &&& forall|m1: int, m2: int|
                0 <= m1 < grouped.len() && 0 <= m2 < grouped.len() && (#[trigger] grouped[m1]).id
                    == s.shinies[k].id && (#[trigger] grouped[m2]).id == s.shinies[k].id ==> m1
                    == m2
        }),
{
    let hid = s.hunts[j].id;
    let grouped = shinies_of(s.shinies, hid);
    assert(grouped.contains(s.shinies[k]));
    lemma_shinies_of_unique_ids(s.shinies, hid);
    assert forall|m: int|
        0 <= m < grouped.len() && (#[trigger] grouped[m]).id == s.shinies[k].id implies grouped[m]
        == s.shinies[k] by {
        lemma_shinies_of_element_from(s.shinies, hid, m);
        let t = choose|t: int| 0 <= t < s.shinies.len() && s.shinies[t] == grouped[m];
        if t != k {
            assert(s.shinies[t].id != s.shinies[k].id);
        }
    }
    assert forall|m1: int, m2: int|
        0 <= m1 < grouped.len() && 0 <= m2 < grouped.len() && (#[trigger] grouped[m1]).id
            == s.shinies[k].id && (#[trigger] grouped[m2]).id == s.shinies[k].id implies m1
        == m2 by {
        if m1 < m2 {
            assert(grouped[m1].id != grouped[m2].id);
        } else if m2 < m1 {
            assert(grouped[m1].id != grouped[m2].id);
        }
    }
}

} // verus!
