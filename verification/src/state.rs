use vstd::pervasive::VecAdditionalExecFns;
use vstd::prelude::*;

use crate::counter::{Counter, CounterEditAction};
use crate::error::Error;
use crate::hunt::{blank_hunt, shiny_views, Hunt, HuntView};
use crate::models::HuntRowView;
use crate::screens::counters::{counters_action_for, Counters, CountersAction, CountersMessage};
use crate::screens::hunts::{hunts_action_for, Hunts, HuntsAction, HuntsMessage};
use crate::screens::shinies::{shinies_action_for, Shinies, ShiniesAction, ShiniesMessage};
use crate::screens::ScreenType;
use crate::shiny::{blank_shiny, Shiny};
use crate::store::{
    hunt_of_row, hunt_present, lemma_present_after_remove, lemma_present_after_update,
    null_out_hunt, shiny_present, store_hunt_deleted, store_hunt_inserted, store_hunt_overwritten,
    store_shiny_deleted, Store,
};

verus! {

/// The screen the application currently shows, with its screen state.
#[derive(Debug, Clone, Copy, PartialEq, Eq)]
pub enum Screen {
    Counters(Counters),
    Hunts(Hunts),
    Shinies(Shinies),
}

/// Menu-level messages.
#[derive(Debug, Clone, Copy, PartialEq, Eq)]
pub enum MenuMessage {
    ChangeScreen(ScreenType),
}

/// Every message the application state handles.
#[derive(Debug, Clone, PartialEq, Eq)]
pub enum Message {
    MenuMessage(MenuMessage),
    CountersMessage(CountersMessage),
    HuntsMessage(HuntsMessage),
    ShiniesMessage(ShiniesMessage),
}

/// The whole application state: the store, the in-memory records loaded
/// from it, the four counters, and the screen and selection state.
pub struct State {
    pub screen: Screen,
    pub active_counters: Vec<Counter>,
    pub store: Store,
    pub all_hunts: Vec<Hunt>,
    pub all_shinies: Vec<Shiny>,
    pub selected_hunt: Option<usize>,
    pub selected_shiny: Option<usize>,
    pub editing_counter: Option<usize>,
    pub editing_hunt: Hunt,
    pub editing_hunt_index: Option<usize>,
    pub editing_shiny: Shiny,
    pub editing_shiny_index: Option<usize>,
}

/// Whether position `j` of the in-memory hunt list holds the hunt keyed
/// `id`.
pub open spec fn hunt_index_ok(hunts: Seq<Hunt>, j: int, id: int) -> bool {
    0 <= j < hunts.len() && hunts[j]@.row.id == id
}

/// Whether no in-memory hunt is keyed `id`.
pub open spec fn no_hunt_with_id(hunts: Seq<Hunt>, id: int) -> bool {
    forall|j: int| 0 <= j < hunts.len() ==> (#[trigger] hunts[j])@.row.id != id
}

impl State {
    /// The state's invariant: the store is sound, there are exactly four
    /// counters, and the in-memory hunts are well formed, distinct by key,
    /// and all backed by a store row.
    pub open spec fn inv(&self) -> bool {
        &&& self.store.inv()
        &&& self.active_counters@.len() == 4
        &&& forall|i: int, j: int|
            0 <= i < j < self.all_hunts@.len() ==> (#[trigger] self.all_hunts@[i])@.row.id != (
            #[trigger] self.all_hunts@[j])@.row.id
        &&& forall|i: int|
            0 <= i < self.all_hunts@.len() ==> (#[trigger] self.all_hunts@[i]).wf()
                && hunt_present(self.store@.hunts, self.all_hunts@[i]@.row.id)
        &&& self.editing_hunt.wf()
    }
}

/// The state transition that replaces counter `idx` with `c2` and touches
/// nothing else.
pub open spec fn counters_only(pre: State, post: State, idx: int, c2: Counter) -> bool {
    &&& post == (State { active_counters: post.active_counters, ..pre })
    &&& post.active_counters@ == pre.active_counters@.update(idx, c2)
}

/// The state transition of a counter operation that mirrors its effect
/// onto the bound hunt at position `j`: counter `idx` becomes `c2`, the
/// hunt's phase-encounter count becomes `new_phase` both in the store and
/// in memory, and the in-memory copy is the freshly stored row.
pub open spec fn bound_sync_post(
    pre: State,
    post: State,
    idx: int,
    j: int,
    c2: Counter,
    new_phase: int,
) -> bool {
    let row2 = (HuntRowView { phase_encounters: new_phase, ..pre.all_hunts@[j]@.row });
    &&& post == (State {
        active_counters: post.active_counters,
        store: post.store,
        all_hunts: post.all_hunts,
        ..pre
    })
    &&& post.active_counters@ == pre.active_counters@.update(idx, c2)
    &&& store_hunt_overwritten(pre.store@, row2, post.store@)
    &&& post.all_hunts@.len() == pre.all_hunts@.len()
    &&& forall|t: int|
        0 <= t < pre.all_hunts@.len() && t != j ==> post.all_hunts@[t] == pre.all_hunts@[t]
    &&& post.all_hunts@[j]@ == hunt_of_row(post.store@, row2)
}

/// The bound case of `counter_increment`, for the hunt at position `j`:
/// both the tally and the hunt's phase-encounter count grow by the step,
/// unless the hunt's new count would leave the range of non-negative
/// representable values, which fails the whole operation.
pub open spec fn increment_bound_case(
    pre: State,
    post: State,
    idx: int,
    j: int,
    r: Result<(), Error>,
) -> bool {
    let c = pre.active_counters@[idx];
    let c2 = (Counter { count: (c.count + c.inc) as i32, ..c });
    let sum_h = pre.all_hunts@[j].phase_encounters + c.inc;
    if 0 <= sum_h <= i32::MAX {
        r == Ok::<(), Error>(()) && bound_sync_post(pre, post, idx, j, c2, sum_h)
    } else {
        r == Err::<(), Error>(Error::Overflow) && post == pre
    }
}

/// What `counter_increment` does: the step is added to the tally and,
/// through the bound hunt's key, to that hunt's phase-encounter count,
/// which is persisted; any overflow fails the whole operation and changes
/// nothing. An unbound counter, or one whose key resolves to no hunt,
/// only changes its own tally.
pub open spec fn counter_increment_post(
    pre: State,
    post: State,
    idx: int,
    r: Result<(), Error>,
) -> bool {
    let c = pre.active_counters@[idx];
    let sum_c = c.count + c.inc;
    let c2 = (Counter { count: sum_c as i32, ..c });
    if !(i32::MIN <= sum_c <= i32::MAX) {
        &&& r == Err::<(), Error>(Error::Overflow)
        &&& post == pre
    } else {
        match c.hunt {
            None => r == Ok::<(), Error>(()) && counters_only(pre, post, idx, c2),
            Some(id) => {
                if no_hunt_with_id(pre.all_hunts@, id as int) {
                    r == Ok::<(), Error>(()) && counters_only(pre, post, idx, c2)
                } else {
                    exists|j: int|
                        #![auto]
                        hunt_index_ok(pre.all_hunts@, j, id as int) && increment_bound_case(
                            pre,
                            post,
                            idx,
                            j,
                            r,
                        )
                }
            },
        }
    }
}

/// What `counter_decrement` does: the tally drops by one unless already
/// at or below zero, and the bound hunt's phase-encounter count drops by
/// one unless already at zero — the two floors are checked independently.
pub open spec fn counter_decrement_post(
    pre: State,
    post: State,
    idx: int,
    r: Result<(), Error>,
) -> bool {
    let c = pre.active_counters@[idx];
    let c2 = (Counter {
        count: (if c.count > 0 {
            c.count - 1
        } else {
            c.count as int
        }) as i32,
        ..c
    });
    &&& r == Ok::<(), Error>(())
    &&& match c.hunt {
        None => counters_only(pre, post, idx, c2),
        Some(id) => {
            if no_hunt_with_id(pre.all_hunts@, id as int) {
                counters_only(pre, post, idx, c2)
            } else {
                exists|j: int|
                    #![auto]
                    hunt_index_ok(pre.all_hunts@, j, id as int) && decrement_bound_case(
                        pre,
                        post,
                        idx,
                        j,
                    )
            }
        },
    }
}

/// The bound case of `counter_decrement`, for the hunt at position `j`:
/// the hunt's phase-encounter count drops by one unless it is already at
/// zero, where it stays — whatever the counter's own tally holds.
pub open spec fn decrement_bound_case(pre: State, post: State, idx: int, j: int) -> bool {
    let c = pre.active_counters@[idx];
    let c2 = (Counter {
        count: (if c.count > 0 {
            c.count - 1
        } else {
            c.count as int
        }) as i32,
        ..c
    });
    let ph = pre.all_hunts@[j].phase_encounters;
    let new_phase = if ph > 0 {
        ph - 1
    } else {
        ph as int
    };
    bound_sync_post(pre, post, idx, j, c2, new_phase)
}

/// What `counter_perform` does: binding, unbinding and the step edit only
/// touch the counter itself; setting the tally also makes the bound
/// hunt's phase-encounter count exactly the entered value, persisted, and
/// fails the whole operation on a negative value while bound.
pub open spec fn counter_perform_post(
    pre: State,
    post: State,
    idx: int,
    action: CounterEditAction,
    r: Result<(), Error>,
) -> bool {
    let c = pre.active_counters@[idx];
    match action {
        CounterEditAction::SetHunt(id) => r == Ok::<(), Error>(()) && counters_only(
            pre,
            post,
            idx,
            (Counter { hunt: Some(id), ..c }),
        ),
        CounterEditAction::UnsetHunt => r == Ok::<(), Error>(()) && counters_only(
            pre,
            post,
            idx,
            (Counter { hunt: None, ..c }),
        ),
        CounterEditAction::SetIncrement(v) => r == Ok::<(), Error>(()) && counters_only(
            pre,
            post,
            idx,
            (Counter { inc: v, ..c }),
        ),
        CounterEditAction::SetCount(v) => {
            let c2 = (Counter { count: v, ..c });
            match c.hunt {
                None => r == Ok::<(), Error>(()) && counters_only(pre, post, idx, c2),
                Some(id) => {
                    if no_hunt_with_id(pre.all_hunts@, id as int) {
                        r == Ok::<(), Error>(()) && counters_only(pre, post, idx, c2)
                    } else if v < 0 {
                        r == Err::<(), Error>(Error::Overflow) && post == pre
                    } else {
                        exists|j: int|
                            #![auto]
                            hunt_index_ok(pre.all_hunts@, j, id as int) && r == Ok::<(), Error>(())
                                && bound_sync_post(pre, post, idx, j, c2, v as int)
                    }
                },
            }
        },
    }
}

impl State {
    /// Position of the in-memory hunt keyed `id`, if any.
    fn find_hunt_index(&self, id: i32) -> (r: Option<usize>)
        ensures
            match r {
                Some(j) => hunt_index_ok(self.all_hunts@, j as int, id as int),
                None => no_hunt_with_id(self.all_hunts@, id as int),
            },
    {
        let mut i: usize = 0;
        while i < self.all_hunts.len()
            invariant
                i <= self.all_hunts.len(),
                forall|k: int| 0 <= k < i ==> (#[trigger] self.all_hunts@[k])@.row.id != id as int,
            decreases self.all_hunts.len() - i,
        {
            if self.all_hunts[i].id == id {
                return Some(i);
            }
            i += 1;
        }
        None
    }

    /// Persists the new phase-encounter count of the hunt at position `j`,
    /// adopts the freshly stored row in its place, and replaces counter
    /// `idx` with `c2` — all only after the store confirmed the write.
    fn sync_bound_hunt(&mut self, j: usize, new_phase: i32, idx: usize, c2: Counter) -> (r: Result<
        (),
        Error,
    >)
        requires
            old(self).inv(),
            j < old(self).all_hunts@.len(),
            idx < old(self).active_counters@.len(),
            new_phase >= 0,
        ensures
            final(self).inv(),
            r == Ok::<(), Error>(()),
            bound_sync_post(*old(self), *final(self), idx as int, j as int, c2, new_phase as int),
    {
        let mut h2 = self.all_hunts[j].clone();
        h2.phase_encounters = new_phase;
        proof {
            assert(h2@.row =~= (HuntRowView {
                phase_encounters: new_phase as int,
                ..old(self).all_hunts@[j as int]@.row
            }));
            assert(h2@.shinies =~= old(self).all_hunts@[j as int]@.shinies);
        }
        let stored = match self.store.upsert_hunt(&h2) {
            Ok(s) => s,
            Err(e) => {
                proof {
                    assert(hunt_present(old(self).store@.hunts, h2@.row.id));
                }
                return Err(e);
            },
        };
        proof {
            assert(hunt_present(old(self).store@.hunts, h2@.row.id));
        }
        self.all_hunts.set(j, stored);
        self.active_counters.set(idx, c2);
        proof {
            let row2 = h2@.row;
            let pre_rows = old(self).store@.hunts;
            let post_rows = final(self).store@.hunts;
            let t = choose|t: int|
                0 <= t < pre_rows.len() && (#[trigger] pre_rows[t]).id == row2.id && post_rows
                    == pre_rows.update(t, row2);
            assert forall|i: int|
                0 <= i < final(self).all_hunts@.len() implies {
                let fh = #[trigger] final(self).all_hunts@[i];
                fh.wf() && hunt_present(post_rows, fh@.row.id)
            } by {
                lemma_present_after_update(
                    pre_rows,
                    t,
                    row2,
                    old(self).all_hunts@[i]@.row.id,
                );
            }
        }
        Ok(())
    }

    /// Adds the increment step of counter `idx` to its tally and, if a
    /// hunt is bound and present, to that hunt's phase-encounter count,
    /// persisting the hunt; see [`counter_increment_post`]. Nothing
    /// changes unless every step succeeds.
    pub fn counter_increment(&mut self, idx: usize) -> (r: Result<(), Error>)
        requires
            old(self).inv(),
            idx < old(self).active_counters@.len(),
        ensures
            final(self).inv(),
            counter_increment_post(*old(self), *final(self), idx as int, r),
    {
        let c = self.active_counters[idx];
        let sum_c = match c.count.checked_add(c.inc) {
            Some(v) => v,
            None => {
                return Err(Error::Overflow);
            },
        };
        let c2 = Counter { count: sum_c, ..c };
        match c.hunt {
            None => {
                self.active_counters.set(idx, c2);
                Ok(())
            },
            Some(id) => {
                match self.find_hunt_index(id) {
                    None => {
                        self.active_counters.set(idx, c2);
                        Ok(())
                    },
                    Some(j) => {
                        let ph = self.all_hunts[j].phase_encounters;
                        let sum_h = match ph.checked_add(c.inc) {
                            Some(v) => v,
                            None => {
                                return Err(Error::Overflow);
                            },
                        };
                        if sum_h < 0 {
                            return Err(Error::Overflow);
                        }
                        let res = self.sync_bound_hunt(j, sum_h, idx, c2);
                        proof {
                            assert(increment_bound_case(
                                *old(self),
                                *final(self),
                                idx as int,
                                j as int,
                                res,
                            ));
                        }
                        res
                    },
                }
            },
        }
    }

    /// Subtracts one from the tally of counter `idx` unless it is already
    /// at or below zero and, independently, from the bound hunt's
    /// phase-encounter count unless that is already at zero, persisting
    /// the hunt; see [`counter_decrement_post`].
    pub fn counter_decrement(&mut self, idx: usize) -> (r: Result<(), Error>)
        requires
            old(self).inv(),
            idx < old(self).active_counters@.len(),
        ensures
            final(self).inv(),
            counter_decrement_post(*old(self), *final(self), idx as int, r),
    {
        let c = self.active_counters[idx];
        let c2 = Counter {
            count: if c.count > 0 {
                c.count - 1
            } else {
                c.count
            },
            ..c
        };
        match c.hunt {
            None => {
                self.active_counters.set(idx, c2);
                Ok(())
            },
            Some(id) => {
                match self.find_hunt_index(id) {
                    None => {
                        self.active_counters.set(idx, c2);
                        Ok(())
                    },
                    Some(j) => {
                        let ph = self.all_hunts[j].phase_encounters;
                        let new_phase = if ph > 0 {
                            ph - 1
                        } else {
                            ph
                        };
                        let res = self.sync_bound_hunt(j, new_phase, idx, c2);
                        proof {
                            assert(decrement_bound_case(
                                *old(self),
                                *final(self),
                                idx as int,
                                j as int,
                            ));
                        }
                        res
                    },
                }
            },
        }
    }

    /// Applies one discrete edit to counter `idx`: binding, unbinding and
    /// the step edit touch only the counter; setting the tally also makes
    /// the bound hunt's phase-encounter count exactly the entered value,
    /// persisting the hunt; see [`counter_perform_post`].
    pub fn counter_perform(&mut self, idx: usize, action: CounterEditAction) -> (r: Result<
        (),
        Error,
    >)
        requires
            old(self).inv(),
            idx < old(self).active_counters@.len(),
        ensures
            final(self).inv(),
            counter_perform_post(*old(self), *final(self), idx as int, action, r),
    {
        let c = self.active_counters[idx];
        match action {
            CounterEditAction::SetHunt(id) => {
                self.active_counters.set(idx, Counter { hunt: Some(id), ..c });
                Ok(())
            },
            CounterEditAction::UnsetHunt => {
                self.active_counters.set(idx, Counter { hunt: None, ..c });
                Ok(())
            },
            CounterEditAction::SetIncrement(v) => {
                self.active_counters.set(idx, Counter { inc: v, ..c });
                Ok(())
            },
            CounterEditAction::SetCount(v) => {
                let c2 = Counter { count: v, ..c };
                match c.hunt {
                    None => {
                        self.active_counters.set(idx, c2);
                        Ok(())
                    },
                    Some(id) => {
                        match self.find_hunt_index(id) {
                            None => {
                                self.active_counters.set(idx, c2);
                                Ok(())
                            },
                            Some(j) => {
                                if v < 0 {
                                    return Err(Error::Overflow);
                                }
                                self.sync_bound_hunt(j, v, idx, c2)
                            },
                        }
                    },
                }
            },
        }
    }
}

/// What `begin_edit_hunt` does: the edit buffer receives a copy of the
/// hunt at `index`, or a blank hunt if the position is out of range, and
/// the position is remembered.
pub open spec fn begin_edit_hunt_post(pre: State, post: State, index: usize) -> bool {
    &&& post == (State {
        editing_hunt: post.editing_hunt,
        editing_hunt_index: Some(index),
        ..pre
    })
    &&& post.editing_hunt@ == (if (index as int) < pre.all_hunts@.len() {
        pre.all_hunts@[index as int]@
    } else {
        blank_hunt()
    })
}

/// How a freshly stored hunt is adopted in memory: it replaces the
/// in-memory hunt that carries its key, or is appended if none does.
pub open spec fn adopted_in_memory(
    pre: State,
    post: State,
    rowid: int,
    stored_view: HuntView,
) -> bool {
    if no_hunt_with_id(pre.all_hunts@, rowid) {
        &&& post.all_hunts@.len() == pre.all_hunts@.len() + 1
        &&& forall|t: int|
            0 <= t < pre.all_hunts@.len() ==> post.all_hunts@[t] == pre.all_hunts@[t]
        &&& post.all_hunts@[pre.all_hunts@.len() as int]@ == stored_view
    } else {
        exists|t: int|
            #![auto]
            {
                &&& hunt_index_ok(pre.all_hunts@, t, rowid)
                &&& post.all_hunts@.len() == pre.all_hunts@.len()
                &&& forall|u: int|
                    0 <= u < pre.all_hunts@.len() && u != t ==> post.all_hunts@[u]
                        == pre.all_hunts@[u]
                &&& post.all_hunts@[t]@ == stored_view
            }
    }
}

/// What `stop_edit_hunt` does: a discarded edit only resets the edit
/// buffer; a saved edit is upserted into the store and the freshly stored
/// row — with its store-assigned key if the hunt was new — is adopted in
/// memory, keyed reconciliation replacing the matching hunt or appending.
/// A failed upsert changes nothing.
pub open spec fn stop_edit_hunt_post(
    pre: State,
    post: State,
    save: bool,
    r: Result<(), Error>,
) -> bool {
    if !save {
        &&& r == Ok::<(), Error>(())
        &&& post == (State { editing_hunt: post.editing_hunt, editing_hunt_index: None, ..pre })
        &&& post.editing_hunt@ == blank_hunt()
    } else {
        let hv = pre.editing_hunt@;
        if hunt_present(pre.store@.hunts, hv.row.id) {
            &&& r == Ok::<(), Error>(())
            &&& post == (State {
                store: post.store,
                all_hunts: post.all_hunts,
                editing_hunt: post.editing_hunt,
                editing_hunt_index: None,
                ..pre
            })
            &&& store_hunt_overwritten(pre.store@, hv.row, post.store@)
            &&& adopted_in_memory(pre, post, hv.row.id, hunt_of_row(post.store@, hv.row))
            &&& post.editing_hunt@ == blank_hunt()
        } else if pre.store@.next_hunt_id < i32::MAX {
            let row = (HuntRowView { id: pre.store@.next_hunt_id, ..hv.row });
            &&& r == Ok::<(), Error>(())
            &&& post == (State {
                store: post.store,
                all_hunts: post.all_hunts,
                editing_hunt: post.editing_hunt,
                editing_hunt_index: None,
                ..pre
            })
            &&& store_hunt_inserted(pre.store@, row, post.store@)
            &&& adopted_in_memory(pre, post, row.id, hunt_of_row(post.store@, row))
            &&& post.editing_hunt@ == blank_hunt()
        } else {
            &&& r == Err::<(), Error>(Error::Overflow)
            &&& post == (State { store: post.store, ..pre })
            &&& post.store@ == pre.store@
        }
    }
}

/// What `delete_hunt_at` does: the hunt at `index` is removed from the
/// store and from memory, the foreign key of every shiny that named it is
/// cleared both in the store and in memory, and the selection is dropped.
/// An out-of-range position does nothing.
pub open spec fn delete_hunt_at_post(
    pre: State,
    post: State,
    index: int,
    r: Result<(), Error>,
) -> bool {
    if !(0 <= index < pre.all_hunts@.len()) {
        r == Ok::<(), Error>(()) && post == pre
    } else {
        let id = pre.all_hunts@[index]@.row.id;
        &&& r == Ok::<(), Error>(())
        &&& post == (State {
            store: post.store,
            all_hunts: post.all_hunts,
            all_shinies: post.all_shinies,
            selected_hunt: None,
            ..pre
        })
        &&& store_hunt_deleted(pre.store@, id, post.store@)
        &&& post.all_hunts@ == pre.all_hunts@.remove(index)
        &&& shiny_views(post.all_shinies@) == null_out_hunt(shiny_views(pre.all_shinies@), id)
    }
}

/// What `delete_shiny_at` does: the shiny at `index` is removed from the
/// store and from memory and the selection is dropped; a shiny whose key
/// the store does not hold fails with `NotFound` and changes nothing. An
/// out-of-range position does nothing.
pub open spec fn delete_shiny_at_post(
    pre: State,
    post: State,
    index: int,
    r: Result<(), Error>,
) -> bool {
    if !(0 <= index < pre.all_shinies@.len()) {
        r == Ok::<(), Error>(()) && post == pre
    } else {
        let id = pre.all_shinies@[index]@.id;
        if shiny_present(pre.store@.shinies, id) {
            &&& r == Ok::<(), Error>(())
            &&& post == (State {
                store: post.store,
                all_shinies: post.all_shinies,
                selected_shiny: None,
                ..pre
            })
            &&& store_shiny_deleted(pre.store@, id, post.store@)
            &&& post.all_shinies@ == pre.all_shinies@.remove(index)
        } else {
            &&& r == Err::<(), Error>(Error::NotFound)
            &&& post == (State { store: post.store, ..pre })
            &&& post.store@ == pre.store@
        }
    }
}

impl State {
    /// Copies the hunt at `index` into the edit buffer, or a blank hunt
    /// if the position is out of range, and remembers the position.
    pub fn begin_edit_hunt(&mut self, index: usize)
        requires
            old(self).inv(),
        ensures
            final(self).inv(),
            begin_edit_hunt_post(*old(self), *final(self), index),
    {
        self.editing_hunt_index = Some(index);
        if index < self.all_hunts.len() {
            self.editing_hunt = self.all_hunts[index].clone();
        } else {
            self.editing_hunt = Hunt::default();
        }
    }

    /// Ends an edit of the hunt buffer. With `save`, the buffered hunt is
    /// upserted into the store and the freshly stored row is adopted in
    /// memory, keyed by its primary key; the in-memory list is only
    /// touched after the store confirmed the write. Without `save`, or
    /// after a failure, the records are untouched; see
    /// [`stop_edit_hunt_post`].
    pub fn stop_edit_hunt(&mut self, save: bool) -> (r: Result<(), Error>)
        requires
            old(self).inv(),
        ensures
            final(self).inv(),
            stop_edit_hunt_post(*old(self), *final(self), save, r),
    {
        if !save {
            self.editing_hunt = Hunt::default();
            self.editing_hunt_index = None;
            return Ok(());
        }
        let stored = match self.store.upsert_hunt(&self.editing_hunt) {
            Ok(s) => s,
            Err(e) => {
                return Err(e);
            },
        };
        let sid = stored.id;
        match self.find_hunt_index(sid) {
            Some(t) => {
                self.all_hunts.set(t, stored);
            },
            None => {
                self.all_hunts.push(stored);
            },
        }
        self.editing_hunt = Hunt::default();
        self.editing_hunt_index = None;
        proof {
            let pre = *old(self);
            let hv = pre.editing_hunt@;
            let row2 = if hunt_present(pre.store@.hunts, hv.row.id) {
                hv.row
            } else {
                (HuntRowView { id: pre.store@.next_hunt_id, ..hv.row })
            };
            if hunt_present(pre.store@.hunts, hv.row.id) {
                let j = choose|j: int|
                    0 <= j < pre.store@.hunts.len() && (#[trigger] pre.store@.hunts[j]).id
                        == row2.id && self.store@.hunts == pre.store@.hunts.update(j, row2);
                assert forall|i: int|
                    0 <= i < self.all_hunts@.len() implies {
                    let fh = #[trigger] self.all_hunts@[i];
                    fh.wf() && hunt_present(self.store@.hunts, fh@.row.id)
                } by {
                    if i < pre.all_hunts@.len() && self.all_hunts@[i] == pre.all_hunts@[i] {
                        lemma_present_after_update(
                            pre.store@.hunts,
                            j,
                            row2,
                            pre.all_hunts@[i]@.row.id,
                        );
                    } else {
                        lemma_present_after_update(pre.store@.hunts, j, row2, row2.id);
                    }
                }
            } else {
                assert forall|i: int|
                    0 <= i < self.all_hunts@.len() implies {
                    let fh = #[trigger] self.all_hunts@[i];
                    fh.wf() && hunt_present(self.store@.hunts, fh@.row.id)
                } by {
                    if i < pre.all_hunts@.len() && self.all_hunts@[i] == pre.all_hunts@[i] {
                        let x = pre.all_hunts@[i]@.row.id;
                        let t = choose|t: int|
                            0 <= t < pre.store@.hunts.len() && (#[trigger] pre.store@.hunts[t]).id
                                == x;
                        assert(self.store@.hunts[t].id == x);
                    } else {
                        assert(self.store@.hunts[pre.store@.hunts.len() as int].id == row2.id);
                    }
                }
                assert forall|i: int, t: int|
                    0 <= i < t < self.all_hunts@.len() implies (#[trigger] self.all_hunts@[i])@.row.id
                    != (#[trigger] self.all_hunts@[t])@.row.id by {
                    if t == self.all_hunts@.len() - 1 && self.all_hunts@.len() == pre.all_hunts@.len()
                        + 1 {
                        let x = pre.all_hunts@[i]@.row.id;
                        let u = choose|u: int|
                            0 <= u < pre.store@.hunts.len() && (#[trigger] pre.store@.hunts[u]).id
                                == x;
                        assert(x < pre.store@.next_hunt_id);
                    }
                }
            }
        }
        Ok(())
    }

    /// Removes the hunt at `index`: the store row is deleted, foreign
    /// keys that named it are cleared in the store and in the in-memory
    /// shiny list, the hunt leaves the in-memory list, and the selection
    /// is dropped. An out-of-range position does nothing. A counter still
    /// bound to the deleted key simply no longer resolves.
    pub fn delete_hunt_at(&mut self, index: usize) -> (r: Result<(), Error>)
        requires
            old(self).inv(),
        ensures
            final(self).inv(),
            delete_hunt_at_post(*old(self), *final(self), index as int, r),
    {
        if index >= self.all_hunts.len() {
            return Ok(());
        }
        let id = self.all_hunts[index].id;
        match self.store.delete_hunt(id) {
            Ok(_) => {},
            Err(e) => {
                return Err(e);
            },
        }
        self.all_hunts.remove(index);
        self.selected_hunt = None;
        let ghost mid = *self;
        let mut k: usize = 0;
        while k < self.all_shinies.len()
            invariant
                k <= self.all_shinies.len(),
                *self == (State { all_shinies: self.all_shinies, ..mid }),
                self.all_shinies@.len() == mid.all_shinies@.len(),
                forall|t: int|
                    0 <= t < k ==> (#[trigger] self.all_shinies@[t])@ == null_out_hunt(
                        shiny_views(mid.all_shinies@),
                        id as int,
                    )[t],
                forall|t: int|
                    k <= t < mid.all_shinies@.len() ==> self.all_shinies@[t]
                        == mid.all_shinies@[t],
            decreases self.all_shinies.len() - k,
        {
            let clear = match self.all_shinies[k].hunt_id {
                Some(h) => h == id,
                None => false,
            };
            if clear {
                let mut s2 = self.all_shinies[k].clone();
                s2.hunt_id = None;
                self.all_shinies.set(k, s2);
            }
            k += 1;
        }
        proof {
            assert(shiny_views(self.all_shinies@) =~= null_out_hunt(
                shiny_views(mid.all_shinies@),
                id as int,
            ));
            let pre = *old(self);
            let j = choose|j: int|
                0 <= j < pre.store@.hunts.len() && (#[trigger] pre.store@.hunts[j]).id == id as int
                    && self.store@.hunts == pre.store@.hunts.remove(j);
            assert forall|i: int|
                0 <= i < self.all_hunts@.len() implies {
                let fh = #[trigger] self.all_hunts@[i];
                fh.wf() && hunt_present(self.store@.hunts, fh@.row.id)
            } by {
                let pi = if i < index { i } else { i + 1 };
                assert(self.all_hunts@[i] == pre.all_hunts@[pi]);
                assert(pre.all_hunts@[pi]@.row.id != id as int);
                lemma_present_after_remove(pre.store@.hunts, j, pre.all_hunts@[pi]@.row.id);
            }
            assert forall|i: int, t: int|
                0 <= i < t < self.all_hunts@.len() implies (#[trigger] self.all_hunts@[i])@.row.id
                != (#[trigger] self.all_hunts@[t])@.row.id by {
                let pi = if i < index { i } else { i + 1 };
                let pt = if t < index { t } else { t + 1 };
                assert(self.all_hunts@[i] == pre.all_hunts@[pi]);
                assert(self.all_hunts@[t] == pre.all_hunts@[pt]);
            }
        }
        Ok(())
    }

    /// Removes the shiny at `index` from the store and from memory and
    /// drops the selection; fails with `NotFound`, changing nothing, if
    /// the store does not hold its key. An out-of-range position does
    /// nothing.
    pub fn delete_shiny_at(&mut self, index: usize) -> (r: Result<(), Error>)
        requires
            old(self).inv(),
        ensures
            final(self).inv(),
            delete_shiny_at_post(*old(self), *final(self), index as int, r),
    {
        if index >= self.all_shinies.len() {
            return Ok(());
        }
        let id = self.all_shinies[index].id;
        match self.store.delete_shiny(id) {
            Ok(_) => {
                self.all_shinies.remove(index);
                self.selected_shiny = None;
                Ok(())
            },
            Err(e) => Err(e),
        }
    }
}

/// The screen value shown for a chosen screen type.
pub open spec fn screen_for(t: ScreenType) -> Screen {
    match t {
        ScreenType::Counters => Screen::Counters(Counters {  }),
        ScreenType::Hunts => Screen::Hunts(Hunts {  }),
        ScreenType::Shinies => Screen::Shinies(Shinies {  }),
    }
}

/// What `update` does for an action of the counters screen.
pub open spec fn counters_arm_post(
    pre: State,
    post: State,
    action: CountersAction,
    r: Result<(), Error>,
) -> bool {
    match action {
        CountersAction::Increment(id) => {
            if (id as int) < pre.active_counters@.len() {
                counter_increment_post(pre, post, id as int, r)
            } else {
                r == Ok::<(), Error>(()) && post == pre
            }
        },
        CountersAction::Decrement(id) => {
            if (id as int) < pre.active_counters@.len() {
                counter_decrement_post(pre, post, id as int, r)
            } else {
                r == Ok::<(), Error>(()) && post == pre
            }
        },
        CountersAction::EditCounter(a) => {
            match pre.editing_counter {
                Some(id) => {
                    if (id as int) < pre.active_counters@.len() {
                        counter_perform_post(pre, post, id as int, a, r)
                    } else {
                        r == Ok::<(), Error>(()) && post == pre
                    }
                },
                None => r == Ok::<(), Error>(()) && post == pre,
            }
        },
        CountersAction::StartEditCounter(id) => r == Ok::<(), Error>(()) && post == (State {
            editing_counter: Some(id),
            ..pre
        }),
        CountersAction::StopEditCounter => r == Ok::<(), Error>(()) && post == (State {
            editing_counter: None,
            ..pre
        }),
        CountersAction::ShinyFound(_) => r == Ok::<(), Error>(()) && post == pre,
        CountersAction::Nothing => r == Ok::<(), Error>(()) && post == pre,
    }
}

/// What `update` does for an action of the hunts screen.
pub open spec fn hunts_arm_post(
    pre: State,
    post: State,
    action: HuntsAction,
    r: Result<(), Error>,
) -> bool {
    match action {
        HuntsAction::SelectHunt(i) => r == Ok::<(), Error>(()) && post == (State {
            selected_hunt: Some(i),
            ..pre
        }),
        HuntsAction::CloseSelectedHunt => r == Ok::<(), Error>(()) && post == (State {
            selected_hunt: None,
            ..pre
        }),
        HuntsAction::BeginEditHunt(i) => r == Ok::<(), Error>(()) && begin_edit_hunt_post(
            pre,
            post,
            i,
        ),
        HuntsAction::StopEditHunt(save) => stop_edit_hunt_post(pre, post, save, r),
        HuntsAction::DeleteHunt(i) => delete_hunt_at_post(pre, post, i as int, r),
        HuntsAction::CreateHunt => r == Ok::<(), Error>(()) && post == pre,
        HuntsAction::Nothing => r == Ok::<(), Error>(()) && post == pre,
    }
}

/// What `update` does for an action of the shinies screen.
pub open spec fn shinies_arm_post(
    pre: State,
    post: State,
    action: ShiniesAction,
    r: Result<(), Error>,
) -> bool {
    match action {
        ShiniesAction::SelectShiny(i) => r == Ok::<(), Error>(()) && post == (State {
            selected_shiny: Some(i),
            ..pre
        }),
        ShiniesAction::CloseSelectedShiny => r == Ok::<(), Error>(()) && post == (State {
            selected_shiny: None,
            ..pre
        }),
        ShiniesAction::DeleteShiny(i) => delete_shiny_at_post(pre, post, i as int, r),
        ShiniesAction::CreateShiny => r == Ok::<(), Error>(()) && post == pre,
        ShiniesAction::StartEditShiny(_) => r == Ok::<(), Error>(()) && post == pre,
        ShiniesAction::StopEditShiny => r == Ok::<(), Error>(()) && post == pre,
        ShiniesAction::Nothing => r == Ok::<(), Error>(()) && post == pre,
    }
}

/// What `update` does: menu messages switch the screen; screen messages
/// are mapped to the shown screen's action and handled, and are ignored
/// when another screen is shown.
pub open spec fn update_post(
    pre: State,
    post: State,
    message: Message,
    r: Result<(), Error>,
) -> bool {
    match message {
        Message::MenuMessage(MenuMessage::ChangeScreen(t)) => r == Ok::<(), Error>(()) && post
            == (State { screen: screen_for(t), ..pre }),
        Message::CountersMessage(m) => match pre.screen {
            Screen::Counters(_) => counters_arm_post(pre, post, counters_action_for(m), r),
            _ => r == Ok::<(), Error>(()) && post == pre,
        },
        Message::HuntsMessage(m) => match pre.screen {
            Screen::Hunts(_) => hunts_arm_post(pre, post, hunts_action_for(m), r),
            _ => r == Ok::<(), Error>(()) && post == pre,
        },
        Message::ShiniesMessage(m) => match pre.screen {
            Screen::Shinies(_) => shinies_arm_post(pre, post, shinies_action_for(m), r),
            _ => r == Ok::<(), Error>(()) && post == pre,
        },
    }
}

impl State {
    /// Builds the application state over `store`: every hunt and shiny is
    /// loaded into memory, four fresh counters are created, the counters
    /// screen is shown, and nothing is selected or being edited.
    pub fn new(store: Store) -> (st: State)
        requires
            store.inv(),
        ensures
            st.inv(),
            st.store@ == store@,
            st.screen == Screen::Counters(Counters {  }),
            st.active_counters@.len() == 4,
            forall|i: int|
                0 <= i < 4 ==> st.active_counters@[i] == (Counter {
                    hunt: None,
                    inc: 1,
                    count: 0,
                }),
            st.all_hunts@.len() == store@.hunts.len(),
            forall|j: int|
                0 <= j < store@.hunts.len() ==> (#[trigger] st.all_hunts@[j])@ == hunt_of_row(
                    store@,
                    store@.hunts[j],
                ),
            shiny_views(st.all_shinies@) == store@.shinies,
            st.selected_hunt is None,
            st.selected_shiny is None,
            st.editing_counter is None,
            st.editing_hunt@ == blank_hunt(),
            st.editing_hunt_index is None,
            st.editing_shiny@ == blank_shiny(),
            st.editing_shiny_index is None,
    {
        let all_hunts = match store.load_all_hunts() {
            Ok(v) => v,
            Err(_) => Vec::new(),
        };
        let all_shinies = match store.load_all_shinies() {
            Ok(v) => v,
            Err(_) => Vec::new(),
        };
        let mut active_counters: Vec<Counter> = Vec::new();
        active_counters.push(Counter::default());
        active_counters.push(Counter::default());
        active_counters.push(Counter::default());
        active_counters.push(Counter::default());
        let st = State {
            screen: Screen::Counters(Counters::new()),
            active_counters,
            store,
            all_hunts,
            all_shinies,
            selected_hunt: None,
            selected_shiny: None,
            editing_counter: None,
            editing_hunt: Hunt::default(),
            editing_hunt_index: None,
            editing_shiny: Shiny::default(),
            editing_shiny_index: None,
        };
        proof {
            assert forall|i: int, j: int|
                0 <= i < j < st.all_hunts@.len() implies (#[trigger] st.all_hunts@[i])@.row.id != (
            #[trigger] st.all_hunts@[j])@.row.id by {
                assert(st.all_hunts@[i]@.row.id == st.store@.hunts[i].id);
                assert(st.all_hunts@[j]@.row.id == st.store@.hunts[j].id);
            }
            assert forall|i: int|
                0 <= i < st.all_hunts@.len() implies (#[trigger] st.all_hunts@[i]).wf()
                && hunt_present(st.store@.hunts, st.all_hunts@[i]@.row.id) by {
                assert(st.all_hunts@[i]@.row == st.store@.hunts[i]);
                assert(st.store@.hunts[i].id == st.all_hunts@[i]@.row.id);
            }
        }
        st
    }

    /// Dispatches one message: menu messages switch the screen, screen
    /// messages are handled by the shown screen's action; see
    /// [`update_post`]. A failed store write leaves every record
    /// unchanged and surfaces the error.
    pub fn update(&mut self, message: Message) -> (r: Result<(), Error>)
        requires
            old(self).inv(),
        ensures
            final(self).inv(),
            update_post(*old(self), *final(self), message, r),
    {
        match message {
            Message::MenuMessage(MenuMessage::ChangeScreen(t)) => {
                match t {
                    ScreenType::Counters => {
                        self.screen = Screen::Counters(Counters::new());
                    },
                    ScreenType::Hunts => {
                        self.screen = Screen::Hunts(Hunts::new());
                    },
                    ScreenType::Shinies => {
                        self.screen = Screen::Shinies(Shinies::new());
                    },
                }
                Ok(())
            },
            Message::CountersMessage(m) => {
                match self.screen {
                    Screen::Counters(sc) => {
                        let mut sc = sc;
                        let action = sc.update(m);
                        match action {
                            CountersAction::Increment(id) => {
                                if id < self.active_counters.len() {
                                    self.counter_increment(id)
                                } else {
                                    Ok(())
                                }
                            },
                            CountersAction::Decrement(id) => {
                                if id < self.active_counters.len() {
                                    self.counter_decrement(id)
                                } else {
                                    Ok(())
                                }
                            },
                            CountersAction::EditCounter(a) => {
                                match self.editing_counter {
                                    Some(id) => {
                                        if id < self.active_counters.len() {
                                            self.counter_perform(id, a)
                                        } else {
                                            Ok(())
                                        }
                                    },
                                    None => Ok(()),
                                }
                            },
                            CountersAction::StartEditCounter(id) => {
                                self.editing_counter = Some(id);
                                Ok(())
                            },
                            CountersAction::StopEditCounter => {
                                self.editing_counter = None;
                                Ok(())
                            },
                            CountersAction::ShinyFound(_) => Ok(()),
                            CountersAction::Nothing => Ok(()),
                        }
                    },
                    _ => Ok(()),
                }
            },
            Message::HuntsMessage(m) => {
                match self.screen {
                    Screen::Hunts(sc) => {
                        let mut sc = sc;
                        let action = sc.update(m);
                        match action {
                            HuntsAction::SelectHunt(i) => {
                                self.selected_hunt = Some(i);
                                Ok(())
                            },
                            HuntsAction::CloseSelectedHunt => {
                                self.selected_hunt = None;
                                Ok(())
                            },
                            HuntsAction::BeginEditHunt(i) => {
                                self.begin_edit_hunt(i);
                                Ok(())
                            },
                            HuntsAction::StopEditHunt(save) => self.stop_edit_hunt(save),
                            HuntsAction::DeleteHunt(i) => self.delete_hunt_at(i),
                            HuntsAction::CreateHunt => Ok(()),
                            HuntsAction::Nothing => Ok(()),
                        }
                    },
                    _ => Ok(()),
                }
            },
            Message::ShiniesMessage(m) => {
                match self.screen {
                    Screen::Shinies(sc) => {
                        let mut sc = sc;
                        let action = sc.update(m);
                        match action {
                            ShiniesAction::SelectShiny(i) => {
                                self.selected_shiny = Some(i);
                                Ok(())
                            },
                            ShiniesAction::CloseSelectedShiny => {
                                self.selected_shiny = None;
                                Ok(())
                            },
                            ShiniesAction::DeleteShiny(i) => self.delete_shiny_at(i),
                            ShiniesAction::CreateShiny => Ok(()),
                            ShiniesAction::StartEditShiny(_) => Ok(()),
                            ShiniesAction::StopEditShiny => Ok(()),
                            ShiniesAction::Nothing => Ok(()),
                        }
                    },
                    _ => Ok(()),
                }
            },
        }
    }
}

/// Law: for a counter bound to the hunt at position `j`, a successful
/// increment grows that hunt's phase-encounter count by exactly the
/// counter's increment step, and the tally by the same step.
pub proof fn lemma_increment_adds_step(
    pre: State,
    post: State,
    idx: int,
    j: int,
    r: Result<(), Error>,
)
    requires
        pre.inv(),
        0 <= idx < pre.active_counters@.len(),
        pre.active_counters@[idx].hunt is Some,
        hunt_index_ok(pre.all_hunts@, j, pre.active_counters@[idx].hunt.unwrap() as int),
        counter_increment_post(pre, post, idx, r),
        r is Ok,
    ensures
        post.all_hunts@[j]@.row.phase_encounters == pre.all_hunts@[j]@.row.phase_encounters
            + pre.active_counters@[idx].inc,
        post.active_counters@[idx].count == pre.active_counters@[idx].count
            + pre.active_counters@[idx].inc,
{
    let c = pre.active_counters@[idx];
    let id = c.hunt.unwrap() as int;
    assert(!no_hunt_with_id(pre.all_hunts@, id));
    let j2 = choose|j2: int|
        #![auto]
        hunt_index_ok(pre.all_hunts@, j2, id) && increment_bound_case(pre, post, idx, j2, r);
    if j2 != j {
        assert(pre.all_hunts@[j2]@.row.id != pre.all_hunts@[j]@.row.id);
    }
    assert(post.active_counters@[idx] == pre.active_counters@.update(
        idx,
        (Counter { count: (c.count + c.inc) as i32, ..c }),
    )[idx]);
}

/// Law: a decrement leaves a bound hunt whose phase-encounter count is
/// already zero at zero, whatever the counter's own tally holds.
pub proof fn lemma_decrement_floors_at_zero(
    pre: State,
    post: State,
    idx: int,
    j: int,
    r: Result<(), Error>,
)
    requires
        pre.inv(),
        0 <= idx < pre.active_counters@.len(),
        pre.active_counters@[idx].hunt is Some,
        hunt_index_ok(pre.all_hunts@, j, pre.active_counters@[idx].hunt.unwrap() as int),
        pre.all_hunts@[j]@.row.phase_encounters == 0,
        counter_decrement_post(pre, post, idx, r),
    ensures
        post.all_hunts@[j]@.row.phase_encounters == 0,
{
    let c = pre.active_counters@[idx];
    let id = c.hunt.unwrap() as int;
    assert(!no_hunt_with_id(pre.all_hunts@, id));
    let j2 = choose|j2: int|
        #![auto]
        hunt_index_ok(pre.all_hunts@, j2, id) && decrement_bound_case(pre, post, idx, j2);
    if j2 != j {
        assert(pre.all_hunts@[j2]@.row.id != pre.all_hunts@[j]@.row.id);
    }
}

/// Law: a decrement never drives a non-negative tally negative.
pub proof fn lemma_decrement_count_nonnegative(
    pre: State,
    post: State,
    idx: int,
    r: Result<(), Error>,
)
    requires
        0 <= idx < pre.active_counters@.len(),
        pre.active_counters@[idx].count >= 0,
        counter_decrement_post(pre, post, idx, r),
    ensures
        post.active_counters@[idx].count >= 0,
{
    let c = pre.active_counters@[idx];
    match c.hunt {
        None => {},
        Some(id) => {
            if !no_hunt_with_id(pre.all_hunts@, id as int) {
                let j2 = choose|j2: int|
                    #![auto]
                    hunt_index_ok(pre.all_hunts@, j2, id as int) && decrement_bound_case(
                        pre,
                        post,
                        idx,
                        j2,
                    );
                assert(decrement_bound_case(pre, post, idx, j2));
            }
        },
    }
}

/// Law: setting the tally of a bound counter makes the hunt's
/// phase-encounter count exactly the entered value, whatever it held
/// before; the entered value must be non-negative, since a hunt's count
/// never is.
pub proof fn lemma_set_count_reconciles(
    pre: State,
    post: State,
    idx: int,
    j: int,
    v: i32,
    r: Result<(), Error>,
)
    requires
        pre.inv(),
        0 <= idx < pre.active_counters@.len(),
        pre.active_counters@[idx].hunt is Some,
        hunt_index_ok(pre.all_hunts@, j, pre.active_counters@[idx].hunt.unwrap() as int),
        v >= 0,
        counter_perform_post(pre, post, idx, CounterEditAction::SetCount(v), r),
    ensures
        r == Ok::<(), Error>(()),
        post.all_hunts@[j]@.row.phase_encounters == v,
        post.active_counters@[idx].count == v,
{
    let c = pre.active_counters@[idx];
    let id = c.hunt.unwrap() as int;
    assert(!no_hunt_with_id(pre.all_hunts@, id));
    let c2 = (Counter { count: v, ..c });
    let j2 = choose|j2: int|
        #![auto]
        hunt_index_ok(pre.all_hunts@, j2, id) && r == Ok::<(), Error>(()) && bound_sync_post(
            pre,
            post,
            idx,
            j2,
            c2,
            v as int,
        );
    if j2 != j {
        assert(pre.all_hunts@[j2]@.row.id != pre.all_hunts@[j]@.row.id);
    }
}

} // verus!
