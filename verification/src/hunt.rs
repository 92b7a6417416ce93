use vstd::prelude::*;

use crate::counter::HuntEffect;
use crate::error::Error;
use crate::models;
use crate::models::{
    clone_text, hunt_row_wf, opt64_view, text_view, HuntRowView, ShinyView,
};
use crate::shiny::Shiny;
use crate::store::{hunt_of_row, hunt_present, Store};

verus! {

/// Mathematical value of one hunt in the domain shape: the stored row
/// together with the shiny records grouped under it.
#[verifier::ext_equal]
pub ghost struct HuntView {
    pub row: HuntRowView,
    pub shinies: Seq<ShinyView>,
}

/// Mathematical value of a sequence of shiny records.
pub open spec fn shiny_views(s: Seq<Shiny>) -> Seq<ShinyView> {
    s.map_values(|x: Shiny| x@)
}

/// One shiny-hunting campaign together with the shinies it produced.
#[derive(Debug, PartialEq, Eq)]
pub struct Hunt {
    pub id: i32,
    pub target: i32,
    pub previous_encounters: i32,
    pub phase_encounters: i32,
    pub phase_count: i32,
    pub start_time: Option<i64>,
    pub end_time: Option<i64>,
    pub completed: bool,
    pub version: Option<String>,
    pub method: Option<String>,
    pub place: Option<String>,
    pub notes: Option<String>,
    pub shinies: Vec<Shiny>,
}

impl View for Hunt {
    type V = HuntView;

    open spec fn view(&self) -> HuntView {
        HuntView {
            row: HuntRowView {
                id: self.id as int,
                target: self.target as int,
                previous_encounters: self.previous_encounters as int,
                phase_encounters: self.phase_encounters as int,
                phase_count: self.phase_count as int,
                start_time: opt64_view(self.start_time),
                end_time: opt64_view(self.end_time),
                completed: self.completed,
                version: text_view(self.version),
                method: text_view(self.method),
                place: text_view(self.place),
                notes: text_view(self.notes),
            },
            shinies: shiny_views(self.shinies@),
        }
    }
}

impl Hunt {
    /// The invariant every hunt carries: non-negative encounter counts and
    /// at least one phase.
    pub open spec fn wf(&self) -> bool {
        hunt_row_wf(self@.row)
    }
}

/// The value `Hunt::default` yields: a hunt not yet persisted, in its first
/// phase, with nothing recorded.
pub open spec fn blank_hunt() -> HuntView {
    HuntView {
        row: HuntRowView {
            id: 0,
            target: 0,
            previous_encounters: 0,
            phase_encounters: 0,
            phase_count: 1,
            start_time: None,
            end_time: None,
            completed: false,
            version: None,
            method: None,
            place: None,
            notes: None,
        },
        shinies: Seq::empty(),
    }
}

impl Default for Hunt {
    fn default() -> (r: Self)
        ensures
            r@ == blank_hunt(),
            r.wf(),
    {
        let r = Hunt {
            id: 0,
            target: 0,
            previous_encounters: 0,
            phase_encounters: 0,
            phase_count: 1,
            start_time: None,
            end_time: None,
            completed: false,
            version: None,
            method: None,
            place: None,
            notes: None,
            shinies: Vec::new(),
        };
        proof {
            assert(r@ =~= blank_hunt());
        }
        r
    }
}

/// Clones a list of shiny records, keeping each record's value.
pub(crate) fn clone_shinies(v: &Vec<Shiny>) -> (r: Vec<Shiny>)
    ensures
        shiny_views(r@) == shiny_views(v@),
{
    let mut r: Vec<Shiny> = Vec::new();
    let mut i: usize = 0;
    while i < v.len()
        invariant
            i <= v.len(),
            r@.len() == i,
            forall|k: int| 0 <= k < i ==> r@[k]@ == v@[k]@,
        decreases v.len() - i,
    {
        r.push(v[i].clone());
        i += 1;
    }
    proof {
        assert(shiny_views(r@) =~= shiny_views(v@));
    }
    r
}

impl Clone for Hunt {
    fn clone(&self) -> (r: Self)
        ensures
            r@ == self@,
    {
        let r = Hunt {
            id: self.id,
            target: self.target,
            previous_encounters: self.previous_encounters,
            phase_encounters: self.phase_encounters,
            phase_count: self.phase_count,
            start_time: self.start_time,
            end_time: self.end_time,
            completed: self.completed,
            version: clone_text(&self.version),
            method: clone_text(&self.method),
            place: clone_text(&self.place),
            notes: clone_text(&self.notes),
            shinies: clone_shinies(&self.shinies),
        };
        proof {
            assert(r@ =~= self@);
        }
        r
    }
}

impl Hunt {
    /// Builds the domain shape from a stored hunt row and the shiny rows
    /// grouped under it, keeping every field.
    pub fn from_db_hunt_and_shinies(db_hunt: models::Hunt, db_shinies: Vec<models::Shiny>) -> (r: Self)
        ensures
            r@.row == db_hunt@,
            r@.shinies == db_shinies@.map_values(|s: models::Shiny| s@),
    {
        let mut shinies: Vec<Shiny> = Vec::new();
        let mut i: usize = 0;
        while i < db_shinies.len()
            invariant
                i <= db_shinies.len(),
                shinies@.len() == i,
                forall|k: int| 0 <= k < i ==> shinies@[k]@ == db_shinies@[k]@,
            decreases db_shinies.len() - i,
        {
            shinies.push(Shiny::from_db_shiny(db_shinies[i].clone()));
            i += 1;
        }
        let r = Hunt {
            id: db_hunt.id,
            target: db_hunt.target,
            previous_encounters: db_hunt.previous_encounters,
            phase_encounters: db_hunt.phase_encounters,
            phase_count: db_hunt.phase_count,
            start_time: db_hunt.start_time,
            end_time: db_hunt.end_time,
            completed: db_hunt.completed,
            version: db_hunt.version,
            method: db_hunt.method,
            place: db_hunt.place,
            notes: db_hunt.notes,
            shinies,
        };
        proof {
            assert(r@.row =~= db_hunt@);
            assert(r@.shinies =~= db_shinies@.map_values(|s: models::Shiny| s@));
        }
        r
    }

    /// Copies the hunt back into the stored row shape, keeping every field;
    /// the grouped shinies are not part of the row.
    pub fn copy_into_db_hunt(&self) -> (r: models::Hunt)
        ensures
            r@ == self@.row,
    {
        let r = models::Hunt {
            id: self.id,
            target: self.target,
            previous_encounters: self.previous_encounters,
            phase_encounters: self.phase_encounters,
            phase_count: self.phase_count,
            start_time: self.start_time,
            end_time: self.end_time,
            completed: self.completed,
            version: clone_text(&self.version),
            method: clone_text(&self.method),
            place: clone_text(&self.place),
            notes: clone_text(&self.notes),
        };
        proof {
            assert(r@ =~= self@.row);
        }
        r
    }

    /// Returns every stored hunt, each with its shiny rows grouped under
    /// it, in store order.
    pub fn get_all(db: &Store) -> (r: Result<Vec<Hunt>, Error>)
        ensures
            r is Ok,
            r->Ok_0@.len() == db@.hunts.len(),
            forall|j: int|
                0 <= j < db@.hunts.len() ==> (#[trigger] r->Ok_0@[j])@ == hunt_of_row(
                    db@,
                    db@.hunts[j],
                ),
    {
        db.load_all_hunts()
    }

    /// Returns the stored hunt keyed `hunt_id` with its shiny rows grouped
    /// under it, or `NotFound` if no hunt row carries that key.
    pub fn get_by_id(hunt_id: i32, db: &Store) -> (r: Result<Hunt, Error>)
        ensures
            hunt_present(db@.hunts, hunt_id as int) ==> {
                &&& r is Ok
                &&& exists|j: int|
                    0 <= j < db@.hunts.len() && (#[trigger] db@.hunts[j]).id == hunt_id as int
                        && r->Ok_0@ == hunt_of_row(db@, db@.hunts[j])
            },
            !hunt_present(db@.hunts, hunt_id as int) ==> r == Err::<Hunt, Error>(Error::NotFound),
    {
        db.load_hunt_by_id(hunt_id)
    }

    /// Applies the effect a counter operation owes to this hunt. The caller
    /// resolves the effect's `hunt_id` to this record; only the
    /// phase-encounter count is ever touched. Fails with `Overflow`,
    /// changing nothing, if the new count would leave the range of
    /// non-negative representable values.
    pub fn apply_effect(&mut self, eff: &HuntEffect) -> (r: Result<(), Error>)
        ensures
            match *eff {
                HuntEffect::Untouched => {
                    &&& r == Ok::<(), Error>(())
                    &&& *final(self) == *old(self)
                },
                HuntEffect::Add { hunt_id, delta } => {
                    let sum = old(self).phase_encounters + delta;
                    if 0 <= sum <= i32::MAX {
                        &&& r == Ok::<(), Error>(())
                        &&& *final(self) == (Hunt { phase_encounters: (sum as i32), ..*old(self) })
                    } else {
                        &&& r == Err::<(), Error>(Error::Overflow)
                        &&& *final(self) == *old(self)
                    }
                },
                HuntEffect::SubOneFloored { hunt_id } => {
                    &&& r == Ok::<(), Error>(())
                    &&& *final(self) == (Hunt {
                        phase_encounters: (if old(self).phase_encounters > 0 {
                            (old(self).phase_encounters - 1) as i32
                        } else {
                            old(self).phase_encounters
                        }),
                        ..*old(self)
                    })
                },
                HuntEffect::SetTo { hunt_id, value } => {
                    if value >= 0 {
                        &&& r == Ok::<(), Error>(())
                        &&& *final(self) == (Hunt { phase_encounters: value, ..*old(self) })
                    } else {
                        &&& r == Err::<(), Error>(Error::Overflow)
                        &&& *final(self) == *old(self)
                    }
                },
            },
    {
        match eff {
            HuntEffect::Untouched => Ok(()),
            HuntEffect::Add { hunt_id: _, delta } => {
                match self.phase_encounters.checked_add(*delta) {
                    Some(sum) => {
                        if sum >= 0 {
                            self.phase_encounters = sum;
                            Ok(())
                        } else {
                            Err(Error::Overflow)
                        }
                    }
                    None => Err(Error::Overflow),
                }
            }
            HuntEffect::SubOneFloored { hunt_id: _ } => {
                if self.phase_encounters > 0 {
                    self.phase_encounters = self.phase_encounters - 1;
                }
                Ok(())
            }
            HuntEffect::SetTo { hunt_id: _, value } => {
                if *value >= 0 {
                    self.phase_encounters = *value;
                    Ok(())
                } else {
                    Err(Error::Overflow)
                }
            }
        }
    }
}

} // verus!
