use vstd::prelude::*;

use crate::error::Error;
use crate::models;
use crate::models::{clone_text, opt32_view, opt64_view, text_view, ShinyView};
use crate::store::{shiny_present, Store};

verus! {

/// One found rare result, optionally attributed to the hunt that produced
/// it. Carries the same fields as the stored row shape.
#[derive(Debug, PartialEq, Eq)]
pub struct Shiny {
    pub id: i32,
    pub species: i32,
    pub gender: Option<i32>,
    pub name: Option<String>,
    pub total_encounters: Option<i32>,
    pub phase_encounters: Option<i32>,
    pub phase_number: Option<i32>,
    pub found_time: Option<i64>,
    pub version: Option<String>,
    pub method: Option<String>,
    pub place: Option<String>,
    pub notes: Option<String>,
    pub hunt_id: Option<i32>,
}

impl View for Shiny {
    type V = ShinyView;

    open spec fn view(&self) -> ShinyView {
        ShinyView {
            id: self.id as int,
            species: self.species as int,
            gender: opt32_view(self.gender),
            name: text_view(self.name),
            total_encounters: opt32_view(self.total_encounters),
            phase_encounters: opt32_view(self.phase_encounters),
            phase_number: opt32_view(self.phase_number),
            found_time: opt64_view(self.found_time),
            version: text_view(self.version),
            method: text_view(self.method),
            place: text_view(self.place),
            notes: text_view(self.notes),
            hunt_id: opt32_view(self.hunt_id),
        }
    }
}

impl Default for Shiny {
    /// A blank shiny record, not yet persisted: id zero, everything unset.
    fn default() -> (r: Self)
        ensures
            r@ == blank_shiny(),
    {
        Shiny {
            id: 0,
            species: 0,
            gender: None,
            name: None,
            total_encounters: None,
            phase_encounters: None,
            phase_number: None,
            found_time: None,
            version: None,
            method: None,
            place: None,
            notes: None,
            hunt_id: None,
        }
    }
}

/// The value `Shiny::default` yields.
pub open spec fn blank_shiny() -> ShinyView {
    ShinyView {
        id: 0,
        species: 0,
        gender: None,
        name: None,
        total_encounters: None,
        phase_encounters: None,
        phase_number: None,
        found_time: None,
        version: None,
        method: None,
        place: None,
        notes: None,
        hunt_id: None,
    }
}

impl Clone for Shiny {
    fn clone(&self) -> (r: Self)
        ensures
            r@ == self@,
    {
        Shiny {
            id: self.id,
            species: self.species,
            gender: self.gender,
            name: clone_text(&self.name),
            total_encounters: self.total_encounters,
            phase_encounters: self.phase_encounters,
            phase_number: self.phase_number,
            found_time: self.found_time,
            version: clone_text(&self.version),
            method: clone_text(&self.method),
            place: clone_text(&self.place),
            notes: clone_text(&self.notes),
            hunt_id: self.hunt_id,
        }
    }
}

impl Shiny {
    /// Builds the domain shape from a stored row, keeping every field.
    pub fn from_db_shiny(db_shiny: models::Shiny) -> (r: Self)
        ensures
            r@ == db_shiny@,
    {
        Shiny {
            id: db_shiny.id,
            species: db_shiny.species,
            gender: db_shiny.gender,
            name: db_shiny.name,
            total_encounters: db_shiny.total_encounters,
            phase_encounters: db_shiny.phase_encounters,
            phase_number: db_shiny.phase_number,
            found_time: db_shiny.found_time,
            version: db_shiny.version,
            method: db_shiny.method,
            place: db_shiny.place,
            notes: db_shiny.notes,
            hunt_id: db_shiny.hunt_id,
        }
    }

    /// Copies the record back into the stored row shape, keeping every field.
    pub fn copy_into_db_shiny(&self) -> (r: models::Shiny)
        ensures
            r@ == self@,
    {
        models::Shiny {
            id: self.id,
            species: self.species,
            gender: self.gender,
            name: clone_text(&self.name),
            total_encounters: self.total_encounters,
            phase_encounters: self.phase_encounters,
            phase_number: self.phase_number,
            found_time: self.found_time,
            version: clone_text(&self.version),
            method: clone_text(&self.method),
            place: clone_text(&self.place),
            notes: clone_text(&self.notes),
            hunt_id: self.hunt_id,
        }
    }

    /// Returns every stored shiny in store order.
    pub fn get_all(db: &Store) -> (r: Result<Vec<Shiny>, Error>)
        ensures
            r is Ok,
            crate::hunt::shiny_views(r->Ok_0@) == db@.shinies,
    {
        db.load_all_shinies()
    }

    /// Returns the stored shiny keyed `shiny_id`, or `NotFound` if no
    /// shiny row carries that key.
    pub fn get_by_id(shiny_id: i32, db: &Store) -> (r: Result<Shiny, Error>)
        ensures
            shiny_present(db@.shinies, shiny_id as int) ==> {
                &&& r is Ok
                &&& exists|j: int|
                    0 <= j < db@.shinies.len() && (#[trigger] db@.shinies[j]).id == shiny_id as int
                        && r->Ok_0@ == db@.shinies[j]
            },
            !shiny_present(db@.shinies, shiny_id as int) ==> r == Err::<Shiny, Error>(
                Error::NotFound,
            ),
    {
        db.load_shiny_by_id(shiny_id)
    }
}

} // verus!
