use vstd::prelude::*;

verus! {

/// Mathematical value of an optional text field.
pub open spec fn text_view(t: Option<String>) -> Option<Seq<char>> {
    match t {
        Some(s) => Some(s@),
        None => None,
    }
}

/// Mathematical value of an optional 32-bit integer field.
pub open spec fn opt32_view(v: Option<i32>) -> Option<int> {
    match v {
        Some(x) => Some(x as int),
        None => None,
    }
}

/// Mathematical value of an optional timestamp field.
pub open spec fn opt64_view(v: Option<i64>) -> Option<int> {
    match v {
        Some(x) => Some(x as int),
        None => None,
    }
}

/// Mathematical value of one stored hunt row.
#[verifier::ext_equal]
pub ghost struct HuntRowView {
    pub id: int,
    pub target: int,
    pub previous_encounters: int,
    pub phase_encounters: int,
    pub phase_count: int,
    pub start_time: Option<int>,
    pub end_time: Option<int>,
    pub completed: bool,
    pub version: Option<Seq<char>>,
    pub method: Option<Seq<char>>,
    pub place: Option<Seq<char>>,
    pub notes: Option<Seq<char>>,
}

/// Mathematical value of one shiny record; shared by the stored row shape
/// and the domain shape, which carry the same fields.
#[verifier::ext_equal]
pub ghost struct ShinyView {
    pub id: int,
    pub species: int,
    pub gender: Option<int>,
    pub name: Option<Seq<char>>,
    pub total_encounters: Option<int>,
    pub phase_encounters: Option<int>,
    pub phase_number: Option<int>,
    pub found_time: Option<int>,
    pub version: Option<Seq<char>>,
    pub method: Option<Seq<char>>,
    pub place: Option<Seq<char>>,
    pub notes: Option<Seq<char>>,
    pub hunt_id: Option<int>,
}

/// The invariant every hunt carries: non-negative encounter counts and at
/// least one phase.
pub open spec fn hunt_row_wf(r: HuntRowView) -> bool {
    &&& r.previous_encounters >= 0
    &&& r.phase_encounters >= 0
    &&& r.phase_count >= 1
}

/// One row of the hunts table: a hunt without its child shiny records.
#[derive(Debug, PartialEq, Eq)]
pub struct Hunt {
    pub id: i32,
    pub target: i32,
    pub previous_encounters: i32,
    pub phase_encounters: i32,
    pub phase_count: i32,
    pub start_time: Option<i64>,
    pub end_time: Option<i64>,
    pub completed: bool,
    pub version: Option<String>,
    pub method: Option<String>,
    pub place: Option<String>,
    pub notes: Option<String>,
}

impl View for Hunt {
    type V = HuntRowView;

    open spec fn view(&self) -> HuntRowView {
        HuntRowView {
            id: self.id as int,
            target: self.target as int,
            previous_encounters: self.previous_encounters as int,
            phase_encounters: self.phase_encounters as int,
            phase_count: self.phase_count as int,
            start_time: opt64_view(self.start_time),
            end_time: opt64_view(self.end_time),
            completed: self.completed,
            version: text_view(self.version),
            method: text_view(self.method),
            place: text_view(self.place),
            notes: text_view(self.notes),
        }
    }
}

/// One row of the shinies table.
#[derive(Debug, PartialEq, Eq)]
pub struct Shiny {
    pub id: i32,
    pub species: i32,
    pub gender: Option<i32>,
    pub name: Option<String>,
    pub total_encounters: Option<i32>,
    pub phase_encounters: Option<i32>,
    pub phase_number: Option<i32>,
    pub found_time: Option<i64>,
    pub version: Option<String>,
    pub method: Option<String>,
    pub place: Option<String>,
    pub notes: Option<String>,
    pub hunt_id: Option<i32>,
}

impl View for Shiny {
    type V = ShinyView;

    open spec fn view(&self) -> ShinyView {
        ShinyView {
            id: self.id as int,
            species: self.species as int,
            gender: opt32_view(self.gender),
            name: text_view(self.name),
            total_encounters: opt32_view(self.total_encounters),
            phase_encounters: opt32_view(self.phase_encounters),
            phase_number: opt32_view(self.phase_number),
            found_time: opt64_view(self.found_time),
            version: text_view(self.version),
            method: text_view(self.method),
            place: text_view(self.place),
            notes: text_view(self.notes),
            hunt_id: opt32_view(self.hunt_id),
        }
    }
}

/// Clones an optional text field, keeping its value.
pub(crate) fn clone_text(t: &Option<String>) -> (r: Option<String>)
    ensures
        text_view(r) == text_view(*t),
{
    match t {
        Some(s) => Some(s.clone()),
        None => None,
    }
}

impl Clone for Hunt {
    fn clone(&self) -> (r: Self)
        ensures
            r@ == self@,
    {
        Hunt {
            id: self.id,
            target: self.target,
            previous_encounters: self.previous_encounters,
            phase_encounters: self.phase_encounters,
            phase_count: self.phase_count,
            start_time: self.start_time,
            end_time: self.end_time,
            completed: self.completed,
            version: clone_text(&self.version),
            method: clone_text(&self.method),
            place: clone_text(&self.place),
            notes: clone_text(&self.notes),
        }
    }
}

impl Clone for Shiny {
    fn clone(&self) -> (r: Self)
        ensures
            r@ == self@,
    {
        Shiny {
            id: self.id,
            species: self.species,
            gender: self.gender,
            name: clone_text(&self.name),
            total_encounters: self.total_encounters,
            phase_encounters: self.phase_encounters,
            phase_number: self.phase_number,
            found_time: self.found_time,
            version: clone_text(&self.version),
            method: clone_text(&self.method),
            place: clone_text(&self.place),
            notes: clone_text(&self.notes),
            hunt_id: self.hunt_id,
        }
    }
}

} // verus!
