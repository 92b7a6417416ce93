use vstd::prelude::*;

verus! {

/// Messages of the encounter-lookup screen.
#[derive(Debug, Clone, Copy, PartialEq, Eq)]
pub enum EncountersMessage {
    LookupEncounter(usize),
}

/// The encounter-lookup screen; it holds no state of its own.
#[derive(Debug, Clone, Copy, PartialEq, Eq)]
pub struct Encounters {}

impl Encounters {
    pub fn new() -> (r: Self)
        ensures
            r == (Encounters {  }),
    {
        Encounters {  }
    }
}

impl Default for Encounters {
    fn default() -> (r: Self)
        ensures
            r == (Encounters {  }),
    {
        Encounters {  }
    }
}

} // verus!
