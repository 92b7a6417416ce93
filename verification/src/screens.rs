use vstd::prelude::*;

pub mod counters;
pub mod encounters;
pub mod hunts;
pub mod shinies;

pub use counters::{Counters, CountersMessage};
pub use hunts::{Hunts, HuntsAction, HuntsMessage};
pub use shinies::{Shinies, ShiniesMessage};

verus! {

/// Which screen the presentation layer shows.
#[derive(Debug, Clone, Copy, PartialEq, Eq)]
pub enum ScreenType {
    Counters,
    Hunts,
    Shinies,
}

} // verus!
