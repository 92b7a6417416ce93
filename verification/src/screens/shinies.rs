use vstd::prelude::*;

verus! {

/// Messages of the shinies screen. Indices name positions in the
/// in-memory shiny list.
#[derive(Debug, Clone, Copy, PartialEq, Eq)]
pub enum ShiniesMessage {
    CreateShiny,
    DeleteShiny(usize),
    SelectShiny(usize),
    CloseSelectedShiny,
    StartEditShiny(usize),
    StopEditShiny,
}

/// What the shinies screen asks the application state to do.
#[derive(Debug, Clone, Copy, PartialEq, Eq)]
pub enum ShiniesAction {
    Nothing,
    CreateShiny,
    DeleteShiny(usize),
    SelectShiny(usize),
    CloseSelectedShiny,
    StartEditShiny(usize),
    StopEditShiny,
}

/// The action the shinies screen yields for `message`.
pub open spec fn shinies_action_for(message: ShiniesMessage) -> ShiniesAction {
    match message {
        ShiniesMessage::CreateShiny => ShiniesAction::CreateShiny,
        ShiniesMessage::DeleteShiny(index) => ShiniesAction::DeleteShiny(index),
        ShiniesMessage::SelectShiny(index) => ShiniesAction::SelectShiny(index),
        ShiniesMessage::CloseSelectedShiny => ShiniesAction::CloseSelectedShiny,
        ShiniesMessage::StartEditShiny(index) => ShiniesAction::StartEditShiny(index),
        ShiniesMessage::StopEditShiny => ShiniesAction::StopEditShiny,
    }
}

/// The shinies screen; it holds no state of its own.
#[derive(Debug, Clone, Copy, PartialEq, Eq)]
pub struct Shinies {}

impl Shinies {
    pub fn new() -> (r: Self)
        ensures
            r == (Shinies {  }),
    {
        Shinies {  }
    }

    /// Turns a screen message into the action the application state should
    /// take; see [`shinies_action_for`].
    pub fn update(&mut self, message: ShiniesMessage) -> (r: ShiniesAction)
        ensures
            r == shinies_action_for(message),
    {
        match message {
            ShiniesMessage::CreateShiny => ShiniesAction::CreateShiny,
            ShiniesMessage::DeleteShiny(index) => ShiniesAction::DeleteShiny(index),
            ShiniesMessage::SelectShiny(index) => ShiniesAction::SelectShiny(index),
            ShiniesMessage::CloseSelectedShiny => ShiniesAction::CloseSelectedShiny,
            ShiniesMessage::StartEditShiny(index) => ShiniesAction::StartEditShiny(index),
            ShiniesMessage::StopEditShiny => ShiniesAction::StopEditShiny,
        }
    }
}

impl Default for Shinies {
    fn default() -> (r: Self)
        ensures
            r == (Shinies {  }),
    {
        Shinies {  }
    }
}

} // verus!
