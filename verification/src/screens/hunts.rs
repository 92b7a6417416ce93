use vstd::prelude::*;

verus! {

/// Messages of the hunts screen. Indices name positions in the in-memory
/// hunt list; the save flag of `StopEditHunt` tells whether the edit is to
/// be persisted or discarded.
#[derive(Debug, Clone, Copy, PartialEq, Eq)]
pub enum HuntsMessage {
    CreateHunt,
    DeleteHunt(usize),
    SelectHunt(usize),
    CloseSelectedHunt,
    StartEditHunt(usize),
    StopEditHunt(bool),
}

/// What the hunts screen asks the application state to do.
#[derive(Debug, Clone, Copy, PartialEq, Eq)]
pub enum HuntsAction {
    Nothing,
    CreateHunt,
    DeleteHunt(usize),
    SelectHunt(usize),
    CloseSelectedHunt,
    BeginEditHunt(usize),
    StopEditHunt(bool),
}

/// The action the hunts screen yields for `message`.
pub open spec fn hunts_action_for(message: HuntsMessage) -> HuntsAction {
    match message {
        HuntsMessage::CreateHunt => HuntsAction::CreateHunt,
        HuntsMessage::DeleteHunt(index) => HuntsAction::DeleteHunt(index),
        HuntsMessage::SelectHunt(index) => HuntsAction::SelectHunt(index),
        HuntsMessage::CloseSelectedHunt => HuntsAction::CloseSelectedHunt,
        HuntsMessage::StartEditHunt(index) => HuntsAction::BeginEditHunt(index),
        HuntsMessage::StopEditHunt(save) => HuntsAction::StopEditHunt(save),
    }
}

/// The hunts screen; it holds no state of its own.
#[derive(Debug, Clone, Copy, PartialEq, Eq)]
pub struct Hunts {}

impl Hunts {
    pub fn new() -> (r: Self)
        ensures
            r == (Hunts {  }),
    {
        Hunts {  }
    }

    /// Turns a screen message into the action the application state should
    /// take; see [`hunts_action_for`].
    pub fn update(&mut self, message: HuntsMessage) -> (r: HuntsAction)
        ensures
            r == hunts_action_for(message),
    {
        match message {
            HuntsMessage::CreateHunt => HuntsAction::CreateHunt,
            HuntsMessage::DeleteHunt(index) => HuntsAction::DeleteHunt(index),
            HuntsMessage::SelectHunt(index) => HuntsAction::SelectHunt(index),
            HuntsMessage::CloseSelectedHunt => HuntsAction::CloseSelectedHunt,
            HuntsMessage::StartEditHunt(index) => HuntsAction::BeginEditHunt(index),
            HuntsMessage::StopEditHunt(save) => HuntsAction::StopEditHunt(save),
        }
    }
}

impl Default for Hunts {
    fn default() -> (r: Self)
        ensures
            r == (Hunts {  }),
    {
        Hunts {  }
    }
}

} // verus!
