use shutils::counter::CounterEditAction;
use shutils::error::Error;
use shutils::hunt::Hunt;
use shutils::screens::counters::CountersMessage;
use shutils::screens::hunts::HuntsMessage;
use shutils::screens::shinies::ShiniesMessage;
use shutils::screens::ScreenType;
use shutils::shiny::Shiny;
use shutils::state::{Message, State};
use shutils::store::Store;

fn store_with_hunt(previous: i32, phase: i32) -> (Store, i32) {
    let mut st = Store::new();
    let mut h = Hunt::default();
    h.target = 6;
    h.previous_encounters = previous;
    h.phase_encounters = phase;
    let stored = st.upsert_hunt(&h).unwrap();
    let id = stored.id;
    (st, id)
}

fn counters_msg(m: CountersMessage) -> Message {
    Message::CountersMessage(m)
}

#[test]
fn new_state_loads_records_and_defaults() {
    let (store, id) = store_with_hunt(10, 3);
    let state = State::new(store);
    assert_eq!(state.active_counters.len(), 4);
    assert_eq!(state.active_counters[0].inc, 1);
    assert_eq!(state.all_hunts.len(), 1);
    assert_eq!(state.all_hunts[0].id, id);
    assert_eq!(state.selected_hunt, None);
    assert_eq!(state.editing_counter, None);
}

#[test]
fn ten_increments_on_fresh_hunt() {
    // A new hunt carrying fifty prior encounters, a counter bound with
    // step one, ten increments: ten phase encounters, sixty in all.
    let (store, id) = store_with_hunt(50, 0);
    let mut state = State::new(store);
    state.update(counters_msg(CountersMessage::StartEditCounter(0))).unwrap();
    state.update(counters_msg(CountersMessage::SelectHunt(id))).unwrap();
    state.update(counters_msg(CountersMessage::StopEditCounter)).unwrap();
    for _ in 0..10 {
        state.update(counters_msg(CountersMessage::Increment(0))).unwrap();
    }
    let h = &state.all_hunts[0];
    assert_eq!(h.phase_encounters, 10);
    assert_eq!(h.previous_encounters + h.phase_encounters, 60);
    // The store holds the same authoritative value.
    assert_eq!(state.store.load_hunt_by_id(id).unwrap().phase_encounters, 10);
    // The bound counter mirrored every step.
    assert_eq!(state.active_counters[0].count, 10);
}

#[test]
fn set_count_then_unbind_leaves_hunt_alone() {
    // A bound counter reconciled to zero, then unbound: the next
    // increment touches only the counter's own tally.
    let (store, id) = store_with_hunt(0, 5);
    let mut state = State::new(store);
    state.update(counters_msg(CountersMessage::StartEditCounter(1))).unwrap();
    state.update(counters_msg(CountersMessage::SelectHunt(id))).unwrap();
    state.update(counters_msg(CountersMessage::EditCount("0".to_string()))).unwrap();
    assert_eq!(state.all_hunts[0].phase_encounters, 0);
    assert_eq!(state.active_counters[1].count, 0);
    state.update(counters_msg(CountersMessage::UnsetHunt)).unwrap();
    state.update(counters_msg(CountersMessage::StopEditCounter)).unwrap();
    state.update(counters_msg(CountersMessage::Increment(1))).unwrap();
    assert_eq!(state.all_hunts[0].phase_encounters, 0);
    assert_eq!(state.active_counters[1].count, 1);
}

#[test]
fn decrement_floors_hunt_and_counter_independently() {
    let (store, id) = store_with_hunt(0, 0);
    let mut state = State::new(store);
    // Bind counter 2 whose own tally is positive while the hunt is at zero.
    state.active_counters[2].hunt = Some(id);
    state.active_counters[2].count = 3;
    state.update(counters_msg(CountersMessage::Decrement(2))).unwrap();
    assert_eq!(state.all_hunts[0].phase_encounters, 0);
    assert_eq!(state.active_counters[2].count, 2);
}

#[test]
fn increment_with_dangling_binding_touches_only_tally() {
    let (store, _) = store_with_hunt(0, 4);
    let mut state = State::new(store);
    state.active_counters[0].hunt = Some(999);
    state.update(counters_msg(CountersMessage::Increment(0))).unwrap();
    assert_eq!(state.active_counters[0].count, 1);
    assert_eq!(state.all_hunts[0].phase_encounters, 4);
}

#[test]
fn counter_overflow_fails_closed() {
    let (store, id) = store_with_hunt(0, 2);
    let mut state = State::new(store);
    state.active_counters[0].hunt = Some(id);
    state.active_counters[0].count = i32::MAX;
    let r = state.update(counters_msg(CountersMessage::Increment(0)));
    assert_eq!(r, Err(Error::Overflow));
    assert_eq!(state.active_counters[0].count, i32::MAX);
    assert_eq!(state.all_hunts[0].phase_encounters, 2);
}

#[test]
fn hunt_overflow_fails_closed() {
    let (store, id) = store_with_hunt(0, i32::MAX);
    let mut state = State::new(store);
    state.active_counters[0].hunt = Some(id);
    let r = state.update(counters_msg(CountersMessage::Increment(0)));
    assert_eq!(r, Err(Error::Overflow));
    assert_eq!(state.all_hunts[0].phase_encounters, i32::MAX);
    assert_eq!(state.active_counters[0].count, 0);
    assert_eq!(state.store.load_hunt_by_id(id).unwrap().phase_encounters, i32::MAX);
}

#[test]
fn negative_set_count_on_bound_counter_fails_closed() {
    let (store, id) = store_with_hunt(0, 5);
    let mut state = State::new(store);
    let r = state.counter_perform(0, CounterEditAction::SetHunt(id));
    assert!(r.is_ok());
    let r = state.counter_perform(0, CounterEditAction::SetCount(-1));
    assert_eq!(r, Err(Error::Overflow));
    assert_eq!(state.all_hunts[0].phase_encounters, 5);
    assert_eq!(state.active_counters[0].count, 0);
}

#[test]
fn messages_for_hidden_screen_are_ignored() {
    let (store, _) = store_with_hunt(0, 1);
    let mut state = State::new(store);
    // The counters screen is shown, so hunt messages do nothing.
    state.update(Message::HuntsMessage(HuntsMessage::SelectHunt(0))).unwrap();
    assert_eq!(state.selected_hunt, None);
}

#[test]
fn change_screen_and_select_hunt() {
    let (store, _) = store_with_hunt(0, 1);
    let mut state = State::new(store);
    state
        .update(Message::MenuMessage(shutils::state::MenuMessage::ChangeScreen(ScreenType::Hunts)))
        .unwrap();
    state.update(Message::HuntsMessage(HuntsMessage::SelectHunt(0))).unwrap();
    assert_eq!(state.selected_hunt, Some(0));
    state.update(Message::HuntsMessage(HuntsMessage::CloseSelectedHunt)).unwrap();
    assert_eq!(state.selected_hunt, None);
}

#[test]
fn edit_flow_persists_on_save() {
    let (store, id) = store_with_hunt(7, 1);
    let mut state = State::new(store);
    state
        .update(Message::MenuMessage(shutils::state::MenuMessage::ChangeScreen(ScreenType::Hunts)))
        .unwrap();
    state.update(Message::HuntsMessage(HuntsMessage::StartEditHunt(0))).unwrap();
    assert_eq!(state.editing_hunt.id, id);
    state.editing_hunt.place = Some("route".to_string());
    state.update(Message::HuntsMessage(HuntsMessage::StopEditHunt(true))).unwrap();
    assert_eq!(state.all_hunts[0].place.as_deref(), Some("route"));
    assert_eq!(state.store.load_hunt_by_id(id).unwrap().place.as_deref(), Some("route"));
    assert_eq!(state.editing_hunt_index, None);
    assert_eq!(state.editing_hunt.id, 0);
}

#[test]
fn edit_flow_discards_without_save() {
    let (store, id) = store_with_hunt(7, 1);
    let mut state = State::new(store);
    state.begin_edit_hunt(0);
    state.editing_hunt.place = Some("nowhere".to_string());
    state.stop_edit_hunt(false).unwrap();
    assert_eq!(state.all_hunts[0].place, None);
    assert_eq!(state.store.load_hunt_by_id(id).unwrap().place, None);
}

#[test]
fn saving_new_hunt_adopts_store_assigned_id() {
    // An edited hunt the store has never seen is inserted under a fresh
    // key, and the in-memory list adopts the returned row.
    let (store, first_id) = store_with_hunt(0, 0);
    let mut state = State::new(store);
    state.begin_edit_hunt(5);
    assert_eq!(state.editing_hunt.id, 0);
    state.editing_hunt.target = 448;
    state.stop_edit_hunt(true).unwrap();
    assert_eq!(state.all_hunts.len(), 2);
    let adopted = &state.all_hunts[1];
    assert_ne!(adopted.id, 0);
    assert_ne!(adopted.id, first_id);
    assert_eq!(adopted.target, 448);
    assert_eq!(state.store.load_hunt_by_id(adopted.id).unwrap().target, 448);
}

#[test]
fn delete_hunt_updates_memory_and_store() {
    let (mut store, id) = store_with_hunt(0, 0);
    let mut s = Shiny::default();
    s.hunt_id = Some(id);
    store.upsert_shiny(&s).unwrap();
    let mut state = State::new(store);
    assert_eq!(state.all_shinies[0].hunt_id, Some(id));
    state
        .update(Message::MenuMessage(shutils::state::MenuMessage::ChangeScreen(ScreenType::Hunts)))
        .unwrap();
    state.update(Message::HuntsMessage(HuntsMessage::DeleteHunt(0))).unwrap();
    assert!(state.all_hunts.is_empty());
    assert_eq!(state.store.load_hunt_by_id(id), Err(Error::NotFound));
    assert_eq!(state.all_shinies[0].hunt_id, None);
    assert_eq!(state.store.load_shiny_by_id(1).unwrap().hunt_id, None);
}

#[test]
fn delete_shiny_updates_memory_and_store() {
    let (mut store, _) = store_with_hunt(0, 0);
    store.upsert_shiny(&Shiny::default()).unwrap();
    let mut state = State::new(store);
    state
        .update(Message::MenuMessage(shutils::state::MenuMessage::ChangeScreen(
            ScreenType::Shinies,
        )))
        .unwrap();
    state.update(Message::ShiniesMessage(ShiniesMessage::SelectShiny(0))).unwrap();
    assert_eq!(state.selected_shiny, Some(0));
    state.update(Message::ShiniesMessage(ShiniesMessage::DeleteShiny(0))).unwrap();
    assert!(state.all_shinies.is_empty());
    assert_eq!(state.store.load_shiny_by_id(1), Err(Error::NotFound));
    assert_eq!(state.selected_shiny, None);
}

#[test]
fn out_of_range_counter_message_is_ignored() {
    let (store, _) = store_with_hunt(0, 0);
    let mut state = State::new(store);
    state.update(counters_msg(CountersMessage::Increment(9))).unwrap();
    for c in &state.active_counters {
        assert_eq!(c.count, 0);
    }
}
