use shutils::counter::CounterEditAction;
use shutils::screens::counters::{parse_i32, Counters, CountersAction, CountersMessage};
use shutils::screens::hunts::{Hunts, HuntsAction, HuntsMessage};
use shutils::screens::shinies::{Shinies, ShiniesAction, ShiniesMessage};

#[test]
fn parse_plain_and_signed_numbers() {
    assert_eq!(parse_i32("123"), Some(123));
    assert_eq!(parse_i32("+7"), Some(7));
    assert_eq!(parse_i32("-5"), Some(-5));
    assert_eq!(parse_i32("0"), Some(0));
    assert_eq!(parse_i32("007"), Some(7));
    assert_eq!(parse_i32("-0"), Some(0));
}

#[test]
fn parse_rejects_malformed_text() {
    assert_eq!(parse_i32(""), None);
    assert_eq!(parse_i32("+"), None);
    assert_eq!(parse_i32("-"), None);
    assert_eq!(parse_i32("abc"), None);
    assert_eq!(parse_i32("12a"), None);
    assert_eq!(parse_i32(" 12"), None);
    assert_eq!(parse_i32("1 2"), None);
    assert_eq!(parse_i32("--3"), None);
}

#[test]
fn parse_honors_the_exact_range() {
    assert_eq!(parse_i32("2147483647"), Some(i32::MAX));
    assert_eq!(parse_i32("2147483648"), None);
    assert_eq!(parse_i32("-2147483648"), Some(i32::MIN));
    assert_eq!(parse_i32("-2147483649"), None);
    assert_eq!(parse_i32("99999999999999999999"), None);
}

#[test]
fn counters_screen_maps_messages_to_actions() {
    let mut sc = Counters::new();
    assert_eq!(sc.update(CountersMessage::Increment(2)), CountersAction::Increment(2));
    assert_eq!(sc.update(CountersMessage::Decrement(0)), CountersAction::Decrement(0));
    assert_eq!(
        sc.update(CountersMessage::StartEditCounter(3)),
        CountersAction::StartEditCounter(3)
    );
    assert_eq!(sc.update(CountersMessage::StopEditCounter), CountersAction::StopEditCounter);
    assert_eq!(
        sc.update(CountersMessage::SelectHunt(8)),
        CountersAction::EditCounter(CounterEditAction::SetHunt(8))
    );
    assert_eq!(
        sc.update(CountersMessage::UnsetHunt),
        CountersAction::EditCounter(CounterEditAction::UnsetHunt)
    );
    assert_eq!(sc.update(CountersMessage::ShinyFound(1)), CountersAction::Nothing);
}

#[test]
fn counters_screen_parses_numeric_edits() {
    let mut sc = Counters::new();
    assert_eq!(
        sc.update(CountersMessage::EditIncrement("4".to_string())),
        CountersAction::EditCounter(CounterEditAction::SetIncrement(4))
    );
    assert_eq!(
        sc.update(CountersMessage::EditCount("-12".to_string())),
        CountersAction::EditCounter(CounterEditAction::SetCount(-12))
    );
    // A failed parse is swallowed as no action at all.
    assert_eq!(
        sc.update(CountersMessage::EditIncrement("four".to_string())),
        CountersAction::Nothing
    );
    assert_eq!(
        sc.update(CountersMessage::EditCount("2147483648".to_string())),
        CountersAction::Nothing
    );
}

#[test]
fn hunts_screen_maps_messages_to_actions() {
    let mut sc = Hunts::new();
    assert_eq!(sc.update(HuntsMessage::CreateHunt), HuntsAction::CreateHunt);
    assert_eq!(sc.update(HuntsMessage::DeleteHunt(1)), HuntsAction::DeleteHunt(1));
    assert_eq!(sc.update(HuntsMessage::SelectHunt(2)), HuntsAction::SelectHunt(2));
    assert_eq!(sc.update(HuntsMessage::CloseSelectedHunt), HuntsAction::CloseSelectedHunt);
    assert_eq!(sc.update(HuntsMessage::StartEditHunt(0)), HuntsAction::BeginEditHunt(0));
    assert_eq!(sc.update(HuntsMessage::StopEditHunt(true)), HuntsAction::StopEditHunt(true));
}

#[test]
fn shinies_screen_maps_messages_to_actions() {
    let mut sc = Shinies::new();
    assert_eq!(sc.update(ShiniesMessage::CreateShiny), ShiniesAction::CreateShiny);
    assert_eq!(sc.update(ShiniesMessage::DeleteShiny(1)), ShiniesAction::DeleteShiny(1));
    assert_eq!(sc.update(ShiniesMessage::SelectShiny(2)), ShiniesAction::SelectShiny(2));
    assert_eq!(sc.update(ShiniesMessage::CloseSelectedShiny), ShiniesAction::CloseSelectedShiny);
    assert_eq!(sc.update(ShiniesMessage::StartEditShiny(0)), ShiniesAction::StartEditShiny(0));
    assert_eq!(sc.update(ShiniesMessage::StopEditShiny), ShiniesAction::StopEditShiny);
}
