use shutils::counter::{Counter, CounterEditAction, HuntEffect};
use shutils::error::Error;
use shutils::hunt::Hunt;

fn fresh_hunt() -> Hunt {
    Hunt::default()
}

#[test]
fn default_counter_is_unbound_step_one() {
    let c = Counter::default();
    assert_eq!(c.hunt, None);
    assert_eq!(c.inc, 1);
    assert_eq!(c.count, 0);
}

#[test]
fn increment_adds_step_to_tally() {
    let mut c = Counter::default();
    c.inc = 3;
    let eff = c.increment().unwrap();
    assert_eq!(c.count, 3);
    assert_eq!(eff, HuntEffect::Untouched);
}

#[test]
fn increment_bound_reports_add_effect() {
    let mut c = Counter { hunt: Some(7), inc: 2, count: 5 };
    let eff = c.increment().unwrap();
    assert_eq!(c.count, 7);
    assert_eq!(eff, HuntEffect::Add { hunt_id: 7, delta: 2 });
}

#[test]
fn increment_overflow_fails_and_changes_nothing() {
    let mut c = Counter { hunt: Some(1), inc: 1, count: i32::MAX };
    let r = c.increment();
    assert_eq!(r, Err(Error::Overflow));
    assert_eq!(c.count, i32::MAX);
    assert_eq!(c.hunt, Some(1));
}

#[test]
fn decrement_subtracts_one_with_floor() {
    let mut c = Counter { hunt: None, inc: 1, count: 2 };
    c.decrement();
    assert_eq!(c.count, 1);
    c.decrement();
    assert_eq!(c.count, 0);
    c.decrement();
    assert_eq!(c.count, 0);
}

#[test]
fn decrement_bound_reports_floored_effect() {
    let mut c = Counter { hunt: Some(4), inc: 1, count: 0 };
    let eff = c.decrement();
    assert_eq!(c.count, 0);
    assert_eq!(eff, HuntEffect::SubOneFloored { hunt_id: 4 });
}

#[test]
fn perform_set_and_unset_hunt_touch_only_binding() {
    let mut c = Counter::default();
    let eff = c.perform(CounterEditAction::SetHunt(9));
    assert_eq!(eff, HuntEffect::Untouched);
    assert_eq!(c.hunt, Some(9));
    assert_eq!(c.count, 0);
    let eff = c.perform(CounterEditAction::UnsetHunt);
    assert_eq!(eff, HuntEffect::Untouched);
    assert_eq!(c.hunt, None);
}

#[test]
fn perform_set_increment_changes_step() {
    let mut c = Counter::default();
    c.perform(CounterEditAction::SetIncrement(5));
    assert_eq!(c.inc, 5);
    c.increment().unwrap();
    assert_eq!(c.count, 5);
}

#[test]
fn perform_set_count_reports_set_effect_when_bound() {
    let mut c = Counter { hunt: Some(3), inc: 1, count: 10 };
    let eff = c.perform(CounterEditAction::SetCount(4));
    assert_eq!(c.count, 4);
    assert_eq!(eff, HuntEffect::SetTo { hunt_id: 3, value: 4 });
}

#[test]
fn apply_add_effect_moves_phase_encounters() {
    let mut h = fresh_hunt();
    h.previous_encounters = 50;
    let r = h.apply_effect(&HuntEffect::Add { hunt_id: 0, delta: 3 });
    assert!(r.is_ok());
    assert_eq!(h.phase_encounters, 3);
    assert_eq!(h.previous_encounters, 50);
}

#[test]
fn apply_add_effect_refuses_negative_result() {
    let mut h = fresh_hunt();
    h.phase_encounters = 2;
    let r = h.apply_effect(&HuntEffect::Add { hunt_id: 0, delta: -5 });
    assert_eq!(r, Err(Error::Overflow));
    assert_eq!(h.phase_encounters, 2);
}

#[test]
fn apply_add_effect_refuses_overflow() {
    let mut h = fresh_hunt();
    h.phase_encounters = i32::MAX;
    let r = h.apply_effect(&HuntEffect::Add { hunt_id: 0, delta: 1 });
    assert_eq!(r, Err(Error::Overflow));
    assert_eq!(h.phase_encounters, i32::MAX);
}

#[test]
fn apply_sub_one_floored_stops_at_zero() {
    let mut h = fresh_hunt();
    h.phase_encounters = 1;
    h.apply_effect(&HuntEffect::SubOneFloored { hunt_id: 0 }).unwrap();
    assert_eq!(h.phase_encounters, 0);
    h.apply_effect(&HuntEffect::SubOneFloored { hunt_id: 0 }).unwrap();
    assert_eq!(h.phase_encounters, 0);
}

#[test]
fn apply_set_to_reconciles_exactly() {
    let mut h = fresh_hunt();
    h.phase_encounters = 123;
    h.apply_effect(&HuntEffect::SetTo { hunt_id: 0, value: 8 }).unwrap();
    assert_eq!(h.phase_encounters, 8);
    let r = h.apply_effect(&HuntEffect::SetTo { hunt_id: 0, value: -1 });
    assert_eq!(r, Err(Error::Overflow));
    assert_eq!(h.phase_encounters, 8);
}

#[test]
fn apply_untouched_changes_nothing() {
    let mut h = fresh_hunt();
    h.phase_encounters = 6;
    h.apply_effect(&HuntEffect::Untouched).unwrap();
    assert_eq!(h.phase_encounters, 6);
}
