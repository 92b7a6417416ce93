use shutils::error::Error;
use shutils::hunt::Hunt;
use shutils::models;
use shutils::shiny::Shiny;
use shutils::store::Store;

fn hunt_named(place: &str) -> Hunt {
    let mut h = Hunt::default();
    h.target = 25;
    h.previous_encounters = 40;
    h.phase_encounters = 2;
    h.phase_count = 3;
    h.start_time = Some(1_700_000_000);
    h.completed = false;
    h.place = Some(place.to_string());
    h
}

fn shiny_for(hunt_id: Option<i32>, name: &str) -> Shiny {
    let mut s = Shiny::default();
    s.species = 133;
    s.name = Some(name.to_string());
    s.hunt_id = hunt_id;
    s
}

#[test]
fn new_store_is_empty() {
    let st = Store::new();
    assert!(st.hunts.is_empty());
    assert!(st.shinies.is_empty());
    assert_eq!(st.next_hunt_id, 1);
    assert_eq!(st.next_shiny_id, 1);
}

#[test]
fn upsert_absent_hunt_assigns_fresh_id() {
    // A caller-supplied placeholder key that the store does not hold leads
    // to an insert under a store-assigned key, which the caller adopts.
    let mut st = Store::new();
    let mut h = hunt_named("meadow");
    h.id = 42;
    let stored = st.upsert_hunt(&h).unwrap();
    assert_eq!(stored.id, 1);
    assert_ne!(stored.id, 42);
    assert_eq!(stored.place.as_deref(), Some("meadow"));
    assert_eq!(st.hunts.len(), 1);
    assert_eq!(st.hunts[0].id, 1);
    assert_eq!(st.next_hunt_id, 2);
}

#[test]
fn upsert_present_hunt_overwrites_in_place() {
    let mut st = Store::new();
    let stored = st.upsert_hunt(&hunt_named("cave")).unwrap();
    let mut edited = stored.clone();
    edited.phase_encounters = 99;
    edited.notes = Some("almost".to_string());
    let stored2 = st.upsert_hunt(&edited).unwrap();
    assert_eq!(stored2.id, stored.id);
    assert_eq!(stored2.phase_encounters, 99);
    assert_eq!(st.hunts.len(), 1);
    assert_eq!(st.hunts[0].phase_encounters, 99);
    assert_eq!(st.next_hunt_id, 2);
}

#[test]
fn load_hunt_by_id_not_found() {
    let st = Store::new();
    assert_eq!(st.load_hunt_by_id(5), Err(Error::NotFound));
}

#[test]
fn upsert_and_load_shiny() {
    let mut st = Store::new();
    let s = shiny_for(None, "sparkle");
    let stored = st.upsert_shiny(&s).unwrap();
    assert_eq!(stored.id, 1);
    let loaded = st.load_shiny_by_id(1).unwrap();
    assert_eq!(loaded, stored);
    assert_eq!(st.load_shiny_by_id(2), Err(Error::NotFound));
}

#[test]
fn load_all_hunts_groups_shinies_under_parent() {
    // Every shiny whose foreign key names a hunt appears in that hunt's
    // list exactly once, in store order; unattributed shinies nowhere.
    let mut st = Store::new();
    let h1 = st.upsert_hunt(&hunt_named("one")).unwrap();
    let h2 = st.upsert_hunt(&hunt_named("two")).unwrap();
    let a = st.upsert_shiny(&shiny_for(Some(h1.id), "a")).unwrap();
    let b = st.upsert_shiny(&shiny_for(Some(h2.id), "b")).unwrap();
    let _c = st.upsert_shiny(&shiny_for(None, "c")).unwrap();
    let d = st.upsert_shiny(&shiny_for(Some(h1.id), "d")).unwrap();
    let all = st.load_all_hunts().unwrap();
    assert_eq!(all.len(), 2);
    assert_eq!(all[0].id, h1.id);
    assert_eq!(all[0].shinies.len(), 2);
    assert_eq!(all[0].shinies[0], a);
    assert_eq!(all[0].shinies[1], d);
    assert_eq!(all[1].id, h2.id);
    assert_eq!(all[1].shinies.len(), 1);
    assert_eq!(all[1].shinies[0], b);
}

#[test]
fn upsert_of_loaded_hunt_is_idempotent() {
    // Round trip: storing back an unmodified loaded hunt leaves every row
    // exactly as it was and returns the loaded value.
    let mut st = Store::new();
    let h = st.upsert_hunt(&hunt_named("lake")).unwrap();
    st.upsert_shiny(&shiny_for(Some(h.id), "gem")).unwrap();
    let hunts_before = st.hunts.clone();
    let shinies_before = st.shinies.clone();
    let next_before = st.next_hunt_id;

    let loaded = st.load_hunt_by_id(h.id).unwrap();
    let stored = st.upsert_hunt(&loaded).unwrap();

    assert_eq!(stored, loaded);
    assert_eq!(st.hunts, hunts_before);
    assert_eq!(st.shinies, shinies_before);
    assert_eq!(st.next_hunt_id, next_before);
}

#[test]
fn delete_hunt_clears_child_foreign_keys() {
    let mut st = Store::new();
    let h1 = st.upsert_hunt(&hunt_named("one")).unwrap();
    let h2 = st.upsert_hunt(&hunt_named("two")).unwrap();
    st.upsert_shiny(&shiny_for(Some(h1.id), "a")).unwrap();
    st.upsert_shiny(&shiny_for(Some(h2.id), "b")).unwrap();
    st.delete_hunt(h1.id).unwrap();
    assert_eq!(st.hunts.len(), 1);
    assert_eq!(st.hunts[0].id, h2.id);
    // The orphaned shiny is kept, its reference cleared; the other kept.
    assert_eq!(st.shinies.len(), 2);
    assert_eq!(st.shinies[0].hunt_id, None);
    assert_eq!(st.shinies[0].name.as_deref(), Some("a"));
    assert_eq!(st.shinies[1].hunt_id, Some(h2.id));
}

#[test]
fn delete_absent_hunt_is_not_found() {
    let mut st = Store::new();
    assert_eq!(st.delete_hunt(3), Err(Error::NotFound));
}

#[test]
fn delete_shiny_removes_row() {
    let mut st = Store::new();
    st.upsert_shiny(&shiny_for(None, "a")).unwrap();
    st.upsert_shiny(&shiny_for(None, "b")).unwrap();
    st.delete_shiny(1).unwrap();
    assert_eq!(st.shinies.len(), 1);
    assert_eq!(st.shinies[0].id, 2);
    assert_eq!(st.delete_shiny(1), Err(Error::NotFound));
}

#[test]
fn hunt_id_space_exhaustion_is_overflow() {
    let mut st = Store::new();
    st.next_hunt_id = i32::MAX;
    let r = st.upsert_hunt(&hunt_named("late"));
    assert_eq!(r, Err(Error::Overflow));
    assert!(st.hunts.is_empty());
}

#[test]
fn hunt_row_conversions_keep_every_field() {
    let h = hunt_named("field");
    let row = h.copy_into_db_hunt();
    assert_eq!(row.id, h.id);
    assert_eq!(row.target, 25);
    assert_eq!(row.previous_encounters, 40);
    assert_eq!(row.phase_encounters, 2);
    assert_eq!(row.phase_count, 3);
    assert_eq!(row.start_time, Some(1_700_000_000));
    assert_eq!(row.place.as_deref(), Some("field"));
    let back = Hunt::from_db_hunt_and_shinies(row, Vec::new());
    let mut expected = h;
    expected.shinies = Vec::new();
    assert_eq!(back, expected);
}

#[test]
fn shiny_row_conversions_keep_every_field() {
    let s = shiny_for(Some(4), "glint");
    let row = s.copy_into_db_shiny();
    assert_eq!(row.species, 133);
    assert_eq!(row.name.as_deref(), Some("glint"));
    assert_eq!(row.hunt_id, Some(4));
    let back = Shiny::from_db_shiny(row);
    assert_eq!(back, s);
}

#[test]
fn hunt_accessors_match_store_operations() {
    let mut st = Store::new();
    let h = st.upsert_hunt(&hunt_named("gate")).unwrap();
    st.upsert_shiny(&shiny_for(Some(h.id), "spark")).unwrap();
    let via_type = Hunt::get_by_id(h.id, &st).unwrap();
    let via_store = st.load_hunt_by_id(h.id).unwrap();
    assert_eq!(via_type, via_store);
    assert_eq!(Hunt::get_all(&st).unwrap().len(), 1);
    assert_eq!(Shiny::get_all(&st).unwrap().len(), 1);
    assert_eq!(Shiny::get_by_id(1, &st).unwrap().name.as_deref(), Some("spark"));
    assert_eq!(Shiny::get_by_id(9, &st), Err(Error::NotFound));
}

#[test]
fn db_row_defaults_via_domain_default() {
    let h = Hunt::default();
    assert_eq!(h.id, 0);
    assert_eq!(h.phase_count, 1);
    assert!(h.shinies.is_empty());
    let row: models::Hunt = h.copy_into_db_hunt();
    assert_eq!(row.phase_count, 1);
    let s = Shiny::default();
    assert_eq!(s.id, 0);
    assert_eq!(s.hunt_id, None);
}
