use fursuit_fan_controller_fw::persistence::{
    load_from_erased_store, save_power_cycle_load, Persistence,
};

#[test]
fn save_survives_a_power_cycle() {
    let mut p = Persistence::new();
    let persisted = p.save_state(7);
    assert!(persisted);
    let mut p = p.power_cycle();
    assert_eq!(p.load_state(), Some(7));
}

#[test]
fn load_from_erased_region_is_none() {
    let mut p = Persistence::new();
    assert_eq!(p.load_state(), None);
}

#[test]
fn latest_save_wins() {
    let mut p = Persistence::new();
    assert!(p.save_state(3));
    assert!(p.save_state(9));
    let mut p = p.power_cycle();
    assert_eq!(p.load_state(), Some(9));
}

#[test]
fn load_does_not_change_the_store() {
    let mut p = Persistence::new();
    assert!(p.save_state(4));
    assert_eq!(p.load_state(), Some(4));
    assert_eq!(p.load_state(), Some(4));
}

#[test]
fn round_trip_helper_returns_the_saved_index() {
    let p = Persistence::new();
    let (_, persisted, loaded) = save_power_cycle_load(p, 7);
    assert!(persisted);
    assert_eq!(loaded, Some(7));
}

#[test]
fn erased_store_helper_returns_none() {
    assert_eq!(load_from_erased_store(), None);
}

#[test]
fn repeated_saves_spread_wear_without_losing_the_record() {
    // Far more saves than fit in one page: the log must relocate and erase
    // pages and still return the last committed value.
    let mut p = Persistence::new();
    for i in 0..2_000usize {
        assert!(p.save_state(i % 11));
    }
    let mut p = p.power_cycle();
    assert_eq!(p.load_state(), Some(1_999 % 11));
}
