use rusty_weather::display::WeatherDisplayController;
use rusty_weather::store::{CityData, StoreError, WeatherClient, WeatherController};

fn city(lat: f64, lon: f64, name: &str) -> CityData {
    CityData::new(lat.to_bits(), lon.to_bits(), name.to_string())
}

fn names(c: &WeatherController<String>) -> Vec<String> {
    c.entries().iter().map(|e| e.city_data.city_name.clone()).collect()
}

fn store_of(list: &[&str]) -> WeatherController<String> {
    let mut c = WeatherController::new();
    for (i, n) in list.iter().enumerate() {
        assert!(c.add_city(city(i as f64, 1.5, n)));
    }
    c
}

#[test]
fn add_appends_fresh_entry() {
    let mut c: WeatherController<String> = WeatherController::new();
    assert!(c.add_city(city(52.52, 13.4, "Berlin")));
    assert_eq!(c.len(), 1);
    let e = &c.entries()[0];
    assert!(e.city_data.same_as(&city(52.52, 13.4, "Berlin")));
    assert!(e.weather_data.is_none());
    assert_eq!(e.last_update_timestamp, 0);
}

#[test]
fn add_existing_city_is_noop() {
    let mut c: WeatherController<String> = WeatherController::new();
    assert!(c.add_city(city(52.52, 13.4, "Berlin")));
    assert!(!c.add_city(city(52.52, 13.4, "Berlin")));
    assert_eq!(c.len(), 1);
    // another name at the same place is another city
    assert!(c.add_city(city(52.52, 13.4, "Berlin Mitte")));
    assert_eq!(c.len(), 2);
}

#[test]
fn remove_shifts_later_entries() {
    let mut c = store_of(&["a", "b", "c"]);
    assert_eq!(c.remove_city(1), Ok(()));
    assert_eq!(names(&c), vec!["a", "c"]);
}

#[test]
fn remove_out_of_range_keeps_store() {
    let mut c = store_of(&["a", "b"]);
    assert_eq!(c.remove_city(2), Err(StoreError::IndexOutOfRange));
    assert_eq!(names(&c), vec!["a", "b"]);
    let mut empty: WeatherController<String> = WeatherController::new();
    assert_eq!(empty.remove_city(0), Err(StoreError::IndexOutOfRange));
    assert_eq!(empty.len(), 0);
}

#[test]
fn reorder_swaps_two_entries() {
    let mut c = store_of(&["a", "b", "c", "d"]);
    assert_eq!(c.reorder_cities(3, 1), Ok(()));
    assert_eq!(names(&c), vec!["a", "d", "c", "b"]);
    assert_eq!(c.reorder_cities(2, 2), Ok(()));
    assert_eq!(names(&c), vec!["a", "d", "c", "b"]);
}

#[test]
fn reorder_out_of_range_keeps_store() {
    let mut c = store_of(&["a", "b"]);
    assert_eq!(c.reorder_cities(0, 2), Err(StoreError::IndexOutOfRange));
    assert_eq!(c.reorder_cities(5, 0), Err(StoreError::IndexOutOfRange));
    assert_eq!(names(&c), vec!["a", "b"]);
}

#[test]
fn operations_never_duplicate_a_city() {
    let mut c: WeatherController<String> = WeatherController::new();
    let berlin = city(52.52, 13.4, "Berlin");
    let paris = city(48.85, 2.35, "Paris");
    assert!(c.add_city(berlin.clone()));
    assert!(c.add_city(paris.clone()));
    assert_eq!(c.reorder_cities(0, 1), Ok(()));
    assert!(!c.add_city(berlin.clone()));
    assert_eq!(c.remove_city(0), Ok(()));
    assert!(!c.add_city(berlin.clone()));
    assert!(c.add_city(paris.clone()));
    let e = c.entries();
    assert_eq!(e.len(), 2);
    assert!(!e[0].city_data.same_as(&e[1].city_data));
}

#[test]
fn failed_fetch_leaves_entry_untouched() {
    let mut c = store_of(&["a"]);
    assert_eq!(c.apply_fetch(0, Some("first".to_string()), 100), Ok(()));
    assert_eq!(c.apply_fetch(0, None, 200), Ok(()));
    let e = &c.entries()[0];
    assert_eq!(e.weather_data.as_deref(), Some("first"));
    assert_eq!(e.last_update_timestamp, 100);
}

#[test]
fn successful_fetch_updates_payload_and_time() {
    let mut c = store_of(&["a", "b"]);
    assert_eq!(c.apply_fetch(1, Some("fresh".to_string()), 1_700_000_000), Ok(()));
    let e = &c.entries()[1];
    assert_eq!(e.weather_data.as_deref(), Some("fresh"));
    assert_eq!(e.last_update_timestamp, 1_700_000_000);
    assert!(c.entries()[0].weather_data.is_none());
    assert_eq!(c.apply_fetch(2, Some("x".to_string()), 5), Err(StoreError::IndexOutOfRange));
}

#[test]
fn refresh_batch_applies_each_outcome_and_clears_busy() {
    let mut c = store_of(&["a", "b", "c"]);
    c.set_busy();
    assert!(c.is_busy());
    c.apply_refresh_all(vec![Some("pa".to_string()), None, Some("pc".to_string())], 42);
    assert!(!c.is_busy());
    let e = c.entries();
    assert_eq!(e[0].weather_data.as_deref(), Some("pa"));
    assert_eq!(e[0].last_update_timestamp, 42);
    assert!(e[1].weather_data.is_none());
    assert_eq!(e[1].last_update_timestamp, 0);
    assert_eq!(e[2].weather_data.as_deref(), Some("pc"));
    assert_eq!(names(&c), vec!["a", "b", "c"]);
}

#[test]
fn refresh_batch_shorter_than_store() {
    let mut c = store_of(&["a", "b"]);
    c.apply_refresh_all(vec![Some("pa".to_string()), Some("pb".to_string()), Some("extra".to_string())], 7);
    assert_eq!(c.len(), 2);
    c.apply_refresh_all(vec![None], 9);
    assert_eq!(c.entries()[1].weather_data.as_deref(), Some("pb"));
    assert_eq!(c.entries()[1].last_update_timestamp, 7);
}

#[test]
fn refresh_with_clock_stamps_current_time() {
    let mut c = store_of(&["a", "b"]);
    c.set_busy();
    c.refresh_all(vec![Some("now".to_string()), None]);
    assert!(!c.is_busy());
    let e = c.entries();
    assert_eq!(e[0].weather_data.as_deref(), Some("now"));
    assert!(e[0].last_update_timestamp > 1_600_000_000);
    assert_eq!(e[1].last_update_timestamp, 0);
}

#[test]
fn adding_present_city_fetches_nothing_and_clears_busy() {
    let mut c = store_of(&["a"]);
    let present = c.city_at(0).clone();
    c.set_busy();
    assert!(!c.plan_add(&present));
    assert!(!c.is_busy());
    assert_eq!(c.len(), 1);
}

#[test]
fn adding_new_city_asks_for_a_fetch() {
    let mut c = store_of(&["a"]);
    c.set_busy();
    assert!(c.plan_add(&city(9.0, 9.0, "new")));
    assert!(c.is_busy());
    assert_eq!(c.len(), 1);
}

#[test]
fn added_city_is_appended_even_when_fetch_failed() {
    let mut c = store_of(&["a"]);
    c.set_busy();
    assert!(c.apply_add(city(9.0, 9.0, "new"), None, 55));
    assert!(!c.is_busy());
    assert_eq!(names(&c), vec!["a", "new"]);
    assert!(c.entries()[1].weather_data.is_none());
    assert_eq!(c.entries()[1].last_update_timestamp, 0);
    assert!(c.apply_add(city(8.0, 8.0, "other"), Some("p".to_string()), 55));
    assert_eq!(c.entries()[2].last_update_timestamp, 55);
    assert!(!c.apply_add(city(8.0, 8.0, "other"), Some("q".to_string()), 56));
    assert_eq!(c.len(), 3);
}

#[test]
fn add_new_city_with_clock() {
    let mut c: WeatherController<String> = WeatherController::new();
    assert!(c.add_new_city(city(1.0, 2.0, "x"), Some("p".to_string())));
    assert_eq!(c.entries()[0].weather_data.as_deref(), Some("p"));
    assert!(c.entries()[0].last_update_timestamp > 1_600_000_000);
}

#[test]
fn save_and_load_round_trip() {
    let mut c = store_of(&["a", "b", "c"]);
    c.apply_refresh_all(vec![Some("pa".to_string()), None, Some("pc".to_string())], 42);
    let saved: Vec<WeatherClient<String>> = c.entries().clone();
    let loaded = WeatherController::from_entries(saved);
    assert!(!loaded.is_busy());
    assert_eq!(loaded.len(), 3);
    for i in 0..3 {
        let (a, b) = (&c.entries()[i], &loaded.entries()[i]);
        assert!(a.city_data.same_as(&b.city_data));
        assert_eq!(a.weather_data, b.weather_data);
        assert_eq!(a.last_update_timestamp, b.last_update_timestamp);
    }
}

#[test]
fn load_keeps_first_of_repeated_cities() {
    let mut first: WeatherClient<String> = WeatherClient::new(1.0f64.to_bits(), 2.0f64.to_bits(), "x");
    first.apply_refresh(Some("one".to_string()), 10);
    let second: WeatherClient<String> = WeatherClient::new(1.0f64.to_bits(), 2.0f64.to_bits(), "x");
    let other: WeatherClient<String> = WeatherClient::new(3.0f64.to_bits(), 2.0f64.to_bits(), "y");
    let loaded = WeatherController::from_entries(vec![first, second, other]);
    assert_eq!(loaded.len(), 2);
    assert_eq!(loaded.entries()[0].weather_data.as_deref(), Some("one"));
    assert_eq!(loaded.entries()[1].city_data.city_name, "y");
}

#[test]
fn client_refresh_weather() {
    let mut e: WeatherClient<u32> = WeatherClient::new(0, 0, "z");
    e.refresh_weather(None);
    assert_eq!(e.last_update_timestamp, 0);
    e.refresh_weather(Some(7));
    assert_eq!(e.weather_data, Some(7));
    assert!(e.last_update_timestamp > 1_600_000_000);
}

#[test]
fn display_indices_may_be_negative() {
    let mut c = store_of(&["a", "b"]);
    assert_eq!(WeatherDisplayController::reorder_cities(&mut c, -1, 0), Err(StoreError::IndexOutOfRange));
    assert_eq!(WeatherDisplayController::remove_city(&mut c, -3), Err(StoreError::IndexOutOfRange));
    assert_eq!(names(&c), vec!["a", "b"]);
    assert_eq!(WeatherDisplayController::reorder_cities(&mut c, 1, 0), Ok(()));
    assert_eq!(names(&c), vec!["b", "a"]);
    assert_eq!(WeatherDisplayController::remove_city(&mut c, 0), Ok(()));
    assert_eq!(names(&c), vec!["a"]);
}
