use rusty_weather::utils::{day_label, get_day_from_datetime, timestamp_to_string, update_time_label, weekday_name};

#[test]
fn weekday_names_from_monday() {
    let all: Vec<String> = (0..7).map(weekday_name).collect();
    assert_eq!(all, vec!["Mon", "Tue", "Wed", "Thu", "Fri", "Sat", "Sun"]);
}

#[test]
fn label_is_today_on_same_day_of_month() {
    assert_eq!(day_label(14, 14, 2), "Today");
    assert_eq!(day_label(15, 14, 3), "Thu");
}

#[test]
fn epoch_start_is_a_thursday() {
    let label = get_day_from_datetime(0).unwrap();
    assert!(label == "Thu" || label == "Today", "{label}");
    let label = get_day_from_datetime(3 * 86_400).unwrap();
    assert!(label == "Sun" || label == "Today", "{label}");
    assert!(get_day_from_datetime(i64::MAX).is_none());
}

#[test]
fn missing_time_reads_unknown() {
    assert_eq!(update_time_label(None), "Unknown");
    assert_eq!(update_time_label(Some("12:00".to_string())), "12:00");
    let shown = timestamp_to_string(1_700_000_000);
    assert!(shown.contains("2023"), "{shown}");
    assert_eq!(timestamp_to_string(i64::MAX), "Unknown");
}
