use smart_thermostat::localtime::{display_time, to_eastern_time};

#[test]
fn summer_time_is_edt() {
    assert_eq!(to_eastern_time("2025-10-18 13:32:39"), Some("2025-10-18 09:32:39 EDT".to_string()));
}

#[test]
fn winter_time_is_est() {
    assert_eq!(to_eastern_time("2025-01-15 17:00:00"), Some("2025-01-15 12:00:00 EST".to_string()));
}

#[test]
fn day_boundary_moves_back() {
    assert_eq!(to_eastern_time("2025-03-01 02:30:00"), Some("2025-02-28 21:30:00 EST".to_string()));
}

#[test]
fn unparsable_timestamp_is_none() {
    assert_eq!(to_eastern_time("2025-10-18T13:32:39Z"), None);
    assert_eq!(to_eastern_time(""), None);
}

#[test]
fn display_time_falls_back() {
    assert_eq!(display_time(None, "never"), "never");
    assert_eq!(display_time(Some("garbage"), "unknown"), "unknown");
    assert_eq!(display_time(Some("2025-07-04 16:00:00"), "unknown"), "2025-07-04 12:00:00 EDT");
}
