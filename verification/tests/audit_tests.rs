use smart_thermostat::audit::{log_filter_kind, log_param, log_query_text, LogFilterKind, LogParam};
use smart_thermostat::sensors::{condition_text, default_bounds, SensorType};

#[test]
fn log_menu_choices() {
    assert_eq!(log_filter_kind(" 1 "), LogFilterKind::All);
    assert_eq!(log_filter_kind("2"), LogFilterKind::ByUser);
    assert_eq!(log_filter_kind("3"), LogFilterKind::ByEvent);
    assert_eq!(log_filter_kind("4"), LogFilterKind::Recent);
    assert_eq!(log_filter_kind("0"), LogFilterKind::Cancel);
    assert_eq!(log_filter_kind("5"), LogFilterKind::Invalid);
}

#[test]
fn log_queries() {
    let base = "SELECT timestamp, actor_username, target_username, event_type, description\n         FROM security_log";
    assert_eq!(log_query_text(LogFilterKind::All), format!("{};", base));
    assert_eq!(log_query_text(LogFilterKind::ByEvent), format!("{} WHERE event_type = ?1;", base));
    assert_eq!(log_query_text(LogFilterKind::Recent), format!("{} ORDER BY id DESC LIMIT ?1;", base));
    assert_eq!(log_param(LogFilterKind::ByUser, " alice \n"), LogParam::Text("alice".to_string()));
    assert_eq!(log_param(LogFilterKind::ByEvent, "lockout"), LogParam::Text("LOCKOUT".to_string()));
    assert_eq!(log_param(LogFilterKind::Recent, " 5 "), LogParam::Number(5));
    assert_eq!(log_param(LogFilterKind::Recent, "lots"), LogParam::Number(20));
    assert_eq!(log_param(LogFilterKind::All, "x"), LogParam::NoParam);
}

#[test]
fn sensor_bounds_and_condition() {
    assert_eq!(default_bounds(SensorType::TemperatureC), (-40, 85));
    assert_eq!(default_bounds(SensorType::HumidityPct), (0, 100));
    assert_eq!(default_bounds(SensorType::COPpm), (0, 1000));
    assert_eq!(condition_text(None), "Unknown");
    assert_eq!(condition_text(Some("")), "Unknown");
    assert_eq!(condition_text(Some("Partly Cloudy")), "Partly Cloudy");
    let long = "é".repeat(250);
    assert_eq!(condition_text(Some(&long)).chars().count(), 200);
}
