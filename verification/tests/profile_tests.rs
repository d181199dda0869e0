use smart_thermostat::profile::{
    check_profile_name, control_light, control_mode, creator_mode, creator_pick,
    current_scheduled_profile, default_profiles, is_default_profile, is_vacation_mode_active,
    mode_takes_temperature, scheduled_profile_at, trimmed_profile_name, unit_display,
    vacation_blocks, stored_defaults, HVACMode, HVACProfile, ProfileNameError,
};

#[test]
fn profile_settings() {
    assert_eq!(HVACProfile::Day.get_settings(), (HVACMode::Auto, 220));
    assert_eq!(HVACProfile::Night.get_settings(), (HVACMode::Auto, 200));
    assert_eq!(HVACProfile::Sleep.get_settings(), (HVACMode::Heating, 180));
    assert_eq!(HVACProfile::Party.get_settings(), (HVACMode::Cooling, 230));
    assert_eq!(HVACProfile::Vacation.get_settings(), (HVACMode::Off, 240));
    assert_eq!(HVACProfile::Away.get_settings(), (HVACMode::Off, 250));
}

#[test]
fn profile_texts() {
    assert_eq!(HVACProfile::Day.greeting_message(), "☀️ Hope you have a good day!");
    assert_eq!(HVACProfile::Away.greeting_message(), "🚗 Have a safe trip!");
    assert!(HVACProfile::Sleep.description().starts_with("Heating preferred, quiet operation"));
    assert!(HVACProfile::Party.description().ends_with("🔥 Heater: OFF | ❄️ AC: ON"));
}

#[test]
fn profile_names_roundtrip() {
    for p in default_profiles() {
        assert_eq!(HVACProfile::from_name(p.name()), Some(p));
        assert!(is_default_profile(p.name()));
    }
    assert_eq!(HVACProfile::from_name("day"), None);
    assert_eq!(HVACProfile::from_name("Movie Night"), None);
}

#[test]
fn mode_names_roundtrip() {
    for m in [HVACMode::Off, HVACMode::Heating, HVACMode::Cooling, HVACMode::FanOnly, HVACMode::Auto] {
        assert_eq!(HVACMode::parse(m.as_str()), Some(m));
    }
    assert_eq!(HVACMode::parse("fan"), None);
}

#[test]
fn schedule_windows() {
    assert_eq!(scheduled_profile_at(5, 59), HVACProfile::Sleep);
    assert_eq!(scheduled_profile_at(6, 0), HVACProfile::Day);
    assert_eq!(scheduled_profile_at(12, 30), HVACProfile::Day);
    assert_eq!(scheduled_profile_at(18, 0), HVACProfile::Day);
    assert_eq!(scheduled_profile_at(18, 1), HVACProfile::Night);
    assert_eq!(scheduled_profile_at(23, 0), HVACProfile::Night);
    assert_eq!(scheduled_profile_at(23, 1), HVACProfile::Sleep);
    assert_eq!(scheduled_profile_at(0, 0), HVACProfile::Sleep);
    let now = current_scheduled_profile();
    assert!(matches!(now, HVACProfile::Day | HVACProfile::Night | HVACProfile::Sleep));
}

#[test]
fn default_profile_names_ignore_case() {
    assert!(is_default_profile("day"));
    assert!(is_default_profile("VACATION"));
    assert!(!is_default_profile("Daylight"));
    assert!(!is_default_profile(" Day"));
}

#[test]
fn profile_name_rules() {
    assert_eq!(check_profile_name("Movie Night", 0), None);
    assert_eq!(check_profile_name("  Movie Night  ", 0), None);
    assert_eq!(check_profile_name("ab", 0), Some(ProfileNameError::Length));
    assert_eq!(check_profile_name("abcdefghijklmnopqrstu", 0), Some(ProfileNameError::Length));
    assert_eq!(check_profile_name("Movie-Night", 0), Some(ProfileNameError::Characters));
    assert_eq!(check_profile_name("night", 0), Some(ProfileNameError::Reserved));
    assert_eq!(check_profile_name("Movie Night", 1), Some(ProfileNameError::Duplicate));
    assert_eq!(check_profile_name("Café Mode", 0), None);
    assert_eq!(check_profile_name("ééééééééééé", 0), None);
    assert_eq!(check_profile_name("éééééééééééééééééééé", 0), None);
    assert_eq!(check_profile_name("ééééééééééééééééééééé", 0), Some(ProfileNameError::Length));
    assert_eq!(check_profile_name("éé", 0), Some(ProfileNameError::Length));
    assert_eq!(trimmed_profile_name("  Movie Night \t"), "Movie Night");
}

#[test]
fn vacation_rules() {
    assert!(is_vacation_mode_active(Some("01-01-2025"), Some("01-10-2025")));
    assert!(!is_vacation_mode_active(Some("01-01-2025"), None));
    assert!(!is_vacation_mode_active(None, None));
    assert!(vacation_blocks("guest", true));
    assert!(vacation_blocks("technician", true));
    assert!(!vacation_blocks("homeowner", true));
    assert!(!vacation_blocks("guest", false));
}

#[test]
fn unit_display_rules() {
    assert_eq!(unit_display(HVACMode::Heating, "Off", "On"), (true, false));
    assert_eq!(unit_display(HVACMode::Cooling, "On", "Off"), (false, true));
    assert_eq!(unit_display(HVACMode::Auto, "Auto", "Off"), (true, false));
    assert_eq!(unit_display(HVACMode::Auto, "On", "ON"), (false, true));
    assert_eq!(unit_display(HVACMode::Off, "On", "On"), (false, false));
    assert_eq!(unit_display(HVACMode::FanOnly, "Auto", "Auto"), (false, false));
}

#[test]
fn menu_mappings() {
    assert_eq!(creator_mode("1"), Some(HVACMode::Off));
    assert_eq!(creator_mode(" 5 "), Some(HVACMode::Auto));
    assert_eq!(creator_mode("6"), None);
    assert_eq!(control_mode("1"), Some(HVACMode::Heating));
    assert_eq!(control_mode("5"), Some(HVACMode::Off));
    assert_eq!(control_mode("x"), None);
    assert!(mode_takes_temperature(HVACMode::Auto));
    assert!(!mode_takes_temperature(HVACMode::FanOnly));
    assert_eq!(control_light("1"), "ON");
    assert_eq!(control_light("2"), "OFF");
    assert_eq!(control_light("9"), "OFF");
    assert_eq!(creator_pick("2", &["On", "Off", "Auto"]), Some("Off"));
    assert_eq!(creator_pick("3", &["ON", "OFF"]), None);
    assert_eq!(creator_pick("0", &["Low", "Medium", "High"]), None);
}

#[test]
fn descriptions_name_heater_and_ac() {
    let all = default_profiles();
    for p in all {
        assert!(p.description().contains("🔥 Heater:"));
        assert!(p.description().contains("❄️ AC:"));
        for q in all {
            assert_eq!(p.description() == q.description(), p == q);
        }
    }
    assert!(HVACProfile::Away.description().starts_with("HVAC off/eco mode - Maintain 25°C / 77°F"));
    assert_eq!(HVACProfile::Away.get_settings().1, 250);
}

#[test]
fn seeded_rows() {
    let d = stored_defaults(HVACProfile::Sleep);
    assert_eq!((d.mode, d.target_tenths, d.heater_status, d.ac_status), (HVACMode::Heating, 250, "On", "Off"));
    let a = stored_defaults(HVACProfile::Party);
    assert_eq!((a.mode, a.target_tenths, a.light_status, a.fan_speed), (HVACMode::Cooling, 200, "ON", "High"));
    assert_eq!(stored_defaults(HVACProfile::Away).description, "HVAC off/eco mode, 25°C / 77°F, Fan off, Energy saving");
}
