//! HVAC modes and profiles: the built-in profile settings and texts, the
//! daily schedule, profile-name rules, vacation dates and the heater/AC
//! status shown when a profile is applied.
use vstd::prelude::*;
use chrono::Timelike;
use crate::text::{
    contains_spec,
    white_space, alphanumeric_char, trim_spec, eq_ignore_ascii_case_spec, chars_of, trim_chars,
    chars_eq_ignore_ascii_case, char_is_whitespace, char_is_alphanumeric, str_eq,
    string_from_chars,
};

verus! {

/// The operating modes of the HVAC unit.
#[derive(Debug, Clone, Copy, PartialEq, Eq)]
pub enum HVACMode {
    Off,
    Heating,
    Cooling,
    FanOnly,
    Auto,
}

/// The stored name of each mode.
pub open spec fn mode_name(m: HVACMode) -> Seq<char> {
    match m {
        HVACMode::Off => "Off"@,
        HVACMode::Heating => "Heating"@,
        HVACMode::Cooling => "Cooling"@,
        HVACMode::FanOnly => "FanOnly"@,
        HVACMode::Auto => "Auto"@,
    }
}

impl HVACMode {
    /// The name stored in the database for this mode.
    pub fn as_str(&self) -> (r: &'static str)
        ensures
            r@ == mode_name(*self),
    {
        match self {
            HVACMode::Off => "Off",
            HVACMode::Heating => "Heating",
            HVACMode::Cooling => "Cooling",
            HVACMode::FanOnly => "FanOnly",
            HVACMode::Auto => "Auto",
        }
    }

    /// Reads a stored mode name; `None` for any other text.
    pub fn parse(text: &str) -> (r: Option<HVACMode>)
        ensures
            r matches Some(m) ==> mode_name(m) == text@,
            r is None ==> forall|m: HVACMode| mode_name(m) != text@,
    {
        if str_eq(text, "Off") {
            Some(HVACMode::Off)
        } else if str_eq(text, "Heating") {
            Some(HVACMode::Heating)
        } else if str_eq(text, "Cooling") {
            Some(HVACMode::Cooling)
        } else if str_eq(text, "FanOnly") {
            Some(HVACMode::FanOnly)
        } else if str_eq(text, "Auto") {
            Some(HVACMode::Auto)
        } else {
            proof {
                assert forall|m: HVACMode| mode_name(m) != text@ by {
                    match m {
                        HVACMode::Off => {},
                        HVACMode::Heating => {},
                        HVACMode::Cooling => {},
                        HVACMode::FanOnly => {},
                        HVACMode::Auto => {},
                    }
                }
            }
            None
        }
    }
}

/// The built-in profiles.
#[derive(Debug, Clone, Copy, PartialEq, Eq)]
pub enum HVACProfile {
    Day,
    Night,
    Sleep,
    Party,
    Vacation,
    Away,
}

/// The name of each built-in profile.
pub open spec fn profile_name_spec(p: HVACProfile) -> Seq<char> {
    match p {
        HVACProfile::Day => "Day"@,
        HVACProfile::Night => "Night"@,
        HVACProfile::Sleep => "Sleep"@,
        HVACProfile::Party => "Party"@,
        HVACProfile::Vacation => "Vacation"@,
        HVACProfile::Away => "Away"@,
    }
}

/// Mode and target temperature (tenths of a degree Celsius) of each built-in profile.
pub open spec fn settings_spec(p: HVACProfile) -> (HVACMode, i32) {
    match p {
        HVACProfile::Day => (HVACMode::Auto, 220),
        HVACProfile::Night => (HVACMode::Auto, 200),
        HVACProfile::Sleep => (HVACMode::Heating, 180),
        HVACProfile::Party => (HVACMode::Cooling, 230),
        HVACProfile::Vacation => (HVACMode::Off, 240),
        HVACProfile::Away => (HVACMode::Off, 250),
    }
}

/// The description shown for each built-in profile.
pub open spec fn description_spec(p: HVACProfile) -> Seq<char> {
    match p {
        HVACProfile::Day => "Auto mode, comfort-oriented\n     21-23°C / 70-73°F heating | 24-26°C / 75-79°F cooling\n     Auto fan speed\n     Comfort prioritized\n     🔥 Heater: Auto | ❄️ AC: Auto"@,
        HVACProfile::Night => "Auto or steady heating/cooling\n     20°C / 68°F heating | 25°C / 77°F cooling\n     Low fan speed\n     Moderate comfort\n     🔥 Heater: Auto | ❄️ AC: Auto"@,
        HVACProfile::Sleep => "Heating preferred, quiet operation\n     18-20°C / 64-68°F heating | 26-28°C / 79-82°F cooling\n     Fan off/low speed\n     Energy saving mode\n     🔥 Heater: ON | ❄️ AC: OFF"@,
        HVACProfile::Party => "Cooling with ventilation\n     22°C / 72°F heating | 23-24°C / 73-75°F cooling\n     Medium-high fan speed\n     Comfort prioritized\n     🔥 Heater: OFF | ❄️ AC: ON"@,
        HVACProfile::Vacation => "HVAC system off - Extended absence\n     16-18°C / 61-64°F heating | 29-30°C / 84-86°F cooling\n     Fan off\n     Max energy saving\n     🔥 Heater: OFF | ❄️ AC: OFF"@,
        HVACProfile::Away => "HVAC off/eco mode - Maintain 25°C / 77°F\n     25°C / 77°F target temperature\n     Fan off\n     Energy saving\n     🔥 Heater: OFF | ❄️ AC: OFF"@,
    }
}

/// The greeting shown for each built-in profile.
pub open spec fn greeting_spec(p: HVACProfile) -> Seq<char> {
    match p {
        HVACProfile::Day => "☀️ Hope you have a good day!"@,
        HVACProfile::Night => "🌙 Have a Good Night!"@,
        HVACProfile::Sleep => "😴 Sleep well and sweet dreams!"@,
        HVACProfile::Party => "🎊 Let's get this party started!"@,
        HVACProfile::Vacation => "🏖️ Enjoy your vacation!"@,
        HVACProfile::Away => "🚗 Have a safe trip!"@,
    }
}

impl HVACProfile {
    /// The mode and target temperature, in tenths of a degree Celsius, of this profile.
    pub fn get_settings(self) -> (r: (HVACMode, i32))
        ensures
            r == settings_spec(self),
    {
        match self {
            HVACProfile::Day => (HVACMode::Auto, 220),
            HVACProfile::Night => (HVACMode::Auto, 200),
            HVACProfile::Sleep => (HVACMode::Heating, 180),
            HVACProfile::Party => (HVACMode::Cooling, 230),
            HVACProfile::Vacation => (HVACMode::Off, 240),
            HVACProfile::Away => (HVACMode::Off, 250),
        }
    }

    /// A description of the profile's settings.
    pub fn description(self) -> (r: &'static str)
        ensures
            r@ == description_spec(self),
    {
        match self {
            HVACProfile::Day => "Auto mode, comfort-oriented\n     21-23°C / 70-73°F heating | 24-26°C / 75-79°F cooling\n     Auto fan speed\n     Comfort prioritized\n     🔥 Heater: Auto | ❄️ AC: Auto",
            HVACProfile::Night => "Auto or steady heating/cooling\n     20°C / 68°F heating | 25°C / 77°F cooling\n     Low fan speed\n     Moderate comfort\n     🔥 Heater: Auto | ❄️ AC: Auto",
            HVACProfile::Sleep => "Heating preferred, quiet operation\n     18-20°C / 64-68°F heating | 26-28°C / 79-82°F cooling\n     Fan off/low speed\n     Energy saving mode\n     🔥 Heater: ON | ❄️ AC: OFF",
            HVACProfile::Party => "Cooling with ventilation\n     22°C / 72°F heating | 23-24°C / 73-75°F cooling\n     Medium-high fan speed\n     Comfort prioritized\n     🔥 Heater: OFF | ❄️ AC: ON",
            HVACProfile::Vacation => "HVAC system off - Extended absence\n     16-18°C / 61-64°F heating | 29-30°C / 84-86°F cooling\n     Fan off\n     Max energy saving\n     🔥 Heater: OFF | ❄️ AC: OFF",
            HVACProfile::Away => "HVAC off/eco mode - Maintain 25°C / 77°F\n     25°C / 77°F target temperature\n     Fan off\n     Energy saving\n     🔥 Heater: OFF | ❄️ AC: OFF",
        }
    }

    /// The greeting shown when the profile is applied.
    pub fn greeting_message(self) -> (r: &'static str)
        ensures
            r@ == greeting_spec(self),
    {
        match self {
            HVACProfile::Day => "☀️ Hope you have a good day!",
            HVACProfile::Night => "🌙 Have a Good Night!",
            HVACProfile::Sleep => "😴 Sleep well and sweet dreams!",
            HVACProfile::Party => "🎊 Let's get this party started!",
            HVACProfile::Vacation => "🏖️ Enjoy your vacation!",
            HVACProfile::Away => "🚗 Have a safe trip!",
        }
    }

    /// The profile's name, as stored in the profiles table.
    pub fn name(self) -> (r: &'static str)
        ensures
            r@ == profile_name_spec(self),
    {
        match self {
            HVACProfile::Day => "Day",
            HVACProfile::Night => "Night",
            HVACProfile::Sleep => "Sleep",
            HVACProfile::Party => "Party",
            HVACProfile::Vacation => "Vacation",
            HVACProfile::Away => "Away",
        }
    }

    /// The built-in profile with exactly this name; `None` for a custom profile.
    pub fn from_name(name: &str) -> (r: Option<HVACProfile>)
        ensures
            r matches Some(p) ==> profile_name_spec(p) == name@,
            r is None ==> forall|p: HVACProfile| profile_name_spec(p) != name@,
    {
        if str_eq(name, "Day") {
            Some(HVACProfile::Day)
        } else if str_eq(name, "Night") {
            Some(HVACProfile::Night)
        } else if str_eq(name, "Sleep") {
            Some(HVACProfile::Sleep)
        } else if str_eq(name, "Party") {
            Some(HVACProfile::Party)
        } else if str_eq(name, "Vacation") {
            Some(HVACProfile::Vacation)
        } else if str_eq(name, "Away") {
            Some(HVACProfile::Away)
        } else {
            proof {
                assert forall|p: HVACProfile| profile_name_spec(p) != name@ by {
                    match p {
                        HVACProfile::Day => {},
                        HVACProfile::Night => {},
                        HVACProfile::Sleep => {},
                        HVACProfile::Party => {},
                        HVACProfile::Vacation => {},
                        HVACProfile::Away => {},
                    }
                }
            }
            None
        }
    }
}

/// The row seeded into the profiles table for a built-in profile, and restored by a reset.
pub struct StoredDefaults {
    /// The mode.
    pub mode: HVACMode,
    /// The target temperature in tenths of a degree Celsius.
    pub target_tenths: i32,
    /// The greeting shown when the profile is applied.
    pub greeting: &'static str,
    /// A one-line description.
    pub description: &'static str,
    /// The heater setting: `On`, `Off` or `Auto`.
    pub heater_status: &'static str,
    /// The air-conditioning setting: `On`, `Off` or `Auto`.
    pub ac_status: &'static str,
    /// The light: `ON` or `OFF`.
    pub light_status: &'static str,
    /// The fan speed: `Low`, `Medium` or `High`.
    pub fan_speed: &'static str,
}

/// The seeded row of each built-in profile: mode, target (tenths of °C), greeting,
/// description, heater, AC, light and fan settings.
pub open spec fn stored_defaults_spec(p: HVACProfile) -> (HVACMode, i32, Seq<char>, Seq<char>, Seq<char>, Seq<char>, Seq<char>, Seq<char>) {
    match p {
        HVACProfile::Day => (HVACMode::Auto, 220, "☀️ Hope you have a good day!"@, "Auto mode, comfort-oriented, 21-23°C / 24-26°C, Medium fan, Comfort"@, "Auto"@, "Auto"@, "OFF"@, "Medium"@),
        HVACProfile::Night => (HVACMode::Auto, 200, "🌙 Have a Good Night!"@, "Auto or steady heating/cooling, 20°C heating / 25°C cooling, Low fan speed, Moderate"@, "Auto"@, "Auto"@, "ON"@, "Low"@),
        HVACProfile::Sleep => (HVACMode::Heating, 250, "😴 Sleep well and sweet dreams!"@, "Heating preferred, quiet fan, 18-20°C heating / 26-28°C cooling, Low fan, Energy saving"@, "On"@, "Off"@, "OFF"@, "Low"@),
        HVACProfile::Party => (HVACMode::Cooling, 200, "🎊 Let's get this party started!"@, "Cooling with ventilation, 22°C heating / 23-24°C cooling, High fan, Comfort prioritized"@, "Off"@, "On"@, "ON"@, "High"@),
        HVACProfile::Vacation => (HVACMode::Off, 240, "🏖️ Enjoy your vacation!"@, "HVAC mostly off, 16-18°C heating / 29-30°C cooling, Fan off, Max energy saving"@, "Off"@, "Off"@, "OFF"@, "Low"@),
        HVACProfile::Away => (HVACMode::Off, 250, "🚗 Have a safe trip!"@, "HVAC off/eco mode, 25°C / 77°F, Fan off, Energy saving"@, "Off"@, "Off"@, "OFF"@, "Low"@),
    }
}

/// The row to seed (or restore) for a built-in profile.
pub fn stored_defaults(p: HVACProfile) -> (r: StoredDefaults)
    ensures
        (r.mode, r.target_tenths, r.greeting@, r.description@, r.heater_status@, r.ac_status@, r.light_status@, r.fan_speed@)
            == stored_defaults_spec(p),
{
    match p {
            HVACProfile::Day => StoredDefaults {
                mode: HVACMode::Auto, target_tenths: 220, greeting: "☀️ Hope you have a good day!",
                description: "Auto mode, comfort-oriented, 21-23°C / 24-26°C, Medium fan, Comfort",
                heater_status: "Auto", ac_status: "Auto", light_status: "OFF", fan_speed: "Medium",
            },
            HVACProfile::Night => StoredDefaults {
                mode: HVACMode::Auto, target_tenths: 200, greeting: "🌙 Have a Good Night!",
                description: "Auto or steady heating/cooling, 20°C heating / 25°C cooling, Low fan speed, Moderate",
                heater_status: "Auto", ac_status: "Auto", light_status: "ON", fan_speed: "Low",
            },
            HVACProfile::Sleep => StoredDefaults {
                mode: HVACMode::Heating, target_tenths: 250, greeting: "😴 Sleep well and sweet dreams!",
                description: "Heating preferred, quiet fan, 18-20°C heating / 26-28°C cooling, Low fan, Energy saving",
                heater_status: "On", ac_status: "Off", light_status: "OFF", fan_speed: "Low",
            },
            HVACProfile::Party => StoredDefaults {
                mode: HVACMode::Cooling, target_tenths: 200, greeting: "🎊 Let's get this party started!",
                description: "Cooling with ventilation, 22°C heating / 23-24°C cooling, High fan, Comfort prioritized",
                heater_status: "Off", ac_status: "On", light_status: "ON", fan_speed: "High",
            },
            HVACProfile::Vacation => StoredDefaults {
                mode: HVACMode::Off, target_tenths: 240, greeting: "🏖️ Enjoy your vacation!",
                description: "HVAC mostly off, 16-18°C heating / 29-30°C cooling, Fan off, Max energy saving",
                heater_status: "Off", ac_status: "Off", light_status: "OFF", fan_speed: "Low",
            },
            HVACProfile::Away => StoredDefaults {
                mode: HVACMode::Off, target_tenths: 250, greeting: "🚗 Have a safe trip!",
                description: "HVAC off/eco mode, 25°C / 77°F, Fan off, Energy saving",
                heater_status: "Off", ac_status: "Off", light_status: "OFF", fan_speed: "Low",
            },
    }
}

/// The schedule: Day from 06:00 to 18:00, Night from 18:01 to 23:00, Sleep from 23:01 to 05:59.
pub open spec fn scheduled_profile_spec(hour: u32, minute: u32) -> HVACProfile {
    if 6 <= hour && (hour < 18 || (hour == 18 && minute == 0)) {
        HVACProfile::Day
    } else if 18 <= hour && (hour < 23 || (hour == 23 && minute == 0)) {
        HVACProfile::Night
    } else {
        HVACProfile::Sleep
    }
}

/// The profile whose window holds the given local time of day.
pub fn scheduled_profile_at(hour: u32, minute: u32) -> (p: HVACProfile)
    ensures
        p == scheduled_profile_spec(hour, minute),
{
    if 6 <= hour && hour <= 18 {
        if hour == 18 && minute > 0 {
        } else {
            return HVACProfile::Day;
        }
    }
    if 18 <= hour && hour <= 23 {
        if hour > 18 || (hour == 18 && minute >= 1) {
            if hour == 23 && minute > 0 {
            } else {
                return HVACProfile::Night;
            }
        }
    }
    HVACProfile::Sleep
}

/// Reads the local time of day with `chrono::Local::now()` and returns its hour and
/// minute (`Timelike::hour` is documented as 0 to 23 and `Timelike::minute` as 0 to 59).
#[verifier::external_body]
fn local_hour_minute() -> (r: (u32, u32))
    ensures
        r.0 < 24,
        r.1 < 60,
{
    let now = chrono::Local::now();
    (now.hour(), now.minute())
}

/// The profile scheduled for the current local time.
pub fn current_scheduled_profile() -> (p: HVACProfile)
    ensures
        exists|h: u32, m: u32| h < 24 && m < 60 && p == scheduled_profile_spec(h, m),
{
    let (h, m) = local_hour_minute();
    scheduled_profile_at(h, m)
}

/// Every minute of the day falls in exactly the window the schedule names; the Day window
/// closes at 18:00 and the Night window at 23:00, both inclusive.
pub proof fn lemma_schedule_windows(hour: u32, minute: u32)
    requires
        hour < 24,
        minute < 60,
    ensures
        (scheduled_profile_spec(hour, minute) == HVACProfile::Day) <==> (6 * 60 <= hour * 60 + minute <= 18 * 60),
        (scheduled_profile_spec(hour, minute) == HVACProfile::Night) <==> (18 * 60 + 1 <= hour * 60 + minute <= 23 * 60),
        (scheduled_profile_spec(hour, minute) == HVACProfile::Sleep) <==> (hour * 60 + minute < 6 * 60 || 23 * 60 + 1 <= hour * 60 + minute),
{
}

/// The names of the built-in profiles, which are protected from deletion and reuse.
pub open spec fn default_profile_names() -> Seq<Seq<char>> {
    seq!["Day"@, "Night"@, "Sleep"@, "Party"@, "Vacation"@, "Away"@]
}

/// A name that equals a built-in profile name, ignoring ASCII case.
pub open spec fn is_default_profile_spec(name: Seq<char>) -> bool {
    exists|i: int| 0 <= i < 6 && eq_ignore_ascii_case_spec(#[trigger] default_profile_names()[i], name)
}

/// Whether a profile name is one of the protected built-in names (ASCII case ignored).
pub fn is_default_profile(name: &str) -> (r: bool)
    ensures
        r == is_default_profile_spec(name@),
{
    let defaults: [&str; 6] = ["Day", "Night", "Sleep", "Party", "Vacation", "Away"];
    let n = chars_of(name);
    let mut i: usize = 0;
    while i < 6
        invariant
            n@ == name@,
            i <= 6,
            defaults@.len() == 6,
            forall|k: int| 0 <= k < 6 ==> (#[trigger] defaults@[k])@ == default_profile_names()[k],
            forall|k: int| 0 <= k < i ==> !eq_ignore_ascii_case_spec(#[trigger] default_profile_names()[k], name@),
        decreases 6 - i,
    {
        let d = chars_of(defaults[i]);
        if chars_eq_ignore_ascii_case(d.as_slice(), n.as_slice()) {
            return true;
        }
        i += 1;
    }
    false
}

/// Why a new profile name is refused.
#[derive(Debug, Clone, Copy, PartialEq, Eq)]
pub enum ProfileNameError {
    /// Fewer than 3 or more than 20 characters once trimmed.
    Length,
    /// A character that is neither alphanumeric nor whitespace.
    Characters,
    /// A built-in profile name.
    Reserved,
    /// A profile of that name (ignoring case) exists already.
    Duplicate,
}

/// The rules on a new profile name, in the order they are applied; `existing` is the number
/// of stored profiles whose name equals the trimmed name, ignoring case.
pub open spec fn profile_name_check_spec(name: Seq<char>, existing: i64) -> Option<ProfileNameError> {
    let t = trim_spec(name);
    if t.len() < 3 || t.len() > 20 {
        Some(ProfileNameError::Length)
    } else if !(forall|i: int| 0 <= i < t.len() ==> alphanumeric_char(#[trigger] t[i]) || white_space(t[i])) {
        Some(ProfileNameError::Characters)
    } else if is_default_profile_spec(t) {
        Some(ProfileNameError::Reserved)
    } else if existing > 0 {
        Some(ProfileNameError::Duplicate)
    } else {
        None
    }
}

/// The trimmed profile name, as stored.
pub fn trimmed_profile_name(name: &str) -> (r: String)
    ensures
        r@ == trim_spec(name@),
{
    let v = chars_of(name);
    let t = trim_chars(v.as_slice());
    string_from_chars(t.as_slice())
}

/// Checks a new profile name against the rules, given the number of stored profiles
/// that already bear it (ignoring case); `None` means the name may be used.
pub fn check_profile_name(name: &str, existing: i64) -> (r: Option<ProfileNameError>)
    ensures
        r == profile_name_check_spec(name@, existing),
{
    let t = trimmed_profile_name(name);
    let ts = t.as_str();
    let v = chars_of(ts);
    if v.len() < 3 || v.len() > 20 {
        return Some(ProfileNameError::Length);
    }
    let mut i: usize = 0;
    while i < v.len()
        invariant
            v@ == ts@,
            ts@ == trim_spec(name@),
            3 <= v.len() <= 20,
            i <= v.len(),
            forall|k: int| 0 <= k < i ==> alphanumeric_char(#[trigger] v@[k]) || white_space(v@[k]),
        decreases v.len() - i,
    {
        if !(char_is_alphanumeric(v[i]) || char_is_whitespace(v[i])) {
            assert(!(alphanumeric_char(v@[i as int]) || white_space(v@[i as int])));
            return Some(ProfileNameError::Characters);
        }
        i += 1;
    }
    if is_default_profile(ts) {
        return Some(ProfileNameError::Reserved);
    }
    if existing > 0 {
        return Some(ProfileNameError::Duplicate);
    }
    None
}

/// Whether vacation mode is on, from the Vacation profile's stored dates.
pub fn is_vacation_mode_active(start: Option<&str>, end: Option<&str>) -> (r: bool)
    ensures
        r == (start is Some && end is Some),
{
    start.is_some() && end.is_some()
}

/// Guests and technicians are shut out while vacation mode is on.
pub open spec fn vacation_blocks_spec(role: Seq<char>, vacation_active: bool) -> bool {
    (role == "guest"@ || role == "technician"@) && vacation_active
}

/// Whether an account of this role is turned away at the main menu.
pub fn vacation_blocks(role: &str, vacation_active: bool) -> (r: bool)
    ensures
        r == vacation_blocks_spec(role@, vacation_active),
{
    (str_eq(role, "guest") || str_eq(role, "technician")) && vacation_active
}

/// Homeowners and admins are never turned away by vacation mode.
pub proof fn lemma_vacation_spares_owners(vacation_active: bool)
    ensures
        !vacation_blocks_spec("homeowner"@, vacation_active),
        !vacation_blocks_spec("admin"@, vacation_active),
        !vacation_blocks_spec("guest"@, false),
{
    reveal_strlit("homeowner");
    reveal_strlit("admin");
    reveal_strlit("guest");
    reveal_strlit("technician");
    assert("homeowner"@.len() != "guest"@.len());
    assert("homeowner"@.len() != "technician"@.len());
    assert("admin"@[0] != "guest"@[0]);
    assert("admin"@.len() != "technician"@.len());
}

/// Heater and AC shown as running once a profile is applied: heating and cooling run their
/// own unit, auto runs a unit whose profile setting is `ON` or `Auto`, other modes run none.
pub open spec fn unit_display_spec(mode: HVACMode, heater_status: Seq<char>, ac_status: Seq<char>) -> (bool, bool) {
    let heater = match mode {
        HVACMode::Heating => true,
        HVACMode::Auto => heater_status == "ON"@ || heater_status == "Auto"@,
        _ => false,
    };
    let ac = match mode {
        HVACMode::Cooling => true,
        HVACMode::Auto => ac_status == "ON"@ || ac_status == "Auto"@,
        _ => false,
    };
    (heater, ac)
}

/// Whether the heater and the AC are shown as on after applying a profile in `mode`
/// with the given stored heater and AC settings.
pub fn unit_display(mode: HVACMode, heater_status: &str, ac_status: &str) -> (r: (bool, bool))
    ensures
        r == unit_display_spec(mode, heater_status@, ac_status@),
{
    let heater = match mode {
        HVACMode::Heating => true,
        HVACMode::Auto => str_eq(heater_status, "ON") || str_eq(heater_status, "Auto"),
        _ => false,
    };
    let ac = match mode {
        HVACMode::Cooling => true,
        HVACMode::Auto => str_eq(ac_status, "ON") || str_eq(ac_status, "Auto"),
        _ => false,
    };
    (heater, ac)
}

/// What the heater and AC show after a profile is applied: Heating runs only the heater,
/// Cooling only the AC, Off and FanOnly neither; in Auto the two units are treated alike, and
/// a unit runs exactly when its setting is `ON` or `Auto`.
pub proof fn lemma_unit_display_rules(heater_status: Seq<char>, ac_status: Seq<char>)
    ensures
        unit_display_spec(HVACMode::Heating, heater_status, ac_status) == (true, false),
        unit_display_spec(HVACMode::Cooling, heater_status, ac_status) == (false, true),
        unit_display_spec(HVACMode::Off, heater_status, ac_status) == (false, false),
        unit_display_spec(HVACMode::FanOnly, heater_status, ac_status) == (false, false),
        unit_display_spec(HVACMode::Auto, heater_status, ac_status).1 == unit_display_spec(HVACMode::Auto, ac_status, heater_status).0,
        unit_display_spec(HVACMode::Auto, heater_status, ac_status).0 <==> (heater_status == "ON"@ || heater_status == "Auto"@),
        unit_display_spec(HVACMode::Auto, heater_status, ac_status).1 <==> (ac_status == "ON"@ || ac_status == "Auto"@),
{
}

/// The menu of the profile creator lists the modes as 1 Off, 2 Heating, 3 Cooling,
/// 4 FanOnly, 5 Auto.
pub open spec fn creator_mode_spec(choice: Seq<char>) -> Option<HVACMode> {
    let c = trim_spec(choice);
    if c == "1"@ { Some(HVACMode::Off) }
    else if c == "2"@ { Some(HVACMode::Heating) }
    else if c == "3"@ { Some(HVACMode::Cooling) }
    else if c == "4"@ { Some(HVACMode::FanOnly) }
    else if c == "5"@ { Some(HVACMode::Auto) }
    else { None }
}

/// The mode picked in the profile creator's menu; `None` for an invalid choice.
pub fn creator_mode(choice: &str) -> (r: Option<HVACMode>)
    ensures
        r == creator_mode_spec(choice@),
{
    let t = trimmed_profile_name(choice);
    let c = t.as_str();
    if str_eq(c, "1") { Some(HVACMode::Off) }
    else if str_eq(c, "2") { Some(HVACMode::Heating) }
    else if str_eq(c, "3") { Some(HVACMode::Cooling) }
    else if str_eq(c, "4") { Some(HVACMode::FanOnly) }
    else if str_eq(c, "5") { Some(HVACMode::Auto) }
    else { None }
}

/// The HVAC control menu lists the modes as 1 Heating, 2 Cooling, 3 Auto, 4 FanOnly, 5 Off.
pub open spec fn control_mode_spec(choice: Seq<char>) -> Option<HVACMode> {
    let c = trim_spec(choice);
    if c == "1"@ { Some(HVACMode::Heating) }
    else if c == "2"@ { Some(HVACMode::Cooling) }
    else if c == "3"@ { Some(HVACMode::Auto) }
    else if c == "4"@ { Some(HVACMode::FanOnly) }
    else if c == "5"@ { Some(HVACMode::Off) }
    else { None }
}

/// The mode picked in the HVAC control menu; `None` for an invalid choice.
pub fn control_mode(choice: &str) -> (r: Option<HVACMode>)
    ensures
        r == control_mode_spec(choice@),
{
    let t = trimmed_profile_name(choice);
    let c = t.as_str();
    if str_eq(c, "1") { Some(HVACMode::Heating) }
    else if str_eq(c, "2") { Some(HVACMode::Cooling) }
    else if str_eq(c, "3") { Some(HVACMode::Auto) }
    else if str_eq(c, "4") { Some(HVACMode::FanOnly) }
    else if str_eq(c, "5") { Some(HVACMode::Off) }
    else { None }
}

/// The control menu lists `[1] Heating [2] Cooling [3] Auto [4] Fan Only [5] Off`: the
/// trimmed choice k picks the k-th of these, and any other text picks nothing.
pub proof fn lemma_control_menu_order(choice: Seq<char>)
    ensures
        (control_mode_spec(choice) == Some(HVACMode::Heating)) <==> trim_spec(choice) == "1"@,
        (control_mode_spec(choice) == Some(HVACMode::Cooling)) <==> trim_spec(choice) == "2"@,
        (control_mode_spec(choice) == Some(HVACMode::Auto)) <==> trim_spec(choice) == "3"@,
        (control_mode_spec(choice) == Some(HVACMode::FanOnly)) <==> trim_spec(choice) == "4"@,
        (control_mode_spec(choice) == Some(HVACMode::Off)) <==> trim_spec(choice) == "5"@,
{
    reveal_strlit("1");
    reveal_strlit("2");
    reveal_strlit("3");
    reveal_strlit("4");
    reveal_strlit("5");
    assert("1"@[0] != "2"@[0]);
    assert("1"@[0] != "3"@[0]);
    assert("1"@[0] != "4"@[0]);
    assert("1"@[0] != "5"@[0]);
    assert("2"@[0] != "3"@[0]);
    assert("2"@[0] != "4"@[0]);
    assert("2"@[0] != "5"@[0]);
    assert("3"@[0] != "4"@[0]);
    assert("3"@[0] != "5"@[0]);
    assert("4"@[0] != "5"@[0]);
}

/// Heating, cooling and auto ask for a target temperature; fan-only and off do not.
pub open spec fn mode_takes_temperature_spec(m: HVACMode) -> bool {
    m == HVACMode::Heating || m == HVACMode::Cooling || m == HVACMode::Auto
}

/// Whether setting this mode asks for a target temperature.
pub fn mode_takes_temperature(m: HVACMode) -> (r: bool)
    ensures
        r == mode_takes_temperature_spec(m),
{
    match m {
        HVACMode::Heating | HVACMode::Cooling | HVACMode::Auto => true,
        _ => false,
    }
}

/// The light setting of the HVAC control menu: 1 is `ON`, anything else `OFF`.
pub fn control_light(choice: &str) -> (r: &'static str)
    ensures
        r@ == (if trim_spec(choice@) == "1"@ { "ON"@ } else { "OFF"@ }),
{
    let t = trimmed_profile_name(choice);
    if str_eq(t.as_str(), "1") { "ON" } else { "OFF" }
}

/// The three-way menu of the profile creator: 1, 2, 3 pick the first, second or third
/// of `options`; anything else is invalid.
pub open spec fn creator_pick_spec(choice: Seq<char>, options: Seq<Seq<char>>) -> Option<Seq<char>> {
    let c = trim_spec(choice);
    if c == "1"@ && options.len() >= 1 { Some(options[0]) }
    else if c == "2"@ && options.len() >= 2 { Some(options[1]) }
    else if c == "3"@ && options.len() >= 3 { Some(options[2]) }
    else { None }
}

/// Picks one of up to three listed options by its number.
pub fn creator_pick(choice: &str, options: &[&'static str]) -> (r: Option<&'static str>)
    ensures
        r matches Some(o) ==> creator_pick_spec(choice@, options@.map_values(|a: &str| a@)) == Some(o@),
        r is None ==> creator_pick_spec(choice@, options@.map_values(|a: &str| a@)) is None,
{
    let t = trimmed_profile_name(choice);
    let c = t.as_str();
    if str_eq(c, "1") && options.len() >= 1 { Some(options[0]) }
    else if str_eq(c, "2") && options.len() >= 2 { Some(options[1]) }
    else if str_eq(c, "3") && options.len() >= 3 { Some(options[2]) }
    else { None }
}

/// The built-in profiles in the order the reset-all command restores them.
pub fn default_profiles() -> (r: [HVACProfile; 6])
    ensures
        r@ == seq![HVACProfile::Day, HVACProfile::Night, HVACProfile::Sleep, HVACProfile::Party, HVACProfile::Vacation, HVACProfile::Away],
{
    [HVACProfile::Day, HVACProfile::Night, HVACProfile::Sleep, HVACProfile::Party, HVACProfile::Vacation, HVACProfile::Away]
}

/// A built-in profile's name reads back as that profile, and is protected.
pub proof fn lemma_profile_name_roundtrip(p: HVACProfile)
    ensures
        forall|q: HVACProfile| profile_name_spec(q) == profile_name_spec(p) ==> q == p,
        is_default_profile_spec(profile_name_spec(p)),
{
    reveal_strlit("Day");
    reveal_strlit("Night");
    reveal_strlit("Sleep");
    reveal_strlit("Party");
    reveal_strlit("Vacation");
    reveal_strlit("Away");
    assert forall|q: HVACProfile| profile_name_spec(q) == profile_name_spec(p) implies q == p by {
        if q != p {
            let a = profile_name_spec(q);
            let b = profile_name_spec(p);
            assert(a.len() != b.len() || a[0] != b[0] || a[1] != b[1]);
        }
    }
    let n = profile_name_spec(p);
    let i: int = match p {
        HVACProfile::Day => 0,
        HVACProfile::Night => 1,
        HVACProfile::Sleep => 2,
        HVACProfile::Party => 3,
        HVACProfile::Vacation => 4,
        HVACProfile::Away => 5,
    };
    assert(default_profile_names()[i] == n);
    assert(eq_ignore_ascii_case_spec(default_profile_names()[i], n));
}

/// Every built-in profile's description names its heater and AC settings, the six
/// descriptions differ, and the Away description states the 25 °C target its settings hold.
pub proof fn lemma_description_law(p: HVACProfile, q: HVACProfile)
    ensures
        description_spec(p).len() > 0,
        contains_spec(description_spec(p), "🔥 Heater:"@),
        contains_spec(description_spec(p), "❄️ AC:"@),
        description_spec(p) == description_spec(q) <==> p == q,
        "HVAC off/eco mode - Maintain 25°C / 77°F"@.is_prefix_of(description_spec(HVACProfile::Away)),
        settings_spec(HVACProfile::Away).1 == 250,
{
    reveal_strlit("Auto mode, comfort-oriented\n     21-23°C / 70-73°F heating | 24-26°C / 75-79°F cooling\n     Auto fan speed\n     Comfort prioritized\n     🔥 Heater: Auto | ❄️ AC: Auto");
    reveal_strlit("Auto or steady heating/cooling\n     20°C / 68°F heating | 25°C / 77°F cooling\n     Low fan speed\n     Moderate comfort\n     🔥 Heater: Auto | ❄️ AC: Auto");
    reveal_strlit("Heating preferred, quiet operation\n     18-20°C / 64-68°F heating | 26-28°C / 79-82°F cooling\n     Fan off/low speed\n     Energy saving mode\n     🔥 Heater: ON | ❄️ AC: OFF");
    reveal_strlit("Cooling with ventilation\n     22°C / 72°F heating | 23-24°C / 73-75°F cooling\n     Medium-high fan speed\n     Comfort prioritized\n     🔥 Heater: OFF | ❄️ AC: ON");
    reveal_strlit("HVAC system off - Extended absence\n     16-18°C / 61-64°F heating | 29-30°C / 84-86°F cooling\n     Fan off\n     Max energy saving\n     🔥 Heater: OFF | ❄️ AC: OFF");
    reveal_strlit("HVAC off/eco mode - Maintain 25°C / 77°F\n     25°C / 77°F target temperature\n     Fan off\n     Energy saving\n     🔥 Heater: OFF | ❄️ AC: OFF");
    let heater = "🔥 Heater:"@;
    let ac = "❄️ AC:"@;
    reveal_strlit("🔥 Heater:");
    reveal_strlit("❄️ AC:");
    reveal_strlit("HVAC off/eco mode - Maintain 25°C / 77°F");
    let d = description_spec(p);
    match p {
        HVACProfile::Day => {
            assert(d.subrange(137int, 137int + heater.len()) =~= heater);
            assert(d.subrange(154int, 154int + ac.len()) =~= ac);
        },
        HVACProfile::Night => {
            assert(d.subrange(124int, 124int + heater.len()) =~= heater);
            assert(d.subrange(141int, 141int + ac.len()) =~= ac);
        },
        HVACProfile::Sleep => {
            assert(d.subrange(146int, 146int + heater.len()) =~= heater);
            assert(d.subrange(161int, 161int + ac.len()) =~= ac);
        },
        HVACProfile::Party => {
            assert(d.subrange(135int, 135int + heater.len()) =~= heater);
            assert(d.subrange(151int, 151int + ac.len()) =~= ac);
        },
        HVACProfile::Vacation => {
            assert(d.subrange(135int, 135int + heater.len()) =~= heater);
            assert(d.subrange(151int, 151int + ac.len()) =~= ac);
        },
        HVACProfile::Away => {
            assert(d.subrange(114int, 114int + heater.len()) =~= heater);
            assert(d.subrange(130int, 130int + ac.len()) =~= ac);
        },
    }
    assert("HVAC off/eco mode - Maintain 25°C / 77°F"@ =~= description_spec(HVACProfile::Away).subrange(0, 40));
    assert(contains_spec(d, heater));
    assert(contains_spec(d, ac));
    if p != q {
        let a = description_spec(p);
        let b = description_spec(q);
        assert(a[5] != b[5] || a[1] != b[1] || a[0] != b[0]);
    }
}

/// Distinct modes have distinct stored names, so a stored name reads back as its mode.
pub proof fn lemma_mode_name_injective(a: HVACMode, b: HVACMode)
    ensures
        mode_name(a) == mode_name(b) <==> a == b,
{
    reveal_strlit("Off");
    reveal_strlit("Heating");
    reveal_strlit("Cooling");
    reveal_strlit("FanOnly");
    reveal_strlit("Auto");
    if a != b {
        let x = mode_name(a);
        let y = mode_name(b);
        assert(x.len() != y.len() || x[0] != y[0]);
    }
}

} // verus!
