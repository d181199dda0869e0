//! Indoor sensor kinds with their safe reading ranges, and the outdoor
//! condition text kept from a weather observation.
use vstd::prelude::*;
use crate::text::{chars_of, string_from_chars};

verus! {

/// The indoor sensors.
#[derive(Debug, Clone, Copy)]
pub enum SensorType {
    /// Temperature in degrees Celsius.
    TemperatureC,
    /// Relative humidity in percent.
    HumidityPct,
    /// Carbon monoxide in parts per million.
    COPpm,
}

/// The safe range of each sensor, in its own unit.
pub open spec fn default_bounds_spec(kind: SensorType) -> (i32, i32) {
    match kind {
        SensorType::TemperatureC => (-40i32, 85i32),
        SensorType::HumidityPct => (0, 100),
        SensorType::COPpm => (0, 1000),
    }
}

/// The lower and upper bound of a sensor's safe range, in whole units of that sensor.
pub fn default_bounds(kind: SensorType) -> (r: (i32, i32))
    ensures
        r == default_bounds_spec(kind),
        r.0 < r.1,
{
    match kind {
        SensorType::TemperatureC => (-40, 85),
        SensorType::HumidityPct => (0, 100),
        SensorType::COPpm => (0, 1000),
    }
}

/// Longest condition text kept from an observation, in characters.
pub const MAX_CONDITION_LEN: usize = 200;

/// The observation's text description, or `Unknown` where it has none or an empty one (the
/// condition shown is never empty), cut to its first `MAX_CONDITION_LEN` characters.
pub open spec fn condition_text_spec(description: Option<Seq<char>>) -> Seq<char> {
    let t = match description {
        Some(d) => if d.len() > 0 { d } else { "Unknown"@ },
        None => "Unknown"@,
    };
    if t.len() > MAX_CONDITION_LEN { t.take(MAX_CONDITION_LEN as int) } else { t }
}

/// The condition text stored with a weather observation.
pub fn condition_text(description: Option<&str>) -> (r: String)
    ensures
        r@ == condition_text_spec(match description { Some(d) => Some(d@), None => None }),
        r@.len() > 0,
{
    proof {
        reveal_strlit("Unknown");
    }
    let given = match description {
        Some(d) => chars_of(d),
        None => Vec::new(),
    };
    let v = if given.len() > 0 { given } else { chars_of("Unknown") };
    let n: usize = if v.len() > MAX_CONDITION_LEN { MAX_CONDITION_LEN } else { v.len() };
    let mut out: Vec<char> = Vec::new();
    let mut i: usize = 0;
    while i < n
        invariant
            n <= v.len(),
            i <= n,
            out@ == v@.take(i as int),
        decreases n - i,
    {
        out.push(v[i]);
        i += 1;
        assert(v@.take(i as int) =~= v@.take(i - 1).push(v@[i - 1]));
    }
    proof {
        if v@.len() <= MAX_CONDITION_LEN {
            assert(v@.take(n as int) =~= v@);
        }
    }
    string_from_chars(out.as_slice())
}

} // verus!
