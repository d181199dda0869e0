//! Decimal number parsing and splitting, with the semantics of `str::parse`
//! and `str::split`, and the vacation date format built on them.
use vstd::prelude::*;
use crate::text::{is_digit, chars_of, trim_spec, trim_chars};

verus! {

/// The value of a run of decimal digits.
pub open spec fn digits_value(s: Seq<char>) -> int
    decreases s.len(),
{
    if s.len() == 0 {
        0
    } else {
        10 * digits_value(s.drop_last()) + ((s.last() as u32) - ('0' as u32))
    }
}

/// All characters are ASCII digits.
pub open spec fn all_digits(s: Seq<char>) -> bool {
    forall|i: int| 0 <= i < s.len() ==> is_digit(#[trigger] s[i])
}

/// What `str::parse` gives back for an unsigned type whose largest value is `max`:
/// an optional `+`, then one or more ASCII digits, whose value must not exceed `max`.
pub open spec fn parse_unsigned_spec(s: Seq<char>, max: int) -> Option<int> {
    let d = if s.len() > 0 && s[0] == '+' { s.drop_first() } else { s };
    if d.len() == 0 || !all_digits(d) || digits_value(d) > max {
        None
    } else {
        Some(digits_value(d))
    }
}

/// What `str::parse::<i64>` gives back: an optional sign, then one or more ASCII
/// digits, whose signed value must fit in `i64`.
pub open spec fn parse_i64_spec(s: Seq<char>) -> Option<int> {
    if s.len() > 0 && s[0] == '-' {
        let d = s.drop_first();
        if d.len() == 0 || !all_digits(d) || digits_value(d) > 0x8000_0000_0000_0000 {
            None
        } else {
            Some(-digits_value(d))
        }
    } else {
        parse_unsigned_spec(s, i64::MAX as int)
    }
}

proof fn lemma_digits_value_nonneg(s: Seq<char>)
    requires
        all_digits(s),
    ensures
        digits_value(s) >= 0,
    decreases s.len(),
{
    if s.len() > 0 {
        lemma_digits_value_nonneg(s.drop_last());
    }
}

/// Reads a run of digits (no sign) with a cap; `None` where a character is not a
/// digit, the run is empty, or the value exceeds `max`.
fn parse_digits(s: &[char], start: usize, max: u64) -> (r: Option<u64>)
    requires
        start <= s.len(),
        max >= 9,
    ensures
        ({
            let d = s@.subrange(start as int, s.len() as int);
            &&& r matches Some(v) ==> d.len() > 0 && all_digits(d) && digits_value(d) <= max && v == digits_value(d)
            &&& r is None ==> (d.len() == 0 || !all_digits(d) || digits_value(d) > max)
        }),
{
    if start == s.len() {
        return None;
    }
    let ghost d = s@.subrange(start as int, s.len() as int);
    let mut acc: u64 = 0;
    let mut over = false;
    let mut i: usize = start;
    while i < s.len()
        invariant
            start <= i <= s.len(),
            d == s@.subrange(start as int, s.len() as int),
            all_digits(s@.subrange(start as int, i as int)),
            max >= 9,
            !over ==> acc == digits_value(s@.subrange(start as int, i as int)) && acc <= max,
            over ==> digits_value(s@.subrange(start as int, i as int)) > max,
        decreases s.len() - i,
    {
        let c = s[i];
        proof {
            assert(s@.subrange(start as int, i + 1).drop_last() =~= s@.subrange(start as int, i as int));
        }
        if !('0' <= c && c <= '9') {
            assert(!is_digit(d[i - start]));
            return None;
        }
        let dv: u64 = (c as u32 - '0' as u32) as u64;
        proof {
            lemma_digits_value_nonneg(s@.subrange(start as int, i as int));
            assert(all_digits(s@.subrange(start as int, i + 1)));
        }
        if !over {
            if acc > (max - dv) / 10 {
                over = true;
                assert(10 * acc + dv > max) by (nonlinear_arith)
                    requires acc > (max - dv) / 10, dv <= 9, max >= 9;
            } else {
                assert(10 * acc + dv <= max) by (nonlinear_arith)
                    requires acc <= (max - dv) / 10, dv <= max;
                acc = 10 * acc + dv;
            }
        }
        i += 1;
    }
    assert(s@.subrange(start as int, s.len() as int) == d);
    if over {
        None
    } else {
        Some(acc)
    }
}

/// Parses an unsigned decimal with an optional `+` and a cap, as `str::parse` does.
fn parse_unsigned(s: &[char], max: u64) -> (r: Option<u64>)
    requires
        max >= 9,
    ensures
        r matches Some(v) ==> parse_unsigned_spec(s@, max as int) == Some(v as int),
        r is None ==> parse_unsigned_spec(s@, max as int) is None,
{
    let start: usize = if s.len() > 0 && s[0] == '+' { 1 } else { 0 };
    proof {
        let d = if s@.len() > 0 && s@[0] == '+' { s@.drop_first() } else { s@ };
        assert(s@.subrange(start as int, s@.len() as int) =~= d);
    }
    parse_digits(s, start, max)
}

/// `str::parse::<u32>`.
pub fn parse_u32(text: &str) -> (r: Option<u32>)
    ensures
        r matches Some(v) ==> parse_unsigned_spec(text@, u32::MAX as int) == Some(v as int),
        r is None ==> parse_unsigned_spec(text@, u32::MAX as int) is None,
{
    let v = chars_of(text);
    match parse_unsigned(v.as_slice(), u32::MAX as u64) {
        Some(x) => Some(x as u32),
        None => None,
    }
}

/// `str::parse::<usize>`.
pub fn parse_usize(text: &str) -> (r: Option<usize>)
    ensures
        r matches Some(v) ==> parse_unsigned_spec(text@, usize::MAX as int) == Some(v as int),
        r is None ==> parse_unsigned_spec(text@, usize::MAX as int) is None,
{
    let v = chars_of(text);
    match parse_unsigned(v.as_slice(), usize::MAX as u64) {
        Some(x) => Some(x as usize),
        None => None,
    }
}

/// `str::parse::<i64>`.
pub fn parse_i64(text: &str) -> (r: Option<i64>)
    ensures
        r matches Some(v) ==> parse_i64_spec(text@) == Some(v as int),
        r is None ==> parse_i64_spec(text@) is None,
{
    let v = chars_of(text);
    if v.len() > 0 && v[0] == '-' {
        proof {
            assert(v@.subrange(1, v@.len() as int) =~= v@.drop_first());
        }
        match parse_digits(v.as_slice(), 1, 0x8000_0000_0000_0000u64) {
            Some(m) => {
                if m == 0x8000_0000_0000_0000u64 {
                    Some(i64::MIN)
                } else {
                    Some(-(m as i64))
                }
            },
            None => None,
        }
    } else {
        match parse_unsigned(v.as_slice(), i64::MAX as u64) {
            Some(x) => Some(x as i64),
            None => None,
        }
    }
}

/// The pieces of `s` between occurrences of `sep`, as `str::split` gives them.
pub open spec fn split_spec(s: Seq<char>, sep: char) -> Seq<Seq<char>>
    decreases s.len(),
{
    if s.len() == 0 {
        seq![Seq::empty()]
    } else {
        let prev = split_spec(s.drop_last(), sep);
        if s.last() == sep {
            prev.push(Seq::empty())
        } else {
            prev.update(prev.len() - 1, prev.last().push(s.last()))
        }
    }
}

/// `str::split` always yields at least one piece.
pub proof fn lemma_split_nonempty_pub(s: Seq<char>, sep: char)
    ensures
        split_spec(s, sep).len() >= 1,
{
    lemma_split_nonempty(s, sep);
}

proof fn lemma_split_nonempty(s: Seq<char>, sep: char)
    ensures
        split_spec(s, sep).len() >= 1,
    decreases s.len(),
{
    if s.len() > 0 {
        lemma_split_nonempty(s.drop_last(), sep);
    }
}

/// `str::split` on one separator character.
pub fn split_char(s: &[char], sep: char) -> (r: Vec<Vec<char>>)
    ensures
        r@.len() == split_spec(s@, sep).len(),
        forall|k: int| 0 <= k < r@.len() ==> (#[trigger] r@[k])@ == split_spec(s@, sep)[k],
{
    let mut parts: Vec<Vec<char>> = Vec::new();
    let mut cur: Vec<char> = Vec::new();
    let mut i: usize = 0;
    proof {
        assert(s@.take(0) =~= Seq::<char>::empty());
    }
    while i < s.len()
        invariant
            i <= s.len(),
            split_spec(s@.take(i as int), sep).len() == parts@.len() + 1,
            forall|k: int| 0 <= k < parts@.len() ==> (#[trigger] parts@[k])@ == split_spec(s@.take(i as int), sep)[k],
            cur@ == split_spec(s@.take(i as int), sep).last(),
        decreases s.len() - i,
    {
        proof {
            assert(s@.take(i + 1).drop_last() =~= s@.take(i as int));
            lemma_split_nonempty(s@.take(i as int), sep);
        }
        if s[i] == sep {
            parts.push(cur);
            cur = Vec::new();
        } else {
            cur.push(s[i]);
        }
        i += 1;
    }
    assert(s@.take(s.len() as int) =~= s@);
    parts.push(cur);
    parts
}

/// A vacation date `mm-dd-yyyy`: three dash-separated numbers, month 1 to 12,
/// day 1 to 31, year 2000 to 2100.
pub open spec fn date_format_spec(date: Seq<char>) -> bool {
    let parts = split_spec(date, '-');
    parts.len() == 3 && ({
        let m = parse_unsigned_spec(parts[0], u32::MAX as int);
        let d = parse_unsigned_spec(parts[1], u32::MAX as int);
        let y = parse_unsigned_spec(parts[2], u32::MAX as int);
        &&& m matches Some(mv) && 1 <= mv <= 12
        &&& d matches Some(dv) && 1 <= dv <= 31
        &&& y matches Some(yv) && 2000 <= yv <= 2100
    })
}

/// Whether a date typed for vacation mode has the `mm-dd-yyyy` form and plausible values.
pub fn validate_date_format(date: &str) -> (r: bool)
    ensures
        r == date_format_spec(date@),
{
    let v = chars_of(date);
    let parts = split_char(v.as_slice(), '-');
    if parts.len() != 3 {
        return false;
    }
    let m = parse_unsigned(parts[0].as_slice(), u32::MAX as u64);
    let d = parse_unsigned(parts[1].as_slice(), u32::MAX as u64);
    let y = parse_unsigned(parts[2].as_slice(), u32::MAX as u64);
    match (m, d, y) {
        (Some(mv), Some(dv), Some(yv)) => 1 <= mv && mv <= 12 && 1 <= dv && dv <= 31 && 2000 <= yv && yv <= 2100,
        _ => false,
    }
}

/// `s.trim().parse::<usize>().ok()`: a typed list number.
pub fn parse_choice(text: &str) -> (r: Option<usize>)
    ensures
        r matches Some(v) ==> parse_unsigned_spec(trim_spec(text@), usize::MAX as int) == Some(v as int),
        r is None ==> parse_unsigned_spec(trim_spec(text@), usize::MAX as int) is None,
{
    let v = chars_of(text);
    let t = trim_chars(v.as_slice());
    match parse_unsigned(t.as_slice(), usize::MAX as u64) {
        Some(x) => Some(x as usize),
        None => None,
    }
}

} // verus!
