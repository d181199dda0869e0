//! Character-level text helpers shared by the validators: trimming,
//! ASCII case folding, substring search and whitespace collapsing.
use vstd::prelude::*;

verus! {

/// The Unicode `White_Space` property of a character, as `char::is_whitespace` reports it:
/// U+0009 to U+000D, U+0020, U+0085, U+00A0, U+1680, U+2000 to U+200A, U+2028, U+2029,
/// U+202F, U+205F and U+3000.
pub open spec fn white_space(c: char) -> bool {
    let u = c as u32;
    ||| 0x09 <= u <= 0x0D
    ||| u == 0x20 || u == 0x85 || u == 0xA0 || u == 0x1680
    ||| 0x2000 <= u <= 0x200A
    ||| u == 0x2028 || u == 0x2029 || u == 0x202F || u == 0x205F || u == 0x3000
}

/// The Unicode general category `Cc` (control), as `char::is_control` reports it:
/// U+0000 to U+001F and U+007F to U+009F.
pub open spec fn control_char(c: char) -> bool {
    let u = c as u32;
    u <= 0x1F || (0x7F <= u <= 0x9F)
}

/// The Unicode `Alphabetic` or `Numeric` property, as `char::is_alphanumeric` reports it.
pub uninterp spec fn alphanumeric_char(c: char) -> bool;

/// `char::is_whitespace`: whether the character has the Unicode `White_Space` property.
pub(crate) fn char_is_whitespace(c: char) -> (r: bool)
    ensures
        r == white_space(c),
{
    let u = c as u32;
    (0x09 <= u && u <= 0x0D) || u == 0x20 || u == 0x85 || u == 0xA0 || u == 0x1680
        || (0x2000 <= u && u <= 0x200A)
        || u == 0x2028 || u == 0x2029 || u == 0x202F || u == 0x205F || u == 0x3000
}

/// `char::is_control`: whether the character is in the Unicode category `Cc`.
pub(crate) fn char_is_control(c: char) -> (r: bool)
    ensures
        r == control_char(c),
{
    let u = c as u32;
    u <= 0x1F || (0x7F <= u && u <= 0x9F)
}

/// Calls `char::is_alphanumeric`; its result is the character's alphanumeric property.
#[verifier::external_body]
pub(crate) fn char_is_alphanumeric(c: char) -> (r: bool)
    ensures
        r == alphanumeric_char(c),
{
    c.is_alphanumeric()
}

/// What `str::to_lowercase` gives back (Unicode lower-case mapping).
pub uninterp spec fn lowercase_of(s: Seq<char>) -> Seq<char>;

/// Calls `str::to_lowercase`. The result is named by `lowercase_of`.
#[verifier::external_body]
pub(crate) fn str_to_lowercase(s: &str) -> (r: String)
    ensures
        r@ == lowercase_of(s@),
{
    s.to_lowercase()
}

/// Calls `String::push`, which appends one character at the end of the string.
#[verifier::external_body]
pub(crate) fn string_push(s: &mut String, c: char)
    ensures
        final(s)@ == old(s)@.push(c),
{
    s.push(c)
}

/// A character in `'0'..='9'`.
pub open spec fn is_digit(c: char) -> bool {
    '0' <= c && c <= '9'
}

/// A character below U+0080.
pub open spec fn is_ascii_char(c: char) -> bool {
    (c as u32) < 128
}

/// Lower-cases an ASCII upper-case letter and leaves every other character unchanged.
pub open spec fn ascii_lower(c: char) -> char {
    if 'A' <= c && c <= 'Z' {
        ((c as u32) + 32) as char
    } else {
        c
    }
}

/// Two character sequences that are equal once ASCII letters are folded to lower case.
pub open spec fn eq_ignore_ascii_case_spec(a: Seq<char>, b: Seq<char>) -> bool {
    &&& a.len() == b.len()
    &&& forall|i: int| 0 <= i < a.len() ==> ascii_lower(#[trigger] a[i]) == ascii_lower(b[i])
}

/// `needle` occurs as a contiguous run of characters in `hay`.
pub open spec fn contains_spec(hay: Seq<char>, needle: Seq<char>) -> bool {
    exists|i: int| 0 <= i <= hay.len() - needle.len() && #[trigger] hay.subrange(i, i + needle.len()) == needle
}

/// The characters left once the leading `White_Space` characters are dropped.
pub open spec fn trim_start_spec(s: Seq<char>) -> Seq<char>
    decreases s.len(),
{
    if s.len() > 0 && white_space(s[0]) {
        trim_start_spec(s.drop_first())
    } else {
        s
    }
}

/// The characters left once the trailing `White_Space` characters are dropped.
pub open spec fn trim_end_spec(s: Seq<char>) -> Seq<char>
    decreases s.len(),
{
    if s.len() > 0 && white_space(s.last()) {
        trim_end_spec(s.drop_last())
    } else {
        s
    }
}

/// What `str::trim` gives back: leading and trailing `White_Space` removed.
pub open spec fn trim_spec(s: Seq<char>) -> Seq<char> {
    trim_end_spec(trim_start_spec(s))
}

/// Words (maximal runs of non-`White_Space` characters) joined by single spaces,
/// paired with whether a separator is pending before the next word.
pub open spec fn collapse_state(s: Seq<char>) -> (Seq<char>, bool)
    decreases s.len(),
{
    if s.len() == 0 {
        (Seq::empty(), false)
    } else {
        let (out, gap) = collapse_state(s.drop_last());
        let c = s.last();
        if white_space(c) {
            (out, out.len() > 0)
        } else if gap {
            (out.push(' ').push(c), false)
        } else {
            (out.push(c), false)
        }
    }
}

/// What `s.split_whitespace().collect::<Vec<_>>().join(" ")` gives back.
pub open spec fn collapse_spec(s: Seq<char>) -> Seq<char> {
    collapse_state(s).0
}

/// The characters of `s` that are not control characters, in order.
pub open spec fn drop_controls_spec(s: Seq<char>) -> Seq<char> {
    s.filter(|c: char| !control_char(c))
}

/// Copies the characters of a string slice into a vector.
pub fn chars_of(s: &str) -> (v: Vec<char>)
    ensures
        v@ == s@,
{
    let mut v: Vec<char> = Vec::new();
    for c in it: s.chars()
        invariant
            it.seq() == s@,
            v@ == it.seq().take(it.index() as int),
    {
        v.push(c);
    }
    v
}

/// Builds a string from a run of characters.
pub fn string_from_chars(v: &[char]) -> (s: String)
    ensures
        s@ == v@,
{
    let mut s = String::new();
    let mut i: usize = 0;
    while i < v.len()
        invariant
            i <= v.len(),
            s@ == v@.take(i as int),
        decreases v.len() - i,
    {
        string_push(&mut s, v[i]);
        i += 1;
        assert(v@.take(i as int) == v@.take((i - 1) as int).push(v@[i - 1]));
    }
    assert(v@.take(v.len() as int) == v@);
    s
}

/// Whether two character runs are the same.
pub fn chars_eq(a: &[char], b: &[char]) -> (r: bool)
    ensures
        r == (a@ == b@),
{
    if a.len() != b.len() {
        return false;
    }
    let mut i: usize = 0;
    while i < a.len()
        invariant
            a.len() == b.len(),
            i <= a.len(),
            forall|k: int| 0 <= k < i ==> a@[k] == b@[k],
        decreases a.len() - i,
    {
        if a[i] != b[i] {
            return false;
        }
        i += 1;
    }
    assert(a@ =~= b@);
    true
}

/// Whether two string slices hold the same characters.
pub fn str_eq(a: &str, b: &str) -> (r: bool)
    ensures
        r == (a@ == b@),
{
    let va = chars_of(a);
    let vb = chars_of(b);
    chars_eq(va.as_slice(), vb.as_slice())
}

/// Lower-cases an ASCII upper-case letter.
pub fn to_ascii_lower(c: char) -> (r: char)
    ensures
        r == ascii_lower(c),
{
    if 'A' <= c && c <= 'Z' {
        let u: u32 = (c as u32) + 32;
        assert('a' as u32 <= u <= 'z' as u32);
        char_from_ascii_letter(u)
    } else {
        c
    }
}

/// Turns the code of a lower-case ASCII letter into that letter.
fn char_from_ascii_letter(u: u32) -> (c: char)
    requires
        'a' as u32 <= u <= 'z' as u32,
    ensures
        c == u as char,
        c as u32 == u,
{
    let b: u8 = u as u8;
    b as char
}

/// `str::eq_ignore_ascii_case` on two character runs.
pub fn chars_eq_ignore_ascii_case(a: &[char], b: &[char]) -> (r: bool)
    ensures
        r == eq_ignore_ascii_case_spec(a@, b@),
{
    if a.len() != b.len() {
        return false;
    }
    let mut i: usize = 0;
    while i < a.len()
        invariant
            a.len() == b.len(),
            i <= a.len(),
            forall|k: int| 0 <= k < i ==> ascii_lower(#[trigger] a@[k]) == ascii_lower(b@[k]),
        decreases a.len() - i,
    {
        if to_ascii_lower(a[i]) != to_ascii_lower(b[i]) {
            return false;
        }
        i += 1;
    }
    true
}

/// `str::eq_ignore_ascii_case`: equal once ASCII letters are folded to lower case.
pub fn str_eq_ignore_ascii_case(a: &str, b: &str) -> (r: bool)
    ensures
        r == eq_ignore_ascii_case_spec(a@, b@),
{
    let va = chars_of(a);
    let vb = chars_of(b);
    chars_eq_ignore_ascii_case(va.as_slice(), vb.as_slice())
}

/// Whether `needle` occurs in `hay` starting at position `start`.
fn occurs_at(hay: &[char], needle: &[char], start: usize) -> (r: bool)
    requires
        start + needle.len() <= hay.len(),
    ensures
        r == (hay@.subrange(start as int, start + needle.len()) == needle@),
{
    let mut k: usize = 0;
    while k < needle.len()
        invariant
            start + needle.len() <= hay.len(),
            k <= needle.len(),
            forall|j: int| 0 <= j < k ==> hay@[start + j] == needle@[j],
        decreases needle.len() - k,
    {
        if hay[start + k] != needle[k] {
            assert(hay@.subrange(start as int, start + needle.len())[k as int] != needle@[k as int]);
            return false;
        }
        k += 1;
    }
    assert(hay@.subrange(start as int, start + needle.len()) =~= needle@);
    true
}

/// Substring search: whether `needle` occurs as a contiguous run in `hay`.
pub fn chars_contains(hay: &[char], needle: &[char]) -> (r: bool)
    ensures
        r == contains_spec(hay@, needle@),
{
    if needle.len() > hay.len() {
        return false;
    }
    let last: usize = hay.len() - needle.len();
    let mut i: usize = 0;
    while i <= last
        invariant
            last == hay.len() - needle.len(),
            needle.len() <= hay.len(),
            i <= last + 1,
            forall|j: int| 0 <= j < i ==> #[trigger] hay@.subrange(j, j + needle.len()) != needle@,
        decreases last + 1 - i,
    {
        if occurs_at(hay, needle, i) {
            return true;
        }
        if i == last {
            return false;
        }
        i += 1;
    }
    false
}

/// `str::trim` on a run of characters.
pub fn trim_chars(v: &[char]) -> (r: Vec<char>)
    ensures
        r@ == trim_spec(v@),
{
    let n = v.len();
    let mut i: usize = 0;
    assert(v@.subrange(0, n as int) =~= v@);
    while i < n && char_is_whitespace(v[i])
        invariant
            n == v.len(),
            i <= n,
            trim_start_spec(v@) == trim_start_spec(v@.subrange(i as int, n as int)),
        decreases n - i,
    {
        assert(v@.subrange(i as int, n as int).drop_first() =~= v@.subrange(i + 1, n as int));
        i += 1;
    }
    proof {
        assert(trim_start_spec(v@.subrange(i as int, n as int)) == v@.subrange(i as int, n as int));
    }
    let mut j: usize = n;
    while j > i && char_is_whitespace(v[j - 1])
        invariant
            n == v.len(),
            i <= j <= n,
            trim_start_spec(v@) == v@.subrange(i as int, n as int),
            trim_spec(v@) == trim_end_spec(v@.subrange(i as int, j as int)),
        decreases j,
    {
        assert(v@.subrange(i as int, j as int).drop_last() =~= v@.subrange(i as int, j - 1));
        j -= 1;
    }
    let mut out: Vec<char> = Vec::new();
    let mut k: usize = i;
    while k < j
        invariant
            i <= k <= j <= n,
            n == v.len(),
            out@ == v@.subrange(i as int, k as int),
        decreases j - k,
    {
        out.push(v[k]);
        k += 1;
        assert(v@.subrange(i as int, k as int) =~= v@.subrange(i as int, k - 1).push(v@[k - 1]));
    }
    out
}

/// Removes every control character, keeping the rest in order.
pub fn drop_controls(v: &[char]) -> (r: Vec<char>)
    ensures
        r@ == drop_controls_spec(v@),
{
    let mut out: Vec<char> = Vec::new();
    let mut i: usize = 0;
    while i < v.len()
        invariant
            i <= v.len(),
            out@ == drop_controls_spec(v@.take(i as int)),
        decreases v.len() - i,
    {
        proof {
            reveal_with_fuel(Seq::<_>::filter, 1);
            assert(v@.take(i + 1).drop_last() =~= v@.take(i as int));
        }
        if !char_is_control(v[i]) {
            out.push(v[i]);
        }
        i += 1;
    }
    assert(v@.take(v.len() as int) =~= v@);
    out
}

/// Collapses every run of `White_Space` into one space and drops it at both ends.
pub fn collapse_whitespace(v: &[char]) -> (r: Vec<char>)
    ensures
        r@ == collapse_spec(v@),
{
    let mut out: Vec<char> = Vec::new();
    let mut gap = false;
    let mut i: usize = 0;
    while i < v.len()
        invariant
            i <= v.len(),
            (out@, gap) == collapse_state(v@.take(i as int)),
        decreases v.len() - i,
    {
        proof {
            assert(v@.take(i + 1).drop_last() =~= v@.take(i as int));
        }
        let c = v[i];
        if char_is_whitespace(c) {
            gap = out.len() > 0;
        } else {
            if gap {
                out.push(' ');
            }
            out.push(c);
            gap = false;
        }
        i += 1;
    }
    assert(v@.take(v.len() as int) =~= v@);
    out
}

/// The shape of collapsed text: only plain spaces stand for whitespace, no two
/// neighbouring characters are both whitespace, and the text neither starts nor ends
/// with whitespace.
pub open spec fn collapsed_shape(out: Seq<char>) -> bool {
    &&& forall|i: int| 0 <= i < out.len() ==> #[trigger] out[i] == ' ' || !white_space(out[i])
    &&& forall|i: int| 0 <= i < out.len() - 1 ==> !(white_space(#[trigger] out[i]) && white_space(out[i + 1]))
    &&& out.len() > 0 ==> !white_space(out[0]) && !white_space(out.last())
}

/// Collapsed text always has the collapsed shape.
pub proof fn lemma_collapse_shape(s: Seq<char>)
    ensures
        collapsed_shape(collapse_state(s).0),
        collapse_state(s).1 ==> collapse_state(s).0.len() > 0,
    decreases s.len(),
{
    if s.len() > 0 {
        lemma_collapse_shape(s.drop_last());
        let (out, gap) = collapse_state(s.drop_last());
        let c = s.last();
        if !white_space(c) {
            let o2 = if gap { out.push(' ').push(c) } else { out.push(c) };
            assert forall|i: int| 0 <= i < o2.len() - 1 implies !(white_space(#[trigger] o2[i]) && white_space(o2[i + 1])) by {
                if i + 1 < out.len() {
                    assert(o2[i] == out[i] && o2[i + 1] == out[i + 1]);
                } else if i + 1 == out.len() {
                    assert(o2[i] == out.last());
                }
            }
            assert forall|i: int| 0 <= i < o2.len() implies #[trigger] o2[i] == ' ' || !white_space(o2[i]) by {
                if i < out.len() {
                    assert(o2[i] == out[i]);
                }
            }
        }
    }
}

/// Every character of collapsed text is a plain space or a character of the input.
pub proof fn lemma_collapse_from_input(s: Seq<char>)
    ensures
        forall|i: int| 0 <= i < collapse_state(s).0.len() ==> #[trigger] collapse_state(s).0[i] == ' ' || s.contains(collapse_state(s).0[i]),
    decreases s.len(),
{
    if s.len() > 0 {
        lemma_collapse_from_input(s.drop_last());
        let (out, gap) = collapse_state(s.drop_last());
        let o2 = collapse_state(s).0;
        assert forall|i: int| 0 <= i < o2.len() implies #[trigger] o2[i] == ' ' || s.contains(o2[i]) by {
            if i < out.len() {
                assert(o2[i] == out[i]);
                if out[i] != ' ' {
                    let k = choose|k: int| 0 <= k < s.drop_last().len() && s.drop_last()[k] == out[i];
                    assert(s[k] == out[i]);
                }
            } else if o2[i] != ' ' {
                assert(o2[i] == s.last());
                assert(s[s.len() - 1] == s.last());
            }
        }
    }
}

/// A sanitised job description has the collapsed shape, and every character of it is a
/// plain space or a character that is neither whitespace nor a control character.
pub proof fn lemma_sanitized_shape(raw: Seq<char>)
    ensures
        collapsed_shape(collapse_spec(drop_controls_spec(trim_spec(raw)))),
        forall|i: int| 0 <= i < collapse_spec(drop_controls_spec(trim_spec(raw))).len() ==> {
            let c = #[trigger] collapse_spec(drop_controls_spec(trim_spec(raw)))[i];
            c == ' ' || (!white_space(c) && !control_char(c))
        },
{
    let d = drop_controls_spec(trim_spec(raw));
    lemma_collapse_shape(d);
    lemma_collapse_from_input(d);
    let pred = |c: char| !control_char(c);
    broadcast use vstd::seq_lib::group_filter_ensures;
    let out = collapse_spec(d);
    assert forall|i: int| 0 <= i < out.len() implies {
        let c = #[trigger] out[i];
        c == ' ' || (!white_space(c) && !control_char(c))
    } by {
        if out[i] != ' ' {
            let k = choose|k: int| 0 <= k < d.len() && d[k] == out[i];
            assert(pred(d[k]));
        }
    }
}

/// A line with every trailing `'\r'` and `'\n'` removed.
pub open spec fn strip_line_end(line: Seq<char>) -> Seq<char>
    decreases line.len(),
{
    if line.len() > 0 && (line.last() == '\r' || line.last() == '\n') {
        strip_line_end(line.drop_last())
    } else {
        line
    }
}

} // verus!
