//! Digests and encodings: the source-integrity manifest (SHA-256 in lowercase
//! hex, one `<hash>  <file>` entry per line) and session tokens (a random
//! secret handed out in URL-safe Base64, stored only as its BLAKE3 hex digest).
use vstd::prelude::*;
use sha2::Digest;
use base64::Engine;
use crate::text::{white_space, trim_spec, chars_of, trim_chars, string_from_chars, chars_eq};

verus! {

/// The SHA-256 digest of a byte string (`sha2::Sha256::digest`).
pub uninterp spec fn sha256_digest(data: Seq<u8>) -> Seq<u8>;

/// The BLAKE3 digest of a byte string (`blake3::hash`).
pub uninterp spec fn blake3_digest(data: Seq<u8>) -> Seq<u8>;

/// The character of a 6-bit value in the URL-safe Base64 alphabet
/// (`A`-`Z`, `a`-`z`, `0`-`9`, `-`, `_`).
pub open spec fn base64_url_char(v: int) -> char {
    if v < 26 {
        (('A' as int) + v) as char
    } else if v < 52 {
        (('a' as int) + v - 26) as char
    } else if v < 62 {
        (('0' as int) + v - 52) as char
    } else if v == 62 {
        '-'
    } else {
        '_'
    }
}

/// The unpadded URL-safe Base64 text of a byte string
/// (`base64::engine::general_purpose::URL_SAFE_NO_PAD.encode`): every three bytes become
/// four characters, high bits first; a final two bytes become three characters and a final
/// single byte two, with no `=` padding.
pub open spec fn base64_url_nopad(data: Seq<u8>) -> Seq<char>
    decreases data.len(),
{
    if data.len() == 0 {
        Seq::empty()
    } else if data.len() == 1 {
        seq![base64_url_char((data[0] / 4) as int), base64_url_char((data[0] % 4) * 16)]
    } else if data.len() == 2 {
        seq![
            base64_url_char((data[0] / 4) as int),
            base64_url_char((data[0] % 4) * 16 + data[1] / 16),
            base64_url_char((data[1] % 16) * 4),
        ]
    } else {
        seq![
            base64_url_char((data[0] / 4) as int),
            base64_url_char((data[0] % 4) * 16 + data[1] / 16),
            base64_url_char((data[1] % 16) * 4 + data[2] / 64),
            base64_url_char((data[2] % 64) as int),
        ] + base64_url_nopad(data.subrange(3, data.len() as int))
    }
}

/// The lowercase hexadecimal digit for a value below 16.
pub open spec fn hex_digit(v: int) -> char {
    if v < 10 { (('0' as int) + v) as char } else { (('a' as int) + v - 10) as char }
}

/// Two lowercase hexadecimal digits per byte, high nibble first.
pub open spec fn hex_lower(data: Seq<u8>) -> Seq<char>
    decreases data.len(),
{
    if data.len() == 0 {
        Seq::empty()
    } else {
        hex_lower(data.drop_last()) + seq![hex_digit((data.last() / 16) as int), hex_digit((data.last() % 16) as int)]
    }
}

/// Computes `sha2::Sha256::digest`; the digest has 32 bytes (`Sha256`'s output size).
#[verifier::external_body]
fn sha256(data: &[u8]) -> (r: Vec<u8>)
    ensures
        r@ == sha256_digest(data@),
        r@.len() == 32,
{
    sha2::Sha256::digest(data).to_vec()
}

/// Calls `hex::encode`, documented to write each byte as two lowercase hex digits.
#[verifier::external_body]
fn hex_encode(data: &[u8]) -> (r: String)
    ensures
        r@ == hex_lower(data@),
{
    hex::encode(data)
}

/// Calls `blake3::hash` and `Hash::to_hex`, which writes the 32-byte digest as lowercase hex.
#[verifier::external_body]
fn blake3_hex(data: &[u8]) -> (r: String)
    ensures
        r@ == hex_lower(blake3_digest(data@)),
        r@.len() == 64,
{
    blake3::hash(data).to_hex().to_string()
}

/// Calls `URL_SAFE_NO_PAD.encode` of the `base64` crate.
#[verifier::external_body]
fn base64_url_encode(data: &[u8]) -> (r: String)
    ensures
        r@ == base64_url_nopad(data@),
{
    base64::engine::general_purpose::URL_SAFE_NO_PAD.encode(data)
}

/// The lowercase hex SHA-256 digest of a file's contents, as the manifest records it.
pub fn file_digest_hex(data: &[u8]) -> (r: String)
    ensures
        r@ == hex_lower(sha256_digest(data@)),
{
    let d = sha256(data);
    hex_encode(d.as_slice())
}

/// A freshly issued session token: the text handed to the client and the digest stored.
pub struct SessionToken {
    /// The URL-safe Base64 text of the secret bytes.
    pub plain: String,
    /// The lowercase hex BLAKE3 digest of the secret bytes.
    pub digest_hex: String,
}

/// Encodes 32 secret bytes as a session token: the client gets the Base64 text, the
/// database keeps only the BLAKE3 digest, so the stored value never reveals the token.
pub fn session_token_from_bytes(secret: &[u8; 32]) -> (t: SessionToken)
    ensures
        t.plain@ == base64_url_nopad(secret@),
        t.digest_hex@ == hex_lower(blake3_digest(secret@)),
        t.digest_hex@.len() == 64,
{
    let plain = base64_url_encode(secret.as_slice());
    let digest_hex = blake3_hex(secret.as_slice());
    SessionToken { plain, digest_hex }
}

/// Hex text is twice as long as its bytes.
pub proof fn lemma_hex_lower_len(data: Seq<u8>)
    ensures
        hex_lower(data).len() == 2 * data.len(),
    decreases data.len(),
{
    if data.len() > 0 {
        lemma_hex_lower_len(data.drop_last());
    }
}

/// The pieces of a text split at `'\n'`, each that ended at a `'\n'` with one trailing
/// `'\r'` removed, without a final empty piece, as `str::lines` gives them.
pub open spec fn lines_spec(s: Seq<char>) -> Seq<Seq<char>> {
    let raw = crate::parse::split_spec(s, '\n');
    let kept = if raw.last().len() == 0 { raw.drop_last() } else { raw };
    Seq::new(kept.len(), |k: int| {
        let l = kept[k];
        if k < raw.len() - 1 && l.len() > 0 && l.last() == '\r' { l.drop_last() } else { l }
    })
}

/// The first position `i` where `line[i]` and `line[i + 1]` are both spaces.
pub open spec fn first_double_space(line: Seq<char>, i: int) -> bool {
    &&& 0 <= i && i + 1 < line.len()
    &&& line[i] == ' ' && line[i + 1] == ' '
    &&& forall|j: int| 0 <= j < i ==> !(#[trigger] line[j] == ' ' && line[j + 1] == ' ')
}

/// `str::split_once("  ")`: the text before and after the first double space.
pub open spec fn split_once_spec(line: Seq<char>) -> Option<(Seq<char>, Seq<char>)> {
    if exists|i: int| first_double_space(line, i) {
        let i = choose|i: int| first_double_space(line, i);
        Some((line.subrange(0, i), line.subrange(i + 2, line.len() as int)))
    } else {
        None
    }
}

proof fn lemma_first_double_space_unique(line: Seq<char>, i: int, k: int)
    requires
        first_double_space(line, i),
        first_double_space(line, k),
    ensures
        i == k,
{
    if i < k {
        assert(!(line[i] == ' ' && line[i + 1] == ' '));
    } else if k < i {
        assert(!(line[k] == ' ' && line[k + 1] == ' '));
    }
}

/// Splits one manifest line at its first double space.
pub fn split_at_double_space(line: &[char]) -> (r: Option<(Vec<char>, Vec<char>)>)
    ensures
        r matches Some((a, b)) ==> split_once_spec(line@) == Some((a@, b@)),
        r is None ==> split_once_spec(line@) is None,
{
    let mut i: usize = 0;
    while line.len() > 0 && i < line.len() - 1
        invariant
            i <= line.len(),
            forall|j: int| 0 <= j < i ==> !(#[trigger] line@[j] == ' ' && line@[j + 1] == ' '),
        decreases line.len() - i,
    {
        if line[i] == ' ' && line[i + 1] == ' ' {
            proof {
                assert(first_double_space(line@, i as int));
                let c = choose|c: int| first_double_space(line@, c);
                lemma_first_double_space_unique(line@, i as int, c);
            }
            let mut a: Vec<char> = Vec::new();
            let mut k: usize = 0;
            while k < i
                invariant
                    k <= i,
                    i + 1 < line.len(),
                    a@ == line@.subrange(0, k as int),
                decreases i - k,
            {
                a.push(line[k]);
                k += 1;
                assert(line@.subrange(0, k as int) =~= line@.subrange(0, k - 1).push(line@[k - 1]));
            }
            let mut b: Vec<char> = Vec::new();
            let mut m: usize = i + 2;
            while m < line.len()
                invariant
                    i + 2 <= m <= line.len(),
                    b@ == line@.subrange(i + 2, m as int),
                decreases line.len() - m,
            {
                b.push(line[m]);
                m += 1;
                assert(line@.subrange(i + 2, m as int) =~= line@.subrange(i + 2, m - 1).push(line@[m - 1]));
            }
            return Some((a, b));
        }
        i += 1;
    }
    proof {
        assert forall|c: int| !first_double_space(line@, c) by {
            if first_double_space(line@, c) {
                assert(c < i);
            }
        }
    }
    None
}

/// A manifest line that does not hold a double space.
#[derive(Debug)]
pub struct ManifestLineError {
    /// The line's number, counted from 1 over all lines, blank ones included.
    pub line_no: usize,
    /// The trimmed line.
    pub line: String,
}

/// One manifest entry: the expected digest and the file it is for.
pub struct ManifestEntry {
    /// The expected lowercase hex SHA-256 digest.
    pub expected_hash: String,
    /// The path of the file.
    pub file: String,
}

/// The entries of a manifest: every non-blank trimmed line split at its first double
/// space; or the first trimmed line without one, with its number.
pub open spec fn manifest_spec(content: Seq<char>) -> Result<Seq<(Seq<char>, Seq<char>)>, (int, Seq<char>)>
{
    manifest_from(lines_spec(content), 0)
}

/// The entries of the lines from position `i` on.
pub open spec fn manifest_from(lines: Seq<Seq<char>>, i: int) -> Result<Seq<(Seq<char>, Seq<char>)>, (int, Seq<char>)>
    decreases lines.len() - i,
{
    if i < 0 || i >= lines.len() {
        Ok(Seq::empty())
    } else {
        let t = trim_spec(lines[i]);
        if t.len() == 0 {
            manifest_from(lines, i + 1)
        } else {
            match split_once_spec(t) {
                None => Err((i + 1, t)),
                Some(pair) => match manifest_from(lines, i + 1) {
                    Ok(rest) => Ok(seq![pair] + rest),
                    Err(e) => Err(e),
                },
            }
        }
    }
}

/// Prepends the entries already read to the result for the remaining lines.
pub open spec fn prepend_entries(
    acc: Seq<(Seq<char>, Seq<char>)>,
    rest: Result<Seq<(Seq<char>, Seq<char>)>, (int, Seq<char>)>,
) -> Result<Seq<(Seq<char>, Seq<char>)>, (int, Seq<char>)> {
    match rest {
        Ok(r) => Ok(acc + r),
        Err(e) => Err(e),
    }
}

/// `str::lines`: the lines of a text, without their `"\n"` or `"\r\n"` endings.
pub fn lines_of(content: &str) -> (r: Vec<Vec<char>>)
    ensures
        r@.len() == lines_spec(content@).len(),
        forall|k: int| 0 <= k < r@.len() ==> (#[trigger] r@[k])@ == lines_spec(content@)[k],
{
    let v = chars_of(content);
    let mut raw = crate::parse::split_char(v.as_slice(), '\n');
    proof {
        crate::parse::lemma_split_nonempty_pub(content@, '\n');
    }
    let ghost raw_spec = crate::parse::split_spec(content@, '\n');
    let ghost kept = if raw_spec.last().len() == 0 { raw_spec.drop_last() } else { raw_spec };
    let n = raw.len();
    let keep: usize = if raw[n - 1].len() == 0 { n - 1 } else { n };
    assert(keep == kept.len());
    let mut out: Vec<Vec<char>> = Vec::new();
    let mut i: usize = 0;
    while i < keep
        invariant
            keep <= raw@.len(),
            keep == kept.len(),
            raw@.len() == raw_spec.len(),
            forall|k: int| 0 <= k < raw@.len() ==> (#[trigger] raw@[k])@ == raw_spec[k],
            kept.len() <= raw_spec.len(),
            forall|k: int| 0 <= k < kept.len() ==> #[trigger] kept[k] == raw_spec[k],
            i <= keep,
            n == raw_spec.len(),
            lines_spec(content@).len() == kept.len(),
            forall|k: int| 0 <= k < kept.len() ==> #[trigger] lines_spec(content@)[k]
                == (if k < n - 1 && kept[k].len() > 0 && kept[k].last() == '\r' { kept[k].drop_last() } else { kept[k] }),
            out@.len() == i,
            forall|k: int| 0 <= k < i ==> (#[trigger] out@[k])@ == lines_spec(content@)[k],
        decreases keep - i,
    {
        let l = &raw[i];
        let m = l.len();
        let mut line: Vec<char> = Vec::new();
        let stop: usize = if i < n - 1 && m > 0 && l[m - 1] == '\r' { m - 1 } else { m };
        let mut j: usize = 0;
        while j < stop
            invariant
                stop <= m,
                m == l@.len(),
                j <= stop,
                line@ == l@.subrange(0, j as int),
            decreases stop - j,
        {
            line.push(l[j]);
            j += 1;
            assert(l@.subrange(0, j as int) =~= l@.subrange(0, j - 1).push(l@[j - 1]));
        }
        proof {
            let ls = kept[i as int];
            assert(l@ == ls);
            if i < n - 1 && m > 0 && l@[m - 1] == '\r' {
                assert(line@ =~= ls.drop_last());
            } else {
                assert(line@ =~= ls);
            }
        }
        out.push(line);
        i += 1;
    }
    out
}

/// Reads the entries of an integrity manifest; the error names the first malformed line.
pub fn parse_manifest(content: &str) -> (r: Result<Vec<ManifestEntry>, ManifestLineError>)
    ensures
        r matches Ok(es) ==> manifest_spec(content@) matches Ok(spec) && es@.len() == spec.len()
            && forall|k: int| 0 <= k < es@.len() ==> (#[trigger] es@[k]).expected_hash@ == spec[k].0 && es@[k].file@ == spec[k].1,
        r matches Err(e) ==> manifest_spec(content@) == Err::<Seq<(Seq<char>, Seq<char>)>, (int, Seq<char>)>((e.line_no as int, e.line@)),
{
    let lines = lines_of(content);
    let ghost ls = lines_spec(content@);
    let mut out: Vec<ManifestEntry> = Vec::new();
    let ghost mut acc: Seq<(Seq<char>, Seq<char>)> = Seq::empty();
    let mut i: usize = 0;
    while i < lines.len()
        invariant
            lines@.len() == ls.len(),
            forall|k: int| 0 <= k < lines@.len() ==> (#[trigger] lines@[k])@ == ls[k],
            i <= lines.len(),
            ls == lines_spec(content@),
            manifest_spec(content@) == prepend_entries(acc, manifest_from(ls, i as int)),
            out@.len() == acc.len(),
            forall|k: int| 0 <= k < out@.len() ==> (#[trigger] out@[k]).expected_hash@ == acc[k].0 && out@[k].file@ == acc[k].1,
        decreases lines.len() - i,
    {
        let t = trim_chars(lines[i].as_slice());
        if t.len() == 0 {
            i += 1;
            continue;
        }
        match split_at_double_space(t.as_slice()) {
            None => {
                return Err(ManifestLineError { line_no: i + 1, line: string_from_chars(t.as_slice()) });
            },
            Some((a, b)) => {
                proof {
                    let pair = (a@, b@);
                    assert(manifest_from(ls, i as int) == prepend_entries(seq![pair], manifest_from(ls, i + 1)));
                    assert(prepend_entries(acc, prepend_entries(seq![pair], manifest_from(ls, i + 1)))
                        == prepend_entries(acc.push(pair), manifest_from(ls, i + 1))) by {
                        match manifest_from(ls, i + 1) {
                            Ok(r) => { assert(acc + (seq![pair] + r) =~= acc.push(pair) + r); },
                            Err(e) => {},
                        }
                    }
                    acc = acc.push(pair);
                }
                out.push(ManifestEntry { expected_hash: string_from_chars(a.as_slice()), file: string_from_chars(b.as_slice()) });
                i += 1;
            },
        }
    }
    proof {
        assert(acc + Seq::<(Seq<char>, Seq<char>)>::empty() =~= acc);
    }
    Ok(out)
}

/// Whether a file's contents hash to the digest its manifest entry records.
pub fn digest_matches(expected_hash: &str, data: &[u8]) -> (r: bool)
    ensures
        r == (expected_hash@ == hex_lower(sha256_digest(data@))),
{
    let got = file_digest_hex(data);
    crate::text::str_eq(got.as_str(), expected_hash)
}

/// How many files match their manifest digest, and how many do not.
pub open spec fn tally_spec(expected: Seq<Seq<char>>, contents: Seq<Seq<u8>>, n: int) -> (int, int)
    decreases n,
{
    if n <= 0 {
        (0, 0)
    } else {
        let (ok, bad) = tally_spec(expected, contents, n - 1);
        if expected[n - 1] == hex_lower(sha256_digest(contents[n - 1])) { (ok + 1, bad) } else { (ok, bad + 1) }
    }
}

/// The integrity check passes (no mismatch is counted) exactly when every file hashes to
/// the digest its entry records, and every entry is counted once.
pub proof fn lemma_tally_passes_iff_all_match(expected: Seq<Seq<char>>, contents: Seq<Seq<u8>>, n: int)
    requires
        0 <= n,
    ensures
        tally_spec(expected, contents, n).0 + tally_spec(expected, contents, n).1 == n,
        tally_spec(expected, contents, n).0 >= 0,
        tally_spec(expected, contents, n).1 >= 0,
        (tally_spec(expected, contents, n).1 == 0) <==> (forall|k: int| 0 <= k < n ==> #[trigger] expected[k] == hex_lower(sha256_digest(contents[k]))),
    decreases n,
{
    if n > 0 {
        lemma_tally_passes_iff_all_match(expected, contents, n - 1);
        if tally_spec(expected, contents, n).1 == 0 {
            assert forall|k: int| 0 <= k < n implies #[trigger] expected[k] == hex_lower(sha256_digest(contents[k])) by {
                if k < n - 1 {
                    assert(tally_spec(expected, contents, n - 1).1 == 0);
                }
            }
        } else if forall|k: int| 0 <= k < n ==> #[trigger] expected[k] == hex_lower(sha256_digest(contents[k])) {
            assert(expected[n - 1] == hex_lower(sha256_digest(contents[n - 1])));
            assert forall|k: int| 0 <= k < n - 1 implies #[trigger] expected[k] == hex_lower(sha256_digest(contents[k])) by {
                assert(expected[k] == hex_lower(sha256_digest(contents[k])));
            }
        }
    }
}

/// Counts the manifest entries whose file contents hash to the recorded digest, and the
/// others; the integrity check passes when the second count is zero.
pub fn tally_digests(entries: &[ManifestEntry], contents: &[Vec<u8>]) -> (r: (usize, usize))
    requires
        entries.len() == contents.len(),
    ensures
        r.0 + r.1 == entries.len(),
        (r.0 as int, r.1 as int) == tally_spec(entries@.map_values(|e: ManifestEntry| e.expected_hash@), contents@.map_values(|c: Vec<u8>| c@), entries.len() as int),
{
    let ghost ex = entries@.map_values(|e: ManifestEntry| e.expected_hash@);
    let ghost cs = contents@.map_values(|c: Vec<u8>| c@);
    let mut ok: usize = 0;
    let mut bad: usize = 0;
    let mut i: usize = 0;
    while i < entries.len()
        invariant
            entries.len() == contents.len(),
            i <= entries.len(),
            ok + bad == i,
            ex == entries@.map_values(|e: ManifestEntry| e.expected_hash@),
            cs == contents@.map_values(|c: Vec<u8>| c@),
            (ok as int, bad as int) == tally_spec(ex, cs, i as int),
        decreases entries.len() - i,
    {
        if digest_matches(entries[i].expected_hash.as_str(), contents[i].as_slice()) {
            ok += 1;
        } else {
            bad += 1;
        }
        i += 1;
    }
    (ok, bad)
}

} // verus!
