use smart_thermostat::crypto::{
    digest_matches, file_digest_hex, lines_of, parse_manifest, session_token_from_bytes, tally_digests,
};

#[test]
fn sha256_hex_of_known_text() {
    assert_eq!(file_digest_hex(b"abc"), "ba7816bf8f01cfea414140de5dae2223b00361a396177a9cb410ff61f20015ad");
    assert!(digest_matches("ba7816bf8f01cfea414140de5dae2223b00361a396177a9cb410ff61f20015ad", b"abc"));
    assert!(!digest_matches("BA7816BF8F01CFEA414140DE5DAE2223B00361A396177A9CB410FF61F20015AD", b"abc"));
}

#[test]
fn session_token_encodings() {
    let t = session_token_from_bytes(&[0u8; 32]);
    assert_eq!(t.plain, "AAAAAAAAAAAAAAAAAAAAAAAAAAAAAAAAAAAAAAAAAAA");
    assert_eq!(t.digest_hex.len(), 64);
    assert_eq!(t.digest_hex, blake3::hash(&[0u8; 32]).to_hex().to_string());
    let u = session_token_from_bytes(&[0xffu8; 32]);
    assert!(u.plain.contains('_'));
    assert_ne!(u.digest_hex, t.digest_hex);
}

#[test]
fn lines_like_std() {
    for s in ["a\nb", "a\r\nb\r\n", "", "\n", "x\n\ny", "end\r"] {
        let got: Vec<String> = lines_of(s).into_iter().map(|v| v.into_iter().collect()).collect();
        let want: Vec<String> = s.lines().map(|l| l.to_string()).collect();
        assert_eq!(got, want, "input {:?}", s);
    }
}

#[test]
fn manifest_entries_and_errors() {
    let m = parse_manifest("abc  src/main.rs\n\n  def  src/lib.rs  \nghi  a  b\n").unwrap();
    let pairs: Vec<(String, String)> = m.iter().map(|e| (e.expected_hash.clone(), e.file.clone())).collect();
    assert_eq!(pairs, vec![
        ("abc".to_string(), "src/main.rs".to_string()),
        ("def".to_string(), "src/lib.rs".to_string()),
        ("ghi".to_string(), "a  b".to_string()),
    ]);
    let e = parse_manifest("abc  x\n\nbad line\n").err().unwrap();
    assert_eq!(e.line_no, 3);
    assert_eq!(e.line, "bad line");
    assert_eq!(parse_manifest("").unwrap().len(), 0);
}

#[test]
fn tally_counts_matches() {
    let m = parse_manifest(
        "ba7816bf8f01cfea414140de5dae2223b00361a396177a9cb410ff61f20015ad  f1\n0000  f2\n",
    ).unwrap();
    let (ok, bad) = tally_digests(&m, &[b"abc".to_vec(), b"abc".to_vec()]);
    assert_eq!((ok, bad), (1, 1));
}
