use proxy_core::config::{parse_challenges, parse_version, ConfigError, HttpVersion};

#[test]
fn challenge_table_parses_trimmed_pairs() {
    let parsed = parse_challenges(b"token1,answer1; token2,answer2").expect("parses");
    assert_eq!(parsed.len(), 2);
    assert_eq!(parsed[0].key, b"token1".to_vec());
    assert_eq!(parsed[0].value, b"answer1".to_vec());
    assert_eq!(parsed[1].key, b"token2".to_vec());
    assert_eq!(parsed[1].value, b"answer2".to_vec());
}

#[test]
fn challenge_value_may_contain_commas() {
    let parsed = parse_challenges(b"key,a,b,c").expect("parses");
    assert_eq!(parsed.len(), 1);
    assert_eq!(parsed[0].key, b"key".to_vec());
    assert_eq!(parsed[0].value, b"a,b,c".to_vec(), "split at the first comma only");
}

#[test]
fn challenge_entry_without_value_is_fatal() {
    let err = parse_challenges(b"token1,answer1;lonelykey").unwrap_err();
    assert_eq!(err, ConfigError::ChallengeWithoutValue);
    let err = parse_challenges(b"").unwrap_err();
    assert_eq!(err, ConfigError::ChallengeWithoutValue);
}

#[test]
fn challenge_entries_are_trimmed_before_the_split() {
    let parsed = parse_challenges(b"  spaced,out  ;\ttabbed,entry\n").expect("parses");
    assert_eq!(parsed[0].key, b"spaced".to_vec());
    assert_eq!(parsed[0].value, b"out".to_vec());
    assert_eq!(parsed[1].key, b"tabbed".to_vec());
    assert_eq!(parsed[1].value, b"entry".to_vec());
}

#[test]
fn version_selector_families() {
    assert_eq!(parse_version(b""), Ok(HttpVersion::Auto));
    assert_eq!(parse_version(b"auto"), Ok(HttpVersion::Auto));
    for s in [&b"h1"[..], b"http1", b"http/1", b"http/1.0", b"http/1.1"] {
        assert_eq!(parse_version(s), Ok(HttpVersion::H1), "{:?}", s);
    }
    for s in [&b"h2"[..], b"http2", b"http/2", b"http/2.0"] {
        assert_eq!(parse_version(s), Ok(HttpVersion::H2), "{:?}", s);
    }
}

#[test]
fn unknown_version_selector_is_fatal() {
    assert_eq!(parse_version(b"h3"), Err(ConfigError::UnsupportedVersion));
    assert_eq!(parse_version(b"AUTO"), Err(ConfigError::UnsupportedVersion));
    assert_eq!(parse_version(b"http/1.2"), Err(ConfigError::UnsupportedVersion));
}
