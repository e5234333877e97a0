use proxy_core::domain::DomainMatcher;

#[test]
fn matchest_host_match() {
    let test_cases = vec![
        (DomainMatcher::new("www.example.com"), "www.example.com"),
        (DomainMatcher::new("www.example.com"), "WwW.ExamplE.COM"),
        (DomainMatcher::sub("example.com"), "www.example.com"),
        (DomainMatcher::sub("example.com"), "m.example.com"),
        (DomainMatcher::sub("example.com"), "www.EXAMPLE.com"),
        (DomainMatcher::sub("example.com"), "M.example.com"),
    ];
    for (filter, host) in test_cases.into_iter() {
        assert!(
            filter.matches_host(host),
            "({:?}).matches_host({})",
            filter,
            host
        );
    }
}

#[test]
fn matchest_host_no_match() {
    let test_cases = vec![
        (DomainMatcher::new("www.example.com"), "www.example.co"),
        (DomainMatcher::new("www.example.com"), "www.ejemplo.com"),
        (DomainMatcher::new("www.example.com"), "www3.example.com"),
        (DomainMatcher::sub("w.example.com"), "www.example.com"),
        (DomainMatcher::sub("gel.com"), "kegel.com"),
    ];
    for (filter, host) in test_cases.into_iter() {
        assert!(
            !filter.matches_host(host),
            "!({:?}).matches_host({})",
            filter,
            host
        );
    }
}

#[test]
fn sub_matcher_needs_strictly_longer_host() {
    let filter = DomainMatcher::sub("example.com");
    assert!(!filter.matches_host("example.com"));
    assert!(!filter.matches_host("xexample.com"));
    assert!(filter.matches_host("a.example.com"));
}

#[test]
fn exact_matcher_is_case_insensitive_equality() {
    let filter = DomainMatcher::new("ExAmPlE.CoM");
    assert!(filter.matches_host("example.com"));
    assert!(filter.matches_host("EXAMPLE.COM"));
    assert!(!filter.matches_host("example.org"));
    assert!(!filter.matches_host("example.com."));
}

#[test]
fn matches_host_bytes_agrees_with_str() {
    let filter = DomainMatcher::sub("example.com");
    assert!(filter.matches_host_bytes(b"www.example.com"));
    assert!(!filter.matches_host_bytes(b"kegel.com"));
}
