use proxy_core::dns::{DnsError, DnsRecord, DnsResolver, DnsWithOverwrite, InMemoryDns};

fn record(domain: &str, ipv4: Vec<u32>, ipv6: Vec<u128>) -> DnsRecord {
    DnsRecord { domain: domain.as_bytes().to_vec(), ipv4, ipv6 }
}

#[test]
fn in_memory_lookup_finds_mapped_domains() {
    let mut dns = InMemoryDns::new();
    dns.insert(record("example.com", vec![0x7f000001, 0x7f000002], vec![1]));
    dns.insert(record("other.example", vec![0x0a000001], vec![2, 3]));
    assert_eq!(
        dns.ipv4_lookup(b"example.com"),
        Ok(vec![0x7f000001, 0x7f000002]),
        "the address list keeps its order"
    );
    assert_eq!(dns.ipv6_lookup(b"other.example"), Ok(vec![2, 3]));
    assert_eq!(dns.ipv4_lookup(b"missing.example"), Err(DnsError::DomainNotMapped));
}

#[test]
fn in_memory_lookup_is_case_insensitive() {
    let mut dns = InMemoryDns::new();
    dns.insert(record("Example.COM", vec![1], vec![]));
    assert_eq!(dns.ipv4_lookup(b"example.com"), Ok(vec![1]));
    assert_eq!(dns.ipv4_lookup(b"EXAMPLE.com"), Ok(vec![1]));
}

#[test]
fn first_record_wins() {
    let mut dns = InMemoryDns::new();
    dns.insert(record("example.com", vec![1], vec![]));
    dns.insert(record("example.com", vec![2], vec![]));
    assert_eq!(dns.ipv4_lookup(b"example.com"), Ok(vec![1]));
}

#[test]
fn missing_resolver_maps_nothing() {
    let dns: Option<InMemoryDns> = None;
    assert_eq!(dns.ipv4_lookup(b"example.com"), Err(DnsError::DomainNotMapped));
    assert_eq!(dns.ipv6_lookup(b"example.com"), Err(DnsError::DomainNotMapped));

    let mut inner = InMemoryDns::new();
    inner.insert(record("example.com", vec![9], vec![9]));
    let dns = Some(inner);
    assert_eq!(dns.ipv4_lookup(b"example.com"), Ok(vec![9]));
}

#[test]
fn overwrite_is_consulted_before_the_inner_resolver() {
    let mut overwrite = InMemoryDns::new();
    overwrite.insert(record("pinned.example", vec![100], vec![]));
    let mut inner = InMemoryDns::new();
    inner.insert(record("pinned.example", vec![1], vec![]));
    inner.insert(record("real.example", vec![2], vec![]));
    let chain = DnsWithOverwrite { overwrite, inner };
    assert_eq!(chain.ipv4_lookup(b"pinned.example"), Ok(vec![100]), "the override wins");
    assert_eq!(chain.ipv4_lookup(b"real.example"), Ok(vec![2]), "fallback to the inner resolver");
    assert_eq!(chain.ipv4_lookup(b"gone.example"), Err(DnsError::DomainNotMapped));
}
