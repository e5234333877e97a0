//! The name-resolution capability: resolving a domain to its ordered list
//! of version-4 or version-6 addresses, or failing with "not mapped"; an
//! in-memory table, an optional resolver, and an override layer consulted
//! before any real lookup.

use vstd::prelude::*;
use vstd::slice::slice_to_vec;
use crate::domain::lower_bytes;
use crate::util::lower_bytes_eq;

verus! {

/// Why a lookup failed: the resolver has no mapping for the domain.
#[derive(Debug, PartialEq, Eq, Structural, Clone, Copy)]
pub enum DnsError {
    DomainNotMapped,
}

/// One entry of an in-memory resolver: a domain and its ordered address
/// lists, addresses carried as integers in network order.
#[derive(Debug)]
pub struct DnsRecord {
    pub domain: Vec<u8>,
    pub ipv4: Vec<u32>,
    pub ipv6: Vec<u128>,
}

/// The view of a version-4 lookup result.
pub open spec fn v4_view(r: Result<Vec<u32>, DnsError>) -> Result<Seq<u32>, DnsError> {
    match r {
        Ok(v) => Ok(v@),
        Err(e) => Err(e),
    }
}

/// The view of a version-6 lookup result.
pub open spec fn v6_view(r: Result<Vec<u128>, DnsError>) -> Result<Seq<u128>, DnsError> {
    match r {
        Ok(v) => Ok(v@),
        Err(e) => Err(e),
    }
}

/// A resolver of domains into addresses. Each implementation says, as a
/// specification function, which result a lookup yields; the lookups are
/// bound to it.
pub trait DnsResolver {
    /// The version-4 result this resolver yields for a domain.
    spec fn spec_ipv4(&self, domain: Seq<u8>) -> Result<Seq<u32>, DnsError>;

    /// The version-6 result this resolver yields for a domain.
    spec fn spec_ipv6(&self, domain: Seq<u8>) -> Result<Seq<u128>, DnsError>;

    /// Resolve the ordered version-4 addresses of a domain.
    fn ipv4_lookup(&self, domain: &[u8]) -> (r: Result<Vec<u32>, DnsError>)
        ensures
            v4_view(r) == self.spec_ipv4(domain@),
    ;

    /// Resolve the ordered version-6 addresses of a domain.
    fn ipv6_lookup(&self, domain: &[u8]) -> (r: Result<Vec<u128>, DnsError>)
        ensures
            v6_view(r) == self.spec_ipv6(domain@),
    ;
}

/// First-match version-4 lookup over a record list, domains compared up to
/// ASCII case.
pub open spec fn spec_first_v4(records: Seq<DnsRecord>, domain: Seq<u8>) -> Result<
    Seq<u32>,
    DnsError,
>
    decreases records.len(),
{
    if records.len() == 0 {
        Err(DnsError::DomainNotMapped)
    } else if lower_bytes(records[0].domain@) == lower_bytes(domain) {
        Ok(records[0].ipv4@)
    } else {
        spec_first_v4(records.skip(1), domain)
    }
}

/// First-match version-6 lookup over a record list, domains compared up to
/// ASCII case.
pub open spec fn spec_first_v6(records: Seq<DnsRecord>, domain: Seq<u8>) -> Result<
    Seq<u128>,
    DnsError,
>
    decreases records.len(),
{
    if records.len() == 0 {
        Err(DnsError::DomainNotMapped)
    } else if lower_bytes(records[0].domain@) == lower_bytes(domain) {
        Ok(records[0].ipv6@)
    } else {
        spec_first_v6(records.skip(1), domain)
    }
}

/// Skipping past a prefix without a match does not change the first-match
/// result.
proof fn lemma_first_match_skip(records: Seq<DnsRecord>, domain: Seq<u8>, i: int)
    requires
        0 <= i <= records.len(),
        forall|j: int|
            0 <= j < i ==> lower_bytes(records[j].domain@) != lower_bytes(domain),
    ensures
        spec_first_v4(records, domain) == spec_first_v4(records.skip(i), domain),
        spec_first_v6(records, domain) == spec_first_v6(records.skip(i), domain),
    decreases i,
{
    if i > 0 {
        assert forall|j: int| 0 <= j < i - 1 implies lower_bytes(
            records.skip(1)[j].domain@,
        ) != lower_bytes(domain) by {
            assert(records.skip(1)[j] == records[j + 1]);
        }
        lemma_first_match_skip(records.skip(1), domain, i - 1);
        assert(records.skip(1).skip(i - 1) =~= records.skip(i));
        assert(lower_bytes(records[0].domain@) != lower_bytes(domain));
        assert(spec_first_v4(records, domain) == spec_first_v4(records.skip(1), domain));
        assert(spec_first_v6(records, domain) == spec_first_v6(records.skip(1), domain));
    } else {
        assert(records.skip(0) =~= records);
    }
}

/// An in-memory resolver: an ordered list of records, looked up first
/// match wins.
#[derive(Debug)]
pub struct InMemoryDns {
    records: Vec<DnsRecord>,
}

impl InMemoryDns {
    /// The records, in lookup order.
    pub closed spec fn spec_records(&self) -> Seq<DnsRecord> {
        self.records@
    }

    /// An empty resolver: every lookup fails as not mapped.
    pub fn new() -> (r: InMemoryDns)
        ensures
            r.spec_records() == Seq::<DnsRecord>::empty(),
    {
        InMemoryDns { records: Vec::new() }
    }

    /// Add a record at the end of the lookup order.
    pub fn insert(&mut self, record: DnsRecord)
        ensures
            final(self).spec_records() == old(self).spec_records().push(record),
    {
        self.records.push(record);
    }

    fn find(&self, domain: &[u8]) -> (r: Option<usize>)
        ensures
            match r {
                Some(i) => {
                    &&& i < self.spec_records().len()
                    &&& lower_bytes(self.spec_records()[i as int].domain@) == lower_bytes(domain@)
                    &&& forall|j: int|
                        0 <= j < i ==> lower_bytes(self.spec_records()[j].domain@) != lower_bytes(
                            domain@,
                        )
                },
                None => forall|j: int|
                    0 <= j < self.spec_records().len() ==> lower_bytes(
                        self.spec_records()[j].domain@,
                    ) != lower_bytes(domain@),
            },
    {
        let n = self.records.len();
        let mut i: usize = 0;
        while i < n
            invariant
                i <= n,
                n == self.records@.len(),
                forall|j: int|
                    0 <= j < i ==> lower_bytes(self.records@[j].domain@) != lower_bytes(domain@),
            decreases n - i,
        {
            if lower_bytes_eq(self.records[i].domain.as_slice(), domain) {
                return Some(i);
            }
            i += 1;
        }
        None
    }
}

impl DnsResolver for InMemoryDns {
    open spec fn spec_ipv4(&self, domain: Seq<u8>) -> Result<Seq<u32>, DnsError> {
        spec_first_v4(self.spec_records(), domain)
    }

    open spec fn spec_ipv6(&self, domain: Seq<u8>) -> Result<Seq<u128>, DnsError> {
        spec_first_v6(self.spec_records(), domain)
    }

    fn ipv4_lookup(&self, domain: &[u8]) -> (r: Result<Vec<u32>, DnsError>) {
        match self.find(domain) {
            Some(i) => {
                proof {
                    lemma_first_match_skip(self.spec_records(), domain@, i as int);
                    assert(self.spec_records().skip(i as int)[0] == self.spec_records()[i as int]);
                }
                Ok(slice_to_vec(self.records[i].ipv4.as_slice()))
            },
            None => {
                proof {
                    lemma_first_match_skip(
                        self.spec_records(),
                        domain@,
                        self.spec_records().len() as int,
                    );
                }
                Err(DnsError::DomainNotMapped)
            },
        }
    }

    fn ipv6_lookup(&self, domain: &[u8]) -> (r: Result<Vec<u128>, DnsError>) {
        match self.find(domain) {
            Some(i) => {
                proof {
                    lemma_first_match_skip(self.spec_records(), domain@, i as int);
                    assert(self.spec_records().skip(i as int)[0] == self.spec_records()[i as int]);
                }
                Ok(slice_to_vec(self.records[i].ipv6.as_slice()))
            },
            None => {
                proof {
                    lemma_first_match_skip(
                        self.spec_records(),
                        domain@,
                        self.spec_records().len() as int,
                    );
                }
                Err(DnsError::DomainNotMapped)
            },
        }
    }
}

impl<R: DnsResolver> DnsResolver for Option<R> {
    /// A missing resolver maps no domain at all.
    open spec fn spec_ipv4(&self, domain: Seq<u8>) -> Result<Seq<u32>, DnsError> {
        match self {
            Some(r) => r.spec_ipv4(domain),
            None => Err(DnsError::DomainNotMapped),
        }
    }

    open spec fn spec_ipv6(&self, domain: Seq<u8>) -> Result<Seq<u128>, DnsError> {
        match self {
            Some(r) => r.spec_ipv6(domain),
            None => Err(DnsError::DomainNotMapped),
        }
    }

    fn ipv4_lookup(&self, domain: &[u8]) -> (r: Result<Vec<u32>, DnsError>) {
        match self {
            Some(inner) => inner.ipv4_lookup(domain),
            None => Err(DnsError::DomainNotMapped),
        }
    }

    fn ipv6_lookup(&self, domain: &[u8]) -> (r: Result<Vec<u128>, DnsError>) {
        match self {
            Some(inner) => inner.ipv6_lookup(domain),
            None => Err(DnsError::DomainNotMapped),
        }
    }
}

impl<R: DnsResolver> DnsResolver for std::sync::Arc<R> {
    /// A shared resolver resolves as the resolver it shares.
    open spec fn spec_ipv4(&self, domain: Seq<u8>) -> Result<Seq<u32>, DnsError> {
        (**self).spec_ipv4(domain)
    }

    open spec fn spec_ipv6(&self, domain: Seq<u8>) -> Result<Seq<u128>, DnsError> {
        (**self).spec_ipv6(domain)
    }

    fn ipv4_lookup(&self, domain: &[u8]) -> (r: Result<Vec<u32>, DnsError>) {
        (**self).ipv4_lookup(domain)
    }

    fn ipv6_lookup(&self, domain: &[u8]) -> (r: Result<Vec<u128>, DnsError>) {
        (**self).ipv6_lookup(domain)
    }
}

/// An override table in front of another resolver: the in-memory table is
/// consulted first, and only a domain it does not map goes on to the inner
/// resolver — an ordered fallback chain.
#[derive(Debug)]
pub struct DnsWithOverwrite<R> {
    pub overwrite: InMemoryDns,
    pub inner: R,
}

impl<R: DnsResolver> DnsResolver for DnsWithOverwrite<R> {
    open spec fn spec_ipv4(&self, domain: Seq<u8>) -> Result<Seq<u32>, DnsError> {
        match self.overwrite.spec_ipv4(domain) {
            Ok(addrs) => Ok(addrs),
            Err(_) => self.inner.spec_ipv4(domain),
        }
    }

    open spec fn spec_ipv6(&self, domain: Seq<u8>) -> Result<Seq<u128>, DnsError> {
        match self.overwrite.spec_ipv6(domain) {
            Ok(addrs) => Ok(addrs),
            Err(_) => self.inner.spec_ipv6(domain),
        }
    }

    fn ipv4_lookup(&self, domain: &[u8]) -> (r: Result<Vec<u32>, DnsError>) {
        match self.overwrite.ipv4_lookup(domain) {
            Ok(addrs) => Ok(addrs),
            Err(_) => self.inner.ipv4_lookup(domain),
        }
    }

    fn ipv6_lookup(&self, domain: &[u8]) -> (r: Result<Vec<u128>, DnsError>) {
        match self.overwrite.ipv6_lookup(domain) {
            Ok(addrs) => Ok(addrs),
            Err(_) => self.inner.ipv6_lookup(domain),
        }
    }
}

} // verus!
