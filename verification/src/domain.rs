//! Matching of request URI hosts against a configured domain, either exactly
//! or as a parent domain of a strict sub-domain, ASCII-case-insensitively.

use vstd::prelude::*;
use vstd::string::StrSliceExecFns;
use vstd::string::StringSliceAdditionalSpecFns;

verus! {

/// ASCII lowercase of a single byte: letters `A`..=`Z` are shifted to
/// `a`..=`z`, every other byte is left unchanged.
pub open spec fn lower_byte(b: u8) -> u8 {
    if 65 <= b && b <= 90 {
        (b + 32) as u8
    } else {
        b
    }
}

/// ASCII lowercase of a byte sequence.
pub open spec fn lower_bytes(s: Seq<u8>) -> Seq<u8> {
    s.map_values(|b: u8| lower_byte(b))
}

/// What it means for `host` to match a matcher configured with the
/// already-lowercased bytes `domain_lc`: in exact mode the two must have
/// equal length and be equal up to ASCII case; in sub-domain mode the host
/// must be strictly longer, the byte just before the matching suffix must be
/// a literal `.`, and the suffix must equal the domain up to ASCII case.
pub open spec fn host_matches(domain_lc: Seq<u8>, sub: bool, host: Seq<u8>) -> bool {
    if sub {
        &&& host.len() > domain_lc.len()
        &&& host[host.len() - domain_lc.len() - 1] == 46u8
        &&& lower_bytes(host.skip(host.len() - domain_lc.len())) == domain_lc
    } else {
        &&& host.len() == domain_lc.len()
        &&& lower_bytes(host) == domain_lc
    }
}

/// Matcher based on the (sub)domain of the request's URI host.
#[derive(Debug, Clone)]
pub struct DomainMatcher {
    domain: Vec<u8>,
    sub: bool,
}

impl DomainMatcher {
    /// The configured domain, as stored: the ASCII lowercase of the bytes it
    /// was constructed from.
    pub closed spec fn spec_domain(&self) -> Seq<u8> {
        self.domain@
    }

    /// Whether this matcher is in sub-domain mode.
    pub closed spec fn spec_sub(&self) -> bool {
        self.sub
    }

    /// What this matcher accepts.
    pub open spec fn spec_matches(&self, host: Seq<u8>) -> bool {
        host_matches(self.spec_domain(), self.spec_sub(), host)
    }

    /// Create a new domain matcher to filter on an exact URI host match.
    pub fn new(domain: &str) -> (m: Self)
        ensures
            m.spec_domain() == lower_bytes(domain.spec_bytes()),
            !m.spec_sub(),
    {
        Self { domain: lower_bytes_vec(domain.as_bytes_vec()), sub: false }
    }

    /// Create a new domain matcher to filter on a sub-domain URI host match.
    pub fn sub(domain: &str) -> (m: Self)
        ensures
            m.spec_domain() == lower_bytes(domain.spec_bytes()),
            m.spec_sub(),
    {
        Self { domain: lower_bytes_vec(domain.as_bytes_vec()), sub: true }
    }

    /// Does the given URI host, as raw bytes, match the configured domain?
    pub fn matches_host_bytes(&self, host: &[u8]) -> (r: bool)
        ensures
            r == self.spec_matches(host@),
    {
        let hlen = host.len();
        let dlen = self.domain.len();
        if self.sub {
            if hlen > dlen {
                let n = hlen - dlen;
                if host[n - 1] == 46u8 {
                    let r = lower_eq_at(host, n, self.domain.as_slice());
                    assert(host@.skip(n as int) =~= host@.subrange(n as int, host@.len() as int));
                    r
                } else {
                    false
                }
            } else {
                false
            }
        } else {
            if hlen == dlen {
                let r = lower_eq_at(host, 0, self.domain.as_slice());
                assert(host@.skip(0) =~= host@);
                r
            } else {
                false
            }
        }
    }

    /// Does the given URI host match the configured domain?
    pub fn matches_host(&self, host: &str) -> (r: bool)
        ensures
            r == self.spec_matches(host.spec_bytes()),
    {
        self.matches_host_bytes(host.as_bytes())
    }
}

/// ASCII-lowercase every byte of a vector in place.
fn lower_bytes_vec(v: Vec<u8>) -> (r: Vec<u8>)
    ensures
        r@ == lower_bytes(v@),
{
    let mut out = v;
    let n = out.len();
    let mut i: usize = 0;
    while i < n
        invariant
            i <= n,
            n == out.len(),
            n == v.len(),
            forall|j: int| 0 <= j < i ==> out@[j] == lower_byte(v@[j]),
            forall|j: int| i <= j < n ==> out@[j] == v@[j],
        decreases n - i,
    {
        let b = out[i];
        if 65 <= b && b <= 90 {
            out.set(i, b + 32);
        }
        i += 1;
    }
    assert(out@ =~= lower_bytes(v@));
    out
}

/// Compare the tail of `host` starting at `start` against `domain_lc`
/// (already lowercase), ASCII-case-insensitively.
fn lower_eq_at(host: &[u8], start: usize, domain_lc: &[u8]) -> (r: bool)
    requires
        start + domain_lc@.len() == host@.len(),
    ensures
        r == (lower_bytes(host@.subrange(start as int, host@.len() as int)) == domain_lc@),
{
    let dlen = domain_lc.len();
    let hlen = host.len();
    let mut i: usize = 0;
    let mut ok = true;
    while i < dlen
        invariant
            i <= dlen,
            dlen == domain_lc@.len(),
            hlen == host@.len(),
            start + dlen == hlen,
            ok == (forall|j: int| 0 <= j < i ==> lower_byte(host@[start + j]) == domain_lc@[j]),
        decreases dlen - i,
    {
        let b = host[start + i];
        let lb = if 65 <= b && b <= 90 {
            b + 32
        } else {
            b
        };
        if lb != domain_lc[i] {
            ok = false;
        }
        i += 1;
    }
    proof {
        let tail = host@.subrange(start as int, host@.len() as int);
        if ok {
            assert(lower_bytes(tail) =~= domain_lc@) by {
                assert(forall|j: int|
                    0 <= j < dlen ==> lower_bytes(tail)[j] == lower_byte(host@[start + j]));
            }
        } else {
            let j = choose|j: int| 0 <= j < dlen && lower_byte(host@[start + j]) != domain_lc@[j];
            assert(lower_bytes(tail)[j] == lower_byte(host@[start + j]));
        }
    }
    ok
}

/// An exact matcher built from domain bytes `d` accepts a host `h` if and
/// only if `h` and `d` are equal up to ASCII case (which forces equal
/// lengths): exact matching is exactly case-insensitive equality.
pub proof fn lemma_exact_match_is_case_insensitive_eq(d: Seq<u8>, h: Seq<u8>)
    ensures
        host_matches(lower_bytes(d), false, h) <==> lower_bytes(h) == lower_bytes(d),
{
    if lower_bytes(h) == lower_bytes(d) {
        assert(h.len() == lower_bytes(h).len());
    }
}

/// A sub-domain matcher built from domain bytes `d` accepts a host `h` if
/// and only if `h` ends, ASCII-case-insensitively, with a literal `.`
/// followed by `d`: that is, lowercased `h` ends with `"." + lowercase(d)`
/// and is strictly longer than it.
pub proof fn lemma_sub_match_is_dot_suffix(d: Seq<u8>, h: Seq<u8>)
    ensures
        host_matches(lower_bytes(d), true, h) <==> (h.len() > d.len() && lower_bytes(h).skip(
            h.len() - d.len() - 1,
        ) == seq![46u8] + lower_bytes(d)),
{
    let dl = lower_bytes(d);
    if h.len() > d.len() {
        let n = h.len() - d.len();
        let suffix = lower_bytes(h).skip(n - 1);
        let dotd = seq![46u8] + dl;
        assert(lower_bytes(h.skip(n as int)) =~= lower_bytes(h).skip(n as int));
        if h[n - 1] == 46u8 && lower_bytes(h.skip(n as int)) == dl {
            assert(suffix =~= dotd) by {
                assert(suffix[0] == lower_byte(h[n - 1]));
                assert(forall|j: int|
                    1 <= j < suffix.len() ==> suffix[j] == lower_bytes(h).skip(n as int)[j - 1]);
            }
        }
        if suffix == dotd {
            assert(lower_byte(h[n - 1]) == suffix[0]);
            assert(h[n - 1] == 46u8);
            assert(lower_bytes(h).skip(n as int) =~= dl) by {
                assert(forall|j: int|
                    0 <= j < d.len() ==> lower_bytes(h).skip(n as int)[j] == suffix[j + 1]);
            }
        }
    }
}

} // verus!
