//! Startup configuration parsing: the challenge table handed in as one
//! delimited string, and the served protocol-version selector. Both are
//! configuration: a malformed value is a fatal setup error, reported, never
//! guessed around.

use vstd::prelude::*;
use vstd::slice::{slice_subrange, slice_to_vec};

verus! {

/// A fatal configuration error at setup.
#[derive(Debug, PartialEq, Eq, Structural, Clone, Copy)]
pub enum ConfigError {
    /// A challenge entry has no comma-separated value after its key.
    ChallengeWithoutValue,
    /// The protocol-version selector names no supported version.
    UnsupportedVersion,
}

/// One key/value challenge entry.
#[derive(Debug)]
pub struct Challenge {
    pub key: Vec<u8>,
    pub value: Vec<u8>,
}

/// An ASCII whitespace byte: space, tab, line feed or carriage return.
pub open spec fn is_space(b: u8) -> bool {
    b == 32 || b == 9 || b == 10 || b == 13
}

/// The length of the prefix of `s` before the first `sep`, or the whole
/// length when `sep` does not occur.
pub open spec fn sep_index(s: Seq<u8>, sep: u8) -> nat
    decreases s.len(),
{
    if s.len() == 0 {
        0
    } else if s[0] == sep {
        0
    } else {
        1 + sep_index(s.skip(1), sep)
    }
}

/// The first-separator index is in bounds, everything before it differs
/// from the separator, and it points at the separator when one occurs.
pub proof fn lemma_sep_index(s: Seq<u8>, sep: u8)
    ensures
        sep_index(s, sep) <= s.len(),
        forall|j: int| 0 <= j < sep_index(s, sep) ==> s[j] != sep,
        sep_index(s, sep) < s.len() ==> s[sep_index(s, sep) as int] == sep,
    decreases s.len(),
{
    if s.len() > 0 && s[0] != sep {
        lemma_sep_index(s.skip(1), sep);
        assert forall|j: int| 0 <= j < sep_index(s, sep) implies s[j] != sep by {
            if j > 0 {
                assert(s.skip(1)[j - 1] == s[j]);
            }
        }
        if sep_index(s.skip(1), sep) < s.skip(1).len() {
            assert(s.skip(1)[sep_index(s.skip(1), sep) as int] == s[sep_index(s, sep) as int]);
        }
    }
}

/// `s` without its leading ASCII whitespace.
pub open spec fn spec_trim_start(s: Seq<u8>) -> Seq<u8>
    decreases s.len(),
{
    if s.len() > 0 && is_space(s[0]) {
        spec_trim_start(s.skip(1))
    } else {
        s
    }
}

/// `s` without its trailing ASCII whitespace.
pub open spec fn spec_trim_end(s: Seq<u8>) -> Seq<u8>
    decreases s.len(),
{
    if s.len() > 0 && is_space(s.last()) {
        spec_trim_end(s.drop_last())
    } else {
        s
    }
}

/// `s` without leading and trailing ASCII whitespace.
pub open spec fn spec_trim(s: Seq<u8>) -> Seq<u8> {
    spec_trim_end(spec_trim_start(s))
}

/// A whitespace prefix scan yields exactly the recursive trim.
proof fn lemma_trim_start_scan(s: Seq<u8>, k: int)
    requires
        0 <= k <= s.len(),
        forall|j: int| 0 <= j < k ==> is_space(s[j]),
        k < s.len() ==> !is_space(s[k]),
    ensures
        spec_trim_start(s) == s.skip(k),
    decreases k,
{
    if k > 0 {
        assert(forall|j: int| 0 <= j < k - 1 ==> s.skip(1)[j] == s[j + 1]);
        lemma_trim_start_scan(s.skip(1), k - 1);
        assert(s.skip(1).skip(k - 1) =~= s.skip(k));
    } else {
        assert(s.skip(0) =~= s);
    }
}

/// A whitespace suffix scan yields exactly the recursive trim.
proof fn lemma_trim_end_scan(s: Seq<u8>, k: int)
    requires
        0 <= k <= s.len(),
        forall|j: int| k <= j < s.len() ==> is_space(s[j]),
        k > 0 ==> !is_space(s[k - 1]),
    ensures
        spec_trim_end(s) == s.take(k),
    decreases s.len(),
{
    if k < s.len() {
        assert(is_space(s.last()));
        assert(forall|j: int| k <= j < s.drop_last().len() ==> s.drop_last()[j] == s[j]);
        lemma_trim_end_scan(s.drop_last(), k);
        assert(s.drop_last().take(k) =~= s.take(k));
    } else {
        assert(s.take(s.len() as int) =~= s);
    }
}

/// Parse one challenge entry: trim the piece, then split it at its first
/// comma into key and value; a piece without a comma is a fatal error.
pub open spec fn spec_parse_entry(piece: Seq<u8>) -> Result<(Seq<u8>, Seq<u8>), ConfigError> {
    let t = spec_trim(piece);
    let i = sep_index(t, 44);
    if i == t.len() {
        Err(ConfigError::ChallengeWithoutValue)
    } else {
        Ok((t.take(i as int), t.skip(i + 1 as int)))
    }
}

/// Parse a whole challenge table: semicolon-separated entries, each a
/// trimmed `key,value` pair; the first malformed entry is the error.
pub open spec fn spec_parse_challenges(s: Seq<u8>) -> Result<
    Seq<(Seq<u8>, Seq<u8>)>,
    ConfigError,
>
    decreases s.len(),
    via spec_parse_challenges_decreases
{
    let i = sep_index(s, 59);
    if i == s.len() {
        match spec_parse_entry(s) {
            Ok(e) => Ok(seq![e]),
            Err(er) => Err(er),
        }
    } else {
        match spec_parse_entry(s.take(i as int)) {
            Ok(e) => match spec_parse_challenges(s.skip(i + 1 as int)) {
                Ok(rest) => Ok(seq![e] + rest),
                Err(er) => Err(er),
            },
            Err(er) => Err(er),
        }
    }
}

#[via_fn]
proof fn spec_parse_challenges_decreases(s: Seq<u8>) {
    lemma_sep_index(s, 59);
}

/// The view of a parsed challenge list.
pub open spec fn challenges_view(v: Seq<Challenge>) -> Seq<(Seq<u8>, Seq<u8>)> {
    v.map_values(|c: Challenge| (c.key@, c.value@))
}

/// Find the first occurrence of `sep` at or after `from`.
fn find_from(s: &[u8], from: usize, sep: u8) -> (r: usize)
    requires
        from <= s@.len(),
    ensures
        r - from == sep_index(s@.skip(from as int), sep),
        from <= r <= s@.len(),
{
    let n = s.len();
    let mut i = from;
    while i < n
        invariant
            from <= i <= n,
            n == s@.len(),
            forall|j: int| from <= j < i ==> s@[j] != sep,
        decreases n - i,
    {
        if s[i] == sep {
            proof {
                lemma_sep_index_of_scan(s@, from as int, i as int, sep, true);
            }
            return i;
        }
        i += 1;
    }
    proof {
        lemma_sep_index_of_scan(s@, from as int, n as int, sep, false);
    }
    n
}

/// A scan that saw no separator before `upto`, and the separator there
/// (when `hit`), pins down the first-separator index of the tail.
proof fn lemma_sep_index_of_scan(s: Seq<u8>, from: int, upto: int, sep: u8, hit: bool)
    requires
        0 <= from <= upto <= s.len(),
        forall|j: int| from <= j < upto ==> s[j] != sep,
        hit ==> upto < s.len() && s[upto] == sep,
        !hit ==> upto == s.len(),
    ensures
        sep_index(s.skip(from), sep) == upto - from,
    decreases upto - from,
{
    let tail = s.skip(from);
    if upto > from {
        assert(tail[0] == s[from]);
        assert(tail.skip(1) =~= s.skip(from + 1));
        lemma_sep_index_of_scan(s, from + 1, upto, sep, hit);
    } else {
        if hit {
            assert(tail[0] == s[from]);
        }
    }
}

/// Trim a piece of `s` and hand back the bounds of its core:
/// `s[a..b]` is the piece without leading and trailing whitespace.
fn trim_bounds(s: &[u8], start: usize, end: usize) -> (r: (usize, usize))
    requires
        start <= end <= s@.len(),
    ensures
        start <= r.0 <= r.1 <= end,
        s@.subrange(r.0 as int, r.1 as int) == spec_trim(
            s@.subrange(start as int, end as int),
        ),
{
    let ghost piece = s@.subrange(start as int, end as int);
    let mut a = start;
    while a < end && (s[a] == 32 || s[a] == 9 || s[a] == 10 || s[a] == 13)
        invariant
            start <= a <= end,
            end <= s@.len(),
            forall|j: int| start <= j < a ==> is_space(s@[j]),
        decreases end - a,
    {
        a += 1;
    }
    let mut b = end;
    while b > a && (s[b - 1] == 32 || s[b - 1] == 9 || s[b - 1] == 10 || s[b - 1] == 13)
        invariant
            a <= b <= end,
            end <= s@.len(),
            forall|j: int| start <= j < a ==> is_space(s@[j]),
            forall|j: int| b <= j < end ==> is_space(s@[j]),
            a < end ==> !is_space(s@[a as int]),
        decreases b,
    {
        b -= 1;
    }
    proof {
        assert(forall|j: int| 0 <= j < piece.len() ==> piece[j] == s@[start + j]);
        lemma_trim_start_scan(piece, a - start);
        assert(piece.skip(a - start) =~= s@.subrange(a as int, end as int));
        let core = s@.subrange(a as int, end as int);
        assert(forall|j: int| 0 <= j < core.len() ==> core[j] == s@[a + j]);
        lemma_trim_end_scan(core, b - a);
        assert(core.take(b - a) =~= s@.subrange(a as int, b as int));
    }
    (a, b)
}

/// Parse one challenge entry out of `s[start..end]`.
fn parse_entry(s: &[u8], start: usize, end: usize) -> (r: Result<Challenge, ConfigError>)
    requires
        start <= end <= s@.len(),
    ensures
        match r {
            Ok(c) => spec_parse_entry(s@.subrange(start as int, end as int)) == Ok::<
                _,
                ConfigError,
            >((c.key@, c.value@)),
            Err(e) => spec_parse_entry(s@.subrange(start as int, end as int)) == Err::<
                (Seq<u8>, Seq<u8>),
                _,
            >(e),
        },
{
    let (a, b) = trim_bounds(s, start, end);
    let ghost t = spec_trim(s@.subrange(start as int, end as int));
    let comma = find_from(s, a, 44);
    proof {
        lemma_sep_index_of_chunk(s@, a as int, b as int, comma as int, 44);
    }
    if comma >= b {
        proof {
            lemma_sep_index(t, 44);
        }
        Err(ConfigError::ChallengeWithoutValue)
    } else {
        let key = slice_to_vec(slice_subrange(s, a, comma));
        let value = slice_to_vec(slice_subrange(s, comma + 1, b));
        proof {
            assert(t.take(comma - a) =~= s@.subrange(a as int, comma as int));
            assert(t.skip(comma - a + 1) =~= s@.subrange(comma + 1 as int, b as int));
        }
        Ok(Challenge { key, value })
    }
}

/// The first-separator index of the trimmed chunk `s[a..b]` agrees with a
/// search over `s` from `a`, capped at `b`.
proof fn lemma_sep_index_of_chunk(s: Seq<u8>, a: int, b: int, found: int, sep: u8)
    requires
        0 <= a <= b <= s.len(),
        a <= found <= s.len(),
        found - a == sep_index(s.skip(a), sep),
    ensures
        found < b ==> sep_index(s.subrange(a, b), sep) == found - a && s[found] == sep,
        found >= b ==> sep_index(s.subrange(a, b), sep) == b - a,
{
    lemma_sep_index(s.skip(a), sep);
    assert(forall|j: int| 0 <= j < s.skip(a).len() ==> s.skip(a)[j] == s[a + j]);
    let chunk = s.subrange(a, b);
    assert(forall|j: int| 0 <= j < chunk.len() ==> chunk[j] == s[a + j]);
    if found < b {
        lemma_sep_scan_exact(chunk, found - a, sep);
    } else {
        lemma_sep_scan_exact(chunk, b - a, sep);
    }
}

/// A chunk whose bytes before `k` all differ from `sep`, with `sep` at `k`
/// when `k` is inside, has first-separator index exactly `k`.
proof fn lemma_sep_scan_exact(chunk: Seq<u8>, k: int, sep: u8)
    requires
        0 <= k <= chunk.len(),
        forall|j: int| 0 <= j < k ==> chunk[j] != sep,
        k < chunk.len() ==> chunk[k] == sep,
    ensures
        sep_index(chunk, sep) == k,
    decreases k,
{
    if k > 0 {
        assert(forall|j: int| 0 <= j < k - 1 ==> chunk.skip(1)[j] == chunk[j + 1]);
        if k < chunk.len() {
            assert(chunk.skip(1)[k - 1] == chunk[k]);
        }
        lemma_sep_scan_exact(chunk.skip(1), k - 1, sep);
    }
}

/// Parse the whole challenge table: semicolon-separated entries, each a
/// trimmed `key,value` pair. The first malformed entry aborts the parse
/// with its error — a fatal configuration error at setup.
pub fn parse_challenges(s: &[u8]) -> (r: Result<Vec<Challenge>, ConfigError>)
    ensures
        match r {
            Ok(cs) => spec_parse_challenges(s@) == Ok::<_, ConfigError>(challenges_view(cs@)),
            Err(e) => spec_parse_challenges(s@) == Err::<Seq<(Seq<u8>, Seq<u8>)>, _>(e),
        },
{
    let n = s.len();
    let mut acc: Vec<Challenge> = Vec::new();
    let mut pos: usize = 0;
    proof {
        assert(s@.skip(0) =~= s@);
        match spec_parse_challenges(s@) {
            Ok(tail) => {
                assert(challenges_view(acc@) + tail =~= tail);
            },
            Err(_) => {},
        }
    }
    loop
        invariant
            pos <= n,
            n == s@.len(),
            spec_parse_challenges(s@) == (match spec_parse_challenges(s@.skip(pos as int)) {
                Ok(tail) => Ok::<_, ConfigError>(challenges_view(acc@) + tail),
                Err(e) => Err::<Seq<(Seq<u8>, Seq<u8>)>, _>(e),
            }),
        decreases n - pos,
    {
        let ghost tail = s@.skip(pos as int);
        let semi = find_from(s, pos, 59);
        proof {
            lemma_sep_index(tail, 59);
            assert(tail.take(semi - pos) =~= s@.subrange(pos as int, semi as int));
        }
        if semi == n {
            proof {
                assert(tail.take(semi - pos) =~= tail);
                assert(s@.subrange(pos as int, n as int) =~= tail);
                assert(sep_index(tail, 59) == tail.len());
            }
            match parse_entry(s, pos, n) {
                Ok(c) => {
                    proof {
                        let e = (c.key@, c.value@);
                        assert(spec_parse_entry(tail) == Ok::<_, ConfigError>(e));
                        assert(spec_parse_challenges(tail) == Ok::<
                            Seq<(Seq<u8>, Seq<u8>)>,
                            ConfigError,
                        >(seq![e]));
                    }
                    let ghost acc0 = acc@;
                    acc.push(c);
                    proof {
                        let e = (c.key@, c.value@);
                        assert(challenges_view(acc0) + seq![e] =~= challenges_view(acc@));
                    }
                    return Ok(acc);
                },
                Err(e) => {
                    proof {
                        assert(spec_parse_entry(tail) == Err::<(Seq<u8>, Seq<u8>), _>(e));
                    }
                    return Err(e);
                },
            }
        } else {
            proof {
                assert(sep_index(tail, 59) == semi - pos);
                assert(semi - pos < tail.len());
                assert(tail.skip(semi - pos + 1) =~= s@.skip(semi + 1));
            }
            match parse_entry(s, pos, semi) {
                Ok(c) => {
                    proof {
                        let e = (c.key@, c.value@);
                        assert(spec_parse_entry(tail.take(semi - pos)) == Ok::<_, ConfigError>(
                            e,
                        ));
                    }
                    let ghost acc0 = acc@;
                    acc.push(c);
                    proof {
                        let e = (c.key@, c.value@);
                        assert(challenges_view(acc0) + seq![e] =~= challenges_view(acc@));
                        match spec_parse_challenges(s@.skip(semi + 1)) {
                            Ok(rest) => {
                                assert(spec_parse_challenges(tail) == Ok::<_, ConfigError>(
                                    seq![e] + rest,
                                ));
                                assert(challenges_view(acc0) + (seq![e] + rest)
                                    =~= challenges_view(acc@) + rest);
                            },
                            Err(er) => {
                                assert(spec_parse_challenges(tail) == Err::<
                                    Seq<(Seq<u8>, Seq<u8>)>,
                                    _,
                                >(er));
                            },
                        }
                    }
                    pos = semi + 1;
                },
                Err(e) => {
                    proof {
                        assert(spec_parse_entry(tail.take(semi - pos)) == Err::<
                            (Seq<u8>, Seq<u8>),
                            _,
                        >(e));
                    }
                    return Err(e);
                },
            }
        }
    }
}

/// The protocol versions the listener can serve.
#[derive(Debug, PartialEq, Eq, Structural, Clone, Copy)]
pub enum HttpVersion {
    /// Negotiate the version per connection.
    Auto,
    /// Serve protocol version 1.1 only.
    H1,
    /// Serve protocol version 2 only.
    H2,
}

/// The selector spellings that negotiate the version per connection: the
/// empty selector and `auto`.
pub open spec fn spec_is_auto(s: Seq<u8>) -> bool {
    s == Seq::<u8>::empty() || s == seq![97u8, 117u8, 116u8, 111u8]
}

/// The selector spellings that pin protocol version 1.1: `h1`, `http1`,
/// `http/1`, `http/1.0` and `http/1.1`.
pub open spec fn spec_is_h1(s: Seq<u8>) -> bool {
    ||| s == seq![104u8, 49u8]
    ||| s == seq![104u8, 116u8, 116u8, 112u8, 49u8]
    ||| s == seq![104u8, 116u8, 116u8, 112u8, 47u8, 49u8]
    ||| s == seq![104u8, 116u8, 116u8, 112u8, 47u8, 49u8, 46u8, 48u8]
    ||| s == seq![104u8, 116u8, 116u8, 112u8, 47u8, 49u8, 46u8, 49u8]
}

/// The selector spellings that pin protocol version 2: `h2`, `http2`,
/// `http/2` and `http/2.0`.
pub open spec fn spec_is_h2(s: Seq<u8>) -> bool {
    ||| s == seq![104u8, 50u8]
    ||| s == seq![104u8, 116u8, 116u8, 112u8, 50u8]
    ||| s == seq![104u8, 116u8, 116u8, 112u8, 47u8, 50u8]
    ||| s == seq![104u8, 116u8, 116u8, 112u8, 47u8, 50u8, 46u8, 48u8]
}

/// Which version a selector picks: an empty selector or `auto` negotiates,
/// the `h1` family pins 1.1, the `h2` family pins 2; any other spelling is
/// a fatal configuration error.
pub open spec fn spec_parse_version(s: Seq<u8>) -> Result<HttpVersion, ConfigError> {
    if spec_is_auto(s) {
        Ok(HttpVersion::Auto)
    } else if spec_is_h1(s) {
        Ok(HttpVersion::H1)
    } else if spec_is_h2(s) {
        Ok(HttpVersion::H2)
    } else {
        Err(ConfigError::UnsupportedVersion)
    }
}

/// Compare a selector against one spelling.
fn eq_kw(s: &[u8], p: &[u8]) -> (r: bool)
    ensures
        r == (s@ == p@),
{
    crate::util::bytes_eq(s, p)
}

/// Parse the protocol-version selector.
pub fn parse_version(s: &[u8]) -> (r: Result<HttpVersion, ConfigError>)
    ensures
        r == spec_parse_version(s@),
{
    let auto: [u8; 4] = [97, 117, 116, 111];
    let h1: [u8; 2] = [104, 49];
    let http1: [u8; 5] = [104, 116, 116, 112, 49];
    let http_1: [u8; 6] = [104, 116, 116, 112, 47, 49];
    let http_1_0: [u8; 8] = [104, 116, 116, 112, 47, 49, 46, 48];
    let http_1_1: [u8; 8] = [104, 116, 116, 112, 47, 49, 46, 49];
    let h2: [u8; 2] = [104, 50];
    let http2: [u8; 5] = [104, 116, 116, 112, 50];
    let http_2: [u8; 6] = [104, 116, 116, 112, 47, 50];
    let http_2_0: [u8; 8] = [104, 116, 116, 112, 47, 50, 46, 48];
    proof {
        assert(auto@ =~= seq![97u8, 117u8, 116u8, 111u8]);
        assert(h1@ =~= seq![104u8, 49u8]);
        assert(http1@ =~= seq![104u8, 116u8, 116u8, 112u8, 49u8]);
        assert(http_1@ =~= seq![104u8, 116u8, 116u8, 112u8, 47u8, 49u8]);
        assert(http_1_0@ =~= seq![104u8, 116u8, 116u8, 112u8, 47u8, 49u8, 46u8, 48u8]);
        assert(http_1_1@ =~= seq![104u8, 116u8, 116u8, 112u8, 47u8, 49u8, 46u8, 49u8]);
        assert(h2@ =~= seq![104u8, 50u8]);
        assert(http2@ =~= seq![104u8, 116u8, 116u8, 112u8, 50u8]);
        assert(http_2@ =~= seq![104u8, 116u8, 116u8, 112u8, 47u8, 50u8]);
        assert(http_2_0@ =~= seq![104u8, 116u8, 116u8, 112u8, 47u8, 50u8, 46u8, 48u8]);
    }
    if s.len() == 0 || eq_kw(s, auto.as_slice()) {
        proof {
            if s@.len() == 0 {
                assert(s@ =~= Seq::<u8>::empty());
            }
        }
        Ok(HttpVersion::Auto)
    } else if eq_kw(s, h1.as_slice()) || eq_kw(s, http1.as_slice()) || eq_kw(
        s,
        http_1.as_slice(),
    ) || eq_kw(s, http_1_0.as_slice()) || eq_kw(s, http_1_1.as_slice()) {
        Ok(HttpVersion::H1)
    } else if eq_kw(s, h2.as_slice()) || eq_kw(s, http2.as_slice()) || eq_kw(
        s,
        http_2.as_slice(),
    ) || eq_kw(s, http_2_0.as_slice()) {
        Ok(HttpVersion::H2)
    } else {
        Err(ConfigError::UnsupportedVersion)
    }
}

} // verus!
