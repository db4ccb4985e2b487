//! Parsing of `WWW-Authenticate` bearer challenges.
//!
//! A registry that requires authentication answers an unauthenticated probe
//! with a header such as
//! `Bearer realm="https://auth.example/token",service="registry.example"`.
//! The parse is a simple comma-split of `key=value` parts with surrounding
//! whitespace and quotes stripped; unrecognized keys are ignored, and when a
//! key repeats the last occurrence wins.

use vstd::prelude::*;
use vstd::string::StrSliceExecFns;

verus! {

/// Linear whitespace inside a header value.
pub open spec fn is_lws(c: char) -> bool {
    c == ' ' || c == '\t'
}

/// Drops the longest run of characters satisfying `p` from the front.
pub open spec fn drop_while_left(s: Seq<char>, p: spec_fn(char) -> bool) -> Seq<char>
    decreases s.len(),
{
    if s.len() > 0 && p(s[0]) {
        drop_while_left(s.drop_first(), p)
    } else {
        s
    }
}

/// Drops the longest run of characters satisfying `p` from the back.
pub open spec fn drop_while_right(s: Seq<char>, p: spec_fn(char) -> bool) -> Seq<char>
    decreases s.len(),
{
    if s.len() > 0 && p(s.last()) {
        drop_while_right(s.drop_last(), p)
    } else {
        s
    }
}

/// Surrounding linear whitespace removed.
pub open spec fn trimmed(s: Seq<char>) -> Seq<char> {
    drop_while_right(drop_while_left(s, |c: char| is_lws(c)), |c: char| is_lws(c))
}

/// Surrounding double quotes removed.
pub open spec fn unquoted(s: Seq<char>) -> Seq<char> {
    drop_while_right(drop_while_left(s, |c: char| c == '"'), |c: char| c == '"')
}

/// `p` is an initial run of `s`.
pub open spec fn is_prefix(p: Seq<char>, s: Seq<char>) -> bool {
    p.len() <= s.len() && p == s.take(p.len() as int)
}

pub open spec fn bearer_prefix() -> Seq<char> {
    seq!['B', 'e', 'a', 'r', 'e', 'r', ' ']
}

pub open spec fn realm_key() -> Seq<char> {
    seq!['r', 'e', 'a', 'l', 'm', '=']
}

pub open spec fn service_key() -> Seq<char> {
    seq!['s', 'e', 'r', 'v', 'i', 'c', 'e', '=']
}

/// The position of the first comma at or after `i`, or the length when no
/// comma follows.
pub open spec fn find_comma(s: Seq<char>, i: int) -> int
    decreases s.len() - i,
{
    if i < 0 || i >= s.len() {
        s.len() as int
    } else if s[i] == ',' {
        i
    } else {
        find_comma(s, i + 1)
    }
}

proof fn lemma_find_comma_bounds(s: Seq<char>, i: int)
    requires
        0 <= i <= s.len(),
    ensures
        i <= find_comma(s, i) <= s.len(),
    decreases s.len() - i,
{
    if i < s.len() && s[i] != ',' {
        lemma_find_comma_bounds(s, i + 1);
    }
}

proof fn lemma_find_comma_is(s: Seq<char>, i: int, k: int)
    requires
        0 <= i <= k <= s.len(),
        forall|m: int| i <= m < k ==> s[m] != ',',
        k < s.len() ==> s[k] == ',',
    ensures
        find_comma(s, i) == k,
    decreases k - i,
{
    if i < k {
        lemma_find_comma_is(s, i + 1, k);
    }
}

/// One `key=value` part folded into the (realm, service) accumulator.
pub open spec fn seg_update(
    seg: Seq<char>,
    realm: Option<Seq<char>>,
    service: Option<Seq<char>>,
) -> (Option<Seq<char>>, Option<Seq<char>>) {
    let t = trimmed(seg);
    if is_prefix(realm_key(), t) {
        (Some(unquoted(t.skip(realm_key().len() as int))), service)
    } else if is_prefix(service_key(), t) {
        (realm, Some(unquoted(t.skip(service_key().len() as int))))
    } else {
        (realm, service)
    }
}

/// Folds every comma-separated part of `s` into the accumulator.
pub open spec fn scan_params(
    s: Seq<char>,
    realm: Option<Seq<char>>,
    service: Option<Seq<char>>,
) -> (Option<Seq<char>>, Option<Seq<char>>)
    decreases s.len(),
        via scan_params_dec
{
    let k = find_comma(s, 0);
    let u = seg_update(s.take(k), realm, service);
    if k >= s.len() {
        u
    } else {
        scan_params(s.skip(k + 1), u.0, u.1)
    }
}

#[via_fn]
proof fn scan_params_dec(s: Seq<char>, realm: Option<Seq<char>>, service: Option<Seq<char>>) {
    lemma_find_comma_bounds(s, 0);
}

/// What a bearer challenge denotes: the realm and the service, or `None`
/// when either is missing.
pub open spec fn spec_parse_challenge(h: Seq<char>) -> Option<(Seq<char>, Seq<char>)> {
    let body = if is_prefix(bearer_prefix(), h) {
        h.skip(bearer_prefix().len() as int)
    } else {
        h
    };
    match scan_params(body, None, None) {
        (Some(r), Some(s)) => Some((r, s)),
        _ => None,
    }
}

/// A parsed bearer challenge: where to ask for a token, and for whom.
#[derive(Debug, Clone, PartialEq)]
pub struct BearerChallenge {
    pub realm: String,
    pub service: String,
}

proof fn lemma_drop_while_left_range(s: Seq<char>, p: spec_fn(char) -> bool, c: int)
    requires
        0 <= c <= s.len(),
        forall|m: int| 0 <= m < c ==> p(s[m]),
        c < s.len() ==> !p(s[c]),
    ensures
        drop_while_left(s, p) == s.skip(c),
    decreases c,
{
    if c == 0 {
        assert(s =~= s.skip(0));
    } else {
        let d = s.drop_first();
        assert(forall|m: int| 0 <= m < c - 1 ==> p(d[m]));
        lemma_drop_while_left_range(d, p, c - 1);
        assert(d.skip(c - 1) =~= s.skip(c));
    }
}

proof fn lemma_drop_while_right_range(s: Seq<char>, p: spec_fn(char) -> bool, c: int)
    requires
        0 <= c <= s.len(),
        forall|m: int| c <= m < s.len() ==> p(s[m]),
        c > 0 ==> !p(s[c - 1]),
    ensures
        drop_while_right(s, p) == s.take(c),
    decreases s.len() - c,
{
    if c == s.len() {
        assert(s =~= s.take(c));
    } else {
        let d = s.drop_last();
        assert(forall|m: int| c <= m < d.len() ==> p(d[m]));
        lemma_drop_while_right_range(d, p, c);
        assert(d.take(c) =~= s.take(c));
    }
}

proof fn lemma_trimmed_id(s: Seq<char>)
    requires
        s.len() > 0,
        !is_lws(s[0]),
        !is_lws(s.last()),
    ensures
        trimmed(s) == s,
{
    let lws = |c: char| is_lws(c);
    lemma_drop_while_left_range(s, lws, 0);
    assert(s.skip(0) =~= s);
    lemma_drop_while_right_range(s, lws, s.len() as int);
    assert(s.take(s.len() as int) =~= s);
}

proof fn lemma_unquote_once(v: Seq<char>)
    requires
        v.len() > 0,
        forall|i: int| 0 <= i < v.len() ==> v[i] != '"',
    ensures
        unquoted(seq!['"'] + v + seq!['"']) == v,
{
    let q = |c: char| c == '"';
    let s = seq!['"'] + v + seq!['"'];
    assert(s[0] == '"');
    assert(s[1] == v[0]);
    lemma_drop_while_left_range(s, q, 1);
    let m = s.skip(1);
    assert(m =~= v + seq!['"']);
    assert(m[v.len() as int] == '"');
    if v.len() > 0 {
        assert(m[v.len() - 1] == v[v.len() - 1]);
    }
    lemma_drop_while_right_range(m, q, v.len() as int);
    assert(m.take(v.len() as int) =~= v);
}

/// A value free of commas, quotes and surrounding-whitespace characters.
pub open spec fn plain_value(v: Seq<char>) -> bool {
    forall|i: int| 0 <= i < v.len() ==> v[i] != ',' && v[i] != '"' && !is_lws(v[i])
}

/// A correctly-shaped challenge — `Bearer realm="R",service="S"` with
/// non-empty plain values — parses to exactly that realm and service.
#[verifier::rlimit(100)]
pub proof fn lemma_wellformed_challenge_parses(rv: Seq<char>, sv: Seq<char>)
    requires
        rv.len() > 0,
        sv.len() > 0,
        plain_value(rv),
        plain_value(sv),
    ensures
        spec_parse_challenge(
            bearer_prefix() + realm_key() + seq!['"'] + rv + seq!['"', ','] + service_key()
                + seq!['"'] + sv + seq!['"'],
        ) == Some((rv, sv)),
{
    let seg1 = realm_key() + seq!['"'] + rv + seq!['"'];
    let seg2 = service_key() + seq!['"'] + sv + seq!['"'];
    let body = seg1 + seq![','] + seg2;
    let h = bearer_prefix() + realm_key() + seq!['"'] + rv + seq!['"', ','] + service_key()
        + seq!['"'] + sv + seq!['"'];
    assert(h =~= bearer_prefix() + body);
    assert(h.take(bearer_prefix().len() as int) =~= bearer_prefix());
    assert(is_prefix(bearer_prefix(), h));
    assert(h.skip(bearer_prefix().len() as int) =~= body);

    let n1 = seg1.len() as int;
    // The first comma of the body ends the first segment.
    assert forall|m: int| 0 <= m < n1 implies body[m] != ',' by {
        assert(body[m] == seg1[m]);
        if m < 6 {
            assert(seg1[m] == realm_key()[m]);
        } else if m == 6 {
            assert(seg1[m] == '"');
        } else if m < 7 + rv.len() {
            assert(seg1[m] == rv[m - 7]);
        } else {
            assert(seg1[m] == '"');
        }
    }
    assert(body[n1] == ',');
    lemma_find_comma_is(body, 0, n1);
    assert(body.take(n1) =~= seg1);
    assert(body.skip(n1 + 1) =~= seg2);

    // The first segment carries the realm.
    assert(seg1[0] == 'r');
    assert(seg1.last() == '"');
    lemma_trimmed_id(seg1);
    assert(seg1.take(realm_key().len() as int) =~= realm_key());
    assert(is_prefix(realm_key(), seg1));
    assert(seg1.skip(realm_key().len() as int) =~= seq!['"'] + rv + seq!['"']);
    lemma_unquote_once(rv);
    assert(seg_update(seg1, None, None) == (
        Some(rv),
        None::<Seq<char>>,
    ));

    // The second segment carries the service.
    assert forall|m: int| 0 <= m < seg2.len() implies seg2[m] != ',' by {
        if m < 8 {
            assert(seg2[m] == service_key()[m]);
        } else if m == 8 {
            assert(seg2[m] == '"');
        } else if m < 9 + sv.len() {
            assert(seg2[m] == sv[m - 9]);
        } else {
            assert(seg2[m] == '"');
        }
    }
    lemma_find_comma_is(seg2, 0, seg2.len() as int);
    assert(seg2.take(seg2.len() as int) =~= seg2);
    assert(seg2[0] == 's');
    assert(seg2.last() == '"');
    lemma_trimmed_id(seg2);
    if is_prefix(realm_key(), seg2) {
        assert(seg2.take(realm_key().len() as int)[0] == seg2[0]);
        assert(realm_key()[0] == 'r');
        assert(false);
    }
    assert(seg2.take(service_key().len() as int) =~= service_key());
    assert(is_prefix(service_key(), seg2));
    assert(seg2.skip(service_key().len() as int) =~= seq!['"'] + sv + seq!['"']);
    lemma_unquote_once(sv);
    assert(seg_update(seg2, Some(rv), None) == (Some(rv), Some(sv)));

    assert(scan_params(seg2, Some(rv), None) == (Some(rv), Some(sv)));
    assert(scan_params(body, None, None) == (Some(rv), Some(sv)));
}

/// Does `key` begin the range `[i, j)` of `h`?
fn range_has_prefix(h: &str, i: usize, j: usize, key: &str) -> (b: bool)
    requires
        i <= j <= h@.len(),
    ensures
        b == is_prefix(key@, h@.subrange(i as int, j as int)),
{
    let klen = key.unicode_len();
    if j - i < klen {
        return false;
    }
    let mut d: usize = 0;
    while d < klen
        invariant
            i <= j <= h@.len(),
            klen == key@.len(),
            klen <= j - i,
            0 <= d <= klen,
            forall|m: int| 0 <= m < d ==> h@[i + m] == key@[m],
        decreases klen - d,
    {
        if h.get_char(i + d) != key.get_char(d) {
            proof {
                let t = h@.subrange(i as int, j as int);
                if is_prefix(key@, t) {
                    assert(t.take(key@.len() as int)[d as int] == h@[i + d]);
                }
            }
            return false;
        }
        d = d + 1;
    }
    proof {
        let t = h@.subrange(i as int, j as int);
        assert(key@ =~= t.take(key@.len() as int));
    }
    true
}

/// What an accumulated index range denotes in `h`.
spec fn acc_val(h: Seq<char>, o: Option<(usize, usize)>) -> Option<Seq<char>> {
    match o {
        Some(t) => Some(h.subrange(t.0 as int, t.1 as int)),
        None => None,
    }
}

/// Parses a `WWW-Authenticate` bearer challenge into its realm and service.
/// Returns `None` when either key is missing.
#[verifier::rlimit(100)]
pub fn parse_bearer_challenge(header: &str) -> (r: Option<BearerChallenge>)
    ensures
        match r {
            Some(c) => spec_parse_challenge(header@) == Some((c.realm@, c.service@)),
            None => spec_parse_challenge(header@) is None,
        },
{
    let n = header.unicode_len();
    let has_bearer = range_has_prefix(header, 0, n, "Bearer ");
    let b: usize = if has_bearer {
        7
    } else {
        0
    };
    proof {
        reveal_strlit("Bearer ");
        assert("Bearer "@ =~= bearer_prefix());
        assert(header@.subrange(0, n as int) =~= header@);
        if has_bearer {
            assert(header@.skip(b as int) == header@.skip(bearer_prefix().len() as int));
        }
    }
    let ghost body: Seq<char> = header@.skip(b as int);
    let mut p: usize = b;
    let mut realm_r: Option<(usize, usize)> = None;
    let mut service_r: Option<(usize, usize)> = None;
    loop
        invariant_except_break
            n == header@.len(),
            b <= p <= n,
            body == header@.skip(b as int),
            scan_params(body, None, None) == scan_params(
                header@.skip(p as int),
                acc_val(header@, realm_r),
                acc_val(header@, service_r),
            ),
            realm_r matches Some(t) ==> t.0 <= t.1 <= n,
            service_r matches Some(t) ==> t.0 <= t.1 <= n,
        ensures
            n == header@.len(),
            scan_params(body, None, None) == (
                acc_val(header@, realm_r),
                acc_val(header@, service_r),
            ),
            realm_r matches Some(t) ==> t.0 <= t.1 <= n,
            service_r matches Some(t) ==> t.0 <= t.1 <= n,
        decreases n - p,
    {
        // Find the end of the current part.
        let mut k: usize = p;
        while k < n && header.get_char(k) != ','
            invariant
                n == header@.len(),
                p <= k <= n,
                forall|m: int| p <= m < k ==> header@[m] != ',',
            decreases n - k,
        {
            k = k + 1;
        }
        let ghost rem = header@.skip(p as int);
        proof {
            assert(forall|m: int| 0 <= m < k - p ==> rem[m] != ',');
            lemma_find_comma_is(rem, 0, k - p);
        }
        // Trim surrounding whitespace of the part [p, k).
        let mut i: usize = p;
        while i < k && (header.get_char(i) == ' ' || header.get_char(i) == '\t')
            invariant
                n == header@.len(),
                p <= i <= k <= n,
                forall|m: int| p <= m < i ==> is_lws(header@[m]),
            decreases k - i,
        {
            i = i + 1;
        }
        let mut j: usize = k;
        while j > i && (header.get_char(j - 1) == ' ' || header.get_char(j - 1) == '\t')
            invariant
                n == header@.len(),
                i <= j <= k <= n,
                forall|m: int| j <= m < k ==> is_lws(header@[m]),
            decreases j - i,
        {
            j = j - 1;
        }
        let ghost seg = header@.subrange(p as int, k as int);
        let ghost t = header@.subrange(i as int, j as int);
        proof {
            let lws = |c: char| is_lws(c);
            assert(forall|m: int| 0 <= m < i - p ==> lws(seg[m]));
            if i < k {
                assert(!lws(seg[i - p]));
            }
            lemma_drop_while_left_range(seg, lws, i - p);
            let mid = seg.skip(i - p);
            assert(mid =~= header@.subrange(i as int, k as int));
            assert(forall|m: int| j - i <= m < mid.len() ==> lws(mid[m]));
            if j > i {
                assert(!lws(mid[j - i - 1]));
            }
            lemma_drop_while_right_range(mid, lws, j - i);
            assert(mid.take(j - i) =~= t);
            assert(trimmed(seg) == t);
        }
        // Recognize the key of the part.
        let is_realm = range_has_prefix(header, i, j, "realm=");
        let is_service = if is_realm {
            false
        } else {
            range_has_prefix(header, i, j, "service=")
        };
        proof {
            reveal_strlit("realm=");
            reveal_strlit("service=");
            assert("realm="@ =~= realm_key());
            assert("service="@ =~= service_key());
        }
        if is_realm || is_service {
            let klen: usize = if is_realm {
                6
            } else {
                8
            };
            // Strip quotes around the value [i + klen, j).
            let mut qi: usize = i + klen;
            let mut qj: usize = j;
            while qi < qj && header.get_char(qi) == '"'
                invariant
                    n == header@.len(),
                    i + klen <= qi <= qj <= j <= n,
                    forall|m: int| i + klen <= m < qi ==> header@[m] == '"',
                decreases qj - qi,
            {
                qi = qi + 1;
            }
            while qj > qi && header.get_char(qj - 1) == '"'
                invariant
                    n == header@.len(),
                    qi <= qj <= j <= n,
                    forall|m: int| qj <= m < j ==> header@[m] == '"',
                decreases qj - qi,
            {
                qj = qj - 1;
            }
            let ghost val = header@.subrange(i as int + klen as int, j as int);
            proof {
                let qt = |c: char| c == '"';
                assert(val =~= t.skip(klen as int));
                assert(forall|m: int| 0 <= m < qi - (i + klen) ==> qt(val[m]));
                if qi < qj {
                    assert(!qt(val[qi - (i + klen)]));
                }
                lemma_drop_while_left_range(val, qt, qi - (i + klen));
                let mid = val.skip(qi - (i + klen));
                assert(mid =~= header@.subrange(qi as int, j as int));
                assert(forall|m: int| qj - qi <= m < mid.len() ==> qt(mid[m]));
                if qj > qi {
                    assert(!qt(mid[qj - qi - 1]));
                }
                lemma_drop_while_right_range(mid, qt, qj - qi);
                assert(mid.take(qj - qi) =~= header@.subrange(qi as int, qj as int));
                assert(unquoted(t.skip(klen as int)) == header@.subrange(
                    qi as int,
                    qj as int,
                ));
            }
            if is_realm {
                realm_r = Some((qi, qj));
            } else {
                service_r = Some((qi, qj));
            }
        }
        proof {
            assert(rem.take(k - p) =~= seg);
            if k < n {
                assert(rem.skip(k - p + 1) =~= header@.skip(k as int + 1));
            }
        }
        if k == n {
            break;
        }
        p = k + 1;
    }
    match (realm_r, service_r) {
        (Some((ra, rb)), Some((sa, sb))) => {
            let realm = header.substring_char(ra, rb).to_owned();
            let service = header.substring_char(sa, sb).to_owned();
            Some(BearerChallenge { realm, service })
        },
        _ => None,
    }
}

} // verus!
