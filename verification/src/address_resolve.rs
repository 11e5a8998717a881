//! Which host `address_resolve` looks up for a hostname Ruby passes.
use vstd::prelude::*;
use vstd::string::*;

verus! {

/// The part of `s` before its first `c` (all of `s` when there is none).
pub open spec fn before_first(s: Seq<char>, c: char) -> Seq<char>
    decreases s.len(),
{
    if s.len() == 0 {
        s
    } else if s[0] == c {
        Seq::empty()
    } else {
        seq![s[0]] + before_first(s.drop_first(), c)
    }
}

/// The host to look up for `hostname`: the hostname without its zone index
/// (what follows a `%`); nothing is looked up when that host names a port
/// (holds a `:`), as Ruby answers such a hostname with no address.
pub open spec fn host_to_resolve(hostname: Seq<char>) -> Option<Seq<char>> {
    let host = before_first(hostname, '%');
    if host.contains(':') {
        None
    } else {
        Some(host)
    }
}

/// The part before the first `c` never holds `c`, and is a prefix.
pub proof fn lemma_before_first_lacks(s: Seq<char>, c: char)
    ensures
        !before_first(s, c).contains(c),
        before_first(s, c).len() <= s.len(),
        forall|i: int| 0 <= i < before_first(s, c).len() ==> before_first(s, c)[i] == s[i],
    decreases s.len(),
{
    if s.len() > 0 && s[0] != c {
        lemma_before_first_lacks(s.drop_first(), c);
        let rest = before_first(s.drop_first(), c);
        assert(before_first(s, c) == seq![s[0]] + rest);
        assert forall|i: int| 0 <= i < before_first(s, c).len() implies before_first(s, c)[i] == s[i] by {
            if i > 0 {
                assert(rest[i - 1] == s.drop_first()[i - 1]);
            }
        }
        if before_first(s, c).contains(c) {
            let i = choose|i: int| 0 <= i < before_first(s, c).len() && before_first(s, c)[i] == c;
            assert(i > 0);
            assert(rest[i - 1] == c);
        }
    }
}

/// The host that is looked up is a prefix of the hostname that holds
/// neither a zone index separator (`%`) nor a port separator (`:`).
pub proof fn law_resolved_host_is_bare(hostname: Seq<char>)
    ensures
        host_to_resolve(hostname) matches Some(h) ==> !h.contains('%') && !h.contains(':') && h.len() <= hostname.len()
            && (forall|i: int| 0 <= i < h.len() ==> h[i] == hostname[i]),
{
    lemma_before_first_lacks(hostname, '%');
}

/// `before_first(s, c)` is the first `k` characters of `s`, where `k` is the
/// index of the first `c` (or the length of `s`).
pub proof fn lemma_before_first_is_prefix(s: Seq<char>, c: char, k: int)
    requires
        0 <= k <= s.len(),
        forall|j: int| 0 <= j < k ==> s[j] != c,
        k == s.len() || s[k] == c,
    ensures
        before_first(s, c) == s.take(k),
    decreases s.len(),
{
    if s.len() == 0 {
        assert(s.take(k) =~= s);
    } else if k == 0 {
        assert(s.take(k) =~= Seq::<char>::empty());
    } else {
        lemma_before_first_is_prefix(s.drop_first(), c, k - 1);
        assert(s.take(k) =~= seq![s[0]] + s.drop_first().take(k - 1));
    }
}

/// Only a port separator makes the lookup be skipped: with `k` the index of
/// the first `%` of `hostname` (its length when there is none), nothing is
/// looked up exactly when one of the first `k` characters is a `:`, and
/// otherwise exactly those `k` characters are looked up.
pub proof fn law_only_a_port_separator_skips_the_lookup(hostname: Seq<char>, k: int)
    requires
        0 <= k <= hostname.len(),
        forall|j: int| 0 <= j < k ==> hostname[j] != '%',
        k == hostname.len() || hostname[k] == '%',
    ensures
        host_to_resolve(hostname) is None <==> (exists|j: int| 0 <= j < k && hostname[j] == ':'),
        (forall|j: int| 0 <= j < k ==> hostname[j] != ':') ==> host_to_resolve(hostname) == Some(hostname.take(k)),
{
    lemma_before_first_is_prefix(hostname, '%', k);
    let h = hostname.take(k);
    if exists|j: int| 0 <= j < k && hostname[j] == ':' {
        let j = choose|j: int| 0 <= j < k && hostname[j] == ':';
        assert(h[j] == ':');
        assert(h.contains(':'));
    }
    if h.contains(':') {
        let i = choose|i: int| 0 <= i < h.len() && h[i] == ':';
        assert(hostname[i] == ':');
    }
}

/// The host that `address_resolve` looks up for `hostname`, or `None` when
/// it answers with no address at once.
pub fn resolve_host(hostname: &str) -> (host: Option<String>)
    ensures
        match host_to_resolve(hostname@) {
            Some(h) => host matches Some(x) && x@ == h,
            None => host is None,
        },
{
    let n = hostname.unicode_len();
    let mut k: usize = 0;
    while k < n && hostname.get_char(k) != '%'
        invariant
            n == hostname@.len(),
            k <= n,
            forall|j: int| 0 <= j < k ==> hostname@[j] != '%',
        decreases n - k,
    {
        k = k + 1;
    }
    proof {
        lemma_before_first_is_prefix(hostname@, '%', k as int);
    }
    let host = hostname.substring_char(0, k);
    let ghost h = hostname@.take(k as int);
    assert(host@ =~= h);
    let mut i: usize = 0;
    while i < k
        invariant
            k <= n,
            n == hostname@.len(),
            i <= k,
            host@ == h,
            before_first(hostname@, '%') == h,
            h.len() == k,
            forall|j: int| 0 <= j < i ==> h[j] != ':',
        decreases k - i,
    {
        if host.get_char(i) == ':' {
            assert(h.contains(':'));
            return None;
        }
        i = i + 1;
    }
    assert(!h.contains(':'));
    Some(String::from_str(host))
}

/// The answer of `address_resolve` to a lookup: the addresses when the
/// name resolved, nothing (Ruby `nil`) when it did not.
pub fn lookup_reply<A, E>(lookup: Result<A, E>) -> (r: Option<A>)
    ensures
        match lookup {
            Ok(a) => r == Some(a),
            Err(_) => r is None,
        },
{
    match lookup {
        Ok(a) => Some(a),
        Err(_) => None,
    }
}

} // verus!
