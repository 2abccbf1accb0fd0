use vstd::prelude::*;

verus! {

/// Per-account storage is kept as a table of `(account, value)` entries in
/// which every account occurs at most once.  A lookup scans the entries and
/// takes the first match; an absent account has no entry at all.
pub open spec fn unique_keys<V>(s: Seq<(String, V)>) -> bool {
    forall|i: int, j: int| 0 <= i < j < s.len() ==> s[i].0@ != s[j].0@
}

/// The value stored for account `q`: the first entry whose key reads `q`,
/// or `None` when no entry does.
pub open spec fn lookup<V>(s: Seq<(String, V)>, q: Seq<char>) -> Option<V>
    decreases s.len(),
{
    if s.len() == 0 {
        None
    } else if s[0].0@ == q {
        Some(s[0].1)
    } else {
        lookup(s.drop_first(), q)
    }
}

/// When none of the first `i` entries carries key `q`, the lookup is decided
/// by the remaining entries alone.
pub proof fn lemma_lookup_skip<V>(s: Seq<(String, V)>, q: Seq<char>, i: int)
    requires
        0 <= i <= s.len(),
        forall|j: int| 0 <= j < i ==> s[j].0@ != q,
    ensures
        lookup(s, q) == lookup(s.skip(i), q),
    decreases i,
{
    if i == 0 {
        assert(s.skip(0) =~= s);
    } else {
        lemma_lookup_skip(s, q, i - 1);
        let u = s.skip(i - 1);
        assert(u[0] == s[i - 1]);
        assert(lookup(u, q) == lookup(u.drop_first(), q));
        assert(u.drop_first() =~= s.skip(i));
    }
}

/// On a table with unique keys, the lookup result is exactly characterised
/// by the entries: `None` means no entry carries the key, and `Some(v)`
/// means some entry does, every such entry holding `v`.
pub proof fn lemma_lookup_entries<V>(s: Seq<(String, V)>, q: Seq<char>)
    requires
        unique_keys(s),
    ensures
        match lookup(s, q) {
            Option::None => forall|j: int| 0 <= j < s.len() ==> s[j].0@ != q,
            Option::Some(v) => (exists|j: int| 0 <= j < s.len() && s[j].0@ == q && s[j].1 == v)
                && (forall|j: int| 0 <= j < s.len() && s[j].0@ == q ==> s[j].1 == v),
        },
    decreases s.len(),
{
    if s.len() > 0 && s[0].0@ != q {
        let u = s.drop_first();
        assert forall|j: int| 0 <= j < u.len() implies u[j] == s[j + 1] by {}
        assert(unique_keys(u));
        lemma_lookup_entries(u, q);
        match lookup(s, q) {
            Option::None => {
                assert(lookup(u, q) is None);
                assert forall|j: int| 0 <= j < s.len() implies s[j].0@ != q by {
                    if j > 0 {
                        assert(s[j] == u[j - 1]);
                    }
                }
            },
            Option::Some(v) => {
                assert(lookup(u, q) == Some(v));
                let w = choose|j: int| 0 <= j < u.len() && u[j].0@ == q && u[j].1 == v;
                assert(s[w + 1].0@ == q && s[w + 1].1 == v);
                assert forall|j: int| 0 <= j < s.len() && s[j].0@ == q implies s[j].1 == v by {
                    assert(j > 0);
                    assert(s[j] == u[j - 1]);
                }
            },
        }
    }
}

/// Read the value stored for `who`, if any.
pub fn table_get<V: Copy>(t: &Vec<(String, V)>, who: &String) -> (r: Option<V>)
    ensures
        r == lookup(t@, who@),
{
    let n = t.len();
    let mut i: usize = 0;
    while i < n
        invariant
            n == t@.len(),
            0 <= i <= n,
            forall|j: int| 0 <= j < i ==> t@[j].0@ != who@,
        decreases n - i,
    {
        if t[i].0 == *who {
            proof {
                lemma_lookup_skip(t@, who@, i as int);
                assert(t@.skip(i as int)[0] == t@[i as int]);
            }
            return Some(t[i].1);
        }
        i += 1;
    }
    proof {
        lemma_lookup_skip(t@, who@, n as int);
        assert(t@.skip(n as int).len() == 0);
    }
    None
}

/// Store `value` for `who`: overwrite the entry carrying `who`, or append a
/// fresh one when there is none.
pub fn table_set<V>(t: &mut Vec<(String, V)>, who: &String, value: V)
    requires
        unique_keys(old(t)@),
    ensures
        unique_keys(final(t)@),
        forall|q: Seq<char>| lookup(final(t)@, q) == (if q == who@ {
            Some(value)
        } else {
            lookup(old(t)@, q)
        }),
        match lookup(old(t)@, who@) {
            Option::Some(_) => exists|i: int|
                0 <= i < old(t)@.len() && old(t)@[i].0@ == who@ && final(t)@ == old(t)@.update(
                    i,
                    (*who, value),
                ),
            Option::None => final(t)@ == old(t)@.push((*who, value)),
        },
{
    let n = t.len();
    let mut i: usize = 0;
    while i < n
        invariant
            n == t@.len(),
            0 <= i <= n,
            t@ == old(t)@,
            unique_keys(t@),
            forall|j: int| 0 <= j < i ==> t@[j].0@ != who@,
        decreases n - i,
    {
        if t[i].0 == *who {
            let ghost s = t@;
            let ghost k = i as int;
            t[i] = (who.clone(), value);
            proof {
                let u = t@;
                assert(u == s.update(k, (*who, value)));
                assert(u[k].0@ == who@);
                assert forall|a: int, b: int| 0 <= a < b < u.len() implies u[a].0@ != u[b].0@ by {
                    assert(u[a].0@ == s[a].0@);
                    assert(u[b].0@ == s[b].0@);
                }
                lemma_lookup_skip(s, who@, k);
                assert(s.skip(k)[0] == s[k]);
                assert(lookup(s, who@) == Some(s[k].1));
                lemma_lookup_skip(u, who@, k);
                assert(u.skip(k)[0] == u[k]);
                assert(lookup(u, who@) == Some(value));
                assert forall|q: Seq<char>| q != who@ implies lookup(u, q) == lookup(s, q) by {
                    lemma_lookup_entries(s, q);
                    lemma_lookup_entries(u, q);
                    match lookup(s, q) {
                        Option::None => {
                            if lookup(u, q) is Some {
                                let j = choose|j: int|
                                    0 <= j < u.len() && u[j].0@ == q && u[j].1 == lookup(
                                        u,
                                        q,
                                    )->Some_0;
                                assert(s[j].0@ == q);
                            }
                        },
                        Option::Some(v) => {
                            let j = choose|j: int| 0 <= j < s.len() && s[j].0@ == q && s[j].1 == v;
                            assert(u[j] == s[j]);
                            if lookup(u, q) is None {
                                assert(u[j].0@ != q);
                            }
                        },
                    }
                }
            }
            return;
        }
        i += 1;
    }
    let ghost s = t@;
    t.push((who.clone(), value));
    proof {
        let u = t@;
        assert(u == s.push((*who, value)));
        lemma_lookup_skip(s, who@, n as int);
        assert(s.skip(n as int).len() == 0);
        assert(lookup(s, who@) is None);
        assert forall|a: int, b: int| 0 <= a < b < u.len() implies u[a].0@ != u[b].0@ by {
            if b < s.len() {
                assert(u[a] == s[a] && u[b] == s[b]);
            } else {
                assert(u[a] == s[a] && u[b].0@ == who@);
            }
        }
        lemma_lookup_skip(u, who@, n as int);
        assert(u.skip(n as int)[0] == u[n as int]);
        assert(lookup(u, who@) == Some(value));
        assert forall|q: Seq<char>| q != who@ implies lookup(u, q) == lookup(s, q) by {
            lemma_lookup_entries(s, q);
            lemma_lookup_entries(u, q);
            match lookup(s, q) {
                Option::None => {
                    if lookup(u, q) is Some {
                        let j = choose|j: int|
                            0 <= j < u.len() && u[j].0@ == q && u[j].1 == lookup(u, q)->Some_0;
                        assert(j < s.len());
                        assert(s[j].0@ == q);
                    }
                },
                Option::Some(v) => {
                    let j = choose|j: int| 0 <= j < s.len() && s[j].0@ == q && s[j].1 == v;
                    assert(u[j] == s[j]);
                    if lookup(u, q) is None {
                        assert(u[j].0@ != q);
                    }
                },
            }
        }
    }
}

} // verus!
