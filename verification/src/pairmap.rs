use vstd::prelude::*;

verus! {

/// First entry of `s` whose key is `(a, b)`, if any.
spec fn seq_lookup<V>(s: Seq<(u64, u64, V)>, a: u64, b: u64) -> Option<V>
    decreases s.len(),
{
    if s.len() == 0 {
        None
    } else if s[0].0 == a && s[0].1 == b {
        Some(s[0].2)
    } else {
        seq_lookup(s.drop_first(), a, b)
    }
}

/// Association container from a pair of numeric identifiers to a value,
/// viewed as a finite `Map` keyed by the pair.  Keys are kept unique.
pub struct PairMap<V> {
    entries: Vec<(u64, u64, V)>,
}

impl<V> View for PairMap<V> {
    type V = Map<(u64, u64), V>;

    closed spec fn view(&self) -> Map<(u64, u64), V> {
        Map::new(
            |k: (u64, u64)| seq_lookup(self.entries@, k.0, k.1) is Some,
            |k: (u64, u64)| seq_lookup(self.entries@, k.0, k.1).unwrap(),
        )
    }
}

impl<V> PairMap<V> {
    #[verifier::type_invariant]
    spec fn keys_unique(self) -> bool {
        forall|i: int, j: int|
            0 <= i < j < self.entries@.len() ==> !((#[trigger] self.entries@[i]).0
                == (#[trigger] self.entries@[j]).0 && self.entries@[i].1 == self.entries@[j].1)
    }

    pub fn new() -> (r: Self)
        ensures
            r@ == Map::<(u64, u64), V>::empty(),
    {
        let r = PairMap { entries: Vec::new() };
        proof {
            assert(r@ =~= Map::<(u64, u64), V>::empty());
        }
        r
    }

    /// Index of the entry for `(a, b)`, if present.
    fn find(&self, a: u64, b: u64) -> (r: Option<usize>)
        ensures
            match r {
                Some(i) => {
                    &&& i < self.entries@.len()
                    &&& self.entries@[i as int].0 == a && self.entries@[i as int].1 == b
                    &&& forall|j: int|
                        0 <= j < i ==> !((#[trigger] self.entries@[j]).0 == a
                            && self.entries@[j].1 == b)
                },
                None => forall|j: int|
                    0 <= j < self.entries@.len() ==> !((#[trigger] self.entries@[j]).0 == a
                        && self.entries@[j].1 == b),
            },
    {
        let n = self.entries.len();
        let mut i: usize = 0;
        while i < n
            invariant
                i <= n,
                n == self.entries@.len(),
                forall|j: int|
                    0 <= j < i ==> !((#[trigger] self.entries@[j]).0 == a && self.entries@[j].1
                        == b),
            decreases n - i,
        {
            let e = &self.entries[i];
            if e.0 == a && e.1 == b {
                return Some(i);
            }
            i = i + 1;
        }
        None
    }

    pub fn contains(&self, a: u64, b: u64) -> (r: bool)
        ensures
            r == self@.dom().contains((a, b)),
    {
        match self.find(a, b) {
            Some(i) => {
                proof {
                    lemma_lookup_at_first_match(self.entries@, a, b, i as int);
                }
                true
            },
            None => {
                proof {
                    lemma_lookup_no_match(self.entries@, a, b);
                }
                false
            },
        }
    }

    pub fn get(&self, a: u64, b: u64) -> (r: Option<&V>)
        ensures
            match r {
                Some(v) => self@.dom().contains((a, b)) && *v == self@[(a, b)],
                None => !self@.dom().contains((a, b)),
            },
    {
        match self.find(a, b) {
            Some(i) => {
                proof {
                    lemma_lookup_at_first_match(self.entries@, a, b, i as int);
                }
                Some(&self.entries[i].2)
            },
            None => {
                proof {
                    lemma_lookup_no_match(self.entries@, a, b);
                }
                None
            },
        }
    }

    pub fn insert(&mut self, a: u64, b: u64, v: V)
        ensures
            final(self)@ == old(self)@.insert((a, b), v),
    {
        proof {
            use_type_invariant(&*self);
        }
        let ghost pre = self.entries@;
        match self.find(a, b) {
            Some(i) => {
                let mut entries: Vec<(u64, u64, V)> = Vec::new();
                std::mem::swap(&mut entries, &mut self.entries);
                entries.set(i, (a, b, v));
                proof {
                    lemma_lookup_at_first_match(entries@, a, b, i as int);
                    assert forall|c: u64, d: u64| !(c == a && d == b) implies seq_lookup(
                        entries@,
                        c,
                        d,
                    ) == seq_lookup(pre, c, d) by {
                        lemma_lookup_update_same_key(pre, i as int, a, b, v, c, d);
                    }
                }
                self.entries = entries;
                proof {
                    assert(self@ =~= old(self)@.insert((a, b), v));
                }
            },
            None => {
                let mut entries: Vec<(u64, u64, V)> = Vec::new();
                std::mem::swap(&mut entries, &mut self.entries);
                entries.push((a, b, v));
                proof {
                    assert forall|c: u64, d: u64| true implies seq_lookup(entries@, c, d) == (
                    if c == a && d == b {
                        Some(v)
                    } else {
                        seq_lookup(pre, c, d)
                    }) by {
                        lemma_lookup_push(pre, (a, b, v), c, d);
                        if c == a && d == b {
                            lemma_lookup_no_match(pre, a, b);
                        }
                    }
                }
                self.entries = entries;
                proof {
                    assert(self@ =~= old(self)@.insert((a, b), v));
                }
            },
        }
    }

    pub fn remove(&mut self, a: u64, b: u64)
        ensures
            final(self)@ == old(self)@.remove((a, b)),
    {
        proof {
            use_type_invariant(&*self);
        }
        let ghost pre = self.entries@;
        match self.find(a, b) {
            Some(i) => {
                let mut entries: Vec<(u64, u64, V)> = Vec::new();
                std::mem::swap(&mut entries, &mut self.entries);
                entries.remove(i);
                proof {
                    assert forall|c: u64, d: u64| true implies seq_lookup(entries@, c, d) == (
                    if c == a && d == b {
                        None
                    } else {
                        seq_lookup(pre, c, d)
                    }) by {
                        if c == a && d == b {
                            lemma_lookup_no_match(entries@, a, b);
                        } else {
                            lemma_lookup_remove_same_key(pre, i as int, a, b, c, d);
                        }
                    }
                }
                self.entries = entries;
                proof {
                    assert(self@ =~= old(self)@.remove((a, b)));
                }
            },
            None => {
                proof {
                    lemma_lookup_no_match(pre, a, b);
                    assert(self@ =~= old(self)@.remove((a, b)));
                }
            },
        }
    }
}

/// If `s[i]` is the first entry keyed `(a, b)`, the lookup returns it.
proof fn lemma_lookup_at_first_match<V>(s: Seq<(u64, u64, V)>, a: u64, b: u64, i: int)
    requires
        0 <= i < s.len(),
        s[i].0 == a && s[i].1 == b,
        forall|j: int| 0 <= j < i ==> !((#[trigger] s[j]).0 == a && s[j].1 == b),
    ensures
        seq_lookup(s, a, b) == Some(s[i].2),
    decreases i,
{
    if i > 0 {
        lemma_lookup_at_first_match(s.drop_first(), a, b, i - 1);
    }
}

/// A sequence without an entry keyed `(a, b)` looks it up to nothing.
proof fn lemma_lookup_no_match<V>(s: Seq<(u64, u64, V)>, a: u64, b: u64)
    requires
        forall|j: int| 0 <= j < s.len() ==> !((#[trigger] s[j]).0 == a && s[j].1 == b),
    ensures
        seq_lookup(s, a, b) is None,
    decreases s.len(),
{
    if s.len() > 0 {
        lemma_lookup_no_match(s.drop_first(), a, b);
    }
}

/// Overwriting the value of an entry in place leaves every other key's
/// lookup unchanged.
proof fn lemma_lookup_update_same_key<V>(
    s: Seq<(u64, u64, V)>,
    i: int,
    a: u64,
    b: u64,
    v: V,
    c: u64,
    d: u64,
)
    requires
        0 <= i < s.len(),
        s[i].0 == a && s[i].1 == b,
        !(c == a && d == b),
    ensures
        seq_lookup(s.update(i, (a, b, v)), c, d) == seq_lookup(s, c, d),
    decreases i,
{
    let t = s.update(i, (a, b, v));
    if i == 0 {
        assert(t.drop_first() =~= s.drop_first());
    } else {
        assert(t.drop_first() =~= s.drop_first().update(i - 1, (a, b, v)));
        lemma_lookup_update_same_key(s.drop_first(), i - 1, a, b, v, c, d);
    }
}

/// Appending an entry changes only the lookup of a key that was absent.
proof fn lemma_lookup_push<V>(s: Seq<(u64, u64, V)>, e: (u64, u64, V), c: u64, d: u64)
    ensures
        seq_lookup(s.push(e), c, d) == (if seq_lookup(s, c, d) is Some {
            seq_lookup(s, c, d)
        } else if e.0 == c && e.1 == d {
            Some(e.2)
        } else {
            None
        }),
    decreases s.len(),
{
    if s.len() == 0 {
        assert(s.push(e)[0] == e);
        assert(s.push(e).drop_first() =~= Seq::<(u64, u64, V)>::empty());
        assert(seq_lookup(s.push(e).drop_first(), c, d) is None);
    } else {
        assert(s.push(e)[0] == s[0]);
        assert(s.push(e).drop_first() =~= s.drop_first().push(e));
        lemma_lookup_push(s.drop_first(), e, c, d);
    }
}

/// Removing one entry leaves every other key's lookup unchanged.
proof fn lemma_lookup_remove_same_key<V>(
    s: Seq<(u64, u64, V)>,
    i: int,
    a: u64,
    b: u64,
    c: u64,
    d: u64,
)
    requires
        0 <= i < s.len(),
        s[i].0 == a && s[i].1 == b,
        !(c == a && d == b),
    ensures
        seq_lookup(s.remove(i), c, d) == seq_lookup(s, c, d),
    decreases i,
{
    let t = s.remove(i);
    if i == 0 {
        assert(t =~= s.drop_first());
    } else {
        assert(t.drop_first() =~= s.drop_first().remove(i - 1));
        lemma_lookup_remove_same_key(s.drop_first(), i - 1, a, b, c, d);
    }
}

} // verus!
