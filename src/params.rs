//! Query-string parameters: a small map from names to values that keeps the
//! order in which names were first inserted.

use vstd::prelude::*;

verus! {

/// Name and value of each entry, in order.
pub open spec fn entry_views(entries: Seq<(String, String)>) -> Seq<(Seq<char>, Seq<char>)> {
    entries.map_values(|e: (String, String)| (e.0@, e.1@))
}

/// The map that a list of entries describes; a later entry wins over an
/// earlier one with the same name.
pub open spec fn entries_map(s: Seq<(Seq<char>, Seq<char>)>) -> Map<Seq<char>, Seq<char>>
    decreases s.len(),
{
    if s.len() == 0 {
        Map::empty()
    } else {
        entries_map(s.drop_last()).insert(s.last().0, s.last().1)
    }
}

/// No name stands in two entries.
pub open spec fn distinct_names(s: Seq<(Seq<char>, Seq<char>)>) -> bool {
    forall|i: int, j: int| 0 <= i < j < s.len() ==> s[i].0 != s[j].0
}

proof fn lemma_entries_map_lookup(s: Seq<(Seq<char>, Seq<char>)>)
    requires
        distinct_names(s),
    ensures
        entries_map(s).dom().finite(),
        entries_map(s).len() == s.len(),
        forall|k: Seq<char>|
            #[trigger] entries_map(s).contains_key(k) <==> exists|i: int|
                0 <= i < s.len() && s[i].0 == k,
        forall|i: int| 0 <= i < s.len() ==> #[trigger] entries_map(s)[s[i].0] == s[i].1,
    decreases s.len(),
{
    if s.len() > 0 {
        let t = s.drop_last();
        assert(distinct_names(t));
        lemma_entries_map_lookup(t);
        let k = s.last().0;
        if entries_map(t).contains_key(k) {
            let i = choose|i: int| 0 <= i < t.len() && t[i].0 == k;
            assert(s[i].0 == s[s.len() - 1].0);
        }
        assert forall|k2: Seq<char>| #[trigger] entries_map(s).contains_key(k2) implies exists|i: int|
            0 <= i < s.len() && s[i].0 == k2 by {
            if k2 != k {
                let i = choose|i: int| 0 <= i < t.len() && t[i].0 == k2;
                assert(s[i].0 == k2);
            } else {
                assert(s[s.len() - 1].0 == k2);
            }
        }
        assert forall|k2: Seq<char>| (exists|i: int| 0 <= i < s.len() && s[i].0 == k2) implies
            #[trigger] entries_map(s).contains_key(k2) by {
            let i = choose|i: int| 0 <= i < s.len() && s[i].0 == k2;
            if i < s.len() - 1 {
                assert(t[i].0 == k2);
            }
        }
        assert forall|i: int| 0 <= i < s.len() implies #[trigger] entries_map(s)[s[i].0] == s[i].1 by {
            if i < s.len() - 1 {
                assert(t[i] == s[i]);
                assert(s[i].0 != k);
            }
        }
    }
}

proof fn lemma_entries_map_update(s: Seq<(Seq<char>, Seq<char>)>, i: int, v: Seq<char>)
    requires
        distinct_names(s),
        0 <= i < s.len(),
    ensures
        distinct_names(s.update(i, (s[i].0, v))),
        entries_map(s.update(i, (s[i].0, v))) == entries_map(s).insert(s[i].0, v),
    decreases s.len(),
{
    let u = s.update(i, (s[i].0, v));
    assert(distinct_names(u));
    if i == s.len() - 1 {
        assert(u.drop_last() =~= s.drop_last());
        lemma_entries_map_lookup(s.drop_last());
        assert(!entries_map(s.drop_last()).contains_key(s[i].0)) by {
            if entries_map(s.drop_last()).contains_key(s[i].0) {
                let j = choose|j: int| 0 <= j < s.len() - 1 && s.drop_last()[j].0 == s[i].0;
                assert(s[j].0 == s[i].0);
            }
        }
        assert(entries_map(u) =~= entries_map(s).insert(s[i].0, v));
    } else {
        let t = s.drop_last();
        assert(distinct_names(t));
        lemma_entries_map_update(t, i, v);
        assert(u.drop_last() =~= t.update(i, (s[i].0, v)));
        assert(s.last().0 != s[i].0);
        assert(entries_map(u) =~= entries_map(s).insert(s[i].0, v));
    }
}

/// The parameters that go in the query string of a request.
#[derive(Debug)]
pub struct Parameters {
    entries: Vec<(String, String)>,
}

impl View for Parameters {
    type V = Map<Seq<char>, Seq<char>>;

    open spec fn view(&self) -> Map<Seq<char>, Seq<char>> {
        entries_map(self.entries())
    }
}

impl Parameters {
    /// Name and value of each entry, in the order in which they were added.
    pub closed spec fn entries(&self) -> Seq<(Seq<char>, Seq<char>)> {
        entry_views(self.entries@)
    }

    /// Each name stands in one entry only.
    #[verifier::type_invariant]
    pub closed spec fn wf(&self) -> bool {
        distinct_names(self.entries())
    }

    /// No parameters.
    pub fn new() -> (r: Parameters)
        ensures
            r.entries() == Seq::<(Seq<char>, Seq<char>)>::empty(),
            r@ == Map::<Seq<char>, Seq<char>>::empty(),
    {
        let r = Parameters { entries: Vec::new() };
        assert(r.entries() =~= Seq::<(Seq<char>, Seq<char>)>::empty());
        r
    }

    /// How many parameters there are.
    pub fn len(&self) -> (r: usize)
        ensures
            r == self@.len(),
            r == self.entries().len(),
    {
        proof {
            use_type_invariant(self);
            lemma_entries_map_lookup(self.entries());
        }
        self.entries.len()
    }

    /// The value of parameter `name`, if there is one.
    pub fn get(&self, name: &str) -> (r: Option<&str>)
        ensures
            r is None <==> !self@.contains_key(name@),
            r matches Some(v) ==> v@ == self@[name@],
    {
        proof {
            use_type_invariant(self);
            lemma_entries_map_lookup(self.entries());
        }
        let key = name.to_owned();
        let mut i: usize = 0;
        while i < self.entries.len()
            invariant
                key@ == name@,
                distinct_names(self.entries()),
                i <= self.entries@.len(),
                forall|j: int| 0 <= j < i ==> self.entries()[j].0 != name@,
            decreases self.entries@.len() - i,
        {
            if self.entries[i].0 == key {
                proof {
                    lemma_entries_map_lookup(self.entries());
                }
                assert(self.entries()[i as int].0 == name@);
                assert(self@[self.entries()[i as int].0] == self.entries()[i as int].1);
                return Some(self.entries[i].1.as_str());
            }
            i = i + 1;
        }
        proof {
            lemma_entries_map_lookup(self.entries());
        }
        None
    }

    /// A copy with the same entries in the same order.
    pub fn copy(&self) -> (r: Parameters)
        ensures
            r.entries() == self.entries(),
            r@ == self@,
    {
        proof {
            use_type_invariant(self);
        }
        let mut entries: Vec<(String, String)> = Vec::new();
        let mut i: usize = 0;
        while i < self.entries.len()
            invariant
                i <= self.entries@.len(),
                entry_views(entries@) == self.entries().take(i as int),
            decreases self.entries@.len() - i,
        {
            let name = self.entries[i].0.clone();
            let value = self.entries[i].1.clone();
            let ghost before = entries@;
            entries.push((name, value));
            assert(entries@ == before.push((name, value)));
            assert(name@ == self.entries()[i as int].0 && value@ == self.entries()[i as int].1);
            assert(entry_views(entries@) =~= entry_views(before).push((name@, value@)));
            assert(entry_views(entries@) =~= self.entries().take(i + 1));
            i = i + 1;
        }
        assert(self.entries().take(i as int) =~= self.entries());
        Parameters { entries }
    }

    /// The entries, in the order in which their names were first added.
    pub fn as_slice(&self) -> (r: &[(String, String)])
        ensures
            entry_views(r@) == self.entries(),
    {
        self.entries.as_slice()
    }

    /// Sets parameter `name` to `value`, in place of its earlier value, if any.
    pub fn insert(&mut self, name: String, value: String)
        ensures
            final(self)@ == old(self)@.insert(name@, value@),
            final(self).entries().len() == old(self).entries().len() + (if old(self)@.contains_key(
                name@,
            ) {
                0int
            } else {
                1int
            }),
    {
        proof {
            use_type_invariant(&*self);
            lemma_entries_map_lookup(self.entries());
        }
        let ghost start = self.entries();
        let mut entries = self.copy().entries;
        let mut i: usize = 0;
        while i < entries.len()
            invariant
                entry_views(entries@) == start,
                start == old(self).entries(),
                distinct_names(start),
                i <= entries@.len(),
                forall|j: int| 0 <= j < i ==> start[j].0 != name@,
            decreases entries@.len() - i,
        {
            if entries[i].0 == name {
                assert(start[i as int].0 == name@);
                proof {
                    lemma_entries_map_update(start, i as int, value@);
                    lemma_entries_map_lookup(start);
                }
                entries.set(i, (name, value));
                assert(entry_views(entries@) =~= start.update(i as int, (name@, value@)));
                *self = Parameters { entries };
                return;
            }
            i = i + 1;
        }
        proof {
            lemma_entries_map_lookup(start);
        }
        entries.push((name, value));
        assert(entry_views(entries@).drop_last() =~= start);
        assert(distinct_names(entry_views(entries@))) by {
            let s = entry_views(entries@);
            assert forall|a: int, b: int| 0 <= a < b < s.len() implies s[a].0 != s[b].0 by {
                if b < s.len() - 1 {
                    assert(s[a] == start[a]);
                    assert(s[b] == start[b]);
                } else {
                    assert(s[a] == start[a]);
                }
            }
        }
        *self = Parameters { entries };
    }
}

} // verus!
