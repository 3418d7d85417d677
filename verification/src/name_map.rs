use vstd::prelude::*;

verus! {

/// The name of each entry of an association list, in order.
pub open spec fn names_of<V>(entries: Seq<(String, V)>) -> Seq<Seq<char>> {
    entries.map_values(|e: (String, V)| e.0@)
}

/// The finite map that an association list denotes: each name is bound to
/// the value of its last entry.
pub open spec fn assoc<V>(entries: Seq<(String, V)>) -> Map<Seq<char>, V>
    decreases entries.len(),
{
    if entries.len() == 0 {
        Map::empty()
    } else {
        assoc(entries.drop_last()).insert(entries.last().0@, entries.last().1)
    }
}

proof fn lemma_assoc_finite<V>(entries: Seq<(String, V)>)
    ensures
        assoc(entries).dom().finite(),
    decreases entries.len(),
{
    if entries.len() > 0 {
        lemma_assoc_finite(entries.drop_last());
    }
}

proof fn lemma_assoc_dom<V>(entries: Seq<(String, V)>, k: Seq<char>)
    ensures
        assoc(entries).contains_key(k) <==> names_of(entries).contains(k),
    decreases entries.len(),
{
    if entries.len() > 0 {
        let rest = entries.drop_last();
        lemma_assoc_dom(rest, k);
        if k == entries.last().0@ {
            assert(names_of(entries)[entries.len() - 1] == k);
        }
        if names_of(rest).contains(k) {
            let i = choose|i: int| 0 <= i < names_of(rest).len() && names_of(rest)[i] == k;
            assert(names_of(entries)[i] == k);
        }
        if names_of(entries).contains(k) {
            let i = choose|i: int| 0 <= i < names_of(entries).len() && names_of(entries)[i] == k;
            if i < entries.len() - 1 {
                assert(names_of(rest)[i] == k);
            }
        }
    }
}

proof fn lemma_assoc_index<V>(entries: Seq<(String, V)>, i: int)
    requires
        names_of(entries).no_duplicates(),
        0 <= i < entries.len(),
    ensures
        assoc(entries).contains_key(entries[i].0@),
        assoc(entries)[entries[i].0@] == entries[i].1,
    decreases entries.len(),
{
    let rest = entries.drop_last();
    if i < entries.len() - 1 {
        assert(names_of(rest).no_duplicates()) by {
            assert forall|a: int, b: int|
                0 <= a < names_of(rest).len() && 0 <= b < names_of(rest).len() && a != b
                implies names_of(rest)[a] != names_of(rest)[b] by {
                assert(names_of(rest)[a] == names_of(entries)[a]);
                assert(names_of(rest)[b] == names_of(entries)[b]);
            }
        }
        lemma_assoc_index(rest, i);
        assert(names_of(entries)[i] != names_of(entries)[entries.len() - 1]);
    }
}

proof fn lemma_assoc_len<V>(entries: Seq<(String, V)>)
    requires
        names_of(entries).no_duplicates(),
    ensures
        assoc(entries).len() == entries.len(),
    decreases entries.len(),
{
    if entries.len() > 0 {
        let rest = entries.drop_last();
        assert(names_of(rest).no_duplicates()) by {
            assert forall|a: int, b: int|
                0 <= a < names_of(rest).len() && 0 <= b < names_of(rest).len() && a != b
                implies names_of(rest)[a] != names_of(rest)[b] by {
                assert(names_of(rest)[a] == names_of(entries)[a]);
                assert(names_of(rest)[b] == names_of(entries)[b]);
            }
        }
        lemma_assoc_len(rest);
        lemma_assoc_finite(rest);
        lemma_assoc_dom(rest, entries.last().0@);
        if names_of(rest).contains(entries.last().0@) {
            let j = choose|j: int|
                0 <= j < names_of(rest).len() && names_of(rest)[j] == entries.last().0@;
            assert(names_of(entries)[j] == names_of(entries)[entries.len() - 1]);
        }
    }
}

proof fn lemma_assoc_update<V>(entries: Seq<(String, V)>, i: int, e: (String, V))
    requires
        0 <= i < entries.len(),
        e.0@ == entries[i].0@,
    ensures
        names_of(entries.update(i, e)) == names_of(entries),
        names_of(entries).no_duplicates() ==> assoc(entries.update(i, e)) == assoc(entries).insert(
            e.0@,
            e.1,
        ),
    decreases entries.len(),
{
    let up = entries.update(i, e);
    assert(names_of(up) =~= names_of(entries));
    if names_of(entries).no_duplicates() {
        lemma_assoc_finite(entries);
        lemma_assoc_finite(up);
        assert forall|k: Seq<char>| #[trigger] assoc(up).contains_key(k) <==> assoc(
            entries,
        ).insert(e.0@, e.1).contains_key(k) by {
            lemma_assoc_dom(up, k);
            lemma_assoc_dom(entries, k);
            if k == e.0@ {
                assert(names_of(entries)[i] == k);
            }
        }
        assert forall|k: Seq<char>| #[trigger] assoc(up).contains_key(k) implies assoc(up)[k]
            == assoc(entries).insert(e.0@, e.1)[k] by {
            lemma_assoc_dom(up, k);
            let j = choose|j: int| 0 <= j < names_of(up).len() && names_of(up)[j] == k;
            assert(names_of(up)[j] == up[j].0@);
            assert(names_of(entries)[j] == entries[j].0@);
            lemma_assoc_index(up, j);
            lemma_assoc_index(entries, j);
            if j != i {
                assert(up[j] == entries[j]);
                assert(names_of(up)[i] == e.0@);
                assert(k != e.0@);
                assert(assoc(up)[k] == assoc(entries)[k]);
            } else {
                assert(up[j] == e);
                assert(k == e.0@);
            }
        }
        assert(assoc(up) =~= assoc(entries).insert(e.0@, e.1));
    }
}

/// A finite map from names to values, kept as an association list whose
/// names are pairwise distinct. Names are compared by their characters.
pub struct NameMap<T> {
    entries: Vec<(String, T)>,
}

impl<T> View for NameMap<T> {
    type V = Map<Seq<char>, T>;

    /// The map that this association list denotes.
    closed spec fn view(&self) -> Map<Seq<char>, T> {
        assoc(self.entries@)
    }
}

impl<T> NameMap<T> {
    #[verifier::type_invariant]
    spec fn distinct_names(self) -> bool {
        names_of(self.entries@).no_duplicates()
    }

    /// An empty map.
    pub fn new() -> (m: Self)
        ensures
            m@ == Map::<Seq<char>, T>::empty(),
    {
        NameMap { entries: Vec::new() }
    }

    /// The number of names bound.
    pub fn len(&self) -> (n: usize)
        ensures
            n == self@.len(),
            self@.dom().finite(),
    {
        proof {
            use_type_invariant(self);
            lemma_assoc_len(self.entries@);
            lemma_assoc_finite(self.entries@);
        }
        self.entries.len()
    }

    /// The position in the list of the entry for `name`, if any.
    fn position(&self, name: &String) -> (r: Option<usize>)
        ensures
            match r {
                Some(i) => i < self.entries@.len() && self.entries@[i as int].0@ == name@,
                None => !self@.contains_key(name@),
            },
    {
        let mut i: usize = 0;
        while i < self.entries.len()
            invariant
                0 <= i <= self.entries@.len(),
                forall|j: int| 0 <= j < i ==> self.entries@[j].0@ != name@,
            decreases self.entries@.len() - i,
        {
            if self.entries[i].0 == *name {
                return Some(i);
            }
            i = i + 1;
        }
        proof {
            lemma_assoc_dom(self.entries@, name@);
            if names_of(self.entries@).contains(name@) {
                let j = choose|j: int|
                    0 <= j < names_of(self.entries@).len() && names_of(self.entries@)[j]
                        == name@;
                assert(self.entries@[j].0@ == name@);
            }
        }
        None
    }

    /// Whether `name` is bound.
    pub fn contains(&self, name: &String) -> (b: bool)
        ensures
            b == self@.contains_key(name@),
    {
        proof {
            use_type_invariant(self);
        }
        match self.position(name) {
            Some(i) => {
                proof {
                    lemma_assoc_index(self.entries@, i as int);
                }
                true
            },
            None => false,
        }
    }

    /// The value bound to `name`, if any.
    pub fn get(&self, name: &String) -> (r: Option<&T>)
        ensures
            match r {
                Some(v) => self@.contains_key(name@) && *v == self@[name@],
                None => !self@.contains_key(name@),
            },
    {
        proof {
            use_type_invariant(self);
        }
        match self.position(name) {
            Some(i) => {
                proof {
                    lemma_assoc_index(self.entries@, i as int);
                }
                Some(&self.entries[i].1)
            },
            None => None,
        }
    }

    /// Binds `name` to `value`, replacing any earlier binding of `name`.
    pub fn insert(&mut self, name: String, value: T)
        ensures
            final(self)@ == old(self)@.insert(name@, value),
    {
        proof {
            use_type_invariant(&*self);
        }
        let pos = self.position(&name);
        let mut entries: Vec<(String, T)> = Vec::new();
        std::mem::swap(&mut entries, &mut self.entries);
        match pos {
            Some(i) => {
                proof {
                    lemma_assoc_update(entries@, i as int, (name, value));
                }
                entries.set(i, (name, value));
            },
            None => {
                proof {
                    let before = entries@;
                    let after = before.push((name, value));
                    lemma_assoc_dom(before, name@);
                    assert(after.drop_last() =~= before);
                    assert(names_of(after) =~= names_of(before).push(name@));
                    assert(names_of(after).no_duplicates()) by {
                        assert forall|a: int, b: int|
                            0 <= a < names_of(after).len() && 0 <= b < names_of(after).len()
                                && a != b implies names_of(after)[a] != names_of(after)[b] by {
                            if a < before.len() && b < before.len() {
                                assert(names_of(after)[a] == names_of(before)[a]);
                                assert(names_of(after)[b] == names_of(before)[b]);
                            } else if a < before.len() {
                                assert(names_of(after)[a] == names_of(before)[a]);
                                assert(names_of(before).contains(names_of(before)[a]));
                            } else {
                                assert(names_of(after)[b] == names_of(before)[b]);
                                assert(names_of(before).contains(names_of(before)[b]));
                            }
                        }
                    }
                }
                entries.push((name, value));
            },
        }
        self.entries = entries;
    }
}

} // verus!
