//! A table from names to values that keeps each name once, in the order the
//! names were first entered.
use vstd::prelude::*;

verus! {

/// Names (as character sequences) of a list of entries.
pub open spec fn names_of<T>(entries: Seq<(String, T)>) -> Seq<Seq<char>> {
    entries.map_values(|e: (String, T)| e.0@)
}

/// A table that maps each name it holds to one value.
pub struct NamedTable<T> {
    entries: Vec<(String, T)>,
}

impl<T> NamedTable<T> {
    /// No name occurs twice.
    pub closed spec fn wf(&self) -> bool {
        names_of(self.entries@).no_duplicates()
    }

    /// The names held, in order of entry.
    pub closed spec fn names(&self) -> Seq<Seq<char>> {
        names_of(self.entries@)
    }

    /// The position at which `name` is held.
    closed spec fn position(&self, name: Seq<char>) -> int {
        choose|i: int| 0 <= i < self.entries@.len() && self.entries@[i].0@ == name
    }

    /// The table as a map from names to values.
    pub closed spec fn view(&self) -> Map<Seq<char>, T> {
        Map::new(
            |name: Seq<char>| self.names().contains(name),
            |name: Seq<char>| self.entries@[self.position(name)].1,
        )
    }

    proof fn lemma_position(&self, i: int)
        requires
            self.wf(),
            0 <= i < self.entries@.len(),
        ensures
            self.position(self.entries@[i].0@) == i,
            self.names().contains(self.entries@[i].0@),
            self@.contains_key(self.entries@[i].0@),
            self@[self.entries@[i].0@] == self.entries@[i].1,
    {
        let name = self.entries@[i].0@;
        assert(self.names()[i] == name);
        let p = self.position(name);
        assert(self.names()[p] == name);
    }

    proof fn lemma_names_len(&self)
        ensures
            self.names().len() == self.entries@.len(),
            self@.dom() == self.names().to_set(),
    {
        assert(self@.dom() =~= self.names().to_set());
    }

    /// An empty table.
    pub fn new() -> (t: Self)
        ensures
            t.wf(),
            t@ == Map::<Seq<char>, T>::empty(),
            t.names() == Seq::<Seq<char>>::empty(),
    {
        let t = NamedTable { entries: Vec::new() };
        assert(t@ =~= Map::<Seq<char>, T>::empty());
        assert(t.names() =~= Seq::<Seq<char>>::empty());
        t
    }

    /// The number of names held.
    pub fn len(&self) -> (n: usize)
        requires
            self.wf(),
        ensures
            n == self@.len(),
            n == self.names().len(),
    {
        proof {
            self.lemma_names_len();
            self.names().unique_seq_to_set();
        }
        self.entries.len()
    }

    /// The position of `name`, if it is held.
    fn find(&self, name: &str) -> (r: Option<usize>)
        requires
            self.wf(),
        ensures
            match r {
                Some(i) => i < self.entries@.len() && self.entries@[i as int].0@ == name@
                    && self@.contains_key(name@) && self@[name@] == self.entries@[i as int].1,
                None => !self@.contains_key(name@),
            },
    {
        let key = name.to_string();
        let mut i: usize = 0;
        while i < self.entries.len()
            invariant
                self.wf(),
                key@ == name@,
                i <= self.entries@.len(),
                forall|j: int| 0 <= j < i ==> self.entries@[j].0@ != name@,
            decreases self.entries@.len() - i,
        {
            if self.entries[i].0 == key {
                proof {
                    self.lemma_position(i as int);
                }
                return Some(i);
            }
            i = i + 1;
        }
        proof {
            if self.names().contains(name@) {
                let j = choose|j: int| 0 <= j < self.names().len() && self.names()[j] == name@;
                assert(self.entries@[j].0@ == name@);
            }
        }
        None
    }

    /// The value held under `name`.
    pub fn get(&self, name: &str) -> (r: Option<&T>)
        requires
            self.wf(),
        ensures
            match r {
                Some(v) => self@.contains_key(name@) && self@[name@] == *v,
                None => !self@.contains_key(name@),
            },
    {
        match self.find(name) {
            Some(i) => Some(&self.entries[i].1),
            None => None,
        }
    }

    /// Hold `value` under `name`: a new name goes last, a name already
    /// held keeps its place and gets the new value.
    pub fn insert(&mut self, name: &str, value: T)
        requires
            old(self).wf(),
        ensures
            final(self).wf(),
            final(self)@ == old(self)@.insert(name@, value),
            old(self)@.contains_key(name@) ==> final(self).names() == old(self).names(),
            !old(self)@.contains_key(name@) ==> final(self).names() == old(self).names().push(name@),
    {
        match self.find(name) {
            Some(i) => {
                let ghost old_entries = self.entries@;
                let key = self.entries[i].0.clone();
                self.entries.set(i, (key, value));
                proof {
                    assert(self.names() =~= old(self).names()) by {
                        assert forall|j: int| 0 <= j < self.entries@.len() implies self.names()[j] == old(self).names()[j] by {
                            if j != i {
                                assert(self.entries@[j] == old_entries[j]);
                            }
                        }
                    }
                    assert(self.entries@[i as int].1 == value);
                    assert(self.names()[i as int] == name@);
                    assert forall|k: Seq<char>| #[trigger] self@.contains_key(k) implies self@[k] == old(self)@.insert(name@, value)[k] by {
                        let p = self.position(k);
                        assert(self.names()[p] == k);
                        self.lemma_position(p);
                        if p != i {
                            assert(self.names()[p] != self.names()[i as int]);
                            assert(self.entries@[p] == old_entries[p]);
                            old(self).lemma_position(p);
                        }
                    }
                    assert forall|k: Seq<char>| #[trigger] self@.contains_key(k) <==> old(self)@.insert(name@, value).contains_key(k) by {
                        assert(self.names() == old(self).names());
                    }
                    assert(self@ =~= old(self)@.insert(name@, value));
                }
            },
            None => {
                self.entries.push((name.to_string(), value));
                proof {
                    let n = old(self).entries@.len() as int;
                    assert(self.names() =~= old(self).names().push(name@));
                    assert forall|a: int, b: int| 0 <= a < b < self.names().len() implies self.names()[a] != self.names()[b] by {
                        if b == n {
                            assert(old(self).names()[a] == self.names()[a]);
                            assert(old(self).names().contains(self.names()[a]));
                        } else {
                            assert(old(self).names()[a] != old(self).names()[b]);
                        }
                    }
                    assert forall|k: Seq<char>| #[trigger] self@.contains_key(k) implies self@[k] == old(self)@.insert(name@, value)[k] by {
                        let p = self.position(k);
                        assert(self.names()[p] == k);
                        self.lemma_position(p);
                        if p != n {
                            old(self).lemma_position(p);
                        }
                    }
                    assert forall|k: Seq<char>| self.names().contains(k) <==> (old(self).names().contains(k) || k == name@) by {
                        if k == name@ {
                            assert(self.names()[n] == name@);
                        }
                        if old(self).names().contains(k) {
                            let j = choose|j: int| 0 <= j < n && old(self).names()[j] == k;
                            assert(self.names()[j] == k);
                        }
                        if self.names().contains(k) && k != name@ {
                            let j = choose|j: int| 0 <= j < n + 1 && self.names()[j] == k;
                            assert(old(self).names()[j] == k);
                        }
                    }
                    assert(self@.dom() =~= old(self)@.insert(name@, value).dom());
                    assert(self@ =~= old(self)@.insert(name@, value));
                }
            },
        }
    }

    /// Remove `name`, handing back its value; the other names keep their order.
    pub fn remove(&mut self, name: &str) -> (r: Option<T>)
        requires
            old(self).wf(),
        ensures
            final(self).wf(),
            final(self)@ == old(self)@.remove(name@),
            match r {
                Some(v) => old(self)@.contains_key(name@) && old(self)@[name@] == v,
                None => !old(self)@.contains_key(name@),
            },
    {
        match self.find(name) {
            Some(i) => {
                let (_, v) = self.entries.remove(i);
                proof {
                    let olde = old(self).entries@;
                    assert forall|j: int| 0 <= j < self.entries@.len() implies #[trigger] self.entries@[j] == (if j < i { olde[j] } else { olde[j + 1] }) by {}
                    assert forall|a: int, b: int| 0 <= a < b < self.names().len() implies self.names()[a] != self.names()[b] by {
                        let oa = if a < i { a } else { a + 1 };
                        let ob = if b < i { b } else { b + 1 };
                        assert(old(self).names()[oa] != old(self).names()[ob]);
                    }
                    assert forall|k: Seq<char>| self@.contains_key(k) <==> old(self)@.remove(name@).contains_key(k) by {
                        if self@.contains_key(k) {
                            let j = choose|j: int| 0 <= j < self.names().len() && self.names()[j] == k;
                            let p = j;
                            let op = if p < i { p } else { p + 1 };
                            assert(old(self).names()[op] == k);
                            assert(old(self).names()[i as int] == name@);
                            if op == i {
                                assert(false);
                            }
                            assert(old(self).names().contains(k));
                        }
                        if old(self)@.remove(name@).contains_key(k) {
                            let op = choose|j: int| 0 <= j < old(self).names().len() && old(self).names()[j] == k;
                            assert(old(self).names()[i as int] == name@);
                            assert(op != i);
                            assert(op != i);
                            let p = if op < i { op } else { op - 1 };
                            assert(self.names()[p] == k);
                        }
                    }
                    assert forall|k: Seq<char>| #[trigger] self@.contains_key(k) implies self@[k] == old(self)@[k] by {
                        let p = self.position(k);
                        assert(self.names()[p] == k);
                        self.lemma_position(p);
                        let op = if p < i { p } else { p + 1 };
                        old(self).lemma_position(op);
                    }
                    assert(self@ =~= old(self)@.remove(name@));
                }
                Some(v)
            },
            None => {
                assert(self@ =~= old(self)@.remove(name@));
                None
            },
        }
    }

    /// Remove every name.
    pub fn clear(&mut self)
        ensures
            final(self).wf(),
            final(self)@ == Map::<Seq<char>, T>::empty(),
    {
        self.entries.clear();
        assert(self@ =~= Map::<Seq<char>, T>::empty());
    }
}

} // verus!
