//! A set of strings kept as a vector without repeated entries.
use vstd::prelude::*;

verus! {

/// A finite set of strings. The entries are kept in insertion order and
/// none occurs twice.
pub struct StringSet {
    items: Vec<String>,
}

/// The characters of each string of a vector, in order.
pub open spec fn string_views(v: Seq<String>) -> Seq<Seq<char>> {
    v.map_values(|s: String| s@)
}

impl StringSet {
    /// The entries, in insertion order.
    pub closed spec fn entries(&self) -> Seq<Seq<char>> {
        string_views(self.items@)
    }

    #[verifier::type_invariant]
    closed spec fn no_repeats(&self) -> bool {
        self.entries().no_duplicates()
    }

    /// An empty set.
    pub fn new() -> (r: Self)
        ensures
            r@ == Set::<Seq<char>>::empty(),
            r.entries() == Seq::<Seq<char>>::empty(),
    {
        let r = StringSet { items: Vec::new() };
        proof {
            assert(r.entries() =~= Seq::<Seq<char>>::empty());
            assert(r@ =~= Set::<Seq<char>>::empty());
        }
        r
    }

    /// Whether `s` is an entry.
    pub fn contains(&self, s: &str) -> (r: bool)
        ensures
            r == self@.contains(s@),
    {
        let n = self.items.len();
        for i in 0..n
            invariant
                n == self.items.len(),
                forall|j: int| 0 <= j < i ==> self.items@[j]@ != s@,
        {
            if crate::text::str_equal(self.items[i].as_str(), s) {
                proof {
                    assert(self.entries()[i as int] == s@);
                }
                return true;
            }
        }
        proof {
            if self.entries().contains(s@) {
                let k = choose|k: int| 0 <= k < self.entries().len() && self.entries()[k] == s@;
                assert(self.items@[k]@ == s@);
            }
        }
        false
    }

    /// Adds `s`; a set that holds it already is left as it is.
    pub fn insert(&mut self, s: &str)
        ensures
            final(self)@ == old(self)@.insert(s@),
            old(self)@.contains(s@) ==> final(self).entries() == old(self).entries(),
            !old(self)@.contains(s@) ==> final(self).entries() == old(self).entries().push(s@),
    {
        proof {
            use_type_invariant(&*self);
        }
        if !self.contains(s) {
            let ghost before = self.entries();
            let mut items = Vec::new();
            std::mem::swap(&mut items, &mut self.items);
            items.push(String::from_str(s));
            proof {
                assert(string_views(items@) =~= before.push(s@));
                assert forall|a: int, b: int| 0 <= a < b < before.push(s@).len()
                    implies before.push(s@)[a] != before.push(s@)[b] by {
                    if b == before.len() {
                        assert(before[a] == before.push(s@)[a]);
                        assert(before.contains(before[a]));
                    }
                }
            }
            self.items = items;
            proof {
                assert(self.entries() =~= before.push(s@));
                assert forall|x: Seq<char>| #[trigger] self@.contains(x) <==> old(self)@.insert(s@).contains(x) by {
                    if old(self)@.contains(x) {
                        let k = choose|k: int| 0 <= k < before.len() && before[k] == x;
                        assert(self.entries()[k] == x);
                    }
                    if x == s@ {
                        assert(self.entries()[before.len() as int] == x);
                    }
                    if self@.contains(x) && x != s@ {
                        let k = choose|k: int| 0 <= k < self.entries().len() && self.entries()[k] == x;
                        assert(before[k] == x);
                    }
                }
                assert(self@ =~= old(self)@.insert(s@));
            }
        } else {
            proof {
                assert(old(self)@ =~= old(self)@.insert(s@));
            }
        }
    }

    /// Removes `s`, keeping the order of the other entries; a set that
    /// does not hold it is left as it is.
    pub fn remove(&mut self, s: &str)
        ensures
            final(self)@ == old(self)@.remove(s@),
            !old(self)@.contains(s@) ==> final(self).entries() == old(self).entries(),
            old(self)@.contains(s@) ==> exists|i: int|
                0 <= i < old(self).entries().len() && old(self).entries()[i] == s@
                && final(self).entries() == #[trigger] old(self).entries().remove(i),
    {
        proof {
            use_type_invariant(&*self);
        }
        let n = self.items.len();
        let mut i: usize = 0;
        while i < n
            invariant
                n == self.items.len(),
                i <= n,
                self == old(self),
                self.entries().no_duplicates(),
                forall|j: int| 0 <= j < i ==> self.items@[j]@ != s@,
            decreases n - i,
        {
            if crate::text::str_equal(self.items[i].as_str(), s) {
                let ghost before = self.entries();
                let mut items = Vec::new();
                std::mem::swap(&mut items, &mut self.items);
                items.remove(i);
                proof {
                    assert(string_views(items@) =~= before.remove(i as int));
                    assert forall|a: int, b: int| 0 <= a < b < before.remove(i as int).len()
                        implies before.remove(i as int)[a] != before.remove(i as int)[b] by {
                        let a2 = if a < i { a } else { a + 1 };
                        let b2 = if b < i { b } else { b + 1 };
                        assert(before.remove(i as int)[a] == before[a2]);
                        assert(before.remove(i as int)[b] == before[b2]);
                    }
                }
                self.items = items;
                proof {
                    assert(self.entries() =~= before.remove(i as int));
                    assert forall|x: Seq<char>| #[trigger] self@.contains(x) <==> old(self)@.remove(s@).contains(x) by {
                        if self@.contains(x) {
                            let k = choose|k: int| 0 <= k < self.entries().len() && self.entries()[k] == x;
                            if k < i {
                                assert(before[k] == x);
                            } else {
                                assert(before[k + 1] == x);
                            }
                            assert(before[i as int] == s@);
                        }
                        if old(self)@.remove(s@).contains(x) {
                            let k = choose|k: int| 0 <= k < before.len() && before[k] == x;
                            assert(k != i);
                            if k < i {
                                assert(self.entries()[k] == x);
                            } else {
                                assert(self.entries()[k - 1] == x);
                            }
                        }
                    }
                    assert(self@ =~= old(self)@.remove(s@));
                    assert(before[i as int] == s@);
                    assert(before == old(self).entries());
                }
                return;
            }
            i = i + 1;
        }
        proof {
            assert forall|x: Seq<char>| #[trigger] self@.contains(x) <==> old(self)@.remove(s@).contains(x) by {
                if x == s@ && self@.contains(x) {
                    let k = choose|k: int| 0 <= k < self.entries().len() && self.entries()[k] == x;
                    assert(self.items@[k]@ == s@);
                }
            }
            assert(self@ =~= old(self)@.remove(s@));
            if old(self)@.contains(s@) {
                let k = choose|k: int| 0 <= k < self.entries().len() && self.entries()[k] == s@;
                assert(self.items@[k]@ == s@);
            }
        }
    }

    /// The entries as a vector, in insertion order.
    pub fn to_vec(&self) -> (r: Vec<String>)
        ensures
            string_views(r@) == self.entries(),
    {
        self.items.clone()
    }
}

impl View for StringSet {
    type V = Set<Seq<char>>;

    closed spec fn view(&self) -> Set<Seq<char>> {
        Set::new(|x: Seq<char>| self.entries().contains(x))
    }
}

} // verus!
