//! Deck options by deck name.
use vstd::prelude::*;
use crate::DeckOptions;

verus! {

/// The options of every configured deck, by the deck's exact name. No name
/// occurs twice.
pub struct DeckOptionsByName<P> {
    entries: Vec<(String, DeckOptions<P>)>,
}

impl<P> View for DeckOptionsByName<P> {
    type V = Map<Seq<char>, DeckOptions<P>>;

    /// The options as a map from deck names.
    closed spec fn view(&self) -> Map<Seq<char>, DeckOptions<P>> {
        Map::new(
            |name: Seq<char>| self.spec_holds(name),
            |name: Seq<char>| self.entries[self.spec_index_of(name)].1,
        )
    }
}

impl<P> DeckOptionsByName<P> {
    /// No two entries share a name.
    #[verifier::type_invariant]
    pub closed spec fn wf(self) -> bool {
        forall|i: int, j: int|
            0 <= i < j < self.entries.len() ==> (#[trigger] self.entries[i]).0@
                != (#[trigger] self.entries[j]).0@
    }

    spec fn spec_is_at(&self, name: Seq<char>, i: int) -> bool {
        0 <= i < self.entries.len() && self.entries[i].0@ == name
    }

    spec fn spec_holds(&self, name: Seq<char>) -> bool {
        exists|i: int| self.spec_is_at(name, i)
    }

    spec fn spec_index_of(&self, name: Seq<char>) -> int {
        choose|i: int| self.spec_is_at(name, i)
    }

    /// The table without any deck.
    pub fn new() -> (r: Self)
        ensures
            r.wf(),
            r@ == Map::<Seq<char>, DeckOptions<P>>::empty(),
    {
        let r = DeckOptionsByName { entries: Vec::new() };
        assert(r@ =~= Map::<Seq<char>, DeckOptions<P>>::empty());
        r
    }

    /// Where `name` stands among the entries.
    fn index_of(&self, name: &String) -> (r: Option<usize>)
        ensures
            match r {
                Some(i) => self.spec_is_at(name@, i as int),
                None => !self.spec_holds(name@),
            },
    {
        let mut i: usize = 0;
        while i < self.entries.len()
            invariant
                i <= self.entries.len(),
                forall|j: int| 0 <= j < i ==> !self.spec_is_at(name@, j),
            decreases self.entries.len() - i,
        {
            if self.entries[i].0 == *name {
                return Some(i);
            }
            i += 1;
        }
        None
    }

    /// The options kept under exactly `name`, if any.
    pub fn get(&self, name: &String) -> (r: Option<&DeckOptions<P>>)
        ensures
            match r {
                Some(options) => self@.contains_key(name@) && *options == self@[name@],
                None => !self@.contains_key(name@),
            },
    {
        proof {
            use_type_invariant(self);
        }
        match self.index_of(name) {
            Some(i) => {
                assert(self.spec_is_at(name@, self.spec_index_of(name@)));
                Some(&self.entries[i].1)
            },
            None => None,
        }
    }

    /// Keeps `options` under `name`, in place of what was kept there.
    pub fn insert(&mut self, name: String, options: DeckOptions<P>)
        ensures
            final(self).wf(),
            final(self)@ == old(self)@.insert(name@, options),
    {
        proof {
            use_type_invariant(&*self);
        }
        let ghost before = *self;
        let found = self.index_of(&name);
        let mut taken = DeckOptionsByName { entries: Vec::new() };
        core::mem::swap(self, &mut taken);
        let mut entries = taken.entries;
        let ghost place: int = match found {
            Some(i) => i as int,
            None => entries.len() as int,
        };
        match found {
            Some(i) => {
                entries.set(i, (name, options));
            },
            None => {
                entries.push((name, options));
            },
        }
        proof {
            assert forall|a: int, b: int| 0 <= a < b < entries.len() implies (
            #[trigger] entries[a]).0@ != (#[trigger] entries[b]).0@ by {
                if found is None {
                    if b == place {
                        assert(!before.spec_is_at(name@, a));
                    } else {
                        assert(before.entries[a].0@ != before.entries[b].0@);
                    }
                } else {
                    assert(before.entries[a].0@ != before.entries[b].0@);
                }
            }
        }
        *self = DeckOptionsByName { entries };
        proof {
            let after = *self;
            assert(after.spec_is_at(name@, place));
            assert forall|other: Seq<char>|
                after.spec_holds(other) <==> other == name@ || before.spec_holds(other) by {
                if after.spec_holds(other) && other != name@ {
                    assert(before.spec_is_at(other, after.spec_index_of(other)));
                }
                if before.spec_holds(other) {
                    assert(after.spec_is_at(other, before.spec_index_of(other)));
                }
            }
            assert forall|other: Seq<char>| after.spec_holds(other) implies after@[other]
                == before@.insert(name@, options)[other] by {
                let k = after.spec_index_of(other);
                assert(after.spec_is_at(other, k));
                if other == name@ {
                    assert(k == place) by {
                        if k < place {
                            assert(after.entries[k].0@ != after.entries[place].0@);
                        } else if place < k {
                            assert(after.entries[place].0@ != after.entries[k].0@);
                        }
                    }
                } else {
                    let k0 = before.spec_index_of(other);
                    assert(before.spec_is_at(other, k));
                    assert(before.spec_is_at(other, k0));
                    assert(k0 == k) by {
                        if k0 < k {
                            assert(before.entries[k0].0@ != before.entries[k].0@);
                        } else if k < k0 {
                            assert(before.entries[k].0@ != before.entries[k0].0@);
                        }
                    }
                }
            }
            assert(after@ =~= before@.insert(name@, options));
        }
    }
}

} // verus!
