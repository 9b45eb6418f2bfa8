//! A variable store: a finite map from names to values.

use vstd::prelude::*;
use crate::value::{Value, ValueView};

verus! {

spec fn first_at(entries: Seq<(String, Value)>, name: Seq<char>, i: int) -> bool {
    &&& 0 <= i < entries.len()
    &&& entries[i].0@ == name
    &&& forall|j: int| 0 <= j < i ==> (#[trigger] entries[j]).0@ != name
}

spec fn holds_name(entries: Seq<(String, Value)>, name: Seq<char>) -> bool {
    exists|i: int| first_at(entries, name, i)
}

spec fn place_of(entries: Seq<(String, Value)>, name: Seq<char>) -> int {
    choose|i: int| first_at(entries, name, i)
}

spec fn bindings(entries: Seq<(String, Value)>) -> Map<Seq<char>, ValueView> {
    Map::new(
        |name: Seq<char>| holds_name(entries, name),
        |name: Seq<char>| entries[place_of(entries, name)].1@,
    )
}

proof fn lemma_binding_at(entries: Seq<(String, Value)>, name: Seq<char>, i: int)
    requires
        first_at(entries, name, i),
    ensures
        bindings(entries).contains_key(name),
        bindings(entries)[name] == entries[i].1@,
        place_of(entries, name) == i,
{
    let j = place_of(entries, name);
    assert(first_at(entries, name, j));
    if j < i {
        assert(entries[j].0@ != name);
    } else if i < j {
        assert(entries[i].0@ != name);
    }
}

/// A store of variables: each name it holds is bound to one value.
#[derive(Debug)]
pub struct Scope {
    entries: Vec<(String, Value)>,
}

impl View for Scope {
    type V = Map<Seq<char>, ValueView>;

    closed spec fn view(&self) -> Map<Seq<char>, ValueView> {
        bindings(self.entries@)
    }
}

impl Scope {
    /// An empty store.
    pub fn new() -> (r: Scope)
        ensures
            r@ == Map::<Seq<char>, ValueView>::empty(),
    {
        let r = Scope { entries: Vec::new() };
        assert(r@ =~= Map::<Seq<char>, ValueView>::empty());
        r
    }

    fn find(&self, name: &String) -> (r: Option<usize>)
        ensures
            match r {
                Some(i) => first_at(self.entries@, name@, i as int),
                None => !holds_name(self.entries@, name@),
            },
    {
        let mut i: usize = 0;
        while i < self.entries.len()
            invariant
                i <= self.entries@.len(),
                forall|j: int| 0 <= j < i ==> (#[trigger] self.entries@[j]).0@ != name@,
            decreases self.entries@.len() - i,
        {
            if self.entries[i].0 == *name {
                return Some(i);
            }
            i += 1;
        }
        assert forall|k: int| !first_at(self.entries@, name@, k) by {
            if 0 <= k < self.entries@.len() {
                assert(self.entries@[k].0@ != name@);
            }
        }
        None
    }

    /// Whether the store holds `name`.
    pub fn contains_key(&self, name: &String) -> (b: bool)
        ensures
            b == self@.contains_key(name@),
    {
        self.find(name).is_some()
    }

    /// The value bound to `name`, if the store holds the name.
    pub fn get(&self, name: &String) -> (r: Option<Value>)
        ensures
            match r {
                Some(v) => self@.contains_key(name@) && self@[name@] == v@,
                None => !self@.contains_key(name@),
            },
    {
        match self.find(name) {
            Some(i) => {
                proof {
                    lemma_binding_at(self.entries@, name@, i as int);
                }
                Some(self.entries[i].1.clone())
            },
            None => None,
        }
    }

    /// Binds `name` to `value`, in place of what the name was bound to, if anything.
    pub fn insert(&mut self, name: &String, value: Value)
        ensures
            final(self)@ == old(self)@.insert(name@, value@),
    {
        let ghost before = self.entries@;
        let found = self.find(name);
        match found {
            Some(i) => {
                self.entries.set(i, (name.clone(), value));
            },
            None => {
                self.entries.push((name.clone(), value));
            },
        }
        proof {
            let after = self.entries@;
            let at: int = match found {
                Some(i) => i as int,
                None => before.len() as int,
            };
            assert(after[at].0@ == name@ && after[at].1@ == value@);
            assert forall|j: int| 0 <= j < before.len() implies (#[trigger] after[j]).0@
                == before[j].0@ by {}
            assert forall|j: int| 0 <= j < before.len() implies (#[trigger] before[j]).0@
                == after[j].0@ by {}
            assert forall|j: int| 0 <= j < before.len() && j != at implies #[trigger] after[j]
                == before[j] by {}
            if found is None {
                assert forall|j: int| 0 <= j < before.len() implies (#[trigger] before[j]).0@
                    != name@ by {
                    if before[j].0@ == name@ {
                        lemma_some_first(before, name@, j);
                    }
                }
            }
            assert(first_at(after, name@, at));
            lemma_binding_at(after, name@, at);
            let target = bindings(before).insert(name@, value@);
            assert forall|k: Seq<char>|
                (#[trigger] bindings(after).contains_key(k)) == target.contains_key(k) && (
                target.contains_key(k) ==> bindings(after)[k] == target[k]) by {
                if k == name@ {
                } else if holds_name(before, k) {
                    let j = place_of(before, k);
                    assert(first_at(before, k, j));
                    assert(first_at(after, k, j));
                    lemma_binding_at(after, k, j);
                    lemma_binding_at(before, k, j);
                } else if holds_name(after, k) {
                    let j = place_of(after, k);
                    assert(first_at(after, k, j));
                    assert(j != at);
                    assert(j < before.len());
                    assert forall|i: int| 0 <= i < j implies (#[trigger] before[i]).0@ != k by {
                        assert(after[i].0@ != k);
                    }
                    assert(first_at(before, k, j));
                }
            }
            assert(bindings(after) =~= bindings(before).insert(name@, value@));
        }
    }
}

proof fn lemma_some_first(entries: Seq<(String, Value)>, name: Seq<char>, i: int)
    requires
        0 <= i < entries.len(),
        entries[i].0@ == name,
    ensures
        holds_name(entries, name),
    decreases i,
{
    if exists|j: int| 0 <= j < i && (#[trigger] entries[j]).0@ == name {
        let j = choose|j: int| 0 <= j < i && (#[trigger] entries[j]).0@ == name;
        lemma_some_first(entries, name, j);
    } else {
        assert(first_at(entries, name, i));
    }
}

} // verus!
