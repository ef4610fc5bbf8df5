//! Maps and sets whose keys are names.
use vstd::prelude::*;

use crate::text::same_text;

verus! {

/// The texts in a list.
pub open spec fn texts(names: Seq<String>) -> Seq<Seq<char>> {
    Seq::new(names.len(), |i: int| names[i]@)
}

/// The names in a list.
pub open spec fn names_in(names: Seq<String>) -> Set<Seq<char>> {
    texts(names).to_set()
}

/// Where `name` stands in the list of entries.
fn position_of<V>(entries: &Vec<(String, V)>, name: &str) -> (r: Option<usize>)
    ensures
        match r {
            Some(i) => i < entries@.len() && entries@[i as int].0@ == name@,
            None => forall|i: int|
                0 <= i < entries@.len() ==> (#[trigger] entries@[i]).0@ != name@,
        },
{
    for i in 0..entries.len()
        invariant
            forall|j: int| 0 <= j < i ==> (#[trigger] entries@[j]).0@ != name@,
    {
        if same_text(entries[i].0.as_str(), name) {
            return Some(i);
        }
    }
    None
}

/// What a list of entries maps each name to.
pub open spec fn mapping<V>(entries: Seq<(String, V)>) -> Map<Seq<char>, V>
    decreases entries.len(),
{
    if entries.len() == 0 {
        Map::empty()
    } else {
        mapping(entries.drop_last()).insert(entries.last().0@, entries.last().1)
    }
}

/// Whether no name comes twice.
pub open spec fn distinct<V>(entries: Seq<(String, V)>) -> bool {
    forall|i: int, j: int|
        0 <= i < j < entries.len() ==> (#[trigger] entries[i]).0@ != (#[trigger] entries[j]).0@
}

/// What a list of entries maps is what it lists.
pub proof fn lemma_mapping<V>(entries: Seq<(String, V)>)
    requires
        distinct(entries),
    ensures
        forall|i: int|
            0 <= i < entries.len() ==> {
                &&& mapping(entries).contains_key((#[trigger] entries[i]).0@)
                &&& mapping(entries)[entries[i].0@] == entries[i].1
            },
        forall|k: Seq<char>| #[trigger]
            mapping(entries).contains_key(k) ==> exists|i: int|
                0 <= i < entries.len() && (#[trigger] entries[i]).0@ == k,
        mapping(entries).dom().finite(),
        mapping(entries).dom().len() == entries.len(),
    decreases entries.len(),
{
    if entries.len() > 0 {
        let before = entries.drop_last();
        lemma_mapping(before);
        assert forall|i: int| 0 <= i < entries.len() implies {
            &&& mapping(entries).contains_key((#[trigger] entries[i]).0@)
            &&& mapping(entries)[entries[i].0@] == entries[i].1
        } by {
            if i < entries.len() - 1 {
                assert(before[i] == entries[i]);
                assert(entries[i].0@ != entries[entries.len() - 1].0@);
            }
        }
        assert forall|k: Seq<char>| #[trigger]
            mapping(entries).contains_key(k) implies exists|i: int|
            0 <= i < entries.len() && (#[trigger] entries[i]).0@ == k by {
            if k == entries.last().0@ {
                assert(entries[entries.len() - 1].0@ == k);
            } else {
                assert(mapping(before).contains_key(k));
                let i = choose|i: int|
                    0 <= i < before.len() && (#[trigger] before[i]).0@ == k;
                assert(entries[i].0@ == k);
            }
        }
        assert(!mapping(before).contains_key(entries.last().0@)) by {
            if mapping(before).contains_key(entries.last().0@) {
                let i = choose|i: int|
                    0 <= i < before.len() && (#[trigger] before[i]).0@ == entries.last().0@;
                assert(entries[i].0@ != entries[entries.len() - 1].0@);
            }
        }
        assert(mapping(entries).dom() =~= mapping(before).dom().insert(entries.last().0@));
    } else {
        assert(mapping(entries).dom() =~= Set::empty());
    }
}

/// A map from names to values. No name comes twice.
#[derive(Debug)]
pub struct StringMap<V> {
    entries: Vec<(String, V)>,
}

impl<V> View for StringMap<V> {
    type V = Map<Seq<char>, V>;

    closed spec fn view(&self) -> Map<Seq<char>, V> {
        mapping(self.entries@)
    }
}

impl<V> StringMap<V> {
    #[verifier::type_invariant]
    spec fn well_formed(self) -> bool {
        distinct(self.entries@)
    }

    /// The entries, in some order.
    pub closed spec fn listed(self) -> Seq<(String, V)> {
        self.entries@
    }

    /// The map without entries.
    pub fn new() -> (r: Self)
        ensures
            r@ == Map::<Seq<char>, V>::empty(),
    {
        StringMap { entries: Vec::new() }
    }

    /// Maps `name` to `value`, in place of what it was mapped to.
    pub fn insert(&mut self, name: String, value: V)
        ensures
            final(self)@ == old(self)@.insert(name@, value),
    {
        proof {
            use_type_invariant(&*self);
        }
        let mut entries: Vec<(String, V)> = Vec::new();
        std::mem::swap(&mut entries, &mut self.entries);
        let ghost before = entries@;
        proof {
            lemma_mapping(before);
        }
        match position_of(&entries, name.as_str()) {
            Some(i) => {
                entries.set(i, (name, value));
                proof {
                    lemma_mapping(entries@);
                    assert(mapping(entries@) =~= mapping(before).insert(name@, value)) by {
                        assert forall|k: Seq<char>| #[trigger]
                            mapping(entries@).contains_key(k) == mapping(before).insert(
                                name@,
                                value,
                            ).contains_key(k) by {
                            if mapping(entries@).contains_key(k) {
                                let j = choose|j: int|
                                    0 <= j < entries@.len() && (#[trigger] entries@[j]).0@ == k;
                                assert(before[j].0@ == k);
                            }
                            if mapping(before).contains_key(k) {
                                let j = choose|j: int|
                                    0 <= j < before.len() && (#[trigger] before[j]).0@ == k;
                                assert(entries@[j].0@ == k);
                            }
                            assert(entries@[i as int].0@ == name@);
                        }
                        assert forall|k: Seq<char>| #[trigger]
                            mapping(entries@).contains_key(k) implies mapping(entries@)[k]
                            == mapping(before).insert(name@, value)[k] by {
                            let j = choose|j: int|
                                0 <= j < entries@.len() && (#[trigger] entries@[j]).0@ == k;
                            assert(before[j].0@ == k);
                            assert(mapping(entries@)[k] == entries@[j].1);
                            if j != i {
                                assert(entries@[j] == before[j]);
                            }
                        }
                    }
                }
            },
            None => {
                entries.push((name, value));
                assert(entries@.drop_last() =~= before);
            },
        }
        self.entries = entries;
    }

    /// What `name` is mapped to.
    pub fn get(&self, name: &str) -> (r: Option<&V>)
        ensures
            match r {
                Some(v) => self@.contains_key(name@) && self@[name@] == *v,
                None => !self@.contains_key(name@),
            },
    {
        proof {
            use_type_invariant(self);
            lemma_mapping(self.entries@);
        }
        match position_of(&self.entries, name) {
            Some(i) => Some(&self.entries[i].1),
            None => None,
        }
    }

    /// Whether `name` is mapped to anything.
    pub fn contains_key(&self, name: &str) -> (r: bool)
        ensures
            r == self@.contains_key(name@),
    {
        self.get(name).is_some()
    }

    /// The number of names.
    pub fn len(&self) -> (r: usize)
        ensures
            r == self@.dom().len(),
            self@.dom().finite(),
            r == self.listed().len(),
            distinct(self.listed()),
    {
        proof {
            use_type_invariant(self);
            lemma_mapping(self.entries@);
        }
        self.entries.len()
    }

    /// The entry at a place in the list of entries.
    pub fn entry(&self, i: usize) -> (r: (&String, &V))
        requires
            i < self.listed().len(),
        ensures
            *r.0 == self.listed()[i as int].0,
            *r.1 == self.listed()[i as int].1,
    {
        let e = &self.entries[i];
        (&e.0, &e.1)
    }

    /// Every name is listed with what it is mapped to, and nothing else is.
    pub proof fn lemma_listed(&self)
        requires
            distinct(self.listed()),
        ensures
            self@ == mapping(self.listed()),
            forall|i: int|
                0 <= i < self.listed().len() ==> {
                    &&& self@.contains_key((#[trigger] self.listed()[i]).0@)
                    &&& self@[self.listed()[i].0@] == self.listed()[i].1
                },
            forall|k: Seq<char>| #[trigger]
                self@.contains_key(k) ==> exists|i: int|
                    0 <= i < self.listed().len() && (#[trigger] self.listed()[i]).0@ == k,
    {
        lemma_mapping(self.entries@);
    }
}

impl<V: Clone> Clone for StringMap<V> {
    fn clone(&self) -> (r: Self)
        ensures
            r@.dom() == self@.dom(),
            forall|k: Seq<char>| #[trigger]
                r@.contains_key(k) ==> cloned::<V>(self@[k], r@[k]),
    {
        proof {
            use_type_invariant(self);
            lemma_mapping(self.entries@);
        }
        let ghost from = self.entries@;
        let mut entries: Vec<(String, V)> = Vec::new();
        for i in 0..self.entries.len()
            invariant
                from == self.entries@,
                entries@.len() == i,
                forall|j: int|
                    0 <= j < i ==> (#[trigger] entries@[j]).0@ == from[j].0@ && cloned::<V>(
                        from[j].1,
                        entries@[j].1,
                    ),
        {
            let (name, value) = &self.entries[i];
            entries.push((name.clone(), value.clone()));
        }
        proof {
            lemma_mapping(entries@);
            assert forall|k: Seq<char>| mapping(entries@).contains_key(k) == mapping(
                from,
            ).contains_key(k) by {
                if mapping(entries@).contains_key(k) {
                    let j = choose|j: int|
                        0 <= j < entries@.len() && (#[trigger] entries@[j]).0@ == k;
                    assert(from[j].0@ == k);
                }
                if mapping(from).contains_key(k) {
                    let j = choose|j: int| 0 <= j < from.len() && (#[trigger] from[j]).0@ == k;
                    assert(entries@[j].0@ == k);
                }
            }
            assert(mapping(entries@).dom() =~= mapping(from).dom());
            assert forall|k: Seq<char>| #[trigger]
                mapping(entries@).contains_key(k) implies cloned::<V>(
                mapping(from)[k],
                mapping(entries@)[k],
            ) by {
                let j = choose|j: int| 0 <= j < entries@.len() && (#[trigger] entries@[j]).0@ == k;
                assert(from[j].0@ == k);
            }
        }
        StringMap { entries }
    }
}

/// A set of names.
#[derive(Debug)]
pub struct NameSet {
    names: Vec<String>,
}

impl View for NameSet {
    type V = Set<Seq<char>>;

    closed spec fn view(&self) -> Set<Seq<char>> {
        names_in(self.names@)
    }
}

/// Whether `name` is one of `names`.
pub fn lists(names: &Vec<String>, name: &str) -> (r: bool)
    ensures
        r == names_in(names@).contains(name@),
{
    for i in 0..names.len()
        invariant
            forall|j: int| 0 <= j < i ==> (#[trigger] texts(names@)[j]) != name@,
    {
        if same_text(names[i].as_str(), name) {
            assert(texts(names@)[i as int] == name@);
            return true;
        }
    }
    false
}

/// A list of the same texts.
pub fn copied(names: &Vec<String>) -> (r: Vec<String>)
    ensures
        texts(r@) == texts(names@),
{
    let mut r: Vec<String> = Vec::new();
    for i in 0..names.len()
        invariant
            r@.len() == i,
            forall|j: int| 0 <= j < i ==> (#[trigger] r@[j])@ == names@[j]@,
    {
        r.push(names[i].clone());
    }
    assert(texts(r@) =~= texts(names@));
    r
}

impl NameSet {
    /// The set without names.
    pub fn new() -> (r: NameSet)
        ensures
            r@ == Set::<Seq<char>>::empty(),
    {
        let r = NameSet { names: Vec::new() };
        assert(r@ =~= Set::<Seq<char>>::empty());
        r
    }

    /// The names of a list.
    pub fn of(names: &Vec<String>) -> (r: NameSet)
        ensures
            r@ == names_in(names@),
    {
        NameSet { names: copied(names) }
    }

    /// Adds a name.
    pub fn insert(&mut self, name: String)
        ensures
            final(self)@ == old(self)@.insert(name@),
    {
        let ghost before = texts(self.names@);
        self.names.push(name);
        proof {
            let after = texts(self.names@);
            assert(after =~= before.push(name@));
            assert(after.to_set() =~= before.to_set().insert(name@)) by {
                assert(after[before.len() as int] == name@);
                assert forall|n: Seq<char>| before.to_set().contains(n) implies after.to_set().contains(
                    n,
                ) by {
                    let i = choose|i: int| 0 <= i < before.len() && before[i] == n;
                    assert(after[i] == n);
                }
            }
        }
    }

    /// Whether a name is in the set.
    pub fn contains(&self, name: &str) -> (r: bool)
        ensures
            r == self@.contains(name@),
    {
        lists(&self.names, name)
    }
}

impl Clone for NameSet {
    fn clone(&self) -> (r: Self)
        ensures
            r@ == self@,
    {
        NameSet::of(&self.names)
    }
}

/// The texts of a list are those of its entries, each in its place, and its
/// names are those texts.
pub proof fn law_texts_are_those_of_the_list(names: Seq<String>, i: int, name: Seq<char>)
    ensures
        texts(names).len() == names.len(),
        0 <= i < names.len() ==> texts(names)[i] == names[i]@ && names_in(names).contains(
            names[i]@,
        ),
        names_in(names).contains(name) ==> exists|j: int|
            0 <= j < names.len() && (#[trigger] names[j])@ == name,
{
    if 0 <= i < names.len() {
        assert(texts(names)[i] == names[i]@);
    }
    if names_in(names).contains(name) {
        let j = choose|j: int| 0 <= j < texts(names).len() && texts(names)[j] == name;
        assert(names[j]@ == name);
    }
}

}
