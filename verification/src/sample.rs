//! The values written into the sample configuration file of a generated project.

use vstd::prelude::*;

verus! {

/// A scalar written into the sample configuration of a generated project.
#[derive(Debug, Clone, PartialEq, Eq)]
pub enum SampleValue {
    /// The absent value.
    Null,
    /// True or false.
    Bool(bool),
    /// A whole number.
    Integer(i64),
    /// A piece of text.
    Text(String),
    /// Any other value, kept as the YAML text that denotes it.
    Yaml(String),
}

/// A sample value as a mathematical value.
pub enum SampleValueView {
    Null,
    Bool(bool),
    Integer(int),
    Text(Seq<char>),
    Yaml(Seq<char>),
}

impl View for SampleValue {
    type V = SampleValueView;

    open spec fn view(&self) -> SampleValueView {
        match self {
            SampleValue::Null => SampleValueView::Null,
            SampleValue::Bool(b) => SampleValueView::Bool(*b),
            SampleValue::Integer(n) => SampleValueView::Integer(*n as int),
            SampleValue::Text(s) => SampleValueView::Text(s@),
            SampleValue::Yaml(s) => SampleValueView::Yaml(s@),
        }
    }
}

/// One named value of the sample configuration.
#[derive(Debug, Clone, PartialEq, Eq)]
pub struct SampleEntry {
    pub key: String,
    pub value: SampleValue,
}

/// The sample configuration: named values, no name twice, in the order in which the names
/// were first inserted.
#[derive(Debug)]
pub struct SampleConfig {
    entries: Vec<SampleEntry>,
}

impl View for SampleConfig {
    type V = Map<Seq<char>, SampleValueView>;

    closed spec fn view(&self) -> Map<Seq<char>, SampleValueView> {
        Map::new(
            |k: Seq<char>| self.position(k) is Some,
            |k: Seq<char>| self.entries@[self.position(k).unwrap()].value@,
        )
    }
}

impl SampleConfig {
    #[verifier::type_invariant]
    spec fn distinct_keys(self) -> bool {
        forall|i: int, j: int|
            0 <= i < j < self.entries@.len() ==> self.entries@[i].key@ != self.entries@[j].key@
    }

    /// Where the entry named `key` stands, if there is one.
    closed spec fn position(&self, key: Seq<char>) -> Option<int> {
        if exists|i: int| 0 <= i < self.entries@.len() && self.entries@[i].key@ == key {
            Some(choose|i: int| 0 <= i < self.entries@.len() && self.entries@[i].key@ == key)
        } else {
            None
        }
    }

    /// With no name twice, each entry is found at its own place.
    proof fn lemma_position(&self, i: int)
        requires
            self.distinct_keys(),
            0 <= i < self.entries@.len(),
        ensures
            self.position(self.entries@[i].key@) == Some(i),
            self@.contains_key(self.entries@[i].key@),
            self@[self.entries@[i].key@] == self.entries@[i].value@,
    {
        let k = self.entries@[i].key@;
        let c = choose|c: int| 0 <= c < self.entries@.len() && self.entries@[c].key@ == k;
        if c < i {
            assert(self.entries@[c].key@ != self.entries@[i].key@);
        } else if i < c {
            assert(self.entries@[i].key@ != self.entries@[c].key@);
        }
    }

    /// The names in insertion order.
    pub closed spec fn keys(&self) -> Seq<Seq<char>> {
        Seq::new(self.entries@.len(), |i: int| self.entries@[i].key@)
    }

    /// A sample configuration without entries.
    pub fn new() -> (config: SampleConfig)
        ensures
            config@ == Map::<Seq<char>, SampleValueView>::empty(),
            config.keys() == Seq::<Seq<char>>::empty(),
    {
        let config = SampleConfig { entries: Vec::new() };
        assert(config@ =~= Map::<Seq<char>, SampleValueView>::empty());
        assert(config.keys() =~= Seq::<Seq<char>>::empty());
        config
    }

    fn find(&self, key: &str) -> (found: Option<usize>)
        ensures
            found matches Some(i) ==> i < self.entries@.len() && self.entries@[i as int].key@
                == key@ && self.position(key@) == Some(i as int),
            found is None ==> self.position(key@) is None,
    {
        proof {
            use_type_invariant(self);
        }
        let wanted = key.to_owned();
        let mut i: usize = 0;
        while i < self.entries.len()
            invariant
                i <= self.entries@.len(),
                wanted@ == key@,
                self.distinct_keys(),
                forall|k: int| 0 <= k < i ==> self.entries@[k].key@ != key@,
            decreases self.entries@.len() - i,
        {
            if self.entries[i].key == wanted {
                proof {
                    self.lemma_position(i as int);
                }
                return Some(i);
            }
            i += 1;
        }
        None
    }

    /// The value named `key`, if there is one.
    pub fn get(&self, key: &str) -> (value: Option<&SampleValue>)
        ensures
            value matches Some(v) ==> self@.contains_key(key@) && v@ == self@[key@],
            value is None ==> !self@.contains_key(key@),
    {
        match self.find(key) {
            Some(i) => Some(&self.entries[i].value),
            None => None,
        }
    }

    /// Whether a value is named `key`.
    pub fn contains_key(&self, key: &str) -> (present: bool)
        ensures
            present == self@.contains_key(key@),
    {
        self.find(key).is_some()
    }

    /// Whether there are no entries.
    pub fn is_empty(&self) -> (empty: bool)
        ensures
            empty == (self@ == Map::<Seq<char>, SampleValueView>::empty()),
    {
        let empty = self.entries.len() == 0;
        proof {
            if empty {
                assert(self@ =~= Map::<Seq<char>, SampleValueView>::empty());
            } else {
                let k = self.entries@[0].key@;
                assert(self.position(k) is Some);
                assert(self@.contains_key(k));
            }
        }
        empty
    }

    /// The number of entries.
    pub fn len(&self) -> (count: usize)
        ensures
            count == self.keys().len(),
    {
        self.entries.len()
    }

    /// The entries in insertion order.
    pub fn entries(&self) -> (entries: &Vec<SampleEntry>)
        ensures
            entries@.len() == self.keys().len(),
            forall|i: int|
                0 <= i < entries@.len() ==> {
                    &&& (#[trigger] entries@[i]).key@ == self.keys()[i]
                    &&& self@.contains_key(entries@[i].key@)
                    &&& self@[entries@[i].key@] == entries@[i].value@
                },
    {
        proof {
            use_type_invariant(self);
            assert forall|i: int| 0 <= i < self.entries@.len() implies {
                &&& self@.contains_key((#[trigger] self.entries@[i]).key@)
                &&& self@[self.entries@[i].key@] == self.entries@[i].value@
            } by {
                let k = self.entries@[i].key@;
                assert(self.position(k) is Some);
            }
        }
        &self.entries
    }

    /// Gives `key` the value `value`: a name that is already present keeps its place and
    /// takes the new value, a new name goes to the end.
    pub fn insert(&mut self, key: String, value: SampleValue)
        ensures
            final(self)@ == old(self)@.insert(key@, value@),
            final(self).keys() == if old(self)@.contains_key(key@) {
                old(self).keys()
            } else {
                old(self).keys().push(key@)
            },
    {
        proof {
            use_type_invariant(&*self);
        }
        let found = self.find(key.as_str());
        let mut taken = SampleConfig { entries: Vec::new() };
        std::mem::swap(self, &mut taken);
        let mut entries = taken.entries;
        let ghost before = entries@;
        match found {
            Some(i) => {
                entries.set(i, SampleEntry { key, value });
                assert forall|a: int, b: int| 0 <= a < b < entries@.len() implies entries@[a].key@
                    != entries@[b].key@ by {
                    assert(before[a].key@ != before[b].key@);
                }
            },
            None => {
                entries.push(SampleEntry { key, value });
                assert forall|a: int, b: int| 0 <= a < b < entries@.len() implies entries@[a].key@
                    != entries@[b].key@ by {
                    if b < before.len() {
                        assert(before[a].key@ != before[b].key@);
                    }
                }
            },
        }
        *self = SampleConfig { entries };
        proof {
            let now = *self;
            let then = *old(self);
            assert(now.keys() =~= if then@.contains_key(key@) {
                then.keys()
            } else {
                then.keys().push(key@)
            });
            assert forall|k: Seq<char>| now@.contains_key(k) == then@.insert(
                key@,
                value@,
            ).contains_key(k) by {
                if now.position(k) is Some {
                    let c = now.position(k).unwrap();
                    if k != key@ {
                        assert(then.entries@[c].key@ == k);
                    }
                }
                if then.position(k) is Some {
                    let c = then.position(k).unwrap();
                    if k != key@ {
                        assert(now.entries@[c].key@ == k);
                    }
                }
                if k == key@ {
                    let at = if found is Some {
                        found.unwrap() as int
                    } else {
                        before.len() as int
                    };
                    assert(now.entries@[at].key@ == k);
                }
            }
            assert forall|k: Seq<char>| now@.contains_key(k) implies now@[k] == then@.insert(
                key@,
                value@,
            )[k] by {
                let c = now.position(k).unwrap();
                now.lemma_position(c);
                if k != key@ {
                    assert(then.entries@[c].key@ == k);
                    then.lemma_position(c);
                }
            }
            assert(now@ =~= then@.insert(key@, value@));
        }
    }
}

} // verus!
