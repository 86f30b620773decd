//! The fields of a stream entry: a map from field names to values.
use vstd::prelude::*;
use redis::Value;
use crate::wire::clone_value;

verus! {

/// No field name occurs twice in the list.
pub open spec fn distinct_names(pairs: Seq<(String, Value)>) -> bool {
    forall|i: int, j: int| 0 <= i < j < pairs.len() ==> pairs[i].0@ != pairs[j].0@
}

/// The map that a list of pairs stands for. Where a name occurs twice, the
/// later pair counts.
pub open spec fn pairs_map(pairs: Seq<(String, Value)>) -> Map<Seq<char>, Value>
    decreases pairs.len(),
{
    if pairs.len() == 0 {
        Map::empty()
    } else {
        pairs_map(pairs.drop_last()).insert(pairs.last().0@, pairs.last().1)
    }
}

/// The names of the map are the names of the list.
pub proof fn lemma_pairs_map_names(pairs: Seq<(String, Value)>, name: Seq<char>)
    ensures
        pairs_map(pairs).contains_key(name) <==> exists|i: int|
            0 <= i < pairs.len() && #[trigger] pairs[i].0@ == name,
    decreases pairs.len(),
{
    if pairs.len() > 0 {
        let front = pairs.drop_last();
        lemma_pairs_map_names(front, name);
        if pairs_map(pairs).contains_key(name) {
            if pairs.last().0@ == name {
                assert(pairs[pairs.len() - 1].0@ == name);
            } else {
                let i = choose|i: int| 0 <= i < front.len() && #[trigger] front[i].0@ == name;
                assert(pairs[i].0@ == name);
            }
        }
        if exists|i: int| 0 <= i < pairs.len() && #[trigger] pairs[i].0@ == name {
            let i = choose|i: int| 0 <= i < pairs.len() && #[trigger] pairs[i].0@ == name;
            if i < front.len() {
                assert(front[i].0@ == name);
            }
        }
    }
}

/// In a list without repeated names each pair is an entry of the map.
pub proof fn lemma_pairs_map_entry(pairs: Seq<(String, Value)>, i: int)
    requires
        distinct_names(pairs),
        0 <= i < pairs.len(),
    ensures
        pairs_map(pairs).contains_key(pairs[i].0@),
        pairs_map(pairs)[pairs[i].0@] == pairs[i].1,
    decreases pairs.len(),
{
    let front = pairs.drop_last();
    if i < pairs.len() - 1 {
        assert(distinct_names(front)) by {
            assert forall|a: int, b: int| 0 <= a < b < front.len() implies front[a].0@
                != front[b].0@ by {
                assert(pairs[a].0@ != pairs[b].0@);
            }
        }
        lemma_pairs_map_entry(front, i);
        assert(front[i] == pairs[i]);
        assert(pairs[i].0@ != pairs[pairs.len() - 1].0@);
    }
}

/// A list without repeated names stands for a finite map with one entry for
/// each pair.
pub proof fn lemma_pairs_map_len(pairs: Seq<(String, Value)>)
    requires
        distinct_names(pairs),
    ensures
        pairs_map(pairs).dom().finite(),
        pairs_map(pairs).len() == pairs.len(),
    decreases pairs.len(),
{
    if pairs.len() > 0 {
        let front = pairs.drop_last();
        assert(distinct_names(front)) by {
            assert forall|a: int, b: int| 0 <= a < b < front.len() implies front[a].0@
                != front[b].0@ by {
                assert(pairs[a].0@ != pairs[b].0@);
            }
        }
        lemma_pairs_map_len(front);
        lemma_pairs_map_names(front, pairs.last().0@);
        if pairs_map(front).contains_key(pairs.last().0@) {
            let i = choose|i: int| 0 <= i < front.len() && #[trigger] front[i].0@ == pairs.last().0@;
            assert(pairs[i].0@ != pairs[pairs.len() - 1].0@);
        }
        assert(pairs_map(pairs).dom() =~= pairs_map(front).dom().insert(pairs.last().0@));
    }
}

/// Replacing the value of a pair replaces the value of its name in the map.
proof fn lemma_pairs_map_update(pairs: Seq<(String, Value)>, i: int, pair: (String, Value))
    requires
        distinct_names(pairs),
        0 <= i < pairs.len(),
        pairs[i].0@ == pair.0@,
    ensures
        distinct_names(pairs.update(i, pair)),
        pairs_map(pairs.update(i, pair)) == pairs_map(pairs).insert(pair.0@, pair.1),
    decreases pairs.len(),
{
    let updated = pairs.update(i, pair);
    let front = pairs.drop_last();
    assert(distinct_names(updated)) by {
        assert forall|a: int, b: int| 0 <= a < b < updated.len() implies updated[a].0@
            != updated[b].0@ by {
            assert(pairs[a].0@ != pairs[b].0@);
        }
    }
    if i == pairs.len() - 1 {
        assert(updated.drop_last() =~= front);
        assert(pairs_map(updated) =~= pairs_map(pairs).insert(pair.0@, pair.1));
    } else {
        assert(distinct_names(front)) by {
            assert forall|a: int, b: int| 0 <= a < b < front.len() implies front[a].0@
                != front[b].0@ by {
                assert(pairs[a].0@ != pairs[b].0@);
            }
        }
        lemma_pairs_map_update(front, i, pair);
        assert(updated.drop_last() =~= front.update(i, pair));
        assert(pairs[i].0@ != pairs[pairs.len() - 1].0@);
        assert(pairs_map(updated) =~= pairs_map(pairs).insert(pair.0@, pair.1));
    }
}

/// A map from field names to values, kept as a list of pairs in which no name
/// occurs twice. Its view is the map; the order of the list carries no
/// meaning.
#[derive(Debug)]
pub struct FieldMap {
    pub(crate) entries: Vec<(String, Value)>,
}

impl View for FieldMap {
    type V = Map<Seq<char>, Value>;

    closed spec fn view(&self) -> Map<Seq<char>, Value> {
        pairs_map(self.entries@)
    }
}

impl DeepView for FieldMap {
    type V = Map<Seq<char>, Value>;

    open spec fn deep_view(&self) -> Map<Seq<char>, Value> {
        self@
    }
}

impl Clone for FieldMap {
    fn clone(&self) -> (copy: FieldMap)
        ensures
            copy@ == self@,
    {
        let mut entries: Vec<(String, Value)> = Vec::new();
        let mut i: usize = 0;
        while i < self.entries.len()
            invariant
                i <= self.entries@.len(),
                entries@ == self.entries@.take(i as int),
            decreases self.entries@.len() - i,
        {
            let pair = (self.entries[i].0.clone(), clone_value(&self.entries[i].1));
            proof {
                assert(self.entries@.take(i + 1) =~= self.entries@.take(i as int).push(pair));
            }
            entries.push(pair);
            i += 1;
        }
        proof {
            use_type_invariant(self);
            assert(self.entries@.take(self.entries@.len() as int) =~= self.entries@);
        }
        FieldMap { entries }
    }
}

impl FieldMap {
    #[verifier::type_invariant]
    spec fn no_name_twice(&self) -> bool {
        distinct_names(self.entries@)
    }

    /// A map without fields.
    pub fn new() -> (fields: FieldMap)
        ensures
            fields@ == Map::<Seq<char>, Value>::empty(),
    {
        FieldMap { entries: Vec::new() }
    }

    /// The number of fields.
    pub fn len(&self) -> (n: usize)
        ensures
            self@.dom().finite(),
            n == self@.len(),
    {
        proof {
            use_type_invariant(self);
            lemma_pairs_map_len(self.entries@);
        }
        self.entries.len()
    }

    /// Whether the map has no field.
    pub fn is_empty(&self) -> (empty: bool)
        ensures
            empty == (self@ == Map::<Seq<char>, Value>::empty()),
    {
        proof {
            use_type_invariant(self);
            lemma_pairs_map_len(self.entries@);
            if self.entries@.len() == 0 {
            } else {
                lemma_pairs_map_entry(self.entries@, 0);
                assert(self@.contains_key(self.entries@[0].0@));
            }
        }
        self.entries.len() == 0
    }

    /// Where in the list the field `name` stands.
    fn position(&self, name: &str) -> (at: Option<usize>)
        ensures
            match at {
                Some(i) => i < self.entries@.len() && self.entries@[i as int].0@ == name@,
                None => !self@.contains_key(name@),
            },
    {
        let wanted = name.to_owned();
        let mut i: usize = 0;
        while i < self.entries.len()
            invariant
                i <= self.entries@.len(),
                wanted@ == name@,
                forall|j: int| 0 <= j < i ==> (#[trigger] self.entries@[j]).0@ != name@,
            decreases self.entries@.len() - i,
        {
            if self.entries[i].0 == wanted {
                return Some(i);
            }
            i += 1;
        }
        proof {
            lemma_pairs_map_names(self.entries@, name@);
        }
        None
    }

    /// The value of the field `name`, if the map has that field.
    pub fn get(&self, name: &str) -> (found: Option<&Value>)
        ensures
            match found {
                Some(value) => self@.contains_key(name@) && *value == self@[name@],
                None => !self@.contains_key(name@),
            },
    {
        match self.position(name) {
            Some(i) => {
                proof {
                    use_type_invariant(self);
                    lemma_pairs_map_entry(self.entries@, i as int);
                }
                Some(&self.entries[i].1)
            },
            None => None,
        }
    }

    /// Whether the map has the field `name`.
    pub fn contains_key(&self, name: &str) -> (found: bool)
        ensures
            found == self@.contains_key(name@),
    {
        match self.position(name) {
            Some(i) => {
                proof {
                    use_type_invariant(self);
                    lemma_pairs_map_entry(self.entries@, i as int);
                }
                true
            },
            None => false,
        }
    }

    /// The map with the field `name` set to `value`.
    fn with(self, name: String, value: Value) -> (fields: FieldMap)
        ensures
            fields@ == self@.insert(name@, value),
    {
        proof {
            use_type_invariant(&self);
        }
        let at = self.position(name.as_str());
        let mut entries = self.entries;
        match at {
            Some(i) => {
                proof {
                    lemma_pairs_map_update(entries@, i as int, (name, value));
                }
                entries.set(i, (name, value));
            },
            None => {
                proof {
                    lemma_pairs_map_names(entries@, name@);
                    assert(entries@.push((name, value)).drop_last() =~= entries@);
                }
                entries.push((name, value));
            },
        }
        FieldMap { entries }
    }

    /// Sets the field `name` to `value`, whether or not the map has the
    /// field.
    pub fn insert(&mut self, name: String, value: Value)
        ensures
            final(self)@ == old(self)@.insert(name@, value),
    {
        let mut fields = FieldMap::new();
        std::mem::swap(self, &mut fields);
        *self = fields.with(name, value);
    }

    /// The fields of the map as a list of pairs, each field once, in no
    /// order that carries a meaning.
    pub fn entries(&self) -> (pairs: &Vec<(String, Value)>)
        ensures
            distinct_names(pairs@),
            pairs_map(pairs@) == self@,
    {
        proof {
            use_type_invariant(self);
        }
        &self.entries
    }
}

} // verus!
