//! A mapping from header names to header values, with one value per name.

use vstd::prelude::*;

verus! {

/// The views of a list of name-value pairs, in the same order.
pub open spec fn pairs_view(pairs: Seq<(String, String)>) -> Seq<(Seq<char>, Seq<char>)> {
    pairs.map_values(|pair: (String, String)| (pair.0@, pair.1@))
}

/// The mapping that a list of name-value pairs stands for: each name maps to
/// the value of the last pair that holds it.
pub open spec fn mapping_of(pairs: Seq<(Seq<char>, Seq<char>)>) -> Map<Seq<char>, Seq<char>>
    decreases pairs.len(),
{
    if pairs.len() == 0 {
        Map::empty()
    } else {
        mapping_of(pairs.drop_last()).insert(pairs.last().0, pairs.last().1)
    }
}

/// No name stands in two pairs.
pub open spec fn distinct_names(pairs: Seq<(Seq<char>, Seq<char>)>) -> bool {
    forall|i: int, j: int|
        0 <= i < pairs.len() && 0 <= j < pairs.len() && i != j ==> pairs[i].0 != pairs[j].0
}

/// A name maps to something exactly when some pair holds it.
pub proof fn lemma_mapping_domain(pairs: Seq<(Seq<char>, Seq<char>)>, name: Seq<char>)
    ensures
        mapping_of(pairs).contains_key(name) <==> exists|i: int|
            0 <= i < pairs.len() && #[trigger] pairs[i].0 == name,
    decreases pairs.len(),
{
    if pairs.len() > 0 {
        let front = pairs.drop_last();
        lemma_mapping_domain(front, name);
        if mapping_of(pairs).contains_key(name) {
            if pairs.last().0 == name {
                assert(pairs[pairs.len() - 1].0 == name);
            } else {
                let i = choose|i: int| 0 <= i < front.len() && #[trigger] front[i].0 == name;
                assert(pairs[i].0 == name);
            }
        }
        if exists|i: int| 0 <= i < pairs.len() && #[trigger] pairs[i].0 == name {
            let i = choose|i: int| 0 <= i < pairs.len() && #[trigger] pairs[i].0 == name;
            if i < pairs.len() - 1 {
                assert(front[i].0 == name);
            }
        }
    }
}

/// The last value of a name stays: a pair after which no pair holds the same
/// name gives the name its value.
pub proof fn lemma_mapping_last_wins(pairs: Seq<(Seq<char>, Seq<char>)>, i: int)
    requires
        0 <= i < pairs.len(),
        forall|j: int| i < j < pairs.len() ==> (#[trigger] pairs[j]).0 != pairs[i].0,
    ensures
        mapping_of(pairs).contains_key(pairs[i].0),
        mapping_of(pairs)[pairs[i].0] == pairs[i].1,
    decreases pairs.len(),
{
    let front = pairs.drop_last();
    if i < pairs.len() - 1 {
        assert(front[i] == pairs[i]);
        assert forall|j: int| i < j < front.len() implies (#[trigger] front[j]).0
            != front[i].0 by {
            assert(front[j] == pairs[j]);
        }
        lemma_mapping_last_wins(front, i);
        assert(pairs[pairs.len() - 1].0 != pairs[i].0);
    }
}

/// Where no name stands twice, each pair's name maps to that pair's value.
pub proof fn lemma_mapping_value(pairs: Seq<(Seq<char>, Seq<char>)>, i: int)
    requires
        distinct_names(pairs),
        0 <= i < pairs.len(),
    ensures
        mapping_of(pairs).contains_key(pairs[i].0),
        mapping_of(pairs)[pairs[i].0] == pairs[i].1,
{
    lemma_mapping_last_wins(pairs, i);
}

/// Where no name stands twice, giving one pair a new value is the same as
/// mapping its name to that value.
pub proof fn lemma_mapping_update(pairs: Seq<(Seq<char>, Seq<char>)>, i: int, value: Seq<char>)
    requires
        distinct_names(pairs),
        0 <= i < pairs.len(),
    ensures
        distinct_names(pairs.update(i, (pairs[i].0, value))),
        mapping_of(pairs.update(i, (pairs[i].0, value))) == mapping_of(pairs).insert(
            pairs[i].0,
            value,
        ),
    decreases pairs.len(),
{
    let name = pairs[i].0;
    let changed = pairs.update(i, (name, value));
    let front = pairs.drop_last();
    assert(distinct_names(changed)) by {
        assert forall|a: int, b: int|
            0 <= a < changed.len() && 0 <= b < changed.len() && a != b implies changed[a].0
            != changed[b].0 by {
            assert(changed[a].0 == pairs[a].0 && changed[b].0 == pairs[b].0);
        }
    }
    if i == pairs.len() - 1 {
        assert(changed.drop_last() =~= front);
        assert(mapping_of(changed) =~= mapping_of(pairs).insert(name, value));
    } else {
        assert(distinct_names(front)) by {
            assert forall|a: int, b: int|
                0 <= a < front.len() && 0 <= b < front.len() && a != b implies front[a].0
                != front[b].0 by {
                assert(front[a] == pairs[a] && front[b] == pairs[b]);
            }
        }
        assert(front[i] == pairs[i]);
        lemma_mapping_update(front, i, value);
        assert(changed.drop_last() =~= front.update(i, (name, value)));
        assert(changed.last() == pairs.last());
        assert(pairs[pairs.len() - 1].0 != pairs[i].0);
        assert(mapping_of(changed) =~= mapping_of(pairs).insert(name, value));
    }
}

/// Where no name stands twice, the mapping has as many names as there are
/// pairs.
pub proof fn lemma_mapping_len(pairs: Seq<(Seq<char>, Seq<char>)>)
    requires
        distinct_names(pairs),
    ensures
        mapping_of(pairs).dom().finite(),
        mapping_of(pairs).len() == pairs.len(),
    decreases pairs.len(),
{
    if pairs.len() > 0 {
        let front = pairs.drop_last();
        assert(distinct_names(front)) by {
            assert forall|a: int, b: int|
                0 <= a < front.len() && 0 <= b < front.len() && a != b implies front[a].0
                != front[b].0 by {
                assert(front[a] == pairs[a] && front[b] == pairs[b]);
            }
        }
        lemma_mapping_len(front);
        lemma_mapping_domain(front, pairs.last().0);
        if mapping_of(front).contains_key(pairs.last().0) {
            let i = choose|i: int| 0 <= i < front.len() && #[trigger] front[i].0 == pairs.last().0;
            assert(front[i] == pairs[i]);
            assert(pairs[pairs.len() - 1].0 != pairs[i].0);
        }
        assert(mapping_of(pairs).dom() =~= mapping_of(front).dom().insert(pairs.last().0));
    }
}

/// A mapping from header names to header values. Names are kept as they were
/// given, and a name has one value.
#[derive(Debug)]
pub struct HeaderMap {
    entries: Vec<(String, String)>,
}

impl View for HeaderMap {
    type V = Map<Seq<char>, Seq<char>>;

    closed spec fn view(&self) -> Map<Seq<char>, Seq<char>> {
        mapping_of(pairs_view(self.entries@))
    }
}

impl Clone for HeaderMap {
    /// A mapping with the same names and values.
    fn clone(&self) -> (copy: HeaderMap)
        ensures
            copy@ == self@,
    {
        proof {
            use_type_invariant(self);
        }
        let mut entries: Vec<(String, String)> = Vec::new();
        let mut i: usize = 0;
        while i < self.entries.len()
            invariant
                i <= self.entries.len(),
                pairs_view(entries@) =~= pairs_view(self.entries@).take(i as int),
            decreases self.entries.len() - i,
        {
            let name = self.entries[i].0.clone();
            let value = self.entries[i].1.clone();
            let ghost before = pairs_view(entries@);
            entries.push((name, value));
            proof {
                let all = pairs_view(self.entries@);
                assert(pairs_view(entries@) =~= before.push((name@, value@)));
                assert(all.take(i + 1) =~= all.take(i as int).push(all[i as int]));
            }
            i += 1;
        }
        assert(pairs_view(entries@) =~= pairs_view(self.entries@));
        HeaderMap { entries }
    }
}

impl HeaderMap {
    /// The invariant of the type: no name stands in two entries.
    #[verifier::type_invariant]
    closed spec fn wf(&self) -> bool {
        distinct_names(pairs_view(self.entries@))
    }

    /// The mapping without any name.
    pub fn new() -> (map: HeaderMap)
        ensures
            map@ == Map::<Seq<char>, Seq<char>>::empty(),
    {
        let map = HeaderMap { entries: Vec::new() };
        assert(pairs_view(map.entries@) =~= Seq::empty());
        map
    }

    /// The number of names.
    pub fn len(&self) -> (n: usize)
        ensures
            self@.dom().finite(),
            n == self@.len(),
    {
        proof {
            use_type_invariant(self);
            lemma_mapping_len(pairs_view(self.entries@));
        }
        self.entries.len()
    }

    /// Whether the mapping holds no name.
    pub fn is_empty(&self) -> (empty: bool)
        ensures
            empty == (self@ == Map::<Seq<char>, Seq<char>>::empty()),
    {
        proof {
            use_type_invariant(self);
            lemma_mapping_len(pairs_view(self.entries@));
            if self.entries@.len() == 0 {
                assert(self@ =~= Map::<Seq<char>, Seq<char>>::empty());
            } else {
                assert(self@.len() > 0);
                assert(Map::<Seq<char>, Seq<char>>::empty().len() == 0);
            }
        }
        self.entries.len() == 0
    }

    /// The value of a name, if the mapping holds the name.
    pub fn get(&self, name: &str) -> (value: Option<&String>)
        ensures
            match value {
                Some(v) => self@.contains_key(name@) && self@[name@] == v@,
                None => !self@.contains_key(name@),
            },
    {
        let key = name.to_owned();
        proof {
            use_type_invariant(self);
            lemma_mapping_domain(pairs_view(self.entries@), key@);
        }
        match position(&self.entries, &key) {
            Some(i) => {
                proof {
                    lemma_mapping_value(pairs_view(self.entries@), i as int);
                }
                Some(&self.entries[i].1)
            },
            None => None,
        }
    }

    /// Maps a name to a value. A value that the name had before is replaced.
    pub fn insert(&mut self, name: String, value: String)
        ensures
            final(self)@ == old(self)@.insert(name@, value@),
    {
        proof {
            use_type_invariant(&*self);
        }
        let ghost before = pairs_view(self.entries@);
        let mut entries: Vec<(String, String)> = Vec::new();
        std::mem::swap(&mut entries, &mut self.entries);
        match position(&entries, &name) {
            Some(i) => {
                proof {
                    lemma_mapping_update(before, i as int, value@);
                }
                entries.set(i, (name, value));
                assert(pairs_view(entries@) =~= before.update(i as int, (name@, value@)));
            },
            None => {
                entries.push((name, value));
                assert(pairs_view(entries@) =~= before.push((name@, value@)));
                assert(pairs_view(entries@).drop_last() =~= before);
            },
        }
        self.entries = entries;
    }

    /// The entries of the mapping, each name once.
    pub fn entries(&self) -> (entries: &Vec<(String, String)>)
        ensures
            distinct_names(pairs_view(entries@)),
            mapping_of(pairs_view(entries@)) == self@,
    {
        proof {
            use_type_invariant(self);
        }
        &self.entries
    }
}

/// The place of a name among the entries.
fn position(entries: &Vec<(String, String)>, name: &String) -> (found: Option<usize>)
    ensures
        match found {
            Some(i) => i < entries.len() && pairs_view(entries@)[i as int].0 == name@,
            None => forall|i: int|
                0 <= i < entries.len() ==> (#[trigger] pairs_view(entries@)[i]).0 != name@,
        },
{
    let mut i: usize = 0;
    while i < entries.len()
        invariant
            i <= entries.len(),
            pairs_view(entries@).len() == entries.len(),
            forall|k: int| 0 <= k < i ==> (#[trigger] pairs_view(entries@)[k]).0 != name@,
        decreases entries.len() - i,
    {
        if entries[i].0 == *name {
            return Some(i);
        }
        i += 1;
    }
    None
}

} // verus!
