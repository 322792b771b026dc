//! The cache in which a context keeps the shader programs it has compiled, keyed
//! by the pair of their vertex and fragment shader sources, so that each pair is
//! compiled once.

use vstd::prelude::*;

verus! {

/// A pair of sources as character sequences: the vertex shader source, then the
/// fragment shader source.
pub type SourcePair = (Seq<char>, Seq<char>);

/// The source pairs of a list of keys.
pub open spec fn source_pairs(keys: Seq<(String, String)>) -> Seq<SourcePair> {
    keys.map_values(|k: (String, String)| (k.0@, k.1@))
}

/// No pair occurs twice.
pub open spec fn distinct_pairs(pairs: Seq<SourcePair>) -> bool {
    forall|i: int, j: int| 0 <= i < j < pairs.len() ==> pairs[i] != pairs[j]
}

/// Where `pair` stands in `pairs`, if it does.
pub open spec fn index_of_pair(pairs: Seq<SourcePair>, pair: SourcePair) -> Option<int> {
    if pairs.contains(pair) {
        Some(choose|i: int| 0 <= i < pairs.len() && pairs[i] == pair)
    } else {
        None
    }
}

/// In a sequence without repetitions, a pair that stands at `i` stands nowhere
/// else.
proof fn lemma_index_of_pair(pairs: Seq<SourcePair>, pair: SourcePair, i: int)
    requires
        distinct_pairs(pairs),
        0 <= i < pairs.len(),
        pairs[i] == pair,
    ensures
        index_of_pair(pairs, pair) == Some(i),
{
    assert(pairs.contains(pair));
    let j = choose|j: int| 0 <= j < pairs.len() && pairs[j] == pair;
    if j != i {
        if j < i {
            assert(pairs[j] != pairs[i]);
        } else {
            assert(pairs[i] != pairs[j]);
        }
    }
}

/// Values keyed by a pair of sources; no pair occurs twice.
pub struct SourceCache<V> {
    keys: Vec<(String, String)>,
    values: Vec<V>,
}

impl<V> View for SourceCache<V> {
    type V = Map<SourcePair, V>;

    closed spec fn view(&self) -> Map<SourcePair, V> {
        Map::new(
            |k: SourcePair| source_pairs(self.keys@).contains(k),
            |k: SourcePair| self.values@[index_of_pair(source_pairs(self.keys@), k)->0],
        )
    }
}

impl<V> SourceCache<V> {
    /// One value per key, and no key twice.
    pub closed spec fn well_formed(&self) -> bool {
        &&& self.keys@.len() == self.values@.len()
        &&& distinct_pairs(source_pairs(self.keys@))
    }

    /// An empty cache.
    pub fn new() -> (r: SourceCache<V>)
        ensures
            r.well_formed(),
            r@ == Map::<SourcePair, V>::empty(),
    {
        let r = SourceCache { keys: Vec::new(), values: Vec::new() };
        assert(source_pairs(r.keys@) =~= Seq::<SourcePair>::empty());
        assert(r@ =~= Map::<SourcePair, V>::empty());
        r
    }

    /// The number of cached values.
    pub fn len(&self) -> (r: usize)
        requires
            self.well_formed(),
        ensures
            r == self@.dom().len(),
    {
        proof {
            self.lemma_dom_len();
        }
        self.keys.len()
    }

    /// The number of keys is the number of distinct keys.
    proof fn lemma_dom_len(&self)
        requires
            self.well_formed(),
        ensures
            self@.dom().finite(),
            self@.dom().len() == self.keys@.len(),
    {
        let s = source_pairs(self.keys@);
        assert(self@.dom() =~= s.to_set());
        s.unique_seq_to_set();
    }

    /// Where the pair of sources stands among the keys, if it does.
    fn position(&self, vertex_source: &str, fragment_source: &str) -> (r: Option<usize>)
        ensures
            match r {
                Some(i) => i < self.keys@.len() && source_pairs(self.keys@)[i as int] == (
                vertex_source@,
                fragment_source@,
                ),
                None => !source_pairs(self.keys@).contains((vertex_source@, fragment_source@)),
            },
    {
        let vertex = String::from_str(vertex_source);
        let fragment = String::from_str(fragment_source);
        let ghost wanted = (vertex_source@, fragment_source@);
        let mut i: usize = 0;
        while i < self.keys.len()
            invariant
                i <= self.keys@.len(),
                vertex@ == vertex_source@,
                fragment@ == fragment_source@,
                wanted == (vertex_source@, fragment_source@),
                forall|j: int| 0 <= j < i ==> source_pairs(self.keys@)[j] != wanted,
            decreases self.keys@.len() - i,
        {
            let same_vertex = self.keys[i].0 == vertex;
            let same_fragment = self.keys[i].1 == fragment;
            if same_vertex && same_fragment {
                return Some(i);
            }
            i = i + 1;
        }
        proof {
            let s = source_pairs(self.keys@);
            assert forall|j: int| 0 <= j < s.len() implies s[j] != wanted by {}
        }
        None
    }

    /// Whether a value is cached under the pair of sources.
    pub fn contains_key(&self, vertex_source: &str, fragment_source: &str) -> (r: bool)
        ensures
            r == self@.contains_key((vertex_source@, fragment_source@)),
    {
        self.position(vertex_source, fragment_source).is_some()
    }

    /// The value cached under the pair of sources, if any.
    pub fn get(&self, vertex_source: &str, fragment_source: &str) -> (r: Option<&V>)
        requires
            self.well_formed(),
        ensures
            match r {
                Some(v) => self@.contains_key((vertex_source@, fragment_source@)) && *v
                    == self@[(vertex_source@, fragment_source@)],
                None => !self@.contains_key((vertex_source@, fragment_source@)),
            },
    {
        match self.position(vertex_source, fragment_source) {
            Some(i) => {
                proof {
                    lemma_index_of_pair(
                        source_pairs(self.keys@),
                        (vertex_source@, fragment_source@),
                        i as int,
                    );
                }
                Some(&self.values[i])
            },
            None => None,
        }
    }

    /// Caches `value` under a pair of sources that holds nothing yet.
    pub fn insert(&mut self, vertex_source: &str, fragment_source: &str, value: V)
        requires
            old(self).well_formed(),
            !old(self)@.contains_key((vertex_source@, fragment_source@)),
        ensures
            final(self).well_formed(),
            final(self)@ == old(self)@.insert((vertex_source@, fragment_source@), value),
    {
        let ghost key = (vertex_source@, fragment_source@);
        let ghost old_keys = source_pairs(self.keys@);
        self.keys.push((String::from_str(vertex_source), String::from_str(fragment_source)));
        self.values.push(value);
        proof {
            let s = source_pairs(self.keys@);
            assert(s =~= old_keys.push(key));
            assert forall|k: SourcePair| #[trigger] self@.contains_key(k) implies self@[k] == old(
                self,
            )@.insert(key, value)[k] by {
                if k == key {
                    lemma_index_of_pair(s, k, old_keys.len() as int);
                } else {
                    assert(old_keys.contains(k));
                    let i = index_of_pair(old_keys, k)->0;
                    lemma_index_of_pair(old_keys, k, i);
                    assert(s[i] == k);
                    lemma_index_of_pair(s, k, i);
                }
            }
            assert forall|k: SourcePair| s.contains(k) <==> (old_keys.contains(k) || k == key) by {
                if s.contains(k) {
                    let j = choose|j: int| 0 <= j < s.len() && s[j] == k;
                    if j < old_keys.len() {
                        assert(old_keys[j] == k);
                    }
                }
                if old_keys.contains(k) {
                    let j = choose|j: int| 0 <= j < old_keys.len() && old_keys[j] == k;
                    assert(s[j] == k);
                }
                if k == key {
                    assert(s[old_keys.len() as int] == k);
                }
            }
            assert(self@.dom() =~= old(self)@.insert(key, value).dom());
            assert(self@ =~= old(self)@.insert(key, value));
        }
    }
}

/// A program is compiled once per pair of sources: after a value is cached under a
/// new pair, the cache holds that value under the pair, and every other pair (even
/// one whose two sources join into the same text) keeps what it held.
pub proof fn lemma_cached_value_is_found<V>(
    before: Map<SourcePair, V>,
    after: Map<SourcePair, V>,
    key: SourcePair,
    value: V,
)
    requires
        !before.contains_key(key),
        after == before.insert(key, value),
    ensures
        after.contains_key(key),
        after[key] == value,
        forall|k: SourcePair| k != key ==> (after.contains_key(k) == before.contains_key(k)),
        forall|k: SourcePair| #[trigger] before.contains_key(k) ==> after[k] == before[k],
        after.dom().len() == before.dom().len() + 1 || !before.dom().finite(),
{
    if before.dom().finite() {
        assert(after.dom() =~= before.dom().insert(key));
    }
}

} // verus!
