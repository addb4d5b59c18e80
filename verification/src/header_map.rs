use vstd::prelude::*;

use crate::header_value::{spec_value_set, HeaderValue, IntoHeaderValue};

verus! {

/// A case-sensitive, multi-valued header store: each key owns one
/// [`HeaderValue`] set of byte-string values.
///
/// Entries are kept in insertion order and keys stay unique under the map's
/// own operations; lookups go to the first entry carrying the key.
#[derive(Debug, Clone, PartialEq)]
pub struct HeaderMap(pub Vec<(String, HeaderValue)>);

impl View for HeaderMap {
    type V = Seq<(Seq<char>, Seq<Seq<char>>)>;

    open spec fn view(&self) -> Seq<(Seq<char>, Seq<Seq<char>>)> {
        Seq::new(self.0.len() as nat, |i: int| (self.0[i].0@, self.0[i].1@))
    }
}

/// Whether some entry carries the given key.
pub open spec fn spec_contains_key(
    entries: Seq<(Seq<char>, Seq<Seq<char>>)>,
    key: Seq<char>,
) -> bool {
    exists|i: int| 0 <= i < entries.len() && entries[i].0 == key
}

/// Whether `i` is the first entry carrying the given key.
pub open spec fn spec_first_key_index(
    entries: Seq<(Seq<char>, Seq<Seq<char>>)>,
    key: Seq<char>,
    i: int,
) -> bool {
    &&& 0 <= i < entries.len()
    &&& entries[i].0 == key
    &&& forall|j: int| 0 <= j < i ==> entries[j].0 != key
}

/// Whether a list of keys holds the given key.
pub open spec fn spec_key_listed(keys: Seq<Seq<char>>, key: Seq<char>) -> bool {
    keys.contains(key)
}

/// The entries whose keys are on the list, in their stored order.
pub open spec fn spec_extracted(
    entries: Seq<(Seq<char>, Seq<Seq<char>>)>,
    keys: Seq<Seq<char>>,
) -> Seq<(Seq<char>, Seq<Seq<char>>)> {
    entries.filter(|entry: (Seq<char>, Seq<Seq<char>>)| spec_key_listed(keys, entry.0))
}

/// The entries whose keys are not on the list, in their stored order.
pub open spec fn spec_inverse_extracted(
    entries: Seq<(Seq<char>, Seq<Seq<char>>)>,
    keys: Seq<Seq<char>>,
) -> Seq<(Seq<char>, Seq<Seq<char>>)> {
    entries.filter(|entry: (Seq<char>, Seq<Seq<char>>)| !spec_key_listed(keys, entry.0))
}

/// The fixed allow-list of well-known header keys, the ones the library
/// treats as "common" when splitting header data between an envelope's
/// metadata and the transport: the content-negotiation and representation
/// headers.
pub open spec fn spec_common_keys() -> Seq<Seq<char>> {
    seq![
        "Accept"@,
        "Accept-Charset"@,
        "Accept-Encoding"@,
        "Accept-Language"@,
        "Cache-Control"@,
        "Content-Encoding"@,
        "Content-Language"@,
        "Content-Length"@,
        "Content-Location"@,
        "Content-Type"@,
    ]
}

/// Whether the given list member test holds of a string list.
fn string_list_contains(keys: &Vec<String>, key: &String) -> (present: bool)
    ensures
        present == spec_key_listed(keys.deep_view(), key@),
{
    let mut i: usize = 0;
    while i < keys.len()
        invariant
            i <= keys.len(),
            keys.len() == keys.deep_view().len(),
            forall|j: int| 0 <= j < i ==> keys.deep_view()[j] != key@,
        decreases keys.len() - i,
    {
        if keys[i].eq(key) {
            assert(keys.deep_view()[i as int] == key@);
            return true;
        }
        i = i + 1;
    }
    false
}

/// The allow-list of well-known header keys as owned strings.
pub fn common_headers() -> (keys: Vec<String>)
    ensures
        keys.deep_view() == spec_common_keys(),
{
    let mut keys: Vec<String> = Vec::new();
    keys.push("Accept".to_owned());
    keys.push("Accept-Charset".to_owned());
    keys.push("Accept-Encoding".to_owned());
    keys.push("Accept-Language".to_owned());
    keys.push("Cache-Control".to_owned());
    keys.push("Content-Encoding".to_owned());
    keys.push("Content-Language".to_owned());
    keys.push("Content-Length".to_owned());
    keys.push("Content-Location".to_owned());
    keys.push("Content-Type".to_owned());
    proof {
        assert(keys.deep_view() =~= spec_common_keys());
    }
    keys
}

/// Extracting one more taken entry appends it exactly when its key is on the
/// list.
proof fn lemma_extracted_take_step(
    entries: Seq<(Seq<char>, Seq<Seq<char>>)>,
    keys: Seq<Seq<char>>,
    i: int,
)
    requires
        0 <= i < entries.len(),
    ensures
        spec_extracted(entries.take(i + 1), keys) == if spec_key_listed(keys, entries[i].0) {
            spec_extracted(entries.take(i), keys).push(entries[i])
        } else {
            spec_extracted(entries.take(i), keys)
        },
        spec_inverse_extracted(entries.take(i + 1), keys) == if !spec_key_listed(
            keys,
            entries[i].0,
        ) {
            spec_inverse_extracted(entries.take(i), keys).push(entries[i])
        } else {
            spec_inverse_extracted(entries.take(i), keys)
        },
{
    reveal_with_fuel(Seq::filter, 2);
    assert(entries.take(i + 1).drop_last() =~= entries.take(i));
    assert(entries.take(i + 1).last() == entries[i]);
}

impl HeaderMap {
    /// An empty header map.
    pub fn new() -> (header_map: HeaderMap)
        ensures
            header_map@ == Seq::<(Seq<char>, Seq<Seq<char>>)>::empty(),
    {
        let entries: Vec<(String, HeaderValue)> = Vec::new();
        let header_map = HeaderMap(entries);
        proof {
            assert(header_map@ =~= Seq::<(Seq<char>, Seq<Seq<char>>)>::empty());
        }
        header_map
    }

    /// The index of the first entry carrying the key, if any entry does.
    fn find_index(&self, key: &String) -> (found: Option<usize>)
        ensures
            found is Some ==> spec_first_key_index(self@, key@, found->Some_0 as int),
            found is None ==> !spec_contains_key(self@, key@),
    {
        let mut i: usize = 0;
        while i < self.0.len()
            invariant
                i <= self.0.len(),
                self.0.len() == self@.len(),
                forall|j: int| 0 <= j < i ==> self@[j].0 != key@,
            decreases self.0.len() - i,
        {
            if self.0[i].0.eq(key) {
                assert(self@[i as int].0 == key@);
                return Some(i);
            }
            i = i + 1;
        }
        None
    }

    /// Replaces the key's whole value set, creating the entry when absent.
    pub fn set<V: IntoHeaderValue>(&mut self, key: &str, value: V)
        ensures
            spec_contains_key(old(self)@, key@) ==> exists|i: int|
                spec_first_key_index(old(self)@, key@, i) && final(self)@ == old(self)@.update(
                    i,
                    (key@, spec_value_set(value)),
                ),
            !spec_contains_key(old(self)@, key@) ==> final(self)@ == old(self)@.push(
                (key@, spec_value_set(value)),
            ),
    {
        let header_value = value.into_header_value();
        let key_owned = key.to_owned();
        match self.find_index(&key_owned) {
            Some(i) => {
                let ghost before = self@;
                self.0[i] = (key_owned, header_value);
                proof {
                    assert(self@ =~= before.update(i as int, (key@, spec_value_set(value))));
                }
            },
            None => {
                let ghost before = self@;
                self.0.push((key_owned, header_value));
                proof {
                    assert(self@ =~= before.push((key@, spec_value_set(value))));
                }
            },
        }
    }

    /// Unions the value into the key's value set, creating the entry when
    /// absent.
    pub fn append<V: IntoHeaderValue>(&mut self, key: &str, value: V)
        ensures
            spec_contains_key(old(self)@, key@) ==> exists|i: int|
                spec_first_key_index(old(self)@, key@, i) && final(self)@ == old(self)@.update(
                    i,
                    (
                        key@,
                        crate::header_value::spec_merge_values(
                            old(self)@[i].1,
                            spec_value_set(value),
                        ),
                    ),
                ),
            !spec_contains_key(old(self)@, key@) ==> final(self)@ == old(self)@.push(
                (key@, spec_value_set(value)),
            ),
    {
        let header_value = value.into_header_value();
        let key_owned = key.to_owned();
        match self.find_index(&key_owned) {
            Some(i) => {
                let ghost before = self@;
                let mut entry = self.0.remove(i);
                entry.1.merge_all(header_value.0);
                self.0.insert(i, entry);
                proof {
                    assert(self@ =~= before.update(
                        i as int,
                        (
                            key@,
                            crate::header_value::spec_merge_values(
                                before[i as int].1,
                                spec_value_set(value),
                            ),
                        ),
                    ));
                }
            },
            None => {
                let ghost before = self@;
                self.0.push((key_owned, header_value));
                proof {
                    assert(self@ =~= before.push((key@, spec_value_set(value))));
                }
            },
        }
    }

    /// The value set stored under the key, taken from the first entry that
    /// carries it.
    pub fn get(&self, key: &str) -> (found: Option<&HeaderValue>)
        ensures
            found is Some <==> spec_contains_key(self@, key@),
            found is Some ==> exists|i: int|
                spec_first_key_index(self@, key@, i) && found->Some_0@ == self@[i].1,
    {
        let key_owned = key.to_owned();
        match self.find_index(&key_owned) {
            Some(i) => Some(&self.0[i].1),
            None => None,
        }
    }

    /// One value stored under the key: the entry's first value, or nothing
    /// when the key is absent or its value set is empty.
    pub fn get_first(&self, key: &str) -> (found: Option<&String>)
        ensures
            found is Some <==> exists|i: int|
                spec_first_key_index(self@, key@, i) && self@[i].1.len() > 0,
            found is Some ==> exists|i: int|
                spec_first_key_index(self@, key@, i) && found->Some_0@ == self@[i].1[0],
    {
        let key_owned = key.to_owned();
        match self.find_index(&key_owned) {
            Some(i) => {
                if self.0[i].1.0.len() > 0 {
                    assert(self@[i as int].1.len() > 0);
                    assert(self@[i as int].1[0] == self.0[i as int].1.0[0]@);
                    Some(&self.0[i].1.0[0])
                } else {
                    assert(self@[i as int].1.len() == 0);
                    None
                }
            },
            None => None,
        }
    }

    /// The entries whose keys are on the given list, in their stored order.
    pub fn extract(&self, keys: &Vec<String>) -> (extracted: HeaderMap)
        ensures
            extracted@ == spec_extracted(self@, keys.deep_view()),
    {
        let mut extracted = HeaderMap::new();
        let mut i: usize = 0;
        proof {
            assert(self@.take(0) =~= Seq::<(Seq<char>, Seq<Seq<char>>)>::empty());
            assert(spec_extracted(self@.take(0), keys.deep_view()) =~= Seq::<
                (Seq<char>, Seq<Seq<char>>),
            >::empty());
        }
        while i < self.0.len()
            invariant
                i <= self.0.len(),
                self.0.len() == self@.len(),
                extracted@ == spec_extracted(self@.take(i as int), keys.deep_view()),
            decreases self.0.len() - i,
        {
            let ghost before = extracted@;
            if string_list_contains(keys, &self.0[i].0) {
                extracted.0.push((self.0[i].0.clone(), self.0[i].1.duplicate()));
                proof {
                    assert(extracted@ =~= before.push(self@[i as int]));
                }
            }
            proof {
                lemma_extracted_take_step(self@, keys.deep_view(), i as int);
            }
            i = i + 1;
        }
        proof {
            assert(self@.take(self@.len() as int) =~= self@);
        }
        extracted
    }

    /// The entries whose keys are not on the given list, in their stored
    /// order.
    pub fn inverse_extract(&self, keys: &Vec<String>) -> (extracted: HeaderMap)
        ensures
            extracted@ == spec_inverse_extracted(self@, keys.deep_view()),
    {
        let mut extracted = HeaderMap::new();
        let mut i: usize = 0;
        proof {
            assert(self@.take(0) =~= Seq::<(Seq<char>, Seq<Seq<char>>)>::empty());
            assert(spec_inverse_extracted(self@.take(0), keys.deep_view()) =~= Seq::<
                (Seq<char>, Seq<Seq<char>>),
            >::empty());
        }
        while i < self.0.len()
            invariant
                i <= self.0.len(),
                self.0.len() == self@.len(),
                extracted@ == spec_inverse_extracted(self@.take(i as int), keys.deep_view()),
            decreases self.0.len() - i,
        {
            let ghost before = extracted@;
            if !string_list_contains(keys, &self.0[i].0) {
                extracted.0.push((self.0[i].0.clone(), self.0[i].1.duplicate()));
                proof {
                    assert(extracted@ =~= before.push(self@[i as int]));
                }
            }
            proof {
                lemma_extracted_take_step(self@, keys.deep_view(), i as int);
            }
            i = i + 1;
        }
        proof {
            assert(self@.take(self@.len() as int) =~= self@);
        }
        extracted
    }

    /// The entries with well-known keys: the partition of the map against the
    /// fixed allow-list.
    pub fn common_extract(&self) -> (extracted: HeaderMap)
        ensures
            extracted@ == spec_extracted(self@, spec_common_keys()),
    {
        let keys = common_headers();
        self.extract(&keys)
    }

    /// The entries with caller-supplied keys: the complement of the fixed
    /// allow-list partition.
    pub fn uncommon_extract(&self) -> (extracted: HeaderMap)
        ensures
            extracted@ == spec_inverse_extracted(self@, spec_common_keys()),
    {
        let keys = common_headers();
        self.inverse_extract(&keys)
    }

    /// A fresh header map holding the same entries.
    pub fn duplicate(&self) -> (header_map: HeaderMap)
        ensures
            header_map@ == self@,
    {
        let mut entries: Vec<(String, HeaderValue)> = Vec::new();
        let mut i: usize = 0;
        while i < self.0.len()
            invariant
                i <= self.0.len(),
                self.0.len() == self@.len(),
                entries.len() == i,
                forall|j: int|
                    0 <= j < i ==> #[trigger] entries[j].0@ == self@[j].0 && entries[j].1@
                        == self@[j].1,
            decreases self.0.len() - i,
        {
            entries.push((self.0[i].0.clone(), self.0[i].1.duplicate()));
            i = i + 1;
        }
        let header_map = HeaderMap(entries);
        proof {
            assert(header_map@ =~= self@);
        }
        header_map
    }

    /// How many entries the map holds.
    pub fn len(&self) -> (n: usize)
        ensures
            n == self@.len(),
    {
        self.0.len()
    }
}

impl<'a, 'b> From<(&'a str, &'b str)> for HeaderMap {
    /// A map holding the one given entry.
    fn from(pair: (&'a str, &'b str)) -> (header_map: HeaderMap)
        ensures
            header_map@ == Seq::<(Seq<char>, Seq<Seq<char>>)>::empty().push(
                (pair.0@, spec_value_set(pair.1)),
            ),
    {
        let mut header_map = HeaderMap::new();
        header_map.append(pair.0, pair.1);
        header_map
    }
}

impl<'a, 'b> vstd::std_specs::convert::FromSpecImpl<(&'a str, &'b str)> for HeaderMap {
    open spec fn obeys_from_spec() -> bool {
        false
    }

    open spec fn from_spec(pair: (&'a str, &'b str)) -> HeaderMap {
        vstd::pervasive::arbitrary()
    }
}

impl<'a, 'b> From<Vec<(&'a str, &'b str)>> for HeaderMap {
    /// A map built by setting each pair in order; with pairwise-distinct
    /// keys it holds exactly the given entries, each with a one-value set.
    fn from(pairs: Vec<(&'a str, &'b str)>) -> (header_map: HeaderMap)
        ensures
            (forall|i: int, j: int|
                0 <= i < j < pairs.len() ==> #[trigger] pairs[i].0@ != #[trigger] pairs[j].0@)
                ==> header_map@ == Seq::new(
                pairs.len() as nat,
                |i: int| (pairs[i].0@, spec_value_set(pairs[i].1)),
            ),
    {
        let ghost distinct = forall|i: int, j: int|
            0 <= i < j < pairs.len() ==> #[trigger] pairs@[i].0@ != #[trigger] pairs@[j].0@;
        let ghost expected = Seq::new(
            pairs.len() as nat,
            |i: int| (pairs@[i].0@, spec_value_set(pairs@[i].1)),
        );
        let mut header_map = HeaderMap::new();
        let mut i: usize = 0;
        proof {
            assert(header_map@ =~= expected.take(0));
        }
        while i < pairs.len()
            invariant
                i <= pairs.len(),
                expected == Seq::new(
                    pairs.len() as nat,
                    |k: int| (pairs@[k].0@, spec_value_set(pairs@[k].1)),
                ),
                distinct == (forall|k: int, l: int|
                    0 <= k < l < pairs.len() ==> #[trigger] pairs@[k].0@ != #[trigger] pairs@[l].0@),
                distinct ==> header_map@ == expected.take(i as int),
            decreases pairs.len() - i,
        {
            let ghost before = header_map@;
            header_map.set(pairs[i].0, pairs[i].1);
            proof {
                if distinct {
                    assert forall|k: int| 0 <= k < i implies before[k].0 != pairs@[i as int].0@ by {
                        assert(before[k] == expected.take(i as int)[k]);
                        assert(pairs@[k].0@ != pairs@[i as int].0@);
                    }
                    assert(!spec_contains_key(before, pairs@[i as int].0@));
                    assert(header_map@ =~= expected.take(i as int + 1));
                }
            }
            i = i + 1;
        }
        proof {
            assert(expected.take(pairs.len() as int) =~= expected);
        }
        header_map
    }
}

impl<'a, 'b> vstd::std_specs::convert::FromSpecImpl<Vec<(&'a str, &'b str)>> for HeaderMap {
    open spec fn obeys_from_spec() -> bool {
        false
    }

    open spec fn from_spec(pairs: Vec<(&'a str, &'b str)>) -> HeaderMap {
        vstd::pervasive::arbitrary()
    }
}

impl Default for HeaderMap {
    /// An empty header map.
    fn default() -> (header_map: HeaderMap)
        ensures
            header_map@ == Seq::<(Seq<char>, Seq<Seq<char>>)>::empty(),
    {
        HeaderMap::new()
    }
}

} // verus!
