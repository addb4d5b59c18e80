use vstd::prelude::*;

verus! {

/// Free-form string-to-string annotations attached to [`crate::Metadata`].
///
/// Entries are kept in insertion order with unique keys under the map's own
/// operations; inserting an existing key overwrites its value in place.
#[derive(Debug, Clone, PartialEq)]
pub struct Annotations(pub Vec<(String, String)>);

impl View for Annotations {
    type V = Seq<(Seq<char>, Seq<char>)>;

    open spec fn view(&self) -> Seq<(Seq<char>, Seq<char>)> {
        Seq::new(self.0.len() as nat, |i: int| (self.0[i].0@, self.0[i].1@))
    }
}

/// Whether some entry carries the given key.
pub open spec fn spec_annotations_contain(
    entries: Seq<(Seq<char>, Seq<char>)>,
    key: Seq<char>,
) -> bool {
    exists|i: int| 0 <= i < entries.len() && entries[i].0 == key
}

/// Whether `i` is the first entry carrying the given key.
pub open spec fn spec_first_annotation_index(
    entries: Seq<(Seq<char>, Seq<char>)>,
    key: Seq<char>,
    i: int,
) -> bool {
    &&& 0 <= i < entries.len()
    &&& entries[i].0 == key
    &&& forall|j: int| 0 <= j < i ==> entries[j].0 != key
}

/// What inserting a pair does: the first entry carrying the key is
/// overwritten, or the pair is appended when the key is new.
pub open spec fn spec_annotations_upserted(
    before: Seq<(Seq<char>, Seq<char>)>,
    key: Seq<char>,
    value: Seq<char>,
    after: Seq<(Seq<char>, Seq<char>)>,
) -> bool {
    if spec_annotations_contain(before, key) {
        exists|i: int|
            spec_first_annotation_index(before, key, i) && after == before.update(i, (key, value))
    } else {
        after == before.push((key, value))
    }
}

impl Annotations {
    /// An empty annotation map.
    pub fn new() -> (annotations: Annotations)
        ensures
            annotations@ == Seq::<(Seq<char>, Seq<char>)>::empty(),
    {
        let entries: Vec<(String, String)> = Vec::new();
        let annotations = Annotations(entries);
        proof {
            assert(annotations@ =~= Seq::<(Seq<char>, Seq<char>)>::empty());
        }
        annotations
    }

    /// The index of the first entry carrying the key, if any entry does.
    fn find_index(&self, key: &String) -> (found: Option<usize>)
        ensures
            found is Some ==> spec_first_annotation_index(self@, key@, found->Some_0 as int),
            found is None ==> !spec_annotations_contain(self@, key@),
    {
        let mut i: usize = 0;
        while i < self.0.len()
            invariant
                i <= self.0.len(),
                self.0.len() == self@.len(),
                forall|j: int| 0 <= j < i ==> self@[j].0 != key@,
            decreases self.0.len() - i,
        {
            if self.0[i].0.eq(key) {
                assert(self@[i as int].0 == key@);
                return Some(i);
            }
            i = i + 1;
        }
        None
    }

    /// Upserts the pair, overwriting the value of an existing key in place.
    pub fn insert(&mut self, key: &str, value: &str)
        ensures
            spec_annotations_upserted(old(self)@, key@, value@, final(self)@),
    {
        let key_owned = key.to_owned();
        match self.find_index(&key_owned) {
            Some(i) => {
                let ghost before = self@;
                self.0[i] = (key_owned, value.to_owned());
                proof {
                    assert(self@ =~= before.update(i as int, (key@, value@)));
                }
            },
            None => {
                let ghost before = self@;
                self.0.push((key_owned, value.to_owned()));
                proof {
                    assert(self@ =~= before.push((key@, value@)));
                }
            },
        }
    }

    /// The value of the first entry carrying the key, if any entry does.
    pub fn get(&self, key: &str) -> (found: Option<&String>)
        ensures
            found is Some <==> spec_annotations_contain(self@, key@),
            found is Some ==> exists|i: int|
                spec_first_annotation_index(self@, key@, i) && found->Some_0@ == self@[i].1,
    {
        let key_owned = key.to_owned();
        match self.find_index(&key_owned) {
            Some(i) => Some(&self.0[i].1),
            None => None,
        }
    }

    /// How many entries the map holds.
    pub fn len(&self) -> (n: usize)
        ensures
            n == self@.len(),
    {
        self.0.len()
    }
}

impl Default for Annotations {
    /// An empty annotation map.
    fn default() -> (annotations: Annotations)
        ensures
            annotations@ == Seq::<(Seq<char>, Seq<char>)>::empty(),
    {
        Annotations::new()
    }
}

} // verus!
