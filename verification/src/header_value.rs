use vstd::prelude::*;

verus! {

/// The set of byte-string values stored under one header key.
///
/// Values are kept without duplicates: merging a value that is already
/// present leaves the collection unchanged, and no order among the values is
/// promised to callers.
#[derive(Debug, Clone, PartialEq)]
pub struct HeaderValue(pub Vec<String>);

impl View for HeaderValue {
    type V = Seq<Seq<char>>;

    open spec fn view(&self) -> Seq<Seq<char>> {
        self.0.deep_view()
    }
}

/// One step of merging a value into a duplicate-free collection: the value is
/// appended only when it is not already present.
pub open spec fn spec_add_value(values: Seq<Seq<char>>, value: Seq<char>) -> Seq<Seq<char>> {
    if values.contains(value) {
        values
    } else {
        values.push(value)
    }
}

/// Merging a sequence of values one by one, left to right.
pub open spec fn spec_merge_values(
    values: Seq<Seq<char>>,
    incoming: Seq<Seq<char>>,
) -> Seq<Seq<char>>
    decreases incoming.len(),
{
    if incoming.len() == 0 {
        values
    } else {
        spec_merge_values(spec_add_value(values, incoming.first()), incoming.drop_first())
    }
}

/// A sequence of values run together into one sequence of characters.
pub open spec fn spec_joined(values: Seq<Seq<char>>) -> Seq<char>
    decreases values.len(),
{
    if values.len() == 0 {
        Seq::<char>::empty()
    } else {
        values.first() + spec_joined(values.drop_first())
    }
}

/// Joining is compatible with appending a value at the back.
pub proof fn lemma_joined_push(values: Seq<Seq<char>>, value: Seq<char>)
    ensures
        spec_joined(values.push(value)) == spec_joined(values) + value,
    decreases values.len(),
{
    reveal_with_fuel(spec_joined, 2);
    if values.len() == 0 {
        assert(values.push(value).drop_first() =~= Seq::<Seq<char>>::empty());
        assert(spec_joined(values.push(value)) =~= spec_joined(values) + value);
    } else {
        lemma_joined_push(values.drop_first(), value);
        assert(values.push(value).drop_first() =~= values.drop_first().push(value));
        assert(values.push(value).first() == values.first());
        assert(values.first() + (spec_joined(values.drop_first()) + value) =~= (values.first()
            + spec_joined(values.drop_first())) + value);
    }
}

/// Merging a single value is one `spec_add_value` step.
pub proof fn lemma_merge_singleton(values: Seq<Seq<char>>, value: Seq<char>)
    ensures
        spec_merge_values(values, seq![value]) == spec_add_value(values, value),
{
    reveal_with_fuel(spec_merge_values, 2);
    assert(seq![value].drop_first() =~= Seq::<Seq<char>>::empty());
    assert(seq![value].first() == value);
}

/// The duplicate-free value set a conversion yields, starting from nothing.
pub open spec fn spec_value_set<V: IntoHeaderValue>(value: V) -> Seq<Seq<char>> {
    spec_merge_values(Seq::<Seq<char>>::empty(), value.spec_values())
}

/// The set semantics of a header key's values: merging the same value into a
/// fresh set twice leaves the set with that one entry, and merging two
/// distinct values leaves both present.
pub proof fn lemma_header_value_set_semantics(v: Seq<char>, w: Seq<char>)
    ensures
        spec_add_value(spec_add_value(Seq::<Seq<char>>::empty(), v), v) =~= seq![v],
        v != w ==> spec_add_value(spec_add_value(Seq::<Seq<char>>::empty(), v), w) =~= seq![v, w],
{
    let empty = Seq::<Seq<char>>::empty();
    assert(!empty.contains(v));
    let once = empty.push(v);
    assert(once[0] == v);
    assert(once.contains(v));
    if v != w {
        assert(forall|i: int| 0 <= i < once.len() ==> once[i] == v);
        assert(!once.contains(w));
    }
}

/// What can be handed to a header map as the value side of an entry.
pub trait IntoHeaderValue: Sized {
    /// The values the conversion yields, in the order they are merged.
    spec fn spec_values(self) -> Seq<Seq<char>>;

    /// The conversion itself; duplicates among the incoming values collapse.
    fn into_header_value(self) -> (header_value: HeaderValue)
        ensures
            header_value@ == spec_merge_values(Seq::<Seq<char>>::empty(), self.spec_values()),
    ;
}

impl IntoHeaderValue for &str {
    open spec fn spec_values(self) -> Seq<Seq<char>> {
        seq![self@]
    }

    fn into_header_value(self) -> (header_value: HeaderValue) {
        let mut header_value = HeaderValue::new();
        header_value.merge_one(self.to_owned());
        proof {
            lemma_merge_singleton(Seq::<Seq<char>>::empty(), self@);
        }
        header_value
    }
}

impl IntoHeaderValue for String {
    open spec fn spec_values(self) -> Seq<Seq<char>> {
        seq![self@]
    }

    fn into_header_value(self) -> (header_value: HeaderValue) {
        let ghost value_view = self@;
        let mut header_value = HeaderValue::new();
        header_value.merge_one(self);
        proof {
            lemma_merge_singleton(Seq::<Seq<char>>::empty(), value_view);
        }
        header_value
    }
}

impl IntoHeaderValue for Vec<String> {
    open spec fn spec_values(self) -> Seq<Seq<char>> {
        self.deep_view()
    }

    fn into_header_value(self) -> (header_value: HeaderValue) {
        HeaderValue::new().merged(self)
    }
}

impl IntoHeaderValue for HeaderValue {
    open spec fn spec_values(self) -> Seq<Seq<char>> {
        self@
    }

    fn into_header_value(self) -> (header_value: HeaderValue) {
        HeaderValue::new().merged(self.0)
    }
}

impl HeaderValue {
    /// An empty value set.
    pub fn new() -> (header_value: HeaderValue)
        ensures
            header_value@ == Seq::<Seq<char>>::empty(),
    {
        let values: Vec<String> = Vec::new();
        proof {
            assert(values.deep_view() =~= Seq::<Seq<char>>::empty());
        }
        HeaderValue(values)
    }

    /// Whether the given value is already in the set.
    pub fn contains_value(&self, value: &String) -> (present: bool)
        ensures
            present == self@.contains(value@),
    {
        let mut i: usize = 0;
        while i < self.0.len()
            invariant
                i <= self.0.len(),
                self.0.len() == self@.len(),
                forall|j: int| 0 <= j < i ==> self@[j] != value@,
            decreases self.0.len() - i,
        {
            if self.0[i].eq(value) {
                assert(self@[i as int] == value@);
                return true;
            }
            i = i + 1;
        }
        false
    }

    /// Merges one value in, leaving the set unchanged when the value is
    /// already present.
    pub fn merge_one(&mut self, value: String) -> (added: bool)
        ensures
            final(self)@ == spec_add_value(old(self)@, value@),
            added == !old(self)@.contains(value@),
    {
        if self.contains_value(&value) {
            false
        } else {
            let ghost before = self@;
            self.0.push(value);
            proof {
                assert(self@ =~= before.push(value@));
            }
            true
        }
    }

    /// Merges the values of the given convertible in, front to back.
    pub fn append<V: IntoHeaderValue>(&mut self, value: V)
        ensures
            final(self)@ == spec_merge_values(old(self)@, spec_value_set(value)),
    {
        let header_value = value.into_header_value();
        self.merge_all(header_value.0);
    }

    /// Merges every incoming value in, front to back.
    pub fn merged(self, values: Vec<String>) -> (header_value: HeaderValue)
        ensures
            header_value@ == spec_merge_values(self@, values.deep_view()),
    {
        let mut header_value = self;
        header_value.merge_all(values);
        header_value
    }

    /// Merges every incoming value in, front to back.
    pub fn merge_all(&mut self, values: Vec<String>)
        ensures
            final(self)@ == spec_merge_values(old(self)@, values.deep_view()),
    {
        let ghost start = old(self)@;
        let ghost all = values.deep_view();
        let mut incoming = values;
        proof {
            assert(all.skip(0) =~= all);
        }
        let ghost done: int = 0;
        while incoming.len() > 0
            invariant
                0 <= done <= all.len(),
                incoming.deep_view() =~= all.skip(done),
                spec_merge_values(start, all) == spec_merge_values(self@, incoming.deep_view()),
            decreases incoming.len(),
        {
            let ghost pending = incoming.deep_view();
            let value = incoming.remove(0);
            proof {
                assert(value@ == pending.first());
                assert(incoming.deep_view() =~= pending.drop_first());
                assert(pending.drop_first() =~= all.skip(done + 1));
            }
            self.merge_one(value);
            proof {
                done = done + 1;
            }
        }
        proof {
            assert(incoming.deep_view().len() == 0);
            assert(incoming.deep_view() =~= Seq::<Seq<char>>::empty());
        }
    }

    /// A fresh value set holding the same values.
    pub fn duplicate(&self) -> (header_value: HeaderValue)
        ensures
            header_value@ == self@,
    {
        HeaderValue(self.to_vec())
    }

    /// All values run together into one string, in the set's storage order.
    pub fn joined(&self) -> (joined: String)
        ensures
            joined@ == spec_joined(self@),
    {
        let mut joined = String::new();
        let mut i: usize = 0;
        proof {
            assert(self@.take(0) =~= Seq::<Seq<char>>::empty());
        }
        while i < self.0.len()
            invariant
                i <= self.0.len(),
                self.0.len() == self@.len(),
                joined@ == spec_joined(self@.take(i as int)),
            decreases self.0.len() - i,
        {
            joined.append(self.0[i].as_str());
            proof {
                lemma_joined_push(self@.take(i as int), self@[i as int]);
                assert(self@.take(i as int + 1) =~= self@.take(i as int).push(self@[i as int]));
            }
            i = i + 1;
        }
        proof {
            assert(self@.take(self@.len() as int) =~= self@);
        }
        joined
    }

    /// The UTF-8 bytes of all values run together, in the set's storage
    /// order.
    pub fn as_vec_u8(&self) -> (bytes: Vec<u8>)
        ensures
            bytes@ == vstd::utf8::encode_utf8(spec_joined(self@)),
    {
        self.joined().as_str().as_bytes_vec()
    }

    /// The values as a freshly-copied vector, in the set's storage order.
    pub fn to_vec(&self) -> (values: Vec<String>)
        ensures
            values.deep_view() == self@,
    {
        let mut values: Vec<String> = Vec::new();
        let mut i: usize = 0;
        while i < self.0.len()
            invariant
                i <= self.0.len(),
                self.0.len() == self@.len(),
                values.deep_view() =~= self@.take(i as int),
            decreases self.0.len() - i,
        {
            values.push(self.0[i].clone());
            proof {
                assert(values.deep_view() =~= self@.take(i as int).push(self@[i as int]));
                assert(self@.take(i as int + 1) =~= self@.take(i as int).push(self@[i as int]));
            }
            i = i + 1;
        }
        proof {
            assert(self@.take(self@.len() as int) =~= self@);
        }
        values
    }
}

impl Default for HeaderValue {
    /// An empty value set.
    fn default() -> (header_value: HeaderValue)
        ensures
            header_value@ == Seq::<Seq<char>>::empty(),
    {
        HeaderValue::new()
    }
}

} // verus!
