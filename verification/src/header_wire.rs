use vstd::prelude::*;

use crate::header_map::HeaderMap;
use crate::header_value::spec_joined;
use vstd::string::StringSliceAdditionalSpecFns;

verus! {

/// Whether a byte may appear in a native header value: horizontal tab,
/// visible ASCII, space, or an opaque byte of 128 and above.
pub open spec fn spec_valid_header_value_byte(b: u8) -> bool {
    b == 9 || (b >= 32 && b != 127)
}

/// Whether a byte sequence is acceptable as a native header value.
pub open spec fn spec_valid_header_value(bytes: Seq<u8>) -> bool {
    forall|i: int| 0 <= i < bytes.len() ==> spec_valid_header_value_byte(#[trigger] bytes[i])
}

/// Whether a byte may appear in a native header name: an HTTP token byte,
/// with uppercase letters accepted and normalized by the native store.
pub open spec fn spec_valid_header_name_byte(b: u8) -> bool {
    ||| b == 33  // !
    ||| 35 <= b <= 39  // # $ % & '
    ||| b == 42 || b == 43 || b == 45 || b == 46  // * + - .
    ||| 48 <= b <= 57  // 0-9
    ||| 65 <= b <= 90  // A-Z
    ||| 94 <= b <= 96  // ^ _ `
    ||| 97 <= b <= 122  // a-z
    ||| b == 124 || b == 126  // | ~
}

/// Whether a byte sequence is acceptable as a native header name: one byte
/// at least, 65535 at most, all of them token bytes.
pub open spec fn spec_valid_header_name(bytes: Seq<u8>) -> bool {
    1 <= bytes.len() <= 65535 && forall|i: int|
        0 <= i < bytes.len() ==> spec_valid_header_name_byte(#[trigger] bytes[i])
}

/// Relies on `http::header::HeaderName::from_bytes`: a name parses exactly
/// when it is 1 to 65535 bytes, all of them HTTP token bytes.
#[verifier::external_body]
fn native_header_name_ok(name: &str) -> (ok: bool)
    ensures
        ok == spec_valid_header_name(name.spec_bytes()),
{
    http::header::HeaderName::from_bytes(name.as_bytes()).is_ok()
}

/// Relies on `http::HeaderValue::from_bytes`: a value parses exactly when
/// every byte is horizontal tab, visible ASCII, space, or 128 and above.
#[verifier::external_body]
fn native_header_value_ok(bytes: &[u8]) -> (ok: bool)
    ensures
        ok == spec_valid_header_value(bytes@),
{
    http::HeaderValue::from_bytes(bytes).is_ok()
}

/// What one entry looks like on the way to a native header store: the key,
/// and the UTF-8 bytes of the entry's values run together.
pub open spec fn spec_wire_pair(entry: (Seq<char>, Seq<Seq<char>>)) -> (Seq<char>, Seq<u8>) {
    (entry.0, vstd::utf8::encode_utf8(spec_joined(entry.1)))
}

/// Whether one entry is acceptable to a native header store.
pub open spec fn spec_wire_pair_ok(entry: (Seq<char>, Seq<Seq<char>>)) -> bool {
    &&& spec_valid_header_name(vstd::utf8::encode_utf8(entry.0))
    &&& spec_valid_header_value(spec_wire_pair(entry).1)
}

impl HeaderMap {
    /// The map's entries as name/bytes pairs fit for a native header store,
    /// or the key of the first entry the store would refuse.
    ///
    /// A failing entry is reported, not silently dropped: the error names
    /// the offending key.
    pub fn to_native_pairs(&self) -> (converted: Result<Vec<(String, Vec<u8>)>, String>)
        ensures
            converted is Ok <==> (forall|i: int|
                0 <= i < self@.len() ==> spec_wire_pair_ok(#[trigger] self@[i])),
            converted is Ok ==> {
                let pairs = converted->Ok_0;
                &&& pairs.len() == self@.len()
                &&& forall|i: int|
                    0 <= i < self@.len() ==> (#[trigger] pairs[i].0@, pairs[i].1@)
                        == spec_wire_pair(self@[i])
            },
            converted is Err ==> exists|i: int|
                {
                    &&& 0 <= i < self@.len()
                    &&& !spec_wire_pair_ok(#[trigger] self@[i])
                    &&& (forall|j: int| 0 <= j < i ==> spec_wire_pair_ok(#[trigger] self@[j]))
                    &&& converted->Err_0@ == "refused header: "@ + self@[i].0
                },
    {
        let mut pairs: Vec<(String, Vec<u8>)> = Vec::new();
        let mut i: usize = 0;
        while i < self.0.len()
            invariant
                i <= self.0.len(),
                self.0.len() == self@.len(),
                pairs.len() == i,
                forall|j: int| 0 <= j < i ==> spec_wire_pair_ok(#[trigger] self@[j]),
                forall|j: int|
                    0 <= j < i ==> (#[trigger] pairs[j].0@, pairs[j].1@) == spec_wire_pair(
                        self@[j],
                    ),
            decreases self.0.len() - i,
        {
            let key = &self.0[i].0;
            let value_bytes = self.0[i].1.as_vec_u8();
            let name_ok = native_header_name_ok(key.as_str());
            let value_ok = native_header_value_ok(value_bytes.as_slice());
            proof {
                assert(self@[i as int].0 == key@);
                assert(self@[i as int].1 == self.0[i as int].1@);
            }
            if !name_ok || !value_ok {
                proof {
                    assert(!spec_wire_pair_ok(self@[i as int]));
                }
                return Err("refused header: ".to_owned().concat(key.as_str()));
            }
            pairs.push((key.clone(), value_bytes));
            i = i + 1;
        }
        Ok(pairs)
    }
}

} // verus!
