use vstd::prelude::*;

use crate::content_type::{spec_resolved_content_type, resolve_content_type, ContentType};
use crate::error::PayloadError;
use crate::hateoas::{spec_is_standard_response, Hateoas};
use crate::payload_control::{
    effective_capacity, effective_limit, spec_effective_capacity, spec_effective_limit,
    PayloadControl,
};
use crate::resource::HateoasResource;
use crate::status_code::StatusCode;

verus! {

/// Whether a character is a decimal digit.
pub open spec fn spec_is_digit(c: char) -> bool {
    48 <= c as u32 <= 57
}

/// The numeric value of a decimal digit character.
pub open spec fn spec_digit_value(c: char) -> nat {
    (c as u32 - 48) as nat
}

/// Whether a string is one or more decimal digits and nothing else.
pub open spec fn spec_all_digits(s: Seq<char>) -> bool {
    s.len() > 0 && forall|i: int| 0 <= i < s.len() ==> spec_is_digit(#[trigger] s[i])
}

/// The number a string of decimal digits denotes.
pub open spec fn spec_decimal_value(s: Seq<char>) -> nat
    decreases s.len(),
{
    if s.len() == 0 {
        0
    } else {
        spec_decimal_value(s.drop_last()) * 10 + spec_digit_value(s.last())
    }
}

/// A digit string's value only grows as digits are appended.
proof fn lemma_decimal_value_grows(s: Seq<char>, i: int)
    requires
        0 <= i <= s.len(),
    ensures
        spec_decimal_value(s.take(i)) <= spec_decimal_value(s),
    decreases s.len() - i,
{
    if i < s.len() {
        lemma_decimal_value_grows(s, i + 1);
        assert(s.take(i + 1).drop_last() =~= s.take(i));
        assert(spec_decimal_value(s.take(i + 1)) == spec_decimal_value(s.take(i)) * 10
            + spec_digit_value(s.take(i + 1).last()));
        assert(spec_decimal_value(s.take(i)) * 10 >= spec_decimal_value(s.take(i))) by (
        nonlinear_arith);
    } else {
        assert(s.take(i) =~= s);
    }
}

/// The number a `Content-Length` header value declares: the value of its
/// decimal digits, when the whole value is digits and the number fits the
/// machine; anything else is unusable.
pub fn parse_content_length(s: &str) -> (parsed: Option<usize>)
    ensures
        parsed is Some <==> spec_all_digits(s@) && spec_decimal_value(s@) <= usize::MAX,
        parsed is Some ==> parsed->Some_0 == spec_decimal_value(s@),
{
    let len = s.unicode_len();
    if len == 0 {
        return None;
    }
    let mut value: usize = 0;
    let mut i: usize = 0;
    proof {
        assert(s@.take(0) =~= Seq::<char>::empty());
    }
    while i < len
        invariant
            i <= len,
            len == s@.len(),
            len > 0,
            forall|j: int| 0 <= j < i ==> spec_is_digit(#[trigger] s@[j]),
            value == spec_decimal_value(s@.take(i as int)),
        decreases len - i,
    {
        let c = s.get_char(i);
        let cu = c as u32;
        if !(48 <= cu && cu <= 57) {
            return None;
        }
        let digit = (cu - 48) as usize;
        if value > (usize::MAX - digit) / 10 {
            proof {
                assert(s@.take(i as int + 1).drop_last() =~= s@.take(i as int));
                assert(spec_decimal_value(s@.take(i as int + 1)) == value * 10 + digit);
                assert(value * 10 + digit > usize::MAX) by (nonlinear_arith)
                    requires
                        value > (usize::MAX - digit) / 10,
                        digit <= 9,
                ;
                if spec_all_digits(s@) {
                    lemma_decimal_value_grows(s@, i as int + 1);
                }
            }
            return None;
        }
        proof {
            assert(value * 10 + digit <= usize::MAX) by (nonlinear_arith)
                requires
                    value <= (usize::MAX - digit) / 10,
                    digit <= 9,
            ;
            assert(s@.take(i as int + 1).drop_last() =~= s@.take(i as int));
        }
        value = value * 10 + digit;
        i = i + 1;
    }
    proof {
        assert(s@.take(len as int) =~= s@);
    }
    Some(value)
}

/// The request-body assembler in its buffering state: the resolved content
/// type, the configured size limit, the declared length if one was usable,
/// and the bytes accumulated so far.
///
/// Construction performs the whole initializing step; each arriving chunk
/// goes through [`BodyAssembler::push_chunk`]; when the stream ends,
/// [`BodyAssembler::finish`] hands the buffer to the decode step.
#[derive(Debug)]
pub struct BodyAssembler {
    pub limit: usize,
    pub length: Option<usize>,
    pub content_type: ContentType,
    pub buf: Vec<u8>,
}

impl BodyAssembler {
    /// Starts assembling a body: resolves the content type from the
    /// request's `Content-Type` values (its absence is fatal), and fails
    /// fast, before any body byte is read, when a declared length already
    /// exceeds the limit. A missing declared length is tolerated.
    pub fn new(
        content_type_values: &Vec<String>,
        declared_length: Option<usize>,
        limit: usize,
        capacity: usize,
    ) -> (started: Result<BodyAssembler, PayloadError>)
        ensures
            spec_resolved_content_type(content_type_values.deep_view()) is None ==> started == Err::<
                BodyAssembler,
                PayloadError,
            >(PayloadError::ContentType),
            spec_resolved_content_type(content_type_values.deep_view()) is Some ==> match declared_length {
                Some(length) => {
                    if length > limit {
                        started == Err::<BodyAssembler, PayloadError>(
                            PayloadError::OverflowKnownLength { length, limit },
                        )
                    } else {
                        is_fresh_assembler(started, content_type_values.deep_view(), declared_length, limit)
                    }
                },
                None => is_fresh_assembler(
                    started,
                    content_type_values.deep_view(),
                    declared_length,
                    limit,
                ),
            },
    {
        let content_type = match resolve_content_type(content_type_values) {
            Some(found) => found,
            None => {
                return Err(PayloadError::ContentType);
            },
        };
        if let Some(length) = declared_length {
            if length > limit {
                return Err(PayloadError::OverflowKnownLength { length, limit });
            }
        }
        Ok(
            BodyAssembler {
                limit,
                length: declared_length,
                content_type,
                buf: Vec::with_capacity(capacity),
            },
        )
    }

    /// Starts assembling a body under the limits the payload type
    /// configures, falling back to the defaults where it sets none.
    pub fn for_payload<O: PayloadControl>(
        content_type_values: &Vec<String>,
        declared_length: Option<usize>,
    ) -> (started: Result<BodyAssembler, PayloadError>)
        ensures
            spec_resolved_content_type(content_type_values.deep_view()) is None ==> started == Err::<
                BodyAssembler,
                PayloadError,
            >(PayloadError::ContentType),
            spec_resolved_content_type(content_type_values.deep_view()) is Some ==> match declared_length {
                Some(length) => {
                    if length > spec_effective_limit(O::spec_max_payload_size()) {
                        started == Err::<BodyAssembler, PayloadError>(
                            PayloadError::OverflowKnownLength {
                                length,
                                limit: spec_effective_limit(O::spec_max_payload_size()),
                            },
                        )
                    } else {
                        is_fresh_assembler(
                            started,
                            content_type_values.deep_view(),
                            declared_length,
                            spec_effective_limit(O::spec_max_payload_size()),
                        )
                    }
                },
                None => is_fresh_assembler(
                    started,
                    content_type_values.deep_view(),
                    declared_length,
                    spec_effective_limit(O::spec_max_payload_size()),
                ),
            },
    {
        let limit = effective_limit(O::max_payload_size());
        let capacity = effective_capacity(O::buffer_capacity());
        BodyAssembler::new(content_type_values, declared_length, limit, capacity)
    }

    /// Re-caps the accepted payload size, re-checking a declared length
    /// against the new limit and failing fast when it no longer fits.
    pub fn limit(self, limit: usize) -> (adjusted: Result<BodyAssembler, PayloadError>)
        ensures
            self.length is Some && self.length->Some_0 > limit ==> adjusted == Err::<
                BodyAssembler,
                PayloadError,
            >(PayloadError::OverflowKnownLength { length: self.length->Some_0, limit }),
            !(self.length is Some && self.length->Some_0 > limit) ==> {
                &&& adjusted is Ok
                &&& adjusted->Ok_0.limit == limit
                &&& adjusted->Ok_0.length == self.length
                &&& adjusted->Ok_0.content_type == self.content_type
                &&& adjusted->Ok_0.buf@ == self.buf@
            },
    {
        if let Some(length) = self.length {
            if length > limit {
                return Err(PayloadError::OverflowKnownLength { length, limit });
            }
        }
        Ok(
            BodyAssembler {
                limit,
                length: self.length,
                content_type: self.content_type,
                buf: self.buf,
            },
        )
    }

    /// Takes the next chunk of the byte stream: the chunk is appended unless
    /// it would push the accumulated size over the limit, in which case the
    /// whole buffer is discarded and assembly ends with an overflow error.
    pub fn push_chunk(&mut self, chunk: &[u8]) -> (taken: Result<(), PayloadError>)
        ensures
            old(self).buf@.len() + chunk@.len() > old(self).limit ==> {
                &&& taken == Err::<(), PayloadError>(
                    PayloadError::Overflow { limit: old(self).limit },
                )
                &&& final(self).buf@ == Seq::<u8>::empty()
            },
            old(self).buf@.len() + chunk@.len() <= old(self).limit ==> {
                &&& taken == Ok::<(), PayloadError>(())
                &&& final(self).buf@ == old(self).buf@ + chunk@
            },
            final(self).limit == old(self).limit,
            final(self).length == old(self).length,
            final(self).content_type == old(self).content_type,
    {
        if self.buf.len() > self.limit || chunk.len() > self.limit - self.buf.len() {
            self.buf = Vec::new();
            proof {
                assert(self.buf@ =~= Seq::<u8>::empty());
            }
            return Err(PayloadError::Overflow { limit: self.limit });
        }
        let ghost before = self.buf@;
        let mut i: usize = 0;
        proof {
            assert(before + chunk@.take(0) =~= before);
        }
        while i < chunk.len()
            invariant
                i <= chunk.len(),
                self.buf@ == before + chunk@.take(i as int),
                self.limit == old(self).limit,
                self.length == old(self).length,
                self.content_type == old(self).content_type,
            decreases chunk.len() - i,
        {
            self.buf.push(chunk[i]);
            proof {
                assert(before + chunk@.take(i as int + 1) =~= (before + chunk@.take(
                    i as int,
                )).push(chunk@[i as int]));
            }
            i = i + 1;
        }
        proof {
            assert(chunk@.take(chunk@.len() as int) =~= chunk@);
        }
        Ok(())
    }

    /// Ends buffering at the end of the stream and hands the resolved
    /// content type and the complete accumulated body to the decode step.
    pub fn finish(self) -> (assembled: (ContentType, Vec<u8>))
        ensures
            assembled.0 == self.content_type,
            assembled.1@ == self.buf@,
    {
        (self.content_type, self.buf)
    }
}

/// Whether assembly just started cleanly: the resolved content type, the
/// given limit and declared length, and an empty buffer.
pub open spec fn is_fresh_assembler(
    started: Result<BodyAssembler, PayloadError>,
    content_type_values: Seq<Seq<char>>,
    declared_length: Option<usize>,
    limit: usize,
) -> bool {
    &&& started is Ok
    &&& started->Ok_0.limit == limit
    &&& started->Ok_0.length == declared_length
    &&& Some(started->Ok_0.content_type) == spec_resolved_content_type(content_type_values)
    &&& started->Ok_0.buf@ == Seq::<u8>::empty()
}

/// The outcome of the two-attempt decode, resolved in its load-bearing
/// order: a buffer that decoded as a full envelope is taken as it is; one
/// that only decoded as a bare payload is wrapped as a fresh OK envelope;
/// when both attempts failed, the second attempt's cause is surfaced.
pub fn resolve_decoded<T: HateoasResource>(
    envelope: Option<Hateoas<T>>,
    payload: Option<T>,
    cause: String,
) -> (resolved: Result<Hateoas<T>, PayloadError>)
    ensures
        envelope is Some ==> resolved is Ok && resolved->Ok_0 == envelope->Some_0,
        envelope is None && payload is Some ==> resolved is Ok && spec_is_standard_response(
            resolved->Ok_0,
            StatusCode::OK,
            payload,
            Option::<String>::None,
        ),
        envelope is None && payload is None ==> resolved == Err::<Hateoas<T>, PayloadError>(
            PayloadError::SerializationDeserializationError(cause),
        ),
{
    match envelope {
        Some(decoded) => Ok(decoded),
        None => match payload {
            Some(bare) => Ok(Hateoas::OK(Some(bare), None)),
            None => Err(PayloadError::SerializationDeserializationError(cause)),
        },
    }
}

} // verus!
