use vstd::prelude::*;

verus! {

/// A value whose debug form can be carried around as an opaque diagnostic.
pub trait DebuggableAny: core::fmt::Debug {
}

/// The default payload size limit: 40 MiB.
pub const DEFAULT_PAYLOAD_LIMIT: usize = 41943040;

/// The default initial buffer capacity: 8 KiB.
pub const DEFAULT_BUFFER_CAPACITY: usize = 8192;

/// Per-payload-type configuration of the request body assembler: a payload
/// type may cap the accepted body size and pick the initial buffer capacity;
/// what it leaves unset falls back to the defaults.
pub trait PayloadControl {
    /// The configured size cap as a mathematical value.
    spec fn spec_max_payload_size() -> Option<usize>;

    /// The configured initial buffer capacity as a mathematical value.
    spec fn spec_buffer_capacity() -> Option<usize>;

    /// The size cap for an inbound body, if the payload type sets one.
    fn max_payload_size() -> (limit: Option<usize>)
        ensures
            limit == Self::spec_max_payload_size(),
    ;

    /// The initial buffer capacity, if the payload type sets one.
    fn buffer_capacity() -> (capacity: Option<usize>)
        ensures
            capacity == Self::spec_buffer_capacity(),
    ;
}

/// The size limit that applies: the configured cap, or the default.
pub fn effective_limit(configured: Option<usize>) -> (limit: usize)
    ensures
        limit == spec_effective_limit(configured),
{
    match configured {
        Some(limit) => limit,
        None => DEFAULT_PAYLOAD_LIMIT,
    }
}

/// The size limit that applies: the configured cap, or the default.
pub open spec fn spec_effective_limit(configured: Option<usize>) -> usize {
    match configured {
        Some(limit) => limit,
        None => DEFAULT_PAYLOAD_LIMIT,
    }
}

/// The buffer capacity that applies: the configured one, or the default.
pub fn effective_capacity(configured: Option<usize>) -> (capacity: usize)
    ensures
        capacity == spec_effective_capacity(configured),
{
    match configured {
        Some(capacity) => capacity,
        None => DEFAULT_BUFFER_CAPACITY,
    }
}

/// The buffer capacity that applies: the configured one, or the default.
pub open spec fn spec_effective_capacity(configured: Option<usize>) -> usize {
    match configured {
        Some(capacity) => capacity,
        None => DEFAULT_BUFFER_CAPACITY,
    }
}

} // verus!
