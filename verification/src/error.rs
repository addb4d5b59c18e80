use vstd::prelude::*;

verus! {

/// The closed error taxonomy of the request-body assembly boundary.
///
/// Every failure on the way from an inbound byte stream to a typed envelope
/// is one of these values; each maps to exactly one standard HTTP status when
/// recovered into an error envelope (see
/// [`crate::Hateoas::from_payload_error`]). Variants that carry a `String`
/// hold the underlying cause's message.
#[derive(Debug, PartialEq)]
pub enum PayloadError {
    /// The declared `Content-Length` exceeds the configured limit; detected
    /// before any body bytes are read.
    OverflowKnownLength { length: usize, limit: usize },
    /// The accumulated body outgrew the configured limit while buffering.
    Overflow { limit: usize },
    /// No usable `Content-Type` header was found.
    ContentType,
    /// A decode step failed.
    Deserialize(String),
    /// An encode step failed.
    Serialize(String),
    /// Reading the byte stream itself failed.
    Payload(String),
    /// Assembling the body failed at the given request path, for the boxed
    /// reason.
    PayloadFailure(String, Box<PayloadError>),
    /// `Content-Length` is missing from the headers.
    NoPayloadSizeDefinitionInHeader,
    /// A header value could not be read as a string.
    FailedToMapHeaderToStr(String),
    /// Both decode attempts failed; carries the second attempt's cause.
    SerializationDeserializationError(String),
    /// A conversion that cannot fail reported a failure.
    Infallible,
    /// A numeric header could not be parsed as an integer.
    FailedToParseToInt(String),
    /// The `Content-Type` header could not be taken from the header map.
    FailedToGetContentTypeFromHeader,
}

} // verus!
