use vstd::prelude::*;

verus! {

/// The closed taxonomy of codec-adapter failures, one variant per format or
/// conversion step the adapter can stumble in; variants that carry a
/// `String` hold the underlying codec's own message.
#[derive(Debug, PartialEq)]
pub enum CodecError {
    /// A conversion that cannot fail reported a failure.
    Infallible,
    /// Raw payload bytes were not valid UTF-8 text.
    ByteToUtf8Conversion(String),
    /// The named content type is not one the adapter knows.
    UnknownContentTypeMatch(String),
    /// The Bson codec reported a failure.
    Bson(String),
    /// The Cbor codec reported a failure.
    Cbor(String),
    /// The FlexBuffers codec reported a failure.
    FlexBuffers(String),
    /// The Json codec reported a failure.
    Json(String),
    /// The Json5 codec reported a failure.
    Json5(String),
    /// The Lexpr codec reported a failure.
    Lexpr(String),
    /// The MessagePack codec reported a failure.
    MessagePack(String),
    /// The Pickle codec reported a failure.
    Pickle(String),
    /// The Postcard codec reported a failure.
    Postcard(String),
    /// The Ron codec reported a failure.
    Ron(String),
    /// The Toml codec reported a failure.
    Toml(String),
    /// The UrlEncoding codec reported a failure.
    UrlEncoding(String),
    /// The Yaml codec reported a failure.
    Yaml(String),
    /// The Xml codec reported a failure.
    Xml(String),
    /// The payload type cannot be carried in the chosen format.
    TypeDoesNotSupportSerialization,
    /// A header value could not be read as a content type.
    FailedConvertingHeaderValueToContentType,
    /// A header value was not acceptable to the native store.
    InvalidHeaderValue,
    /// A failure the taxonomy does not name more precisely.
    Unknown,
}

} // verus!
