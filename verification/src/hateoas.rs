use vstd::prelude::*;

use crate::codec_error::CodecError;
use crate::content::Content;
use crate::error::PayloadError;
use crate::metadata::Metadata;
use crate::resource::HateoasResource;
use crate::status::Status;
use crate::status_code::StatusCode;

verus! {

/// The `apiVersion` string an envelope derives from its payload type's
/// resource descriptor: `{group}/{version}`.
pub open spec fn spec_api_version<T: HateoasResource>() -> Seq<char> {
    T::spec_group() + "/"@ + T::spec_version()
}

/// The top-level typed envelope: api-version and kind identifiers derived
/// from the payload type's resource descriptor, plus optional metadata,
/// payload slot and outcome status.
///
/// The identifier strings are fixed at construction from the descriptor and
/// never independently mutated; the three optional parts stay absent until
/// something stores a value, and the `_mut` accessors materialize a default
/// on first use.
#[derive(Debug, Clone, PartialEq)]
pub struct Hateoas<T: HateoasResource> {
    pub api_version: String,
    pub kind: String,
    pub metadata: Option<Metadata>,
    pub spec: Option<Content<T>>,
    pub status: Option<Status>,
}

/// The HTTP status code a rendered response carries: the envelope's own
/// status code, or 200 when the envelope does not name one.
pub open spec fn spec_response_status_code<T: HateoasResource>(response: &Hateoas<T>) -> u16 {
    if response.status is Some && response.status->Some_0.http_status_code is Some {
        response.status->Some_0.http_status_code->Some_0
    } else {
        200
    }
}

/// What a standard-status envelope constructor returns: fresh identifiers,
/// no metadata, the payload wrapped as content when present, and the
/// matching standard status.
pub open spec fn spec_is_standard_response<T: HateoasResource>(
    response: Hateoas<T>,
    code: StatusCode,
    data: Option<T>,
    msg: Option<String>,
) -> bool {
    &&& response.api_version@ == spec_api_version::<T>()
    &&& response.kind@ == T::spec_kind()
    &&& response.metadata is None
    &&& (data is Some ==> response.spec is Some && response.spec->Some_0.content == Some(
        data->Some_0,
    ) && response.spec->Some_0.rel is None)
    &&& (data is None ==> response.spec is None)
    &&& response.status is Some
    &&& Status::is_standard(response.status->Some_0, code, msg)
}

/// Which error envelope an assembly failure is recovered into: the mapped
/// standard status of each variant of the closed taxonomy.
pub open spec fn spec_is_payload_error_response<T: HateoasResource>(
    response: Hateoas<T>,
    error: PayloadError,
) -> bool {
    match error {
        PayloadError::OverflowKnownLength { .. } => spec_is_error_response(response, 413u16, "Content not matching expected length"@),
        PayloadError::Overflow { .. } => spec_is_error_response(response, 413u16, "Payload too large"@),
        PayloadError::ContentType => spec_is_error_response(response, 422u16, "Unknown content type"@),
        PayloadError::Deserialize(_) => spec_is_error_response(response, 422u16, "Unknown format"@),
        PayloadError::Serialize(_) => spec_is_error_response(response, 422u16, "Unknown format"@),
        PayloadError::Payload(_) => spec_is_error_response(response, 500u16, "Internal Server Error"@),
        PayloadError::PayloadFailure(_, _) => spec_is_error_response(response, 500u16, "Internal Server Error"@),
        PayloadError::NoPayloadSizeDefinitionInHeader => spec_is_error_response(response, 500u16, "Internal Server Error"@),
        PayloadError::FailedToMapHeaderToStr(_) => spec_is_error_response(response, 500u16, "Internal Server Error"@),
        PayloadError::SerializationDeserializationError(_) => spec_is_error_response(response, 422u16, "Unknown format"@),
        PayloadError::Infallible => spec_is_error_response(response, 500u16, "Internal Server Error"@),
        PayloadError::FailedToParseToInt(_) => spec_is_error_response(response, 500u16, "Internal Server Error"@),
        PayloadError::FailedToGetContentTypeFromHeader => spec_is_error_response(response, 500u16, "Internal Server Error"@),
    }
}

/// What recovering an error into an envelope returns: an empty envelope
/// carrying the mapped HTTP status code and message.
pub open spec fn spec_is_error_response<T: HateoasResource>(
    response: Hateoas<T>,
    code: u16,
    message: Seq<char>,
) -> bool {
    &&& response.api_version@ == spec_api_version::<T>()
    &&& response.kind@ == T::spec_kind()
    &&& response.metadata is None
    &&& response.spec is None
    &&& response.status is Some
    &&& response.status->Some_0.http_status_code == Some(code)
    &&& response.status->Some_0.code is None
    &&& response.status->Some_0.session is None
    &&& response.status->Some_0.message is Some
    &&& response.status->Some_0.message->Some_0@ == message
}

impl<T: HateoasResource> Hateoas<T> {
    /// An envelope from its three optional parts; the identifier strings are
    /// derived from the payload type's resource descriptor.
    pub fn new(
        spec: Option<Content<T>>,
        metadata: Option<Metadata>,
        status: Option<Status>,
    ) -> (response: Hateoas<T>)
        ensures
            response.api_version@ == spec_api_version::<T>(),
            response.kind@ == T::spec_kind(),
            response.metadata == metadata,
            response.spec == spec,
            response.status == status,
    {
        let api_version = T::group().concat("/").concat(T::version().as_str());
        Hateoas { api_version, kind: T::kind(), metadata, spec, status }
    }

    /// The kind of the resource.
    pub fn kind(&self) -> (kind: &String)
        ensures
            kind@ == self.kind@,
    {
        &self.kind
    }

    /// The api version of the resource.
    pub fn api_version(&self) -> (api_version: &String)
        ensures
            api_version@ == self.api_version@,
    {
        &self.api_version
    }

    /// The metadata, left absent when nothing has stored one.
    pub fn metadata(&self) -> (metadata: Option<&Metadata>)
        ensures
            metadata is Some <==> self.metadata is Some,
            metadata is Some ==> metadata->Some_0 == self.metadata->Some_0,
    {
        self.metadata.as_ref()
    }

    /// The metadata, materialized with every part absent on first use.
    pub fn metadata_mut(&mut self) -> (metadata: &mut Metadata)
        ensures
            old(self).metadata is Some ==> *metadata == old(self).metadata->Some_0,
            old(self).metadata is None ==> *metadata == (Metadata {
                id: None,
                name: None,
                annotations: None,
                signature: None,
                header: None,
            }),
            final(self).metadata == Some(*final(metadata)),
            final(self).api_version == old(self).api_version,
            final(self).kind == old(self).kind,
            final(self).spec == old(self).spec,
            final(self).status == old(self).status,
    {
        if self.metadata.is_none() {
            self.metadata = Some(Metadata::default());
        }
        match &mut self.metadata {
            Some(metadata) => metadata,
            None => vstd::pervasive::unreached(),
        }
    }

    /// The status, left absent when nothing has stored one.
    pub fn status(&self) -> (status: Option<&Status>)
        ensures
            status is Some <==> self.status is Some,
            status is Some ==> status->Some_0 == self.status->Some_0,
    {
        self.status.as_ref()
    }

    /// The status, materialized with every part absent on first use.
    pub fn status_mut(&mut self) -> (status: &mut Status)
        ensures
            old(self).status is Some ==> *status == old(self).status->Some_0,
            old(self).status is None ==> *status == (Status {
                message: None,
                code: None,
                http_status_code: None,
                session: None,
            }),
            final(self).status == Some(*final(status)),
            final(self).api_version == old(self).api_version,
            final(self).kind == old(self).kind,
            final(self).metadata == old(self).metadata,
            final(self).spec == old(self).spec,
    {
        if self.status.is_none() {
            self.status = Some(Status::default());
        }
        match &mut self.status {
            Some(status) => status,
            None => vstd::pervasive::unreached(),
        }
    }

    /// The payload slot, left absent when nothing has stored one.
    pub fn spec(&self) -> (spec: Option<&Content<T>>)
        ensures
            spec is Some <==> self.spec is Some,
            spec is Some ==> spec->Some_0 == self.spec->Some_0,
    {
        self.spec.as_ref()
    }

    /// The payload slot, materialized empty on first use.
    pub fn spec_mut(&mut self) -> (spec: &mut Content<T>)
        ensures
            old(self).spec is Some ==> *spec == old(self).spec->Some_0,
            old(self).spec is None ==> *spec == (Content::<T> { content: None, rel: None }),
            final(self).spec == Some(*final(spec)),
            final(self).api_version == old(self).api_version,
            final(self).kind == old(self).kind,
            final(self).metadata == old(self).metadata,
            final(self).status == old(self).status,
    {
        if self.spec.is_none() {
            self.spec = Some(Content::default());
        }
        match &mut self.spec {
            Some(spec) => spec,
            None => vstd::pervasive::unreached(),
        }
    }

    /// The HTTP status code a rendered response carries: the envelope's own
    /// status code, or 200 when the envelope does not name one.
    pub fn response_status_code(&self) -> (code: u16)
        ensures
            code == spec_response_status_code(self),
    {
        match &self.status {
            Some(status) => match status.http_status_code {
                Some(code) => code,
                None => 200,
            },
            None => 200,
        }
    }

    /// The data-driven constructor behind the standard-status family: the
    /// payload, when present, is wrapped as the envelope's content, and the
    /// status is the standard one for the given code.
    pub fn standard(code: StatusCode, data: Option<T>, msg: Option<String>) -> (response: Hateoas<
        T,
    >)
        ensures
            spec_is_standard_response(response, code, data, msg),
    {
        let spec = match data {
            Some(payload) => Some(Content::new(payload)),
            None => None,
        };
        Hateoas::new(spec, None, Some(Status::standard(code, msg)))
    }


    /// The envelope a finished extraction hands to the caller: a decoded
    /// envelope as it is, or the failure recovered into an error envelope.
    pub fn from_result(result: Result<Hateoas<T>, PayloadError>) -> (response: Hateoas<T>)
        ensures
            result is Ok ==> response == result->Ok_0,
            result is Err ==> spec_is_payload_error_response(response, result->Err_0),
    {
        match result {
            Ok(envelope) => envelope,
            Err(error) => Hateoas::from_payload_error(&error),
        }
    }

    /// The envelope a bare-payload outcome is wrapped into: a payload as a
    /// fresh OK envelope, or the failure recovered into an error envelope.
    pub fn from_content_result(result: Result<T, PayloadError>) -> (response: Hateoas<T>)
        ensures
            result is Ok ==> spec_is_standard_response(
                response,
                StatusCode::OK,
                Some(result->Ok_0),
                Option::<String>::None,
            ),
            result is Err ==> spec_is_payload_error_response(response, result->Err_0),
    {
        match result {
            Ok(payload) => Hateoas::OK(Some(payload), None),
            Err(error) => Hateoas::from_payload_error(&error),
        }
    }

    /// An envelope recovered from an assembly failure: every variant of the
    /// closed taxonomy maps to exactly one standard status.
    pub fn from_payload_error(error: &PayloadError) -> (response: Hateoas<T>)
        ensures
            spec_is_payload_error_response(response, *error),
    {
        match error {
            PayloadError::OverflowKnownLength { .. } => Hateoas::standard(StatusCode::PayloadTooLarge, None, Some("Content not matching expected length".to_owned())),
            PayloadError::Overflow { .. } => Hateoas::standard(StatusCode::PayloadTooLarge, None, Some("Payload too large".to_owned())),
            PayloadError::ContentType => Hateoas::standard(StatusCode::UnprocessableEntity, None, Some("Unknown content type".to_owned())),
            PayloadError::Deserialize(_) => Hateoas::standard(StatusCode::UnprocessableEntity, None, Some("Unknown format".to_owned())),
            PayloadError::Serialize(_) => Hateoas::standard(StatusCode::UnprocessableEntity, None, Some("Unknown format".to_owned())),
            PayloadError::Payload(_) => Hateoas::standard(StatusCode::InternalServerError, None, None),
            PayloadError::PayloadFailure(_, _) => Hateoas::standard(StatusCode::InternalServerError, None, None),
            PayloadError::NoPayloadSizeDefinitionInHeader => Hateoas::standard(StatusCode::InternalServerError, None, None),
            PayloadError::FailedToMapHeaderToStr(_) => Hateoas::standard(StatusCode::InternalServerError, None, None),
            PayloadError::SerializationDeserializationError(_) => Hateoas::standard(StatusCode::UnprocessableEntity, None, Some("Unknown format".to_owned())),
            PayloadError::Infallible => Hateoas::standard(StatusCode::InternalServerError, None, None),
            PayloadError::FailedToParseToInt(_) => Hateoas::standard(StatusCode::InternalServerError, None, None),
            PayloadError::FailedToGetContentTypeFromHeader => Hateoas::standard(StatusCode::InternalServerError, None, None),
        }
    }
}

impl<T: HateoasResource> Hateoas<T> {
    /// An envelope recovered from a codec failure: every variant of the
    /// codec taxonomy maps to exactly one standard status, carrying the
    /// underlying codec's message where one exists.
    pub fn from_codec_error(error: &CodecError) -> (response: Hateoas<T>)
        ensures
            match error {
                CodecError::Infallible => spec_is_error_response(response, 500u16, "How did you end up here?"@),
                CodecError::ByteToUtf8Conversion(cause) => spec_is_error_response(response, 400u16, "Payload data not readable into UTF8"@),
                CodecError::UnknownContentTypeMatch(cause) => spec_is_error_response(response, 400u16, "Unknown content type given"@),
                CodecError::Bson(cause) => spec_is_error_response(response, 400u16, "BSON processing error: "@ + cause@),
                CodecError::Cbor(cause) => spec_is_error_response(response, 400u16, "CBOR processing error: "@ + cause@),
                CodecError::FlexBuffers(cause) => spec_is_error_response(response, 400u16, "Flexbuffer processing error: "@ + cause@),
                CodecError::Json(cause) => spec_is_error_response(response, 400u16, "JSON processing error: "@ + cause@),
                CodecError::Json5(cause) => spec_is_error_response(response, 400u16, "JSON5 processing error: "@ + cause@),
                CodecError::Lexpr(cause) => spec_is_error_response(response, 400u16, "Lexpr processing error: "@ + cause@),
                CodecError::MessagePack(cause) => spec_is_error_response(response, 400u16, "Message Pack processing error: "@ + cause@),
                CodecError::Pickle(cause) => spec_is_error_response(response, 400u16, "Pickle processing error: "@ + cause@),
                CodecError::Postcard(cause) => spec_is_error_response(response, 400u16, "Postcard processing error: "@ + cause@),
                CodecError::Ron(cause) => spec_is_error_response(response, 400u16, "Ron processing error: "@ + cause@),
                CodecError::Toml(cause) => spec_is_error_response(response, 400u16, "TOML processing error: "@ + cause@),
                CodecError::UrlEncoding(cause) => spec_is_error_response(response, 400u16, "URL Encoded processing error: "@ + cause@),
                CodecError::Yaml(cause) => spec_is_error_response(response, 400u16, "YAML processing error: "@ + cause@),
                CodecError::Xml(cause) => spec_is_error_response(response, 400u16, "XML processing error: "@ + cause@),
                CodecError::TypeDoesNotSupportSerialization => spec_is_error_response(response, 400u16, "Payload datatype does not support De-/Serialization"@),
                CodecError::FailedConvertingHeaderValueToContentType => spec_is_error_response(response, 400u16, "Header for typecontent is not supported"@),
                CodecError::InvalidHeaderValue => spec_is_error_response(response, 400u16, "Header for typecontent is not supported"@),
                CodecError::Unknown => spec_is_error_response(response, 400u16, "Unknown payload content"@),
            },
    {
        match error {
            CodecError::Infallible => Hateoas::standard(StatusCode::InternalServerError, None, Some("How did you end up here?".to_owned())),
            CodecError::ByteToUtf8Conversion(_) => Hateoas::standard(StatusCode::BadRequest, None, Some("Payload data not readable into UTF8".to_owned())),
            CodecError::UnknownContentTypeMatch(_) => Hateoas::standard(StatusCode::BadRequest, None, Some("Unknown content type given".to_owned())),
            CodecError::Bson(cause) => Hateoas::standard(StatusCode::BadRequest, None, Some("BSON processing error: ".to_owned().concat(cause.as_str()))),
            CodecError::Cbor(cause) => Hateoas::standard(StatusCode::BadRequest, None, Some("CBOR processing error: ".to_owned().concat(cause.as_str()))),
            CodecError::FlexBuffers(cause) => Hateoas::standard(StatusCode::BadRequest, None, Some("Flexbuffer processing error: ".to_owned().concat(cause.as_str()))),
            CodecError::Json(cause) => Hateoas::standard(StatusCode::BadRequest, None, Some("JSON processing error: ".to_owned().concat(cause.as_str()))),
            CodecError::Json5(cause) => Hateoas::standard(StatusCode::BadRequest, None, Some("JSON5 processing error: ".to_owned().concat(cause.as_str()))),
            CodecError::Lexpr(cause) => Hateoas::standard(StatusCode::BadRequest, None, Some("Lexpr processing error: ".to_owned().concat(cause.as_str()))),
            CodecError::MessagePack(cause) => Hateoas::standard(StatusCode::BadRequest, None, Some("Message Pack processing error: ".to_owned().concat(cause.as_str()))),
            CodecError::Pickle(cause) => Hateoas::standard(StatusCode::BadRequest, None, Some("Pickle processing error: ".to_owned().concat(cause.as_str()))),
            CodecError::Postcard(cause) => Hateoas::standard(StatusCode::BadRequest, None, Some("Postcard processing error: ".to_owned().concat(cause.as_str()))),
            CodecError::Ron(cause) => Hateoas::standard(StatusCode::BadRequest, None, Some("Ron processing error: ".to_owned().concat(cause.as_str()))),
            CodecError::Toml(cause) => Hateoas::standard(StatusCode::BadRequest, None, Some("TOML processing error: ".to_owned().concat(cause.as_str()))),
            CodecError::UrlEncoding(cause) => Hateoas::standard(StatusCode::BadRequest, None, Some("URL Encoded processing error: ".to_owned().concat(cause.as_str()))),
            CodecError::Yaml(cause) => Hateoas::standard(StatusCode::BadRequest, None, Some("YAML processing error: ".to_owned().concat(cause.as_str()))),
            CodecError::Xml(cause) => Hateoas::standard(StatusCode::BadRequest, None, Some("XML processing error: ".to_owned().concat(cause.as_str()))),
            CodecError::TypeDoesNotSupportSerialization => Hateoas::standard(StatusCode::BadRequest, None, Some("Payload datatype does not support De-/Serialization".to_owned())),
            CodecError::FailedConvertingHeaderValueToContentType => Hateoas::standard(StatusCode::BadRequest, None, Some("Header for typecontent is not supported".to_owned())),
            CodecError::InvalidHeaderValue => Hateoas::standard(StatusCode::BadRequest, None, Some("Header for typecontent is not supported".to_owned())),
            CodecError::Unknown => Hateoas::standard(StatusCode::BadRequest, None, Some("Unknown payload content".to_owned())),
        }
    }
}

impl<T: HateoasResource> Default for Hateoas<T> {
    /// An envelope with fresh identifiers and every optional part absent.
    fn default() -> (response: Hateoas<T>)
        ensures
            response.api_version@ == spec_api_version::<T>(),
            response.kind@ == T::spec_kind(),
            response.metadata is None,
            response.spec is None,
            response.status is None,
    {
        Hateoas::new(None, None, None)
    }
}

impl<T: HateoasResource> Hateoas<T> {
    /// 100 Continue
    #[allow(non_snake_case)]
    pub fn CONTINUE(data: Option<T>, msg: Option<String>) -> (response: Hateoas<T>)
        ensures
            spec_is_standard_response(response, StatusCode::Continue, data, msg),
    {
        Hateoas::standard(StatusCode::Continue, data, msg)
    }

    /// 101 Switching Protocols
    #[allow(non_snake_case)]
    pub fn SWITCHING_PROTOCOLS(data: Option<T>, msg: Option<String>) -> (response: Hateoas<T>)
        ensures
            spec_is_standard_response(response, StatusCode::SwitchingProtocols, data, msg),
    {
        Hateoas::standard(StatusCode::SwitchingProtocols, data, msg)
    }

    /// 102 Processing
    #[allow(non_snake_case)]
    pub fn PROCESSING(data: Option<T>, msg: Option<String>) -> (response: Hateoas<T>)
        ensures
            spec_is_standard_response(response, StatusCode::Processing, data, msg),
    {
        Hateoas::standard(StatusCode::Processing, data, msg)
    }

    /// 200 OK
    #[allow(non_snake_case)]
    pub fn OK(data: Option<T>, msg: Option<String>) -> (response: Hateoas<T>)
        ensures
            spec_is_standard_response(response, StatusCode::OK, data, msg),
    {
        Hateoas::standard(StatusCode::OK, data, msg)
    }

    /// 201 Created
    #[allow(non_snake_case)]
    pub fn CREATED(data: Option<T>, msg: Option<String>) -> (response: Hateoas<T>)
        ensures
            spec_is_standard_response(response, StatusCode::Created, data, msg),
    {
        Hateoas::standard(StatusCode::Created, data, msg)
    }

    /// 202 Accepted
    #[allow(non_snake_case)]
    pub fn ACCEPTED(data: Option<T>, msg: Option<String>) -> (response: Hateoas<T>)
        ensures
            spec_is_standard_response(response, StatusCode::Accepted, data, msg),
    {
        Hateoas::standard(StatusCode::Accepted, data, msg)
    }

    /// 203 Non Authoritative Information
    #[allow(non_snake_case)]
    pub fn NON_AUTHORITATIVE_INFORMATION(data: Option<T>, msg: Option<String>) -> (response: Hateoas<T>)
        ensures
            spec_is_standard_response(response, StatusCode::NonAuthoritativeInformation, data, msg),
    {
        Hateoas::standard(StatusCode::NonAuthoritativeInformation, data, msg)
    }

    /// 204 No Content
    #[allow(non_snake_case)]
    pub fn NO_CONTENT(data: Option<T>, msg: Option<String>) -> (response: Hateoas<T>)
        ensures
            spec_is_standard_response(response, StatusCode::NoContent, data, msg),
    {
        Hateoas::standard(StatusCode::NoContent, data, msg)
    }

    /// 205 Reset Content
    #[allow(non_snake_case)]
    pub fn RESET_CONTENT(data: Option<T>, msg: Option<String>) -> (response: Hateoas<T>)
        ensures
            spec_is_standard_response(response, StatusCode::ResetContent, data, msg),
    {
        Hateoas::standard(StatusCode::ResetContent, data, msg)
    }

    /// 206 Partial Content
    #[allow(non_snake_case)]
    pub fn PARTIAL_CONTENT(data: Option<T>, msg: Option<String>) -> (response: Hateoas<T>)
        ensures
            spec_is_standard_response(response, StatusCode::PartialContent, data, msg),
    {
        Hateoas::standard(StatusCode::PartialContent, data, msg)
    }

    /// 207 Multi-Status
    #[allow(non_snake_case)]
    pub fn MULTI_STATUS(data: Option<T>, msg: Option<String>) -> (response: Hateoas<T>)
        ensures
            spec_is_standard_response(response, StatusCode::MultiStatus, data, msg),
    {
        Hateoas::standard(StatusCode::MultiStatus, data, msg)
    }

    /// 208 Already Reported
    #[allow(non_snake_case)]
    pub fn ALREADY_REPORTED(data: Option<T>, msg: Option<String>) -> (response: Hateoas<T>)
        ensures
            spec_is_standard_response(response, StatusCode::AlreadyReported, data, msg),
    {
        Hateoas::standard(StatusCode::AlreadyReported, data, msg)
    }

    /// 226 IM Used
    #[allow(non_snake_case)]
    pub fn IM_USED(data: Option<T>, msg: Option<String>) -> (response: Hateoas<T>)
        ensures
            spec_is_standard_response(response, StatusCode::IMUsed, data, msg),
    {
        Hateoas::standard(StatusCode::IMUsed, data, msg)
    }

    /// 300 Multiple Choices
    #[allow(non_snake_case)]
    pub fn MULTIPLE_CHOICES(data: Option<T>, msg: Option<String>) -> (response: Hateoas<T>)
        ensures
            spec_is_standard_response(response, StatusCode::MultipleChoices, data, msg),
    {
        Hateoas::standard(StatusCode::MultipleChoices, data, msg)
    }

    /// 301 Moved Permanently
    #[allow(non_snake_case)]
    pub fn MOVED_PERMANENTLY(data: Option<T>, msg: Option<String>) -> (response: Hateoas<T>)
        ensures
            spec_is_standard_response(response, StatusCode::MovedPermanently, data, msg),
    {
        Hateoas::standard(StatusCode::MovedPermanently, data, msg)
    }

    /// 302 Found
    #[allow(non_snake_case)]
    pub fn FOUND(data: Option<T>, msg: Option<String>) -> (response: Hateoas<T>)
        ensures
            spec_is_standard_response(response, StatusCode::Found, data, msg),
    {
        Hateoas::standard(StatusCode::Found, data, msg)
    }

    /// 303 See Other
    #[allow(non_snake_case)]
    pub fn SEE_OTHER(data: Option<T>, msg: Option<String>) -> (response: Hateoas<T>)
        ensures
            spec_is_standard_response(response, StatusCode::SeeOther, data, msg),
    {
        Hateoas::standard(StatusCode::SeeOther, data, msg)
    }

    /// 304 Not Modified
    #[allow(non_snake_case)]
    pub fn NOT_MODIFIED(data: Option<T>, msg: Option<String>) -> (response: Hateoas<T>)
        ensures
            spec_is_standard_response(response, StatusCode::NotModified, data, msg),
    {
        Hateoas::standard(StatusCode::NotModified, data, msg)
    }

    /// 305 Use Proxy
    #[allow(non_snake_case)]
    pub fn USE_PROXY(data: Option<T>, msg: Option<String>) -> (response: Hateoas<T>)
        ensures
            spec_is_standard_response(response, StatusCode::UseProxy, data, msg),
    {
        Hateoas::standard(StatusCode::UseProxy, data, msg)
    }

    /// 307 Temporary Redirect
    #[allow(non_snake_case)]
    pub fn TEMPORARY_REDIRECT(data: Option<T>, msg: Option<String>) -> (response: Hateoas<T>)
        ensures
            spec_is_standard_response(response, StatusCode::TemporaryRedirect, data, msg),
    {
        Hateoas::standard(StatusCode::TemporaryRedirect, data, msg)
    }

    /// 308 Permanent Redirect
    #[allow(non_snake_case)]
    pub fn PERMANENT_REDIRECT(data: Option<T>, msg: Option<String>) -> (response: Hateoas<T>)
        ensures
            spec_is_standard_response(response, StatusCode::PermanentRedirect, data, msg),
    {
        Hateoas::standard(StatusCode::PermanentRedirect, data, msg)
    }

    /// 400 Bad Request
    #[allow(non_snake_case)]
    pub fn BAD_REQUEST(data: Option<T>, msg: Option<String>) -> (response: Hateoas<T>)
        ensures
            spec_is_standard_response(response, StatusCode::BadRequest, data, msg),
    {
        Hateoas::standard(StatusCode::BadRequest, data, msg)
    }

    /// 401 Unauthorized
    #[allow(non_snake_case)]
    pub fn UNAUTHORIZED(data: Option<T>, msg: Option<String>) -> (response: Hateoas<T>)
        ensures
            spec_is_standard_response(response, StatusCode::Unauthorized, data, msg),
    {
        Hateoas::standard(StatusCode::Unauthorized, data, msg)
    }

    /// 402 Payment Required
    #[allow(non_snake_case)]
    pub fn PAYMENT_REQUIRED(data: Option<T>, msg: Option<String>) -> (response: Hateoas<T>)
        ensures
            spec_is_standard_response(response, StatusCode::PaymentRequired, data, msg),
    {
        Hateoas::standard(StatusCode::PaymentRequired, data, msg)
    }

    /// 403 Forbidden
    #[allow(non_snake_case)]
    pub fn FORBIDDEN(data: Option<T>, msg: Option<String>) -> (response: Hateoas<T>)
        ensures
            spec_is_standard_response(response, StatusCode::Forbidden, data, msg),
    {
        Hateoas::standard(StatusCode::Forbidden, data, msg)
    }

    /// 404 Not Found
    #[allow(non_snake_case)]
    pub fn NOT_FOUND(data: Option<T>, msg: Option<String>) -> (response: Hateoas<T>)
        ensures
            spec_is_standard_response(response, StatusCode::NotFound, data, msg),
    {
        Hateoas::standard(StatusCode::NotFound, data, msg)
    }

    /// 405 Method Not Allowed
    #[allow(non_snake_case)]
    pub fn METHOD_NOT_ALLOWED(data: Option<T>, msg: Option<String>) -> (response: Hateoas<T>)
        ensures
            spec_is_standard_response(response, StatusCode::MethodNotAllowed, data, msg),
    {
        Hateoas::standard(StatusCode::MethodNotAllowed, data, msg)
    }

    /// 406 Not Acceptable
    #[allow(non_snake_case)]
    pub fn NOT_ACCEPTABLE(data: Option<T>, msg: Option<String>) -> (response: Hateoas<T>)
        ensures
            spec_is_standard_response(response, StatusCode::NotAcceptable, data, msg),
    {
        Hateoas::standard(StatusCode::NotAcceptable, data, msg)
    }

    /// 407 Proxy Authentication Required
    #[allow(non_snake_case)]
    pub fn PROXY_AUTHENTICATION_REQUIRED(data: Option<T>, msg: Option<String>) -> (response: Hateoas<T>)
        ensures
            spec_is_standard_response(response, StatusCode::ProxyAuthenticationRequired, data, msg),
    {
        Hateoas::standard(StatusCode::ProxyAuthenticationRequired, data, msg)
    }

    /// 408 Request Timeout
    #[allow(non_snake_case)]
    pub fn REQUEST_TIMEOUT(data: Option<T>, msg: Option<String>) -> (response: Hateoas<T>)
        ensures
            spec_is_standard_response(response, StatusCode::RequestTimeout, data, msg),
    {
        Hateoas::standard(StatusCode::RequestTimeout, data, msg)
    }

    /// 409 Conflict
    #[allow(non_snake_case)]
    pub fn CONFLICT(data: Option<T>, msg: Option<String>) -> (response: Hateoas<T>)
        ensures
            spec_is_standard_response(response, StatusCode::Conflict, data, msg),
    {
        Hateoas::standard(StatusCode::Conflict, data, msg)
    }

    /// 410 Gone
    #[allow(non_snake_case)]
    pub fn GONE(data: Option<T>, msg: Option<String>) -> (response: Hateoas<T>)
        ensures
            spec_is_standard_response(response, StatusCode::Gone, data, msg),
    {
        Hateoas::standard(StatusCode::Gone, data, msg)
    }

    /// 411 Length Required
    #[allow(non_snake_case)]
    pub fn LENGTH_REQUIRED(data: Option<T>, msg: Option<String>) -> (response: Hateoas<T>)
        ensures
            spec_is_standard_response(response, StatusCode::LengthRequired, data, msg),
    {
        Hateoas::standard(StatusCode::LengthRequired, data, msg)
    }

    /// 412 Precondition Failed
    #[allow(non_snake_case)]
    pub fn PRECONDITION_FAILED(data: Option<T>, msg: Option<String>) -> (response: Hateoas<T>)
        ensures
            spec_is_standard_response(response, StatusCode::PreconditionFailed, data, msg),
    {
        Hateoas::standard(StatusCode::PreconditionFailed, data, msg)
    }

    /// 413 Payload Too Large
    #[allow(non_snake_case)]
    pub fn PAYLOAD_TOO_LARGE(data: Option<T>, msg: Option<String>) -> (response: Hateoas<T>)
        ensures
            spec_is_standard_response(response, StatusCode::PayloadTooLarge, data, msg),
    {
        Hateoas::standard(StatusCode::PayloadTooLarge, data, msg)
    }

    /// 414 URI Too Long
    #[allow(non_snake_case)]
    pub fn URI_TOO_LONG(data: Option<T>, msg: Option<String>) -> (response: Hateoas<T>)
        ensures
            spec_is_standard_response(response, StatusCode::URITooLong, data, msg),
    {
        Hateoas::standard(StatusCode::URITooLong, data, msg)
    }

    /// 415 Unsupported Media Type
    #[allow(non_snake_case)]
    pub fn UNSUPPORTED_MEDIA_TYPE(data: Option<T>, msg: Option<String>) -> (response: Hateoas<T>)
        ensures
            spec_is_standard_response(response, StatusCode::UnsupportedMediaType, data, msg),
    {
        Hateoas::standard(StatusCode::UnsupportedMediaType, data, msg)
    }

    /// 416 Range Not Satisfiable
    #[allow(non_snake_case)]
    pub fn RANGE_NOT_SATISFIABLE(data: Option<T>, msg: Option<String>) -> (response: Hateoas<T>)
        ensures
            spec_is_standard_response(response, StatusCode::RangeNotSatisfiable, data, msg),
    {
        Hateoas::standard(StatusCode::RangeNotSatisfiable, data, msg)
    }

    /// 417 Expectation Failed
    #[allow(non_snake_case)]
    pub fn EXPECTATION_FAILED(data: Option<T>, msg: Option<String>) -> (response: Hateoas<T>)
        ensures
            spec_is_standard_response(response, StatusCode::ExpectationFailed, data, msg),
    {
        Hateoas::standard(StatusCode::ExpectationFailed, data, msg)
    }

    /// 418 I'm a teapot
    #[allow(non_snake_case)]
    pub fn IM_A_TEAPOT(data: Option<T>, msg: Option<String>) -> (response: Hateoas<T>)
        ensures
            spec_is_standard_response(response, StatusCode::IAmATeapot, data, msg),
    {
        Hateoas::standard(StatusCode::IAmATeapot, data, msg)
    }

    /// 421 Misdirected Request
    #[allow(non_snake_case)]
    pub fn MISDIRECTED_REQUEST(data: Option<T>, msg: Option<String>) -> (response: Hateoas<T>)
        ensures
            spec_is_standard_response(response, StatusCode::MisdirectedRequest, data, msg),
    {
        Hateoas::standard(StatusCode::MisdirectedRequest, data, msg)
    }

    /// 422 Unprocessable Entity
    #[allow(non_snake_case)]
    pub fn UNPROCESSABLE_ENTITY(data: Option<T>, msg: Option<String>) -> (response: Hateoas<T>)
        ensures
            spec_is_standard_response(response, StatusCode::UnprocessableEntity, data, msg),
    {
        Hateoas::standard(StatusCode::UnprocessableEntity, data, msg)
    }

    /// 423 Locked
    #[allow(non_snake_case)]
    pub fn LOCKED(data: Option<T>, msg: Option<String>) -> (response: Hateoas<T>)
        ensures
            spec_is_standard_response(response, StatusCode::Locked, data, msg),
    {
        Hateoas::standard(StatusCode::Locked, data, msg)
    }

    /// 424 Failed Dependency
    #[allow(non_snake_case)]
    pub fn FAILED_DEPENDENCY(data: Option<T>, msg: Option<String>) -> (response: Hateoas<T>)
        ensures
            spec_is_standard_response(response, StatusCode::FailedDependency, data, msg),
    {
        Hateoas::standard(StatusCode::FailedDependency, data, msg)
    }

    /// 426 Upgrade Required
    #[allow(non_snake_case)]
    pub fn UPGRADE_REQUIRED(data: Option<T>, msg: Option<String>) -> (response: Hateoas<T>)
        ensures
            spec_is_standard_response(response, StatusCode::UpgradeRequired, data, msg),
    {
        Hateoas::standard(StatusCode::UpgradeRequired, data, msg)
    }

    /// 428 Precondition Required
    #[allow(non_snake_case)]
    pub fn PRECONDITION_REQUIRED(data: Option<T>, msg: Option<String>) -> (response: Hateoas<T>)
        ensures
            spec_is_standard_response(response, StatusCode::PreconditionRequired, data, msg),
    {
        Hateoas::standard(StatusCode::PreconditionRequired, data, msg)
    }

    /// 429 Too Many Requests
    #[allow(non_snake_case)]
    pub fn TOO_MANY_REQUESTS(data: Option<T>, msg: Option<String>) -> (response: Hateoas<T>)
        ensures
            spec_is_standard_response(response, StatusCode::TooManyRequests, data, msg),
    {
        Hateoas::standard(StatusCode::TooManyRequests, data, msg)
    }

    /// 431 Request Header Fields Too Large
    #[allow(non_snake_case)]
    pub fn REQUEST_HEADER_FIELDS_TOO_LARGE(data: Option<T>, msg: Option<String>) -> (response: Hateoas<T>)
        ensures
            spec_is_standard_response(response, StatusCode::RequestHeaderFieldsTooLarge, data, msg),
    {
        Hateoas::standard(StatusCode::RequestHeaderFieldsTooLarge, data, msg)
    }

    /// 451 Unavailable For Legal Reasons
    #[allow(non_snake_case)]
    pub fn UNAVAILABLE_FOR_LEGAL_REASONS(data: Option<T>, msg: Option<String>) -> (response: Hateoas<T>)
        ensures
            spec_is_standard_response(response, StatusCode::UnavailableForLegalReasons, data, msg),
    {
        Hateoas::standard(StatusCode::UnavailableForLegalReasons, data, msg)
    }

    /// 500 Internal Server Error
    #[allow(non_snake_case)]
    pub fn INTERNAL_SERVER_ERROR(data: Option<T>, msg: Option<String>) -> (response: Hateoas<T>)
        ensures
            spec_is_standard_response(response, StatusCode::InternalServerError, data, msg),
    {
        Hateoas::standard(StatusCode::InternalServerError, data, msg)
    }

    /// 501 Not Implemented
    #[allow(non_snake_case)]
    pub fn NOT_IMPLEMENTED(data: Option<T>, msg: Option<String>) -> (response: Hateoas<T>)
        ensures
            spec_is_standard_response(response, StatusCode::NotImplemented, data, msg),
    {
        Hateoas::standard(StatusCode::NotImplemented, data, msg)
    }

    /// 502 Bad Gateway
    #[allow(non_snake_case)]
    pub fn BAD_GATEWAY(data: Option<T>, msg: Option<String>) -> (response: Hateoas<T>)
        ensures
            spec_is_standard_response(response, StatusCode::BadGateway, data, msg),
    {
        Hateoas::standard(StatusCode::BadGateway, data, msg)
    }

    /// 503 Service Unavailable
    #[allow(non_snake_case)]
    pub fn SERVICE_UNAVAILABLE(data: Option<T>, msg: Option<String>) -> (response: Hateoas<T>)
        ensures
            spec_is_standard_response(response, StatusCode::ServiceUnavailable, data, msg),
    {
        Hateoas::standard(StatusCode::ServiceUnavailable, data, msg)
    }

    /// 504 Gateway Timeout
    #[allow(non_snake_case)]
    pub fn GATEWAY_TIMEOUT(data: Option<T>, msg: Option<String>) -> (response: Hateoas<T>)
        ensures
            spec_is_standard_response(response, StatusCode::GatewayTimeout, data, msg),
    {
        Hateoas::standard(StatusCode::GatewayTimeout, data, msg)
    }

    /// 505 HTTP Version Not Supported
    #[allow(non_snake_case)]
    pub fn HTTP_VERSION_NOT_SUPPORTED(data: Option<T>, msg: Option<String>) -> (response: Hateoas<T>)
        ensures
            spec_is_standard_response(response, StatusCode::HTTPVersionNotSupported, data, msg),
    {
        Hateoas::standard(StatusCode::HTTPVersionNotSupported, data, msg)
    }

    /// 506 Variant Also Negotiates
    #[allow(non_snake_case)]
    pub fn VARIANT_ALSO_NEGOTIATES(data: Option<T>, msg: Option<String>) -> (response: Hateoas<T>)
        ensures
            spec_is_standard_response(response, StatusCode::VariantAlsoNegotiates, data, msg),
    {
        Hateoas::standard(StatusCode::VariantAlsoNegotiates, data, msg)
    }

    /// 507 Insufficient Storage
    #[allow(non_snake_case)]
    pub fn INSUFFICIENT_STORAGE(data: Option<T>, msg: Option<String>) -> (response: Hateoas<T>)
        ensures
            spec_is_standard_response(response, StatusCode::InsufficientStorage, data, msg),
    {
        Hateoas::standard(StatusCode::InsufficientStorage, data, msg)
    }

    /// 508 Loop Detected
    #[allow(non_snake_case)]
    pub fn LOOP_DETECTED(data: Option<T>, msg: Option<String>) -> (response: Hateoas<T>)
        ensures
            spec_is_standard_response(response, StatusCode::LoopDetected, data, msg),
    {
        Hateoas::standard(StatusCode::LoopDetected, data, msg)
    }

    /// 510 Not Extended
    #[allow(non_snake_case)]
    pub fn NOT_EXTENDED(data: Option<T>, msg: Option<String>) -> (response: Hateoas<T>)
        ensures
            spec_is_standard_response(response, StatusCode::NotExtended, data, msg),
    {
        Hateoas::standard(StatusCode::NotExtended, data, msg)
    }

    /// 511 Network Authentication Required
    #[allow(non_snake_case)]
    pub fn NETWORK_AUTHENTICATION_REQUIRED(data: Option<T>, msg: Option<String>) -> (response: Hateoas<T>)
        ensures
            spec_is_standard_response(response, StatusCode::NetworkAuthenticationRequired, data, msg),
    {
        Hateoas::standard(StatusCode::NetworkAuthenticationRequired, data, msg)
    }

}

} // verus!
