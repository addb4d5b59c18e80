use vstd::prelude::*;

use crate::session::SessionId;
use crate::status_code::StatusCode;

verus! {

/// Outcome information attached to an envelope: a human message, an
/// application-defined code, the HTTP status code, and the session the
/// outcome belongs to.
#[derive(Debug, Clone, PartialEq)]
pub struct Status {
    pub message: Option<String>,
    pub code: Option<u32>,
    pub http_status_code: Option<u16>,
    pub session: Option<SessionId>,
}

impl Status {
    /// The canonical phrase of a standard status code, and the empty string
    /// for a `Custom` one.
    pub open spec fn spec_phrase(code: StatusCode) -> Seq<char> {
        match code {
            StatusCode::Continue => "Continue"@,
            StatusCode::SwitchingProtocols => "Switching Protocols"@,
            StatusCode::Processing => "Processing"@,
            StatusCode::OK => "OK"@,
            StatusCode::Created => "Created"@,
            StatusCode::Accepted => "Accepted"@,
            StatusCode::NonAuthoritativeInformation => "Non Authoritative Information"@,
            StatusCode::NoContent => "No Content"@,
            StatusCode::ResetContent => "Reset Content"@,
            StatusCode::PartialContent => "Partial Content"@,
            StatusCode::MultiStatus => "Multi-Status"@,
            StatusCode::AlreadyReported => "Already Reported"@,
            StatusCode::IMUsed => "IM Used"@,
            StatusCode::MultipleChoices => "Multiple Choices"@,
            StatusCode::MovedPermanently => "Moved Permanently"@,
            StatusCode::Found => "Found"@,
            StatusCode::SeeOther => "See Other"@,
            StatusCode::NotModified => "Not Modified"@,
            StatusCode::UseProxy => "Use Proxy"@,
            StatusCode::TemporaryRedirect => "Temporary Redirect"@,
            StatusCode::PermanentRedirect => "Permanent Redirect"@,
            StatusCode::BadRequest => "Bad Request"@,
            StatusCode::Unauthorized => "Unauthorized"@,
            StatusCode::PaymentRequired => "Payment Required"@,
            StatusCode::Forbidden => "Forbidden"@,
            StatusCode::NotFound => "Not Found"@,
            StatusCode::MethodNotAllowed => "Method Not Allowed"@,
            StatusCode::NotAcceptable => "Not Acceptable"@,
            StatusCode::ProxyAuthenticationRequired => "Proxy Authentication Required"@,
            StatusCode::RequestTimeout => "Request Timeout"@,
            StatusCode::Conflict => "Conflict"@,
            StatusCode::Gone => "Gone"@,
            StatusCode::LengthRequired => "Length Required"@,
            StatusCode::PreconditionFailed => "Precondition Failed"@,
            StatusCode::PayloadTooLarge => "Payload Too Large"@,
            StatusCode::URITooLong => "URI Too Long"@,
            StatusCode::UnsupportedMediaType => "Unsupported Media Type"@,
            StatusCode::RangeNotSatisfiable => "Range Not Satisfiable"@,
            StatusCode::ExpectationFailed => "Expectation Failed"@,
            StatusCode::IAmATeapot => "I'm a teapot"@,
            StatusCode::MisdirectedRequest => "Misdirected Request"@,
            StatusCode::UnprocessableEntity => "Unprocessable Entity"@,
            StatusCode::Locked => "Locked"@,
            StatusCode::FailedDependency => "Failed Dependency"@,
            StatusCode::UpgradeRequired => "Upgrade Required"@,
            StatusCode::PreconditionRequired => "Precondition Required"@,
            StatusCode::TooManyRequests => "Too Many Requests"@,
            StatusCode::RequestHeaderFieldsTooLarge => "Request Header Fields Too Large"@,
            StatusCode::UnavailableForLegalReasons => "Unavailable For Legal Reasons"@,
            StatusCode::InternalServerError => "Internal Server Error"@,
            StatusCode::NotImplemented => "Not Implemented"@,
            StatusCode::BadGateway => "Bad Gateway"@,
            StatusCode::ServiceUnavailable => "Service Unavailable"@,
            StatusCode::GatewayTimeout => "Gateway Timeout"@,
            StatusCode::HTTPVersionNotSupported => "HTTP Version Not Supported"@,
            StatusCode::VariantAlsoNegotiates => "Variant Also Negotiates"@,
            StatusCode::InsufficientStorage => "Insufficient Storage"@,
            StatusCode::LoopDetected => "Loop Detected"@,
            StatusCode::NotExtended => "Not Extended"@,
            StatusCode::NetworkAuthenticationRequired => "Network Authentication Required"@,
            StatusCode::Custom(_) => Seq::<char>::empty(),
        }
    }

    /// What a standard-status constructor returns: the fixed numeric code,
    /// the given message or else the canonical phrase, and nothing more.
    pub open spec fn is_standard(status: Status, code: StatusCode, msg: Option<String>) -> bool {
        &&& status.http_status_code == Some(code.spec_code())
        &&& status.code is None
        &&& status.session is None
        &&& status.message is Some
        &&& status.message->Some_0@ == if msg is Some {
            msg->Some_0@
        } else {
            Status::spec_phrase(code)
        }
    }

    /// The canonical phrase of a status code, as listed in the standard
    /// registry.
    pub fn canonical_phrase(code: &StatusCode) -> (phrase: String)
        ensures
            phrase@ == Status::spec_phrase(*code),
    {
        match code {
            StatusCode::Continue => "Continue".to_owned(),
            StatusCode::SwitchingProtocols => "Switching Protocols".to_owned(),
            StatusCode::Processing => "Processing".to_owned(),
            StatusCode::OK => "OK".to_owned(),
            StatusCode::Created => "Created".to_owned(),
            StatusCode::Accepted => "Accepted".to_owned(),
            StatusCode::NonAuthoritativeInformation => "Non Authoritative Information".to_owned(),
            StatusCode::NoContent => "No Content".to_owned(),
            StatusCode::ResetContent => "Reset Content".to_owned(),
            StatusCode::PartialContent => "Partial Content".to_owned(),
            StatusCode::MultiStatus => "Multi-Status".to_owned(),
            StatusCode::AlreadyReported => "Already Reported".to_owned(),
            StatusCode::IMUsed => "IM Used".to_owned(),
            StatusCode::MultipleChoices => "Multiple Choices".to_owned(),
            StatusCode::MovedPermanently => "Moved Permanently".to_owned(),
            StatusCode::Found => "Found".to_owned(),
            StatusCode::SeeOther => "See Other".to_owned(),
            StatusCode::NotModified => "Not Modified".to_owned(),
            StatusCode::UseProxy => "Use Proxy".to_owned(),
            StatusCode::TemporaryRedirect => "Temporary Redirect".to_owned(),
            StatusCode::PermanentRedirect => "Permanent Redirect".to_owned(),
            StatusCode::BadRequest => "Bad Request".to_owned(),
            StatusCode::Unauthorized => "Unauthorized".to_owned(),
            StatusCode::PaymentRequired => "Payment Required".to_owned(),
            StatusCode::Forbidden => "Forbidden".to_owned(),
            StatusCode::NotFound => "Not Found".to_owned(),
            StatusCode::MethodNotAllowed => "Method Not Allowed".to_owned(),
            StatusCode::NotAcceptable => "Not Acceptable".to_owned(),
            StatusCode::ProxyAuthenticationRequired => "Proxy Authentication Required".to_owned(),
            StatusCode::RequestTimeout => "Request Timeout".to_owned(),
            StatusCode::Conflict => "Conflict".to_owned(),
            StatusCode::Gone => "Gone".to_owned(),
            StatusCode::LengthRequired => "Length Required".to_owned(),
            StatusCode::PreconditionFailed => "Precondition Failed".to_owned(),
            StatusCode::PayloadTooLarge => "Payload Too Large".to_owned(),
            StatusCode::URITooLong => "URI Too Long".to_owned(),
            StatusCode::UnsupportedMediaType => "Unsupported Media Type".to_owned(),
            StatusCode::RangeNotSatisfiable => "Range Not Satisfiable".to_owned(),
            StatusCode::ExpectationFailed => "Expectation Failed".to_owned(),
            StatusCode::IAmATeapot => "I'm a teapot".to_owned(),
            StatusCode::MisdirectedRequest => "Misdirected Request".to_owned(),
            StatusCode::UnprocessableEntity => "Unprocessable Entity".to_owned(),
            StatusCode::Locked => "Locked".to_owned(),
            StatusCode::FailedDependency => "Failed Dependency".to_owned(),
            StatusCode::UpgradeRequired => "Upgrade Required".to_owned(),
            StatusCode::PreconditionRequired => "Precondition Required".to_owned(),
            StatusCode::TooManyRequests => "Too Many Requests".to_owned(),
            StatusCode::RequestHeaderFieldsTooLarge => "Request Header Fields Too Large".to_owned(),
            StatusCode::UnavailableForLegalReasons => "Unavailable For Legal Reasons".to_owned(),
            StatusCode::InternalServerError => "Internal Server Error".to_owned(),
            StatusCode::NotImplemented => "Not Implemented".to_owned(),
            StatusCode::BadGateway => "Bad Gateway".to_owned(),
            StatusCode::ServiceUnavailable => "Service Unavailable".to_owned(),
            StatusCode::GatewayTimeout => "Gateway Timeout".to_owned(),
            StatusCode::HTTPVersionNotSupported => "HTTP Version Not Supported".to_owned(),
            StatusCode::VariantAlsoNegotiates => "Variant Also Negotiates".to_owned(),
            StatusCode::InsufficientStorage => "Insufficient Storage".to_owned(),
            StatusCode::LoopDetected => "Loop Detected".to_owned(),
            StatusCode::NotExtended => "Not Extended".to_owned(),
            StatusCode::NetworkAuthenticationRequired => "Network Authentication Required".to_owned(),
            StatusCode::Custom(_) => String::new(),
        }
    }

    /// The data-driven constructor behind the standard-status family: the
    /// message is the given override or else the canonical phrase, the HTTP
    /// status code is the entry's numeric value, and the rest is absent.
    pub fn standard(code: StatusCode, msg: Option<String>) -> (status: Status)
        ensures
            Status::is_standard(status, code, msg),
    {
        let message = match msg {
            Some(m) => m,
            None => Status::canonical_phrase(&code),
        };
        Status {
            message: Some(message),
            code: None,
            http_status_code: Some(code.code()),
            session: None,
        }
    }

    /// 100 Continue
    #[allow(non_snake_case)]
    pub fn CONTINUE(msg: Option<String>) -> (status: Status)
        ensures
            Status::is_standard(status, StatusCode::Continue, msg),
    {
        Status::standard(StatusCode::Continue, msg)
    }

    /// 101 Switching Protocols
    #[allow(non_snake_case)]
    pub fn SWITCHING_PROTOCOLS(msg: Option<String>) -> (status: Status)
        ensures
            Status::is_standard(status, StatusCode::SwitchingProtocols, msg),
    {
        Status::standard(StatusCode::SwitchingProtocols, msg)
    }

    /// 102 Processing
    #[allow(non_snake_case)]
    pub fn PROCESSING(msg: Option<String>) -> (status: Status)
        ensures
            Status::is_standard(status, StatusCode::Processing, msg),
    {
        Status::standard(StatusCode::Processing, msg)
    }

    /// 200 OK
    #[allow(non_snake_case)]
    pub fn OK(msg: Option<String>) -> (status: Status)
        ensures
            Status::is_standard(status, StatusCode::OK, msg),
    {
        Status::standard(StatusCode::OK, msg)
    }

    /// 201 Created
    #[allow(non_snake_case)]
    pub fn CREATED(msg: Option<String>) -> (status: Status)
        ensures
            Status::is_standard(status, StatusCode::Created, msg),
    {
        Status::standard(StatusCode::Created, msg)
    }

    /// 202 Accepted
    #[allow(non_snake_case)]
    pub fn ACCEPTED(msg: Option<String>) -> (status: Status)
        ensures
            Status::is_standard(status, StatusCode::Accepted, msg),
    {
        Status::standard(StatusCode::Accepted, msg)
    }

    /// 203 Non Authoritative Information
    #[allow(non_snake_case)]
    pub fn NON_AUTHORITATIVE_INFORMATION(msg: Option<String>) -> (status: Status)
        ensures
            Status::is_standard(status, StatusCode::NonAuthoritativeInformation, msg),
    {
        Status::standard(StatusCode::NonAuthoritativeInformation, msg)
    }

    /// 204 No Content
    #[allow(non_snake_case)]
    pub fn NO_CONTENT(msg: Option<String>) -> (status: Status)
        ensures
            Status::is_standard(status, StatusCode::NoContent, msg),
    {
        Status::standard(StatusCode::NoContent, msg)
    }

    /// 205 Reset Content
    #[allow(non_snake_case)]
    pub fn RESET_CONTENT(msg: Option<String>) -> (status: Status)
        ensures
            Status::is_standard(status, StatusCode::ResetContent, msg),
    {
        Status::standard(StatusCode::ResetContent, msg)
    }

    /// 206 Partial Content
    #[allow(non_snake_case)]
    pub fn PARTIAL_CONTENT(msg: Option<String>) -> (status: Status)
        ensures
            Status::is_standard(status, StatusCode::PartialContent, msg),
    {
        Status::standard(StatusCode::PartialContent, msg)
    }

    /// 207 Multi-Status
    #[allow(non_snake_case)]
    pub fn MULTI_STATUS(msg: Option<String>) -> (status: Status)
        ensures
            Status::is_standard(status, StatusCode::MultiStatus, msg),
    {
        Status::standard(StatusCode::MultiStatus, msg)
    }

    /// 208 Already Reported
    #[allow(non_snake_case)]
    pub fn ALREADY_REPORTED(msg: Option<String>) -> (status: Status)
        ensures
            Status::is_standard(status, StatusCode::AlreadyReported, msg),
    {
        Status::standard(StatusCode::AlreadyReported, msg)
    }

    /// 226 IM Used
    #[allow(non_snake_case)]
    pub fn IM_USED(msg: Option<String>) -> (status: Status)
        ensures
            Status::is_standard(status, StatusCode::IMUsed, msg),
    {
        Status::standard(StatusCode::IMUsed, msg)
    }

    /// 300 Multiple Choices
    #[allow(non_snake_case)]
    pub fn MULTIPLE_CHOICES(msg: Option<String>) -> (status: Status)
        ensures
            Status::is_standard(status, StatusCode::MultipleChoices, msg),
    {
        Status::standard(StatusCode::MultipleChoices, msg)
    }

    /// 301 Moved Permanently
    #[allow(non_snake_case)]
    pub fn MOVED_PERMANENTLY(msg: Option<String>) -> (status: Status)
        ensures
            Status::is_standard(status, StatusCode::MovedPermanently, msg),
    {
        Status::standard(StatusCode::MovedPermanently, msg)
    }

    /// 302 Found
    #[allow(non_snake_case)]
    pub fn FOUND(msg: Option<String>) -> (status: Status)
        ensures
            Status::is_standard(status, StatusCode::Found, msg),
    {
        Status::standard(StatusCode::Found, msg)
    }

    /// 303 See Other
    #[allow(non_snake_case)]
    pub fn SEE_OTHER(msg: Option<String>) -> (status: Status)
        ensures
            Status::is_standard(status, StatusCode::SeeOther, msg),
    {
        Status::standard(StatusCode::SeeOther, msg)
    }

    /// 304 Not Modified
    #[allow(non_snake_case)]
    pub fn NOT_MODIFIED(msg: Option<String>) -> (status: Status)
        ensures
            Status::is_standard(status, StatusCode::NotModified, msg),
    {
        Status::standard(StatusCode::NotModified, msg)
    }

    /// 305 Use Proxy
    #[allow(non_snake_case)]
    pub fn USE_PROXY(msg: Option<String>) -> (status: Status)
        ensures
            Status::is_standard(status, StatusCode::UseProxy, msg),
    {
        Status::standard(StatusCode::UseProxy, msg)
    }

    /// 307 Temporary Redirect
    #[allow(non_snake_case)]
    pub fn TEMPORARY_REDIRECT(msg: Option<String>) -> (status: Status)
        ensures
            Status::is_standard(status, StatusCode::TemporaryRedirect, msg),
    {
        Status::standard(StatusCode::TemporaryRedirect, msg)
    }

    /// 308 Permanent Redirect
    #[allow(non_snake_case)]
    pub fn PERMANENT_REDIRECT(msg: Option<String>) -> (status: Status)
        ensures
            Status::is_standard(status, StatusCode::PermanentRedirect, msg),
    {
        Status::standard(StatusCode::PermanentRedirect, msg)
    }

    /// 400 Bad Request
    #[allow(non_snake_case)]
    pub fn BAD_REQUEST(msg: Option<String>) -> (status: Status)
        ensures
            Status::is_standard(status, StatusCode::BadRequest, msg),
    {
        Status::standard(StatusCode::BadRequest, msg)
    }

    /// 401 Unauthorized
    #[allow(non_snake_case)]
    pub fn UNAUTHORIZED(msg: Option<String>) -> (status: Status)
        ensures
            Status::is_standard(status, StatusCode::Unauthorized, msg),
    {
        Status::standard(StatusCode::Unauthorized, msg)
    }

    /// 402 Payment Required
    #[allow(non_snake_case)]
    pub fn PAYMENT_REQUIRED(msg: Option<String>) -> (status: Status)
        ensures
            Status::is_standard(status, StatusCode::PaymentRequired, msg),
    {
        Status::standard(StatusCode::PaymentRequired, msg)
    }

    /// 403 Forbidden
    #[allow(non_snake_case)]
    pub fn FORBIDDEN(msg: Option<String>) -> (status: Status)
        ensures
            Status::is_standard(status, StatusCode::Forbidden, msg),
    {
        Status::standard(StatusCode::Forbidden, msg)
    }

    /// 404 Not Found
    #[allow(non_snake_case)]
    pub fn NOT_FOUND(msg: Option<String>) -> (status: Status)
        ensures
            Status::is_standard(status, StatusCode::NotFound, msg),
    {
        Status::standard(StatusCode::NotFound, msg)
    }

    /// 405 Method Not Allowed
    #[allow(non_snake_case)]
    pub fn METHOD_NOT_ALLOWED(msg: Option<String>) -> (status: Status)
        ensures
            Status::is_standard(status, StatusCode::MethodNotAllowed, msg),
    {
        Status::standard(StatusCode::MethodNotAllowed, msg)
    }

    /// 406 Not Acceptable
    #[allow(non_snake_case)]
    pub fn NOT_ACCEPTABLE(msg: Option<String>) -> (status: Status)
        ensures
            Status::is_standard(status, StatusCode::NotAcceptable, msg),
    {
        Status::standard(StatusCode::NotAcceptable, msg)
    }

    /// 407 Proxy Authentication Required
    #[allow(non_snake_case)]
    pub fn PROXY_AUTHENTICATION_REQUIRED(msg: Option<String>) -> (status: Status)
        ensures
            Status::is_standard(status, StatusCode::ProxyAuthenticationRequired, msg),
    {
        Status::standard(StatusCode::ProxyAuthenticationRequired, msg)
    }

    /// 408 Request Timeout
    #[allow(non_snake_case)]
    pub fn REQUEST_TIMEOUT(msg: Option<String>) -> (status: Status)
        ensures
            Status::is_standard(status, StatusCode::RequestTimeout, msg),
    {
        Status::standard(StatusCode::RequestTimeout, msg)
    }

    /// 409 Conflict
    #[allow(non_snake_case)]
    pub fn CONFLICT(msg: Option<String>) -> (status: Status)
        ensures
            Status::is_standard(status, StatusCode::Conflict, msg),
    {
        Status::standard(StatusCode::Conflict, msg)
    }

    /// 410 Gone
    #[allow(non_snake_case)]
    pub fn GONE(msg: Option<String>) -> (status: Status)
        ensures
            Status::is_standard(status, StatusCode::Gone, msg),
    {
        Status::standard(StatusCode::Gone, msg)
    }

    /// 411 Length Required
    #[allow(non_snake_case)]
    pub fn LENGTH_REQUIRED(msg: Option<String>) -> (status: Status)
        ensures
            Status::is_standard(status, StatusCode::LengthRequired, msg),
    {
        Status::standard(StatusCode::LengthRequired, msg)
    }

    /// 412 Precondition Failed
    #[allow(non_snake_case)]
    pub fn PRECONDITION_FAILED(msg: Option<String>) -> (status: Status)
        ensures
            Status::is_standard(status, StatusCode::PreconditionFailed, msg),
    {
        Status::standard(StatusCode::PreconditionFailed, msg)
    }

    /// 413 Payload Too Large
    #[allow(non_snake_case)]
    pub fn PAYLOAD_TOO_LARGE(msg: Option<String>) -> (status: Status)
        ensures
            Status::is_standard(status, StatusCode::PayloadTooLarge, msg),
    {
        Status::standard(StatusCode::PayloadTooLarge, msg)
    }

    /// 414 URI Too Long
    #[allow(non_snake_case)]
    pub fn URI_TOO_LONG(msg: Option<String>) -> (status: Status)
        ensures
            Status::is_standard(status, StatusCode::URITooLong, msg),
    {
        Status::standard(StatusCode::URITooLong, msg)
    }

    /// 415 Unsupported Media Type
    #[allow(non_snake_case)]
    pub fn UNSUPPORTED_MEDIA_TYPE(msg: Option<String>) -> (status: Status)
        ensures
            Status::is_standard(status, StatusCode::UnsupportedMediaType, msg),
    {
        Status::standard(StatusCode::UnsupportedMediaType, msg)
    }

    /// 416 Range Not Satisfiable
    #[allow(non_snake_case)]
    pub fn RANGE_NOT_SATISFIABLE(msg: Option<String>) -> (status: Status)
        ensures
            Status::is_standard(status, StatusCode::RangeNotSatisfiable, msg),
    {
        Status::standard(StatusCode::RangeNotSatisfiable, msg)
    }

    /// 417 Expectation Failed
    #[allow(non_snake_case)]
    pub fn EXPECTATION_FAILED(msg: Option<String>) -> (status: Status)
        ensures
            Status::is_standard(status, StatusCode::ExpectationFailed, msg),
    {
        Status::standard(StatusCode::ExpectationFailed, msg)
    }

    /// 418 I'm a teapot
    #[allow(non_snake_case)]
    pub fn IM_A_TEAPOT(msg: Option<String>) -> (status: Status)
        ensures
            Status::is_standard(status, StatusCode::IAmATeapot, msg),
    {
        Status::standard(StatusCode::IAmATeapot, msg)
    }

    /// 421 Misdirected Request
    #[allow(non_snake_case)]
    pub fn MISDIRECTED_REQUEST(msg: Option<String>) -> (status: Status)
        ensures
            Status::is_standard(status, StatusCode::MisdirectedRequest, msg),
    {
        Status::standard(StatusCode::MisdirectedRequest, msg)
    }

    /// 422 Unprocessable Entity
    #[allow(non_snake_case)]
    pub fn UNPROCESSABLE_ENTITY(msg: Option<String>) -> (status: Status)
        ensures
            Status::is_standard(status, StatusCode::UnprocessableEntity, msg),
    {
        Status::standard(StatusCode::UnprocessableEntity, msg)
    }

    /// 423 Locked
    #[allow(non_snake_case)]
    pub fn LOCKED(msg: Option<String>) -> (status: Status)
        ensures
            Status::is_standard(status, StatusCode::Locked, msg),
    {
        Status::standard(StatusCode::Locked, msg)
    }

    /// 424 Failed Dependency
    #[allow(non_snake_case)]
    pub fn FAILED_DEPENDENCY(msg: Option<String>) -> (status: Status)
        ensures
            Status::is_standard(status, StatusCode::FailedDependency, msg),
    {
        Status::standard(StatusCode::FailedDependency, msg)
    }

    /// 426 Upgrade Required
    #[allow(non_snake_case)]
    pub fn UPGRADE_REQUIRED(msg: Option<String>) -> (status: Status)
        ensures
            Status::is_standard(status, StatusCode::UpgradeRequired, msg),
    {
        Status::standard(StatusCode::UpgradeRequired, msg)
    }

    /// 428 Precondition Required
    #[allow(non_snake_case)]
    pub fn PRECONDITION_REQUIRED(msg: Option<String>) -> (status: Status)
        ensures
            Status::is_standard(status, StatusCode::PreconditionRequired, msg),
    {
        Status::standard(StatusCode::PreconditionRequired, msg)
    }

    /// 429 Too Many Requests
    #[allow(non_snake_case)]
    pub fn TOO_MANY_REQUESTS(msg: Option<String>) -> (status: Status)
        ensures
            Status::is_standard(status, StatusCode::TooManyRequests, msg),
    {
        Status::standard(StatusCode::TooManyRequests, msg)
    }

    /// 431 Request Header Fields Too Large
    #[allow(non_snake_case)]
    pub fn REQUEST_HEADER_FIELDS_TOO_LARGE(msg: Option<String>) -> (status: Status)
        ensures
            Status::is_standard(status, StatusCode::RequestHeaderFieldsTooLarge, msg),
    {
        Status::standard(StatusCode::RequestHeaderFieldsTooLarge, msg)
    }

    /// 451 Unavailable For Legal Reasons
    #[allow(non_snake_case)]
    pub fn UNAVAILABLE_FOR_LEGAL_REASONS(msg: Option<String>) -> (status: Status)
        ensures
            Status::is_standard(status, StatusCode::UnavailableForLegalReasons, msg),
    {
        Status::standard(StatusCode::UnavailableForLegalReasons, msg)
    }

    /// 500 Internal Server Error
    #[allow(non_snake_case)]
    pub fn INTERNAL_SERVER_ERROR(msg: Option<String>) -> (status: Status)
        ensures
            Status::is_standard(status, StatusCode::InternalServerError, msg),
    {
        Status::standard(StatusCode::InternalServerError, msg)
    }

    /// 501 Not Implemented
    #[allow(non_snake_case)]
    pub fn NOT_IMPLEMENTED(msg: Option<String>) -> (status: Status)
        ensures
            Status::is_standard(status, StatusCode::NotImplemented, msg),
    {
        Status::standard(StatusCode::NotImplemented, msg)
    }

    /// 502 Bad Gateway
    #[allow(non_snake_case)]
    pub fn BAD_GATEWAY(msg: Option<String>) -> (status: Status)
        ensures
            Status::is_standard(status, StatusCode::BadGateway, msg),
    {
        Status::standard(StatusCode::BadGateway, msg)
    }

    /// 503 Service Unavailable
    #[allow(non_snake_case)]
    pub fn SERVICE_UNAVAILABLE(msg: Option<String>) -> (status: Status)
        ensures
            Status::is_standard(status, StatusCode::ServiceUnavailable, msg),
    {
        Status::standard(StatusCode::ServiceUnavailable, msg)
    }

    /// 504 Gateway Timeout
    #[allow(non_snake_case)]
    pub fn GATEWAY_TIMEOUT(msg: Option<String>) -> (status: Status)
        ensures
            Status::is_standard(status, StatusCode::GatewayTimeout, msg),
    {
        Status::standard(StatusCode::GatewayTimeout, msg)
    }

    /// 505 HTTP Version Not Supported
    #[allow(non_snake_case)]
    pub fn HTTP_VERSION_NOT_SUPPORTED(msg: Option<String>) -> (status: Status)
        ensures
            Status::is_standard(status, StatusCode::HTTPVersionNotSupported, msg),
    {
        Status::standard(StatusCode::HTTPVersionNotSupported, msg)
    }

    /// 506 Variant Also Negotiates
    #[allow(non_snake_case)]
    pub fn VARIANT_ALSO_NEGOTIATES(msg: Option<String>) -> (status: Status)
        ensures
            Status::is_standard(status, StatusCode::VariantAlsoNegotiates, msg),
    {
        Status::standard(StatusCode::VariantAlsoNegotiates, msg)
    }

    /// 507 Insufficient Storage
    #[allow(non_snake_case)]
    pub fn INSUFFICIENT_STORAGE(msg: Option<String>) -> (status: Status)
        ensures
            Status::is_standard(status, StatusCode::InsufficientStorage, msg),
    {
        Status::standard(StatusCode::InsufficientStorage, msg)
    }

    /// 508 Loop Detected
    #[allow(non_snake_case)]
    pub fn LOOP_DETECTED(msg: Option<String>) -> (status: Status)
        ensures
            Status::is_standard(status, StatusCode::LoopDetected, msg),
    {
        Status::standard(StatusCode::LoopDetected, msg)
    }

    /// 510 Not Extended
    #[allow(non_snake_case)]
    pub fn NOT_EXTENDED(msg: Option<String>) -> (status: Status)
        ensures
            Status::is_standard(status, StatusCode::NotExtended, msg),
    {
        Status::standard(StatusCode::NotExtended, msg)
    }

    /// 511 Network Authentication Required
    #[allow(non_snake_case)]
    pub fn NETWORK_AUTHENTICATION_REQUIRED(msg: Option<String>) -> (status: Status)
        ensures
            Status::is_standard(status, StatusCode::NetworkAuthenticationRequired, msg),
    {
        Status::standard(StatusCode::NetworkAuthenticationRequired, msg)
    }

}

impl Status {
    /// A status built from the given parts, copying the message out of the
    /// borrowed string.
    pub fn new(
        message: Option<&str>,
        code: Option<u32>,
        http_status_code: Option<u16>,
        session: Option<SessionId>,
    ) -> (status: Status)
        ensures
            message is Some ==> status.message is Some && status.message->Some_0@ == message->Some_0@,
            message is None ==> status.message is None,
            status.code == code,
            status.http_status_code == http_status_code,
            status.session == session,
    {
        let message_owned = match message {
            Some(m) => Some(m.to_owned()),
            None => None,
        };
        Status { message: message_owned, code, http_status_code, session }
    }

    /// A status built from already-owned parts.
    pub fn const_new(
        message: Option<String>,
        code: Option<u32>,
        http_status_code: Option<u16>,
        session: Option<SessionId>,
    ) -> (status: Status)
        ensures
            status == (Status { message, code, http_status_code, session }),
    {
        Status { message, code, http_status_code, session }
    }

    /// The human-readable outcome message.
    pub fn message(&self) -> (message: &Option<String>)
        ensures
            message == self.message,
    {
        &self.message
    }

    /// The outcome message, open for modification.
    pub fn message_mut(&mut self) -> (message: &mut Option<String>)
        ensures
            *message == old(self).message,
            final(self).message == *final(message),
            final(self).code == old(self).code,
            final(self).http_status_code == old(self).http_status_code,
            final(self).session == old(self).session,
    {
        &mut self.message
    }

    /// The application-defined outcome code.
    pub fn code(&self) -> (code: &Option<u32>)
        ensures
            code == self.code,
    {
        &self.code
    }

    /// The application-defined outcome code, open for modification.
    pub fn code_mut(&mut self) -> (code: &mut Option<u32>)
        ensures
            *code == old(self).code,
            final(self).code == *final(code),
            final(self).message == old(self).message,
            final(self).http_status_code == old(self).http_status_code,
            final(self).session == old(self).session,
    {
        &mut self.code
    }

    /// The HTTP status code of the outcome.
    pub fn http_status_code(&self) -> (http_status_code: &Option<u16>)
        ensures
            http_status_code == self.http_status_code,
    {
        &self.http_status_code
    }

    /// The HTTP status code, open for modification.
    pub fn http_status_code_mut(&mut self) -> (http_status_code: &mut Option<u16>)
        ensures
            *http_status_code == old(self).http_status_code,
            final(self).http_status_code == *final(http_status_code),
            final(self).message == old(self).message,
            final(self).code == old(self).code,
            final(self).session == old(self).session,
    {
        &mut self.http_status_code
    }

    /// The session identifier the outcome is correlated with.
    pub fn session(&self) -> (session: &Option<SessionId>)
        ensures
            session == self.session,
    {
        &self.session
    }

    /// The session identifier, open for modification.
    pub fn session_mut(&mut self) -> (session: &mut Option<SessionId>)
        ensures
            *session == old(self).session,
            final(self).session == *final(session),
            final(self).message == old(self).message,
            final(self).code == old(self).code,
            final(self).http_status_code == old(self).http_status_code,
    {
        &mut self.session
    }

    /// All four parts at once.
    pub fn get(&self) -> (parts: (&Option<String>, &Option<u32>, &Option<u16>, &Option<SessionId>))
        ensures
            parts.0 == self.message,
            parts.1 == self.code,
            parts.2 == self.http_status_code,
            parts.3 == self.session,
    {
        (&self.message, &self.code, &self.http_status_code, &self.session)
    }

    /// All four parts at once, open for modification.
    pub fn get_mut(&mut self) -> (parts: (
        &mut Option<String>,
        &mut Option<u32>,
        &mut Option<u16>,
        &mut Option<SessionId>,
    ))
        ensures
            *parts.0 == old(self).message,
            *parts.1 == old(self).code,
            *parts.2 == old(self).http_status_code,
            *parts.3 == old(self).session,
            final(self).message == *final(parts.0),
            final(self).code == *final(parts.1),
            final(self).http_status_code == *final(parts.2),
            final(self).session == *final(parts.3),
    {
        (&mut self.message, &mut self.code, &mut self.http_status_code, &mut self.session)
    }
}

impl Default for Status {
    /// A status with every part absent.
    fn default() -> (status: Status)
        ensures
            status.message is None,
            status.code is None,
            status.http_status_code is None,
            status.session is None,
    {
        Status { message: None, code: None, http_status_code: None, session: None }
    }
}

} // verus!
