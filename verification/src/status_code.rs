use vstd::prelude::*;

verus! {

/// A symbolic HTTP status code, one variant per entry of the standard
/// registry this library's constructors are built from; codes outside the
/// table travel through `Custom`.
#[derive(Debug, Clone, Copy, PartialEq, Eq, Structural)]
pub enum StatusCode {
    /// 100 Continue
    Continue,
    /// 101 Switching Protocols
    SwitchingProtocols,
    /// 102 Processing
    Processing,
    /// 200 OK
    OK,
    /// 201 Created
    Created,
    /// 202 Accepted
    Accepted,
    /// 203 Non Authoritative Information
    NonAuthoritativeInformation,
    /// 204 No Content
    NoContent,
    /// 205 Reset Content
    ResetContent,
    /// 206 Partial Content
    PartialContent,
    /// 207 Multi-Status
    MultiStatus,
    /// 208 Already Reported
    AlreadyReported,
    /// 226 IM Used
    IMUsed,
    /// 300 Multiple Choices
    MultipleChoices,
    /// 301 Moved Permanently
    MovedPermanently,
    /// 302 Found
    Found,
    /// 303 See Other
    SeeOther,
    /// 304 Not Modified
    NotModified,
    /// 305 Use Proxy
    UseProxy,
    /// 307 Temporary Redirect
    TemporaryRedirect,
    /// 308 Permanent Redirect
    PermanentRedirect,
    /// 400 Bad Request
    BadRequest,
    /// 401 Unauthorized
    Unauthorized,
    /// 402 Payment Required
    PaymentRequired,
    /// 403 Forbidden
    Forbidden,
    /// 404 Not Found
    NotFound,
    /// 405 Method Not Allowed
    MethodNotAllowed,
    /// 406 Not Acceptable
    NotAcceptable,
    /// 407 Proxy Authentication Required
    ProxyAuthenticationRequired,
    /// 408 Request Timeout
    RequestTimeout,
    /// 409 Conflict
    Conflict,
    /// 410 Gone
    Gone,
    /// 411 Length Required
    LengthRequired,
    /// 412 Precondition Failed
    PreconditionFailed,
    /// 413 Payload Too Large
    PayloadTooLarge,
    /// 414 URI Too Long
    URITooLong,
    /// 415 Unsupported Media Type
    UnsupportedMediaType,
    /// 416 Range Not Satisfiable
    RangeNotSatisfiable,
    /// 417 Expectation Failed
    ExpectationFailed,
    /// 418 I'm a teapot
    IAmATeapot,
    /// 421 Misdirected Request
    MisdirectedRequest,
    /// 422 Unprocessable Entity
    UnprocessableEntity,
    /// 423 Locked
    Locked,
    /// 424 Failed Dependency
    FailedDependency,
    /// 426 Upgrade Required
    UpgradeRequired,
    /// 428 Precondition Required
    PreconditionRequired,
    /// 429 Too Many Requests
    TooManyRequests,
    /// 431 Request Header Fields Too Large
    RequestHeaderFieldsTooLarge,
    /// 451 Unavailable For Legal Reasons
    UnavailableForLegalReasons,
    /// 500 Internal Server Error
    InternalServerError,
    /// 501 Not Implemented
    NotImplemented,
    /// 502 Bad Gateway
    BadGateway,
    /// 503 Service Unavailable
    ServiceUnavailable,
    /// 504 Gateway Timeout
    GatewayTimeout,
    /// 505 HTTP Version Not Supported
    HTTPVersionNotSupported,
    /// 506 Variant Also Negotiates
    VariantAlsoNegotiates,
    /// 507 Insufficient Storage
    InsufficientStorage,
    /// 508 Loop Detected
    LoopDetected,
    /// 510 Not Extended
    NotExtended,
    /// 511 Network Authentication Required
    NetworkAuthenticationRequired,
    /// A status code outside the standard table.
    Custom(u16),
}

impl StatusCode {
    /// The numeric value of this status code.
    pub open spec fn spec_code(self) -> u16 {
        match self {
            StatusCode::Continue => 100,
            StatusCode::SwitchingProtocols => 101,
            StatusCode::Processing => 102,
            StatusCode::OK => 200,
            StatusCode::Created => 201,
            StatusCode::Accepted => 202,
            StatusCode::NonAuthoritativeInformation => 203,
            StatusCode::NoContent => 204,
            StatusCode::ResetContent => 205,
            StatusCode::PartialContent => 206,
            StatusCode::MultiStatus => 207,
            StatusCode::AlreadyReported => 208,
            StatusCode::IMUsed => 226,
            StatusCode::MultipleChoices => 300,
            StatusCode::MovedPermanently => 301,
            StatusCode::Found => 302,
            StatusCode::SeeOther => 303,
            StatusCode::NotModified => 304,
            StatusCode::UseProxy => 305,
            StatusCode::TemporaryRedirect => 307,
            StatusCode::PermanentRedirect => 308,
            StatusCode::BadRequest => 400,
            StatusCode::Unauthorized => 401,
            StatusCode::PaymentRequired => 402,
            StatusCode::Forbidden => 403,
            StatusCode::NotFound => 404,
            StatusCode::MethodNotAllowed => 405,
            StatusCode::NotAcceptable => 406,
            StatusCode::ProxyAuthenticationRequired => 407,
            StatusCode::RequestTimeout => 408,
            StatusCode::Conflict => 409,
            StatusCode::Gone => 410,
            StatusCode::LengthRequired => 411,
            StatusCode::PreconditionFailed => 412,
            StatusCode::PayloadTooLarge => 413,
            StatusCode::URITooLong => 414,
            StatusCode::UnsupportedMediaType => 415,
            StatusCode::RangeNotSatisfiable => 416,
            StatusCode::ExpectationFailed => 417,
            StatusCode::IAmATeapot => 418,
            StatusCode::MisdirectedRequest => 421,
            StatusCode::UnprocessableEntity => 422,
            StatusCode::Locked => 423,
            StatusCode::FailedDependency => 424,
            StatusCode::UpgradeRequired => 426,
            StatusCode::PreconditionRequired => 428,
            StatusCode::TooManyRequests => 429,
            StatusCode::RequestHeaderFieldsTooLarge => 431,
            StatusCode::UnavailableForLegalReasons => 451,
            StatusCode::InternalServerError => 500,
            StatusCode::NotImplemented => 501,
            StatusCode::BadGateway => 502,
            StatusCode::ServiceUnavailable => 503,
            StatusCode::GatewayTimeout => 504,
            StatusCode::HTTPVersionNotSupported => 505,
            StatusCode::VariantAlsoNegotiates => 506,
            StatusCode::InsufficientStorage => 507,
            StatusCode::LoopDetected => 508,
            StatusCode::NotExtended => 510,
            StatusCode::NetworkAuthenticationRequired => 511,
            StatusCode::Custom(code) => code,
        }
    }

    /// The numeric value of this status code.
    pub fn code(&self) -> (code: u16)
        ensures
            code == self.spec_code(),
    {
        match self {
            StatusCode::Continue => 100,
            StatusCode::SwitchingProtocols => 101,
            StatusCode::Processing => 102,
            StatusCode::OK => 200,
            StatusCode::Created => 201,
            StatusCode::Accepted => 202,
            StatusCode::NonAuthoritativeInformation => 203,
            StatusCode::NoContent => 204,
            StatusCode::ResetContent => 205,
            StatusCode::PartialContent => 206,
            StatusCode::MultiStatus => 207,
            StatusCode::AlreadyReported => 208,
            StatusCode::IMUsed => 226,
            StatusCode::MultipleChoices => 300,
            StatusCode::MovedPermanently => 301,
            StatusCode::Found => 302,
            StatusCode::SeeOther => 303,
            StatusCode::NotModified => 304,
            StatusCode::UseProxy => 305,
            StatusCode::TemporaryRedirect => 307,
            StatusCode::PermanentRedirect => 308,
            StatusCode::BadRequest => 400,
            StatusCode::Unauthorized => 401,
            StatusCode::PaymentRequired => 402,
            StatusCode::Forbidden => 403,
            StatusCode::NotFound => 404,
            StatusCode::MethodNotAllowed => 405,
            StatusCode::NotAcceptable => 406,
            StatusCode::ProxyAuthenticationRequired => 407,
            StatusCode::RequestTimeout => 408,
            StatusCode::Conflict => 409,
            StatusCode::Gone => 410,
            StatusCode::LengthRequired => 411,
            StatusCode::PreconditionFailed => 412,
            StatusCode::PayloadTooLarge => 413,
            StatusCode::URITooLong => 414,
            StatusCode::UnsupportedMediaType => 415,
            StatusCode::RangeNotSatisfiable => 416,
            StatusCode::ExpectationFailed => 417,
            StatusCode::IAmATeapot => 418,
            StatusCode::MisdirectedRequest => 421,
            StatusCode::UnprocessableEntity => 422,
            StatusCode::Locked => 423,
            StatusCode::FailedDependency => 424,
            StatusCode::UpgradeRequired => 426,
            StatusCode::PreconditionRequired => 428,
            StatusCode::TooManyRequests => 429,
            StatusCode::RequestHeaderFieldsTooLarge => 431,
            StatusCode::UnavailableForLegalReasons => 451,
            StatusCode::InternalServerError => 500,
            StatusCode::NotImplemented => 501,
            StatusCode::BadGateway => 502,
            StatusCode::ServiceUnavailable => 503,
            StatusCode::GatewayTimeout => 504,
            StatusCode::HTTPVersionNotSupported => 505,
            StatusCode::VariantAlsoNegotiates => 506,
            StatusCode::InsufficientStorage => 507,
            StatusCode::LoopDetected => 508,
            StatusCode::NotExtended => 510,
            StatusCode::NetworkAuthenticationRequired => 511,
            StatusCode::Custom(code) => *code,
        }
    }

    /// The status code a numeric value stands for: the table entry that
    /// carries the value, or `Custom` where the table has none.
    pub open spec fn spec_from_code(code: u16) -> StatusCode {
        if code == 100 {
            StatusCode::Continue
        } else if code == 101 {
            StatusCode::SwitchingProtocols
        } else if code == 102 {
            StatusCode::Processing
        } else if code == 200 {
            StatusCode::OK
        } else if code == 201 {
            StatusCode::Created
        } else if code == 202 {
            StatusCode::Accepted
        } else if code == 203 {
            StatusCode::NonAuthoritativeInformation
        } else if code == 204 {
            StatusCode::NoContent
        } else if code == 205 {
            StatusCode::ResetContent
        } else if code == 206 {
            StatusCode::PartialContent
        } else if code == 207 {
            StatusCode::MultiStatus
        } else if code == 208 {
            StatusCode::AlreadyReported
        } else if code == 226 {
            StatusCode::IMUsed
        } else if code == 300 {
            StatusCode::MultipleChoices
        } else if code == 301 {
            StatusCode::MovedPermanently
        } else if code == 302 {
            StatusCode::Found
        } else if code == 303 {
            StatusCode::SeeOther
        } else if code == 304 {
            StatusCode::NotModified
        } else if code == 305 {
            StatusCode::UseProxy
        } else if code == 307 {
            StatusCode::TemporaryRedirect
        } else if code == 308 {
            StatusCode::PermanentRedirect
        } else if code == 400 {
            StatusCode::BadRequest
        } else if code == 401 {
            StatusCode::Unauthorized
        } else if code == 402 {
            StatusCode::PaymentRequired
        } else if code == 403 {
            StatusCode::Forbidden
        } else if code == 404 {
            StatusCode::NotFound
        } else if code == 405 {
            StatusCode::MethodNotAllowed
        } else if code == 406 {
            StatusCode::NotAcceptable
        } else if code == 407 {
            StatusCode::ProxyAuthenticationRequired
        } else if code == 408 {
            StatusCode::RequestTimeout
        } else if code == 409 {
            StatusCode::Conflict
        } else if code == 410 {
            StatusCode::Gone
        } else if code == 411 {
            StatusCode::LengthRequired
        } else if code == 412 {
            StatusCode::PreconditionFailed
        } else if code == 413 {
            StatusCode::PayloadTooLarge
        } else if code == 414 {
            StatusCode::URITooLong
        } else if code == 415 {
            StatusCode::UnsupportedMediaType
        } else if code == 416 {
            StatusCode::RangeNotSatisfiable
        } else if code == 417 {
            StatusCode::ExpectationFailed
        } else if code == 418 {
            StatusCode::IAmATeapot
        } else if code == 421 {
            StatusCode::MisdirectedRequest
        } else if code == 422 {
            StatusCode::UnprocessableEntity
        } else if code == 423 {
            StatusCode::Locked
        } else if code == 424 {
            StatusCode::FailedDependency
        } else if code == 426 {
            StatusCode::UpgradeRequired
        } else if code == 428 {
            StatusCode::PreconditionRequired
        } else if code == 429 {
            StatusCode::TooManyRequests
        } else if code == 431 {
            StatusCode::RequestHeaderFieldsTooLarge
        } else if code == 451 {
            StatusCode::UnavailableForLegalReasons
        } else if code == 500 {
            StatusCode::InternalServerError
        } else if code == 501 {
            StatusCode::NotImplemented
        } else if code == 502 {
            StatusCode::BadGateway
        } else if code == 503 {
            StatusCode::ServiceUnavailable
        } else if code == 504 {
            StatusCode::GatewayTimeout
        } else if code == 505 {
            StatusCode::HTTPVersionNotSupported
        } else if code == 506 {
            StatusCode::VariantAlsoNegotiates
        } else if code == 507 {
            StatusCode::InsufficientStorage
        } else if code == 508 {
            StatusCode::LoopDetected
        } else if code == 510 {
            StatusCode::NotExtended
        } else if code == 511 {
            StatusCode::NetworkAuthenticationRequired
        } else {
            StatusCode::Custom(code)
        }
    }

    /// The status code a numeric value stands for.
    pub fn from_code(code: u16) -> (status_code: StatusCode)
        ensures
            status_code == StatusCode::spec_from_code(code),
    {
        match code {
            100 => StatusCode::Continue,
            101 => StatusCode::SwitchingProtocols,
            102 => StatusCode::Processing,
            200 => StatusCode::OK,
            201 => StatusCode::Created,
            202 => StatusCode::Accepted,
            203 => StatusCode::NonAuthoritativeInformation,
            204 => StatusCode::NoContent,
            205 => StatusCode::ResetContent,
            206 => StatusCode::PartialContent,
            207 => StatusCode::MultiStatus,
            208 => StatusCode::AlreadyReported,
            226 => StatusCode::IMUsed,
            300 => StatusCode::MultipleChoices,
            301 => StatusCode::MovedPermanently,
            302 => StatusCode::Found,
            303 => StatusCode::SeeOther,
            304 => StatusCode::NotModified,
            305 => StatusCode::UseProxy,
            307 => StatusCode::TemporaryRedirect,
            308 => StatusCode::PermanentRedirect,
            400 => StatusCode::BadRequest,
            401 => StatusCode::Unauthorized,
            402 => StatusCode::PaymentRequired,
            403 => StatusCode::Forbidden,
            404 => StatusCode::NotFound,
            405 => StatusCode::MethodNotAllowed,
            406 => StatusCode::NotAcceptable,
            407 => StatusCode::ProxyAuthenticationRequired,
            408 => StatusCode::RequestTimeout,
            409 => StatusCode::Conflict,
            410 => StatusCode::Gone,
            411 => StatusCode::LengthRequired,
            412 => StatusCode::PreconditionFailed,
            413 => StatusCode::PayloadTooLarge,
            414 => StatusCode::URITooLong,
            415 => StatusCode::UnsupportedMediaType,
            416 => StatusCode::RangeNotSatisfiable,
            417 => StatusCode::ExpectationFailed,
            418 => StatusCode::IAmATeapot,
            421 => StatusCode::MisdirectedRequest,
            422 => StatusCode::UnprocessableEntity,
            423 => StatusCode::Locked,
            424 => StatusCode::FailedDependency,
            426 => StatusCode::UpgradeRequired,
            428 => StatusCode::PreconditionRequired,
            429 => StatusCode::TooManyRequests,
            431 => StatusCode::RequestHeaderFieldsTooLarge,
            451 => StatusCode::UnavailableForLegalReasons,
            500 => StatusCode::InternalServerError,
            501 => StatusCode::NotImplemented,
            502 => StatusCode::BadGateway,
            503 => StatusCode::ServiceUnavailable,
            504 => StatusCode::GatewayTimeout,
            505 => StatusCode::HTTPVersionNotSupported,
            506 => StatusCode::VariantAlsoNegotiates,
            507 => StatusCode::InsufficientStorage,
            508 => StatusCode::LoopDetected,
            510 => StatusCode::NotExtended,
            511 => StatusCode::NetworkAuthenticationRequired,
            _ => StatusCode::Custom(code),
        }
    }
}

/// A numeric status value freshly read off the wire, before it is
/// interpreted as a [`StatusCode`].
#[derive(Debug, Clone, Copy, PartialEq, Eq, Structural)]
pub struct U16New(pub u16);

/// 100 Continue
pub const CONTINUE: StatusCode = StatusCode::Continue;

/// 101 Switching Protocols
pub const SWITCHING_PROTOCOLS: StatusCode = StatusCode::SwitchingProtocols;

/// 102 Processing
pub const PROCESSING: StatusCode = StatusCode::Processing;

/// 200 OK
pub const OK: StatusCode = StatusCode::OK;

/// 201 Created
pub const CREATED: StatusCode = StatusCode::Created;

/// 202 Accepted
pub const ACCEPTED: StatusCode = StatusCode::Accepted;

/// 203 Non Authoritative Information
pub const NON_AUTHORITATIVE_INFORMATION: StatusCode = StatusCode::NonAuthoritativeInformation;

/// 204 No Content
pub const NO_CONTENT: StatusCode = StatusCode::NoContent;

/// 205 Reset Content
pub const RESET_CONTENT: StatusCode = StatusCode::ResetContent;

/// 206 Partial Content
pub const PARTIAL_CONTENT: StatusCode = StatusCode::PartialContent;

/// 207 Multi-Status
pub const MULTI_STATUS: StatusCode = StatusCode::MultiStatus;

/// 208 Already Reported
pub const ALREADY_REPORTED: StatusCode = StatusCode::AlreadyReported;

/// 226 IM Used
pub const IM_USED: StatusCode = StatusCode::IMUsed;

/// 300 Multiple Choices
pub const MULTIPLE_CHOICES: StatusCode = StatusCode::MultipleChoices;

/// 301 Moved Permanently
pub const MOVED_PERMANENTLY: StatusCode = StatusCode::MovedPermanently;

/// 302 Found
pub const FOUND: StatusCode = StatusCode::Found;

/// 303 See Other
pub const SEE_OTHER: StatusCode = StatusCode::SeeOther;

/// 304 Not Modified
pub const NOT_MODIFIED: StatusCode = StatusCode::NotModified;

/// 305 Use Proxy
pub const USE_PROXY: StatusCode = StatusCode::UseProxy;

/// 307 Temporary Redirect
pub const TEMPORARY_REDIRECT: StatusCode = StatusCode::TemporaryRedirect;

/// 308 Permanent Redirect
pub const PERMANENT_REDIRECT: StatusCode = StatusCode::PermanentRedirect;

/// 400 Bad Request
pub const BAD_REQUEST: StatusCode = StatusCode::BadRequest;

/// 401 Unauthorized
pub const UNAUTHORIZED: StatusCode = StatusCode::Unauthorized;

/// 402 Payment Required
pub const PAYMENT_REQUIRED: StatusCode = StatusCode::PaymentRequired;

/// 403 Forbidden
pub const FORBIDDEN: StatusCode = StatusCode::Forbidden;

/// 404 Not Found
pub const NOT_FOUND: StatusCode = StatusCode::NotFound;

/// 405 Method Not Allowed
pub const METHOD_NOT_ALLOWED: StatusCode = StatusCode::MethodNotAllowed;

/// 406 Not Acceptable
pub const NOT_ACCEPTABLE: StatusCode = StatusCode::NotAcceptable;

/// 407 Proxy Authentication Required
pub const PROXY_AUTHENTICATION_REQUIRED: StatusCode = StatusCode::ProxyAuthenticationRequired;

/// 408 Request Timeout
pub const REQUEST_TIMEOUT: StatusCode = StatusCode::RequestTimeout;

/// 409 Conflict
pub const CONFLICT: StatusCode = StatusCode::Conflict;

/// 410 Gone
pub const GONE: StatusCode = StatusCode::Gone;

/// 411 Length Required
pub const LENGTH_REQUIRED: StatusCode = StatusCode::LengthRequired;

/// 412 Precondition Failed
pub const PRECONDITION_FAILED: StatusCode = StatusCode::PreconditionFailed;

/// 413 Payload Too Large
pub const PAYLOAD_TOO_LARGE: StatusCode = StatusCode::PayloadTooLarge;

/// 414 URI Too Long
pub const URI_TOO_LONG: StatusCode = StatusCode::URITooLong;

/// 415 Unsupported Media Type
pub const UNSUPPORTED_MEDIA_TYPE: StatusCode = StatusCode::UnsupportedMediaType;

/// 416 Range Not Satisfiable
pub const RANGE_NOT_SATISFIABLE: StatusCode = StatusCode::RangeNotSatisfiable;

/// 417 Expectation Failed
pub const EXPECTATION_FAILED: StatusCode = StatusCode::ExpectationFailed;

/// 418 I'm a teapot
pub const IM_A_TEAPOT: StatusCode = StatusCode::IAmATeapot;

/// 421 Misdirected Request
pub const MISDIRECTED_REQUEST: StatusCode = StatusCode::MisdirectedRequest;

/// 422 Unprocessable Entity
pub const UNPROCESSABLE_ENTITY: StatusCode = StatusCode::UnprocessableEntity;

/// 423 Locked
pub const LOCKED: StatusCode = StatusCode::Locked;

/// 424 Failed Dependency
pub const FAILED_DEPENDENCY: StatusCode = StatusCode::FailedDependency;

/// 426 Upgrade Required
pub const UPGRADE_REQUIRED: StatusCode = StatusCode::UpgradeRequired;

/// 428 Precondition Required
pub const PRECONDITION_REQUIRED: StatusCode = StatusCode::PreconditionRequired;

/// 429 Too Many Requests
pub const TOO_MANY_REQUESTS: StatusCode = StatusCode::TooManyRequests;

/// 431 Request Header Fields Too Large
pub const REQUEST_HEADER_FIELDS_TOO_LARGE: StatusCode = StatusCode::RequestHeaderFieldsTooLarge;

/// 451 Unavailable For Legal Reasons
pub const UNAVAILABLE_FOR_LEGAL_REASONS: StatusCode = StatusCode::UnavailableForLegalReasons;

/// 500 Internal Server Error
pub const INTERNAL_SERVER_ERROR: StatusCode = StatusCode::InternalServerError;

/// 501 Not Implemented
pub const NOT_IMPLEMENTED: StatusCode = StatusCode::NotImplemented;

/// 502 Bad Gateway
pub const BAD_GATEWAY: StatusCode = StatusCode::BadGateway;

/// 503 Service Unavailable
pub const SERVICE_UNAVAILABLE: StatusCode = StatusCode::ServiceUnavailable;

/// 504 Gateway Timeout
pub const GATEWAY_TIMEOUT: StatusCode = StatusCode::GatewayTimeout;

/// 505 HTTP Version Not Supported
pub const HTTP_VERSION_NOT_SUPPORTED: StatusCode = StatusCode::HTTPVersionNotSupported;

/// 506 Variant Also Negotiates
pub const VARIANT_ALSO_NEGOTIATES: StatusCode = StatusCode::VariantAlsoNegotiates;

/// 507 Insufficient Storage
pub const INSUFFICIENT_STORAGE: StatusCode = StatusCode::InsufficientStorage;

/// 508 Loop Detected
pub const LOOP_DETECTED: StatusCode = StatusCode::LoopDetected;

/// 510 Not Extended
pub const NOT_EXTENDED: StatusCode = StatusCode::NotExtended;

/// 511 Network Authentication Required
pub const NETWORK_AUTHENTICATION_REQUIRED: StatusCode = StatusCode::NetworkAuthenticationRequired;

} // verus!
