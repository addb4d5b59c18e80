//! A typed envelope for API requests and responses.
//!
//! The envelope ([`Hateoas`]) composes a payload slot ([`Content`]), resource
//! metadata ([`Metadata`]), outcome information ([`Status`]) and hypermedia
//! links ([`RelLink`], [`RelLinkCollection`]) into one structure that can be
//! carried across wire formats. Around it stand the content-type negotiation
//! rules ([`ContentType`]) and the request-body assembler ([`BodyAssembler`]),
//! which buffers an inbound byte stream under a size limit and resolves the
//! decoded result into an envelope or a structured error ([`PayloadError`]).

mod annotations;
mod assembler;
mod codec_error;
mod content;
mod content_type;
mod error;
mod hateoas;
mod header_map;
mod header_value;
mod header_wire;
mod http_method;
mod metadata;
mod payload_control;
mod rel_link;
mod rel_link_collection;
mod resource;
mod session;
mod status;
pub mod status_code;

pub use crate::hateoas::Hateoas;
pub use annotations::Annotations;
pub use assembler::parse_content_length;
pub use assembler::resolve_decoded;
pub use assembler::BodyAssembler;
pub use codec_error::CodecError;
pub use content::Content;
pub use content_type::negotiate_content_type;
pub use content_type::resolve_content_type;
pub use content_type::ContentType;
pub use error::PayloadError;
pub use header_map::HeaderMap;
pub use header_value::HeaderValue;
pub use header_value::IntoHeaderValue;
pub use http_method::HttpMethod;
pub use metadata::Metadata;
pub use payload_control::DebuggableAny;
pub use payload_control::PayloadControl;
pub use rel_link::RelLink;
pub use rel_link_collection::IntoRelLink;
pub use rel_link_collection::RelLinkCollection;
pub use resource::HateoasResource;
pub use resource::ToHateoasResponse;
pub use session::SessionId;
pub use status::Status;
pub use status_code::StatusCode;
