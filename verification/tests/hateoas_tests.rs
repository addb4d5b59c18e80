use hateoas::{CodecError, Content, Hateoas, Metadata, PayloadError, RelLinkCollection, Status};

#[test]
pub fn confirm_some_code() {}

#[test]
fn test_content_rel() {
    let mut content: Content<()> = Content::default();
    let rel = content.rel();
    assert_eq!(&mut RelLinkCollection::default(), rel);
}

#[test]
fn test_get_spec_on_none() {
    let mut response: Hateoas<String> = Hateoas::default();

    // Spec is absent at initialization time and is materialized by the
    // first mutable access.
    let spec = response.spec_mut();
    assert_eq!(&mut Content::default(), spec);
}

#[test]
fn test_for_automated_impl_hateoas() {
    let rickhateoas: Hateoas<String> = Hateoas::OK(Some("test".to_string()), None);

    assert_eq!(
        rickhateoas,
        Hateoas::new(
            Some(Content::new("test".to_string())),
            None,
            Some(Status::OK(None))
        )
    );
}

#[test]
fn new_envelope_has_derived_identifiers() {
    let response: Hateoas<String> = Hateoas::new(None, None, None);
    assert_eq!(response.kind(), &"String".to_string());
    assert_eq!(response.api_version(), &"hateoas.io/0.0.1".to_string());
    assert_eq!(response.metadata(), None);
    assert_eq!(response.spec(), None);
    assert_eq!(response.status(), None);
    assert_eq!(response, Hateoas::<String>::default());
}

#[test]
fn void_envelope_has_void_kind() {
    let response: Hateoas<()> = Hateoas::default();
    assert_eq!(response.kind(), &"Void".to_string());
    assert_eq!(response.api_version(), &"hateoas.io/0.0.1".to_string());
}

#[test]
fn metadata_is_lazily_materialized() {
    let mut response: Hateoas<()> = Hateoas::default();
    assert_eq!(None, response.metadata());

    assert_eq!(&mut Metadata::default(), response.metadata_mut());
    assert_eq!(Some(&Metadata::default()), response.metadata());

    // A second mutable access returns the same value: no reset.
    response.metadata_mut().add_annotation("foo", "bar");
    let again = response.metadata_mut();
    assert_eq!(again.annotations.as_ref().unwrap().get("foo"), Some(&"bar".to_string()));
}

#[test]
fn status_is_lazily_materialized() {
    let mut response: Hateoas<()> = Hateoas::default();
    assert_eq!(None, response.status());
    assert_eq!(&mut Status::default(), response.status_mut());
    assert_eq!(Some(&Status::default()), response.status());

    *response.status_mut().code_mut() = Some(7);
    assert_eq!(response.status_mut().code(), &Some(7));
}

#[test]
fn standard_envelope_carries_fixed_code_and_phrase() {
    let response: Hateoas<String> = Hateoas::NOT_FOUND(None, None);
    let status = response.status().unwrap();
    assert_eq!(status.http_status_code(), &Some(404));
    assert_eq!(status.message(), &Some("Not Found".to_string()));
    assert_eq!(status.code(), &None);
    assert_eq!(status.session(), &None);
    assert_eq!(response.spec(), None);
    assert_eq!(response.metadata(), None);
}

#[test]
fn standard_envelope_keeps_message_override() {
    let response: Hateoas<String> =
        Hateoas::IM_A_TEAPOT(Some("brew".to_string()), Some("short and stout".to_string()));
    let status = response.status().unwrap();
    assert_eq!(status.http_status_code(), &Some(418));
    assert_eq!(status.message(), &Some("short and stout".to_string()));
    let content = response.spec().unwrap();
    assert_eq!(content.content(), &Some("brew".to_string()));
    assert_eq!(content.rel, None);
}

#[test]
fn standard_envelope_edge_codes() {
    let low: Hateoas<()> = Hateoas::CONTINUE(None, None);
    assert_eq!(low.status().unwrap().http_status_code(), &Some(100));
    let high: Hateoas<()> = Hateoas::NETWORK_AUTHENTICATION_REQUIRED(None, None);
    assert_eq!(high.status().unwrap().http_status_code(), &Some(511));
    assert_eq!(
        high.status().unwrap().message(),
        &Some("Network Authentication Required".to_string())
    );
}

#[test]
fn response_status_code_defaults_to_ok() {
    let bare: Hateoas<()> = Hateoas::default();
    assert_eq!(bare.response_status_code(), 200);
    let teapot: Hateoas<()> = Hateoas::IM_A_TEAPOT(None, None);
    assert_eq!(teapot.response_status_code(), 418);
}

#[test]
fn oversize_errors_map_to_payload_too_large() {
    let known: Hateoas<()> =
        Hateoas::from_payload_error(&PayloadError::OverflowKnownLength { length: 50, limit: 40 });
    assert_eq!(known.status().unwrap().http_status_code(), &Some(413));
    assert_eq!(
        known.status().unwrap().message(),
        &Some("Content not matching expected length".to_string())
    );

    let during: Hateoas<()> = Hateoas::from_payload_error(&PayloadError::Overflow { limit: 40 });
    assert_eq!(during.status().unwrap().http_status_code(), &Some(413));
    assert_eq!(during.status().unwrap().message(), &Some("Payload too large".to_string()));
}

#[test]
fn content_type_errors_map_to_unprocessable_entity() {
    let missing: Hateoas<()> = Hateoas::from_payload_error(&PayloadError::ContentType);
    assert_eq!(missing.status().unwrap().http_status_code(), &Some(422));
    assert_eq!(missing.status().unwrap().message(), &Some("Unknown content type".to_string()));

    let decode: Hateoas<()> = Hateoas::from_payload_error(
        &PayloadError::SerializationDeserializationError("bad json".to_string()),
    );
    assert_eq!(decode.status().unwrap().http_status_code(), &Some(422));
    assert_eq!(decode.status().unwrap().message(), &Some("Unknown format".to_string()));
}

#[test]
fn unclassified_errors_map_to_internal_server_error() {
    let cases = vec![
        PayloadError::Payload("stream broke".to_string()),
        PayloadError::PayloadFailure(
            "/index.html".to_string(),
            Box::new(PayloadError::ContentType),
        ),
        PayloadError::NoPayloadSizeDefinitionInHeader,
        PayloadError::FailedToMapHeaderToStr("bad bytes".to_string()),
        PayloadError::Infallible,
        PayloadError::FailedToParseToInt("12a".to_string()),
        PayloadError::FailedToGetContentTypeFromHeader,
    ];
    for case in cases {
        let mapped: Hateoas<()> = Hateoas::from_payload_error(&case);
        assert_eq!(mapped.status().unwrap().http_status_code(), &Some(500));
        assert_eq!(
            mapped.status().unwrap().message(),
            &Some("Internal Server Error".to_string())
        );
        assert_eq!(mapped.spec(), None);
        assert_eq!(mapped.metadata(), None);
    }
}

#[test]
fn deserialize_and_serialize_errors_map_to_unknown_format() {
    let de: Hateoas<()> = Hateoas::from_payload_error(&PayloadError::Deserialize("x".to_string()));
    assert_eq!(de.status().unwrap().http_status_code(), &Some(422));
    let ser: Hateoas<()> = Hateoas::from_payload_error(&PayloadError::Serialize("y".to_string()));
    assert_eq!(ser.status().unwrap().http_status_code(), &Some(422));
    assert_eq!(ser.status().unwrap().message(), &Some("Unknown format".to_string()));
}

#[test]
fn content_tracks_payload_presence() {
    let with_payload = Content::new(41u32);
    assert!(with_payload.has_content());
    assert_eq!(with_payload.content(), &Some(41));

    let mut empty: Content<u32> = Content::default();
    assert!(!empty.has_content());
    *empty.content_mut() = Some(9);
    assert!(empty.has_content());
    assert_eq!(empty.content(), &Some(9));
}

#[test]
fn annotations_upsert_by_key() {
    let mut metadata = Metadata::default();
    metadata.add_annotation("foo", "bar");
    metadata.add_annotation("foo", "baz");
    metadata.add_annotation("quux", "1");

    let annotations = metadata.annotations.as_ref().unwrap();
    assert_eq!(annotations.len(), 2);
    assert_eq!(annotations.get("foo"), Some(&"baz".to_string()));
    assert_eq!(annotations.get("quux"), Some(&"1".to_string()));
    assert_eq!(annotations.get("missing"), None);
}

#[test]
fn codec_errors_map_onto_bad_request_with_their_cause() {
    let mapped: Hateoas<()> =
        Hateoas::from_codec_error(&CodecError::Json("expected value at line 1".to_string()));
    assert_eq!(mapped.status().unwrap().http_status_code(), &Some(400));
    assert_eq!(
        mapped.status().unwrap().message(),
        &Some("JSON processing error: expected value at line 1".to_string())
    );

    let mapped: Hateoas<()> = Hateoas::from_codec_error(&CodecError::Yaml("bad indent".to_string()));
    assert_eq!(mapped.status().unwrap().http_status_code(), &Some(400));
    assert_eq!(
        mapped.status().unwrap().message(),
        &Some("YAML processing error: bad indent".to_string())
    );

    let mapped: Hateoas<()> = Hateoas::from_codec_error(&CodecError::Infallible);
    assert_eq!(mapped.status().unwrap().http_status_code(), &Some(500));
    assert_eq!(
        mapped.status().unwrap().message(),
        &Some("How did you end up here?".to_string())
    );

    let mapped: Hateoas<()> =
        Hateoas::from_codec_error(&CodecError::UnknownContentTypeMatch("text/odd".to_string()));
    assert_eq!(mapped.status().unwrap().http_status_code(), &Some(400));
    assert_eq!(
        mapped.status().unwrap().message(),
        &Some("Unknown content type given".to_string())
    );

    let mapped: Hateoas<()> = Hateoas::from_codec_error(&CodecError::Unknown);
    assert_eq!(mapped.status().unwrap().http_status_code(), &Some(400));
    assert_eq!(
        mapped.status().unwrap().message(),
        &Some("Unknown payload content".to_string())
    );
}
