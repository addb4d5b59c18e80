use hateoas::{
    parse_content_length, resolve_decoded, BodyAssembler, Content, Hateoas, PayloadError, Status,
};

fn json_content_type() -> Vec<String> {
    vec!["application/json".to_string()]
}

#[test]
fn declared_length_over_limit_fails_before_any_chunk() {
    let started = BodyAssembler::new(&json_content_type(), Some(52428800), 41943040, 8192);
    match started {
        Err(PayloadError::OverflowKnownLength { length, limit }) => {
            assert_eq!(length, 52428800);
            assert_eq!(limit, 41943040);
        }
        other => panic!("expected a known-length overflow, got {:?}", other),
    }
}

#[test]
fn declared_length_within_limit_starts_buffering() {
    let assembler = BodyAssembler::new(&json_content_type(), Some(100), 41943040, 8192).unwrap();
    assert_eq!(assembler.length, Some(100));
    assert_eq!(assembler.limit, 41943040);
    assert_eq!(assembler.buf.len(), 0);
}

#[test]
fn missing_declared_length_is_tolerated() {
    let assembler = BodyAssembler::new(&json_content_type(), None, 1024, 16).unwrap();
    assert_eq!(assembler.length, None);
}

#[test]
fn missing_content_type_is_fatal() {
    let no_values: Vec<String> = vec![];
    assert_eq!(
        BodyAssembler::new(&no_values, None, 1024, 16).unwrap_err(),
        PayloadError::ContentType
    );
    let unusable = vec!["text/strange".to_string()];
    assert_eq!(
        BodyAssembler::new(&unusable, None, 1024, 16).unwrap_err(),
        PayloadError::ContentType
    );
}

#[test]
fn overflow_during_buffering_stops_before_decode() {
    let mut assembler = BodyAssembler::new(&json_content_type(), None, 1024, 16).unwrap();
    let chunk = vec![7u8; 500];

    assert_eq!(assembler.push_chunk(&chunk), Ok(()));
    assert_eq!(assembler.push_chunk(&chunk), Ok(()));
    // The third chunk pushes the total to 1500 of 2000 announced bytes,
    // over the 1024 limit: assembly ends here, the decode step is never
    // reached, and the partial buffer is discarded.
    assert_eq!(
        assembler.push_chunk(&chunk),
        Err(PayloadError::Overflow { limit: 1024 })
    );
    assert_eq!(assembler.buf.len(), 0);
}

#[test]
fn buffered_chunks_come_back_in_order() {
    let mut assembler = BodyAssembler::new(&json_content_type(), None, 1024, 16).unwrap();
    assert_eq!(assembler.push_chunk(b"hello "), Ok(()));
    assert_eq!(assembler.push_chunk(b"world"), Ok(()));
    let (content_type, body) = assembler.finish();
    assert_eq!(content_type, hateoas::ContentType::Json);
    assert_eq!(body, b"hello world".to_vec());
}

#[test]
fn chunk_exactly_at_the_limit_is_taken() {
    let mut assembler = BodyAssembler::new(&json_content_type(), None, 4, 4).unwrap();
    assert_eq!(assembler.push_chunk(b"abcd"), Ok(()));
    assert_eq!(
        assembler.push_chunk(b"e"),
        Err(PayloadError::Overflow { limit: 4 })
    );
}

#[test]
fn content_length_parses_exact_decimal_values() {
    assert_eq!(parse_content_length("0"), Some(0));
    assert_eq!(parse_content_length("123"), Some(123));
    assert_eq!(parse_content_length("52428800"), Some(52428800));
    assert_eq!(parse_content_length(""), None);
    assert_eq!(parse_content_length("12a"), None);
    assert_eq!(parse_content_length("-5"), None);
    assert_eq!(parse_content_length(" 5"), None);
    assert_eq!(parse_content_length("99999999999999999999999999"), None);
}

#[test]
fn decoded_envelope_is_taken_as_it_is() {
    let envelope: Hateoas<String> = Hateoas::ACCEPTED(Some("payload".to_string()), None);
    let resolved = resolve_decoded(Some(envelope.clone()), None, String::new()).unwrap();
    assert_eq!(resolved, envelope);
    assert_eq!(resolved.status().unwrap().http_status_code(), &Some(202));
}

#[test]
fn bare_payload_is_wrapped_as_an_ok_envelope() {
    let resolved: Hateoas<String> =
        resolve_decoded(None, Some("payload".to_string()), String::new()).unwrap();
    assert_eq!(
        resolved,
        Hateoas::new(
            Some(Content::new("payload".to_string())),
            None,
            Some(Status::OK(None))
        )
    );
}

#[test]
fn two_failed_attempts_surface_the_second_cause() {
    let resolved: Result<Hateoas<String>, PayloadError> =
        resolve_decoded(None, None, "expected value at line 1".to_string());
    assert_eq!(
        resolved.unwrap_err(),
        PayloadError::SerializationDeserializationError("expected value at line 1".to_string())
    );
}

#[test]
fn lowering_the_limit_re_checks_a_declared_length() {
    let assembler = BodyAssembler::new(&json_content_type(), Some(2048), 41943040, 16).unwrap();
    match assembler.limit(1024) {
        Err(PayloadError::OverflowKnownLength { length, limit }) => {
            assert_eq!(length, 2048);
            assert_eq!(limit, 1024);
        }
        other => panic!("expected a known-length overflow, got {:?}", other),
    }

    let assembler = BodyAssembler::new(&json_content_type(), Some(512), 41943040, 16).unwrap();
    let adjusted = assembler.limit(1024).unwrap();
    assert_eq!(adjusted.limit, 1024);
    assert_eq!(adjusted.length, Some(512));
}

#[test]
fn result_conversions_wrap_success_and_recover_failure() {
    let ok: Hateoas<String> =
        Hateoas::from_result(Ok(Hateoas::CREATED(Some("made".to_string()), None)));
    assert_eq!(ok.status().unwrap().http_status_code(), &Some(201));

    let recovered: Hateoas<String> =
        Hateoas::from_result(Err(PayloadError::Overflow { limit: 10 }));
    assert_eq!(recovered.status().unwrap().http_status_code(), &Some(413));

    let wrapped: Hateoas<String> = Hateoas::from_content_result(Ok("payload".to_string()));
    assert_eq!(wrapped.status().unwrap().http_status_code(), &Some(200));
    assert_eq!(wrapped.spec().unwrap().content(), &Some("payload".to_string()));

    let failed: Hateoas<String> = Hateoas::from_content_result(Err(PayloadError::ContentType));
    assert_eq!(failed.status().unwrap().http_status_code(), &Some(422));
}

#[test]
fn bare_payload_converts_into_a_content_slot() {
    let slot: Content<u32> = 7u32.into();
    assert_eq!(slot, Content::new(7));
    assert!(slot.has_content());
}
