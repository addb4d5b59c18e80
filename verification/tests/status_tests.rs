use hateoas::status_code;
use hateoas::{SessionId, Status, StatusCode};

#[test]
fn status_new_copies_the_message() {
    let status = Status::new(Some("hello world"), None, None, None);
    assert_eq!(status.message(), &Some("hello world".to_string()));
    assert_eq!(status.code(), &None);
    assert_eq!(status.http_status_code(), &None);
    assert_eq!(status.session(), &None);
}

#[test]
fn status_const_new_takes_owned_parts() {
    let session = SessionId::new(uuid::Uuid::new_v4().as_u128());
    let status = Status::const_new(Some("made".to_string()), Some(9), Some(207), Some(session));
    assert_eq!(status.message(), &Some("made".to_string()));
    assert_eq!(status.code(), &Some(9));
    assert_eq!(status.http_status_code(), &Some(207));
    assert_eq!(status.session(), &Some(session));
}

#[test]
fn status_mutators_reach_each_part() {
    let mut status = Status::new(Some("hello world"), Some(200), Some(200), None);

    *status.message_mut() = Some("Hello Space".to_string());
    assert_eq!(status.message(), &Some("Hello Space".to_string()));

    *status.code_mut() = Some(100);
    assert_eq!(status.code(), &Some(100));

    *status.http_status_code_mut() = Some(100);
    assert_eq!(status.http_status_code(), &Some(100));

    let session = SessionId::new(uuid::Uuid::new_v4().as_u128());
    *status.session_mut() = Some(session);
    assert_eq!(status.session(), &Some(session));
}

#[test]
fn status_get_hands_out_every_part_at_once() {
    let mut status = Status::new(Some("m"), Some(1), Some(2), None);
    {
        let (message, code, http, session) = status.get();
        assert_eq!(message, &Some("m".to_string()));
        assert_eq!(code, &Some(1));
        assert_eq!(http, &Some(2));
        assert_eq!(session, &None);
    }
    {
        let (message, _, _, _) = status.get_mut();
        *message = None;
    }
    assert_eq!(status.message(), &None);
}

#[test]
fn standard_status_carries_fixed_code_and_phrase() {
    let status = Status::OK(None);
    assert_eq!(
        status,
        Status::const_new(Some("OK".to_string()), None, Some(200), None)
    );

    let status = Status::PAYLOAD_TOO_LARGE(None);
    assert_eq!(status.http_status_code(), &Some(413));
    assert_eq!(status.message(), &Some("Payload Too Large".to_string()));

    let status = Status::MULTI_STATUS(None);
    assert_eq!(status.message(), &Some("Multi-Status".to_string()));
}

#[test]
fn standard_status_keeps_message_override() {
    let status = Status::NOT_FOUND(Some("nothing here".to_string()));
    assert_eq!(status.http_status_code(), &Some(404));
    assert_eq!(status.message(), &Some("nothing here".to_string()));
}

#[test]
fn status_codes_convert_both_ways() {
    assert_eq!(StatusCode::from_code(200), StatusCode::OK);
    assert_eq!(StatusCode::from_code(418), StatusCode::IAmATeapot);
    assert_eq!(StatusCode::from_code(511), StatusCode::NetworkAuthenticationRequired);
    assert_eq!(StatusCode::from_code(299), StatusCode::Custom(299));

    assert_eq!(StatusCode::OK.code(), 200);
    assert_eq!(StatusCode::Processing.code(), 102);
    assert_eq!(StatusCode::Custom(299).code(), 299);
    assert_eq!(status_code::IM_A_TEAPOT.code(), 418);
    assert_eq!(status_code::NETWORK_AUTHENTICATION_REQUIRED, StatusCode::NetworkAuthenticationRequired);
}

#[test]
fn session_id_keeps_its_value() {
    let raw = uuid::Uuid::new_v4();
    let session = SessionId::new(raw.as_u128());
    assert_eq!(session.value(), raw.as_u128());
    assert_eq!(uuid::Uuid::from_u128(session.value()), raw);
}

#[test]
fn u16_new_wraps_a_raw_code() {
    let raw = status_code::U16New(207);
    assert_eq!(raw.0, 207);
}

#[test]
fn status_default_is_fully_absent() {
    let status = Status::default();
    assert_eq!(status, Status::new(None, None, None, None));
}
