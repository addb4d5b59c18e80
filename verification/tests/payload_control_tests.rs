use hateoas::{
    BodyAssembler, Content, Hateoas, HateoasResource, PayloadControl, PayloadError, Status,
};

// The `spec_` items of the library's traits are ghost descriptions: nothing
// ever runs them, so an implementation outside the verifier satisfies them
// with an unreachable body.

/// A payload type that caps its request bodies at 1 KiB.
struct TinyPayload;

impl PayloadControl for TinyPayload {
    fn spec_max_payload_size() -> Option<usize> {
        unreachable!()
    }

    fn spec_buffer_capacity() -> Option<usize> {
        unreachable!()
    }

    fn max_payload_size() -> Option<usize> {
        Some(1024)
    }

    fn buffer_capacity() -> Option<usize> {
        Some(64)
    }
}

/// A payload type that leaves every limit to the defaults.
struct DefaultPayload;

impl PayloadControl for DefaultPayload {
    fn spec_max_payload_size() -> Option<usize> {
        unreachable!()
    }

    fn spec_buffer_capacity() -> Option<usize> {
        unreachable!()
    }

    fn max_payload_size() -> Option<usize> {
        None
    }

    fn buffer_capacity() -> Option<usize> {
        None
    }
}

#[derive(Debug, Clone, PartialEq)]
struct RubberBullet {
    name: String,
    title: String,
    chapter: String,
}

impl HateoasResource for RubberBullet {
    fn spec_kind() -> vstd::prelude::Seq<char> {
        unreachable!()
    }

    fn spec_version() -> vstd::prelude::Seq<char> {
        unreachable!()
    }

    fn spec_group() -> vstd::prelude::Seq<char> {
        unreachable!()
    }

    fn spec_url_path_segment() -> vstd::prelude::Seq<char> {
        unreachable!()
    }

    fn kind() -> String {
        "RubberBullet".to_string()
    }

    fn version() -> String {
        "1.0.0".to_string()
    }

    fn group() -> String {
        "ammo.io".to_string()
    }

    fn url_path_segment() -> String {
        "rubber-bullet".to_string()
    }
}

fn json_content_type() -> Vec<String> {
    vec!["application/json".to_string()]
}

#[test]
fn configured_limit_governs_the_assembler() {
    let started = BodyAssembler::for_payload::<TinyPayload>(&json_content_type(), Some(2048));
    assert_eq!(
        started.unwrap_err(),
        PayloadError::OverflowKnownLength { length: 2048, limit: 1024 }
    );

    let assembler =
        BodyAssembler::for_payload::<TinyPayload>(&json_content_type(), Some(512)).unwrap();
    assert_eq!(assembler.limit, 1024);
}

#[test]
fn unset_limits_fall_back_to_the_defaults() {
    let assembler =
        BodyAssembler::for_payload::<DefaultPayload>(&json_content_type(), None).unwrap();
    assert_eq!(assembler.limit, 41943040);
}

#[test]
fn a_custom_resource_descriptor_drives_the_envelope() {
    let bullet = RubberBullet {
        name: "Rubber Bullet".to_string(),
        title: "The Bullet".to_string(),
        chapter: "A Rubber Bullet Hurts".to_string(),
    };

    let response = Hateoas::OK(Some(bullet.clone()), None);
    assert_eq!(response.kind(), &"RubberBullet".to_string());
    assert_eq!(response.api_version(), &"ammo.io/1.0.0".to_string());
    assert_eq!(
        response,
        Hateoas::new(Some(Content::new(bullet)), None, Some(Status::OK(None)))
    );
}
