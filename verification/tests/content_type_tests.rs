use hateoas::ContentType;
use hateoas::{negotiate_content_type, resolve_content_type};

#[test]
fn known_mime_strings_parse() {
    assert_eq!(ContentType::from_mime("application/json"), Some(ContentType::Json));
    assert_eq!(ContentType::from_mime("json"), Some(ContentType::Json));
    assert_eq!(ContentType::from_mime("application/x-json"), Some(ContentType::Json));
    assert_eq!(ContentType::from_mime("application/x-yaml"), Some(ContentType::Yaml));
    assert_eq!(ContentType::from_mime("yaml"), Some(ContentType::Yaml));
    assert_eq!(ContentType::from_mime("application/cbor"), Some(ContentType::Cbor));
    assert_eq!(ContentType::from_mime("application/x-ron"), Some(ContentType::Ron));
    assert_eq!(ContentType::from_mime("messagepack"), Some(ContentType::MessagePack));
    assert_eq!(ContentType::from_mime("application/json5"), Some(ContentType::Json5));
}

#[test]
fn mime_matching_ignores_ascii_case() {
    assert_eq!(ContentType::from_mime("Application/JSON"), Some(ContentType::Json));
    assert_eq!(ContentType::from_mime("APPLICATION/X-YAML"), Some(ContentType::Yaml));
    assert_eq!(ContentType::from_mime("ToMl"), Some(ContentType::Toml));
}

#[test]
fn unknown_mime_strings_fail_distinguishably() {
    assert_eq!(ContentType::from_mime("text/html"), None);
    assert_eq!(ContentType::from_mime(""), None);
    assert_eq!(ContentType::from_mime("jsonx"), None);
}

#[test]
fn canonical_mime_names_round_trip() {
    let all = vec![
        ContentType::Bson,
        ContentType::Cbor,
        ContentType::FlexBuffers,
        ContentType::Json,
        ContentType::Json5,
        ContentType::Lexpr,
        ContentType::MessagePack,
        ContentType::Pickle,
        ContentType::Postcard,
        ContentType::Ron,
        ContentType::Toml,
        ContentType::Yaml,
        ContentType::Xml,
    ];
    for content_type in all {
        assert_eq!(ContentType::from_mime(&content_type.as_mime()), Some(content_type));
    }
    // The adapter names the query-string format `application/x-url` on the
    // way out but only recognizes its `querystring` spellings on the way in.
    assert_eq!(ContentType::QueryString.as_mime(), "application/x-url".to_string());
    assert_eq!(ContentType::from_mime("application/x-url"), None);
    assert_eq!(
        ContentType::from_mime("application/x-querystring"),
        Some(ContentType::QueryString)
    );
}

#[test]
fn resolution_takes_the_first_usable_value() {
    let values = vec![
        "text/plain".to_string(),
        "application/x-yaml".to_string(),
        "application/json".to_string(),
    ];
    assert_eq!(resolve_content_type(&values), Some(ContentType::Yaml));
    assert_eq!(resolve_content_type(&vec!["nope".to_string()]), None);
}

#[test]
fn negotiation_defaults_to_json() {
    assert_eq!(negotiate_content_type(&vec![]), ContentType::Json);
    assert_eq!(negotiate_content_type(&vec!["text/plain".to_string()]), ContentType::Json);
    assert_eq!(
        negotiate_content_type(&vec!["application/x-ron".to_string()]),
        ContentType::Ron
    );
}
