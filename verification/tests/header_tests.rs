use hateoas::{HeaderMap, HeaderValue, Metadata};

#[test]
pub fn append_header() {
    let mut map = HeaderMap::new();
    map.append("Content-Type", "application/json");

    assert_eq!(HeaderMap::from(("Content-Type", "application/json")), map);
}

#[test]
pub fn test_headers_mut() {
    let uuid = uuid::Uuid::new_v4();
    let mut metadata = Metadata::default();

    metadata
        .headers_mut()
        .get_or_insert(Default::default())
        .append("test", uuid.to_string());
    metadata
        .headers_mut()
        .as_mut()
        .map(|t| t.append("test2", uuid.to_string()));

    let test_headers: HeaderMap = vec![
        ("test", uuid.to_string().as_str()),
        ("test2", uuid.to_string().as_str()),
    ]
    .into();
    assert_eq!(metadata.headers(), &Some(test_headers));
}

#[test]
fn duplicate_append_is_idempotent() {
    let mut map = HeaderMap::new();
    map.append("Accept", "application/json");
    map.append("Accept", "application/json");

    let values = map.get("Accept").unwrap().to_vec();
    assert_eq!(values, vec!["application/json".to_string()]);
}

#[test]
fn distinct_appends_keep_both_values() {
    let mut map = HeaderMap::new();
    map.append("Accept", "application/json");
    map.append("Accept", "application/x-yaml");

    let values = map.get("Accept").unwrap().to_vec();
    assert_eq!(values.len(), 2);
    assert!(values.contains(&"application/json".to_string()));
    assert!(values.contains(&"application/x-yaml".to_string()));
}

#[test]
fn set_replaces_the_whole_value_set() {
    let mut map = HeaderMap::new();
    map.append("Accept", "application/json");
    map.append("Accept", "application/x-yaml");
    map.set("Accept", "application/cbor");

    let values = map.get("Accept").unwrap().to_vec();
    assert_eq!(values, vec!["application/cbor".to_string()]);
    assert_eq!(map.len(), 1);
}

#[test]
fn get_first_returns_a_value_only_when_present() {
    let mut map = HeaderMap::new();
    assert_eq!(map.get_first("Accept"), None);
    map.append("Accept", "application/json");
    assert_eq!(map.get_first("Accept"), Some(&"application/json".to_string()));
    assert_eq!(map.get_first("accept"), None, "keys are case-sensitive as stored");
}

#[test]
fn extract_partitions_against_the_allow_list() {
    let mut map = HeaderMap::new();
    map.append("Accept", "application/json");
    map.append("X-Trace", "abc123");
    map.append("Content-Type", "application/json");

    let common = map.common_extract();
    assert_eq!(common.len(), 2);
    assert!(common.get("Accept").is_some());
    assert!(common.get("Content-Type").is_some());
    assert!(common.get("X-Trace").is_none());

    let uncommon = map.uncommon_extract();
    assert_eq!(uncommon.len(), 1);
    assert!(uncommon.get("X-Trace").is_some());
}

#[test]
fn extract_takes_exactly_the_listed_keys() {
    let mut map = HeaderMap::new();
    map.append("alpha", "1");
    map.append("beta", "2");
    map.append("gamma", "3");

    let listed = vec!["beta".to_string(), "delta".to_string()];
    let taken = map.extract(&listed);
    assert_eq!(taken.len(), 1);
    assert!(taken.get("beta").is_some());

    let left = map.inverse_extract(&listed);
    assert_eq!(left.len(), 2);
    assert!(left.get("alpha").is_some());
    assert!(left.get("gamma").is_some());
}

#[test]
fn header_value_collapses_duplicates() {
    let mut value = HeaderValue::new();
    value.append("a");
    value.append("a");
    value.append("b");
    assert_eq!(value.to_vec(), vec!["a".to_string(), "b".to_string()]);
}

#[test]
fn header_value_joins_bytes_in_storage_order() {
    let mut value = HeaderValue::new();
    value.append("ab");
    value.append("cd");
    assert_eq!(value.joined(), "abcd".to_string());
    assert_eq!(value.as_vec_u8(), b"abcd".to_vec());
}

#[test]
fn native_pairs_carry_every_valid_entry() {
    let mut map = HeaderMap::new();
    map.append("Content-Type", "application/json");
    map.append("X-Trace", "abc123");

    let pairs = map.to_native_pairs().unwrap();
    assert_eq!(pairs.len(), 2);
    assert_eq!(pairs[0].0, "Content-Type".to_string());
    assert_eq!(pairs[0].1, b"application/json".to_vec());
    assert_eq!(pairs[1].0, "X-Trace".to_string());
    assert_eq!(pairs[1].1, b"abc123".to_vec());
}

#[test]
fn native_pairs_report_a_refused_name() {
    let mut map = HeaderMap::new();
    map.append("bad name", "value");
    let refused = map.to_native_pairs().unwrap_err();
    assert_eq!(refused, "refused header: bad name".to_string());
}

#[test]
fn native_pairs_report_a_refused_value() {
    let mut map = HeaderMap::new();
    map.append("X-Trace", "line\nbreak");
    let refused = map.to_native_pairs().unwrap_err();
    assert_eq!(refused, "refused header: X-Trace".to_string());
}
