use hateoas::{HttpMethod, RelLink, RelLinkCollection};

#[test]
fn upsert_of_existing_relation_returns_the_previous_link() {
    let mut collection = RelLinkCollection::new(vec![
        RelLink::new("foo", "/foo/", HttpMethod::Get, None),
        RelLink::new("bar", "/bar/", HttpMethod::Get, None),
    ]);

    let previous = collection.add(RelLink::new("foo", "/foo-2/", HttpMethod::Connect, None));

    assert_eq!(previous, Some(RelLink::new("foo", "/foo/", HttpMethod::Get, None)));
    assert_eq!(
        collection.get("foo"),
        Some(&RelLink::new("foo", "/foo-2/", HttpMethod::Connect, None))
    );
    assert_eq!(collection.len(), 2);
}

#[test]
fn upsert_of_new_relation_appends_one_entry() {
    let mut collection = RelLinkCollection::default();
    assert_eq!(collection.len(), 0);

    let previous = collection.add(("rel_id", "/rel_path/", HttpMethod::Get));
    assert_eq!(previous, None);
    assert_eq!(collection.len(), 1);
    assert!(collection.has("rel_id"));
    assert!(!collection.has("other"));
}

#[test]
fn get_mut_updates_in_place() {
    let mut collection =
        RelLinkCollection::new(vec![RelLink::new("rel_id", "/rel_path/", HttpMethod::Get, None)]);
    if let Some(link) = collection.get_mut("rel_id") {
        *link = RelLink::new("rel_id_2", "/rel_path_2/", HttpMethod::Connect, None);
    }
    assert_eq!(
        collection.get("rel_id_2"),
        Some(&RelLink::new("rel_id_2", "/rel_path_2/", HttpMethod::Connect, None))
    );
    assert_eq!(collection.get("rel_id"), None);
}

#[test]
fn verb_constructors_fix_the_method() {
    let rel = RelLink::GET("object", "/path/to/objects");
    assert_eq!(rel, RelLink::new("object", "/path/to/objects", HttpMethod::Get, None));
    let rel = RelLink::DELETE("object", "/path/to/objects");
    assert_eq!(rel.method(), &HttpMethod::Delete);
    let rel = RelLink::PATCH("object", "/path/to/objects");
    assert_eq!(rel.method(), &HttpMethod::Patch);
}

#[test]
fn link_accessors_modify_each_part() {
    let mut rel = RelLink::new("somewhere_obj", "/somewhere/", HttpMethod::Get, None);
    assert_eq!(rel.href(), "/somewhere/");
    assert_eq!(rel.rel(), "somewhere_obj");

    *rel.href_mut() = "/somewhere_else/".to_string();
    assert_eq!(rel.href(), "/somewhere_else/");

    *rel.rel_mut() = "somewhere_obj_2".to_string();
    assert_eq!(rel.rel(), "somewhere_obj_2");

    *rel.method_mut() = HttpMethod::Connect;
    assert_eq!(rel.method(), &HttpMethod::Connect);

    rel.headers_mut().append("Content-Type", "application/json");
    assert!(rel.headers().get("Content-Type").is_some());
}
