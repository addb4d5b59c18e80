use vstd::prelude::*;

use std::collections::HashMap;

verus! {

/// The static resource descriptor of a payload type: the constants an
/// envelope derives its `apiVersion` and `kind` strings from.
pub trait HateoasResource {
    /// The resource kind as a mathematical value.
    spec fn spec_kind() -> Seq<char>;

    /// The schema version as a mathematical value.
    spec fn spec_version() -> Seq<char>;

    /// The owning group as a mathematical value.
    spec fn spec_group() -> Seq<char>;

    /// The URL path segment as a mathematical value.
    spec fn spec_url_path_segment() -> Seq<char>;

    /// What type of resource is being sent.
    fn kind() -> (kind: String)
        ensures
            kind@ == Self::spec_kind(),
    ;

    /// The version of the schema used for the expected resource.
    fn version() -> (version: String)
        ensures
            version@ == Self::spec_version(),
    ;

    /// The group this resource belongs under, usually the app or package
    /// domain.
    fn group() -> (group: String)
        ensures
            group@ == Self::spec_group(),
    ;

    /// The resource's URL endpoint segment, composable into
    /// `/[group]/[version]/[segment]`.
    fn url_path_segment() -> (segment: String)
        ensures
            segment@ == Self::spec_url_path_segment(),
    ;
}

impl HateoasResource for String {
    open spec fn spec_kind() -> Seq<char> {
        "String"@
    }

    open spec fn spec_version() -> Seq<char> {
        "0.0.1"@
    }

    open spec fn spec_group() -> Seq<char> {
        "hateoas.io"@
    }

    open spec fn spec_url_path_segment() -> Seq<char> {
        "string"@
    }

    fn kind() -> (kind: String) {
        "String".to_owned()
    }

    fn version() -> (version: String) {
        "0.0.1".to_owned()
    }

    fn group() -> (group: String) {
        "hateoas.io".to_owned()
    }

    fn url_path_segment() -> (segment: String) {
        "string".to_owned()
    }
}

impl HateoasResource for u16 {
    open spec fn spec_kind() -> Seq<char> {
        "U16"@
    }

    open spec fn spec_version() -> Seq<char> {
        "0.0.1"@
    }

    open spec fn spec_group() -> Seq<char> {
        "hateoas.io"@
    }

    open spec fn spec_url_path_segment() -> Seq<char> {
        "u16"@
    }

    fn kind() -> (kind: String) {
        "U16".to_owned()
    }

    fn version() -> (version: String) {
        "0.0.1".to_owned()
    }

    fn group() -> (group: String) {
        "hateoas.io".to_owned()
    }

    fn url_path_segment() -> (segment: String) {
        "u16".to_owned()
    }
}

impl HateoasResource for u32 {
    open spec fn spec_kind() -> Seq<char> {
        "U32"@
    }

    open spec fn spec_version() -> Seq<char> {
        "0.0.1"@
    }

    open spec fn spec_group() -> Seq<char> {
        "hateoas.io"@
    }

    open spec fn spec_url_path_segment() -> Seq<char> {
        "u32"@
    }

    fn kind() -> (kind: String) {
        "U32".to_owned()
    }

    fn version() -> (version: String) {
        "0.0.1".to_owned()
    }

    fn group() -> (group: String) {
        "hateoas.io".to_owned()
    }

    fn url_path_segment() -> (segment: String) {
        "u32".to_owned()
    }
}

impl HateoasResource for () {
    open spec fn spec_kind() -> Seq<char> {
        "Void"@
    }

    open spec fn spec_version() -> Seq<char> {
        "0.0.1"@
    }

    open spec fn spec_group() -> Seq<char> {
        "hateoas.io"@
    }

    open spec fn spec_url_path_segment() -> Seq<char> {
        "void"@
    }

    fn kind() -> (kind: String) {
        "Void".to_owned()
    }

    fn version() -> (version: String) {
        "0.0.1".to_owned()
    }

    fn group() -> (group: String) {
        "hateoas.io".to_owned()
    }

    fn url_path_segment() -> (segment: String) {
        "void".to_owned()
    }
}

impl HateoasResource for HashMap<String, String> {
    open spec fn spec_kind() -> Seq<char> {
        "HashMap"@
    }

    open spec fn spec_version() -> Seq<char> {
        "0.0.1"@
    }

    open spec fn spec_group() -> Seq<char> {
        "hateoas.io"@
    }

    open spec fn spec_url_path_segment() -> Seq<char> {
        "hashmap"@
    }

    fn kind() -> (kind: String) {
        "HashMap".to_owned()
    }

    fn version() -> (version: String) {
        "0.0.1".to_owned()
    }

    fn group() -> (group: String) {
        "hateoas.io".to_owned()
    }

    fn url_path_segment() -> (segment: String) {
        "hashmap".to_owned()
    }
}

/// Conversion of an application value into a response shape.
pub trait ToHateoasResponse<T> {
    /// Wraps the value as a response.
    fn to_hateoas_response(self) -> T;
}

} // verus!
