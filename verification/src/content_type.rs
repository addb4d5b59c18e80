use vstd::prelude::*;

verus! {

/// A wire format the codec adapter can encode to and decode from, named by
/// its MIME-type strings.
#[derive(Debug, Clone, Copy, PartialEq, Eq, Structural)]
pub enum ContentType {
    /// `application/x-bson`
    Bson,
    /// `application/x-cbor`
    Cbor,
    /// `application/x-flexbuffers`
    FlexBuffers,
    /// `application/json`
    Json,
    /// `application/json5`
    Json5,
    /// `application/x-lexpr`
    Lexpr,
    /// `application/x-messagepack`
    MessagePack,
    /// `application/x-pickle`
    Pickle,
    /// `application/x-postcard`
    Postcard,
    /// `application/ron`
    Ron,
    /// `application/toml`
    Toml,
    /// `application/x-url`
    QueryString,
    /// `application/yaml`
    Yaml,
    /// `application/xml`
    Xml,
}

/// Whether a character equals an expected lowercase character up to ASCII
/// case: either exactly, or as its uppercase form.
pub open spec fn spec_char_matches_ci(c: char, lower: char) -> bool {
    ||| c == lower
    ||| (65 <= c as u32 <= 90 && c as u32 + 32 == lower as u32)
}

/// Whether a string equals an expected lowercase string up to ASCII case.
pub open spec fn spec_str_matches_ci(s: Seq<char>, lower: Seq<char>) -> bool {
    s.len() == lower.len() && forall|i: int|
        0 <= i < s.len() ==> spec_char_matches_ci(s[i], lower[i])
}

/// The content type a MIME-type string names, tried in the adapter's fixed
/// order: each format under its short name, its plain `application/` name and
/// its `application/x-` name, compared without regard to ASCII case.
pub open spec fn spec_from_mime(s: Seq<char>) -> Option<ContentType> {
    if spec_str_matches_ci(s, "bson"@) {
        Some(ContentType::Bson)
    } else if spec_str_matches_ci(s, "application/bson"@) {
        Some(ContentType::Bson)
    } else if spec_str_matches_ci(s, "application/x-bson"@) {
        Some(ContentType::Bson)
    } else if spec_str_matches_ci(s, "cbor"@) {
        Some(ContentType::Cbor)
    } else if spec_str_matches_ci(s, "application/cbor"@) {
        Some(ContentType::Cbor)
    } else if spec_str_matches_ci(s, "application/x-cbor"@) {
        Some(ContentType::Cbor)
    } else if spec_str_matches_ci(s, "flexbuffers"@) {
        Some(ContentType::FlexBuffers)
    } else if spec_str_matches_ci(s, "application/flexbuffers"@) {
        Some(ContentType::FlexBuffers)
    } else if spec_str_matches_ci(s, "application/x-flexbuffers"@) {
        Some(ContentType::FlexBuffers)
    } else if spec_str_matches_ci(s, "json"@) {
        Some(ContentType::Json)
    } else if spec_str_matches_ci(s, "application/json"@) {
        Some(ContentType::Json)
    } else if spec_str_matches_ci(s, "application/x-json"@) {
        Some(ContentType::Json)
    } else if spec_str_matches_ci(s, "json5"@) {
        Some(ContentType::Json5)
    } else if spec_str_matches_ci(s, "application/json5"@) {
        Some(ContentType::Json5)
    } else if spec_str_matches_ci(s, "application/x-json5"@) {
        Some(ContentType::Json5)
    } else if spec_str_matches_ci(s, "lexpr"@) {
        Some(ContentType::Lexpr)
    } else if spec_str_matches_ci(s, "application/lexpr"@) {
        Some(ContentType::Lexpr)
    } else if spec_str_matches_ci(s, "application/x-lexpr"@) {
        Some(ContentType::Lexpr)
    } else if spec_str_matches_ci(s, "messagepack"@) {
        Some(ContentType::MessagePack)
    } else if spec_str_matches_ci(s, "application/messagepack"@) {
        Some(ContentType::MessagePack)
    } else if spec_str_matches_ci(s, "application/x-messagepack"@) {
        Some(ContentType::MessagePack)
    } else if spec_str_matches_ci(s, "pickle"@) {
        Some(ContentType::Pickle)
    } else if spec_str_matches_ci(s, "application/pickle"@) {
        Some(ContentType::Pickle)
    } else if spec_str_matches_ci(s, "application/x-pickle"@) {
        Some(ContentType::Pickle)
    } else if spec_str_matches_ci(s, "postcard"@) {
        Some(ContentType::Postcard)
    } else if spec_str_matches_ci(s, "application/postcard"@) {
        Some(ContentType::Postcard)
    } else if spec_str_matches_ci(s, "application/x-postcard"@) {
        Some(ContentType::Postcard)
    } else if spec_str_matches_ci(s, "ron"@) {
        Some(ContentType::Ron)
    } else if spec_str_matches_ci(s, "application/ron"@) {
        Some(ContentType::Ron)
    } else if spec_str_matches_ci(s, "application/x-ron"@) {
        Some(ContentType::Ron)
    } else if spec_str_matches_ci(s, "toml"@) {
        Some(ContentType::Toml)
    } else if spec_str_matches_ci(s, "application/toml"@) {
        Some(ContentType::Toml)
    } else if spec_str_matches_ci(s, "application/x-toml"@) {
        Some(ContentType::Toml)
    } else if spec_str_matches_ci(s, "querystring"@) {
        Some(ContentType::QueryString)
    } else if spec_str_matches_ci(s, "application/querystring"@) {
        Some(ContentType::QueryString)
    } else if spec_str_matches_ci(s, "application/x-querystring"@) {
        Some(ContentType::QueryString)
    } else if spec_str_matches_ci(s, "yaml"@) {
        Some(ContentType::Yaml)
    } else if spec_str_matches_ci(s, "application/yaml"@) {
        Some(ContentType::Yaml)
    } else if spec_str_matches_ci(s, "application/x-yaml"@) {
        Some(ContentType::Yaml)
    } else if spec_str_matches_ci(s, "xml"@) {
        Some(ContentType::Xml)
    } else if spec_str_matches_ci(s, "application/xml"@) {
        Some(ContentType::Xml)
    } else if spec_str_matches_ci(s, "application/x-xml"@) {
        Some(ContentType::Xml)
    } else {
        None
    }
}

/// Whether a string equals an expected lowercase string up to ASCII case.
fn str_matches_ci(s: &str, lower: &str) -> (matches: bool)
    ensures
        matches == spec_str_matches_ci(s@, lower@),
{
    let s_len = s.unicode_len();
    let lower_len = lower.unicode_len();
    if s_len != lower_len {
        return false;
    }
    let mut i: usize = 0;
    while i < s_len
        invariant
            i <= s_len,
            s_len == s@.len(),
            s_len == lower@.len(),
            forall|j: int| 0 <= j < i ==> spec_char_matches_ci(s@[j], lower@[j]),
        decreases s_len - i,
    {
        let c = s.get_char(i);
        let lc = lower.get_char(i);
        let cu = c as u32;
        let lu = lc as u32;
        if !(c == lc || (65 <= cu && cu <= 90 && cu + 32 == lu)) {
            return false;
        }
        i = i + 1;
    }
    true
}

impl ContentType {
    /// The content type a MIME-type string names, if the adapter knows the
    /// string; ASCII case is ignored.
    pub fn from_mime(s: &str) -> (found: Option<ContentType>)
        ensures
            found == spec_from_mime(s@),
    {
        if str_matches_ci(s, "bson") {
            Some(ContentType::Bson)
        } else if str_matches_ci(s, "application/bson") {
            Some(ContentType::Bson)
        } else if str_matches_ci(s, "application/x-bson") {
            Some(ContentType::Bson)
        } else if str_matches_ci(s, "cbor") {
            Some(ContentType::Cbor)
        } else if str_matches_ci(s, "application/cbor") {
            Some(ContentType::Cbor)
        } else if str_matches_ci(s, "application/x-cbor") {
            Some(ContentType::Cbor)
        } else if str_matches_ci(s, "flexbuffers") {
            Some(ContentType::FlexBuffers)
        } else if str_matches_ci(s, "application/flexbuffers") {
            Some(ContentType::FlexBuffers)
        } else if str_matches_ci(s, "application/x-flexbuffers") {
            Some(ContentType::FlexBuffers)
        } else if str_matches_ci(s, "json") {
            Some(ContentType::Json)
        } else if str_matches_ci(s, "application/json") {
            Some(ContentType::Json)
        } else if str_matches_ci(s, "application/x-json") {
            Some(ContentType::Json)
        } else if str_matches_ci(s, "json5") {
            Some(ContentType::Json5)
        } else if str_matches_ci(s, "application/json5") {
            Some(ContentType::Json5)
        } else if str_matches_ci(s, "application/x-json5") {
            Some(ContentType::Json5)
        } else if str_matches_ci(s, "lexpr") {
            Some(ContentType::Lexpr)
        } else if str_matches_ci(s, "application/lexpr") {
            Some(ContentType::Lexpr)
        } else if str_matches_ci(s, "application/x-lexpr") {
            Some(ContentType::Lexpr)
        } else if str_matches_ci(s, "messagepack") {
            Some(ContentType::MessagePack)
        } else if str_matches_ci(s, "application/messagepack") {
            Some(ContentType::MessagePack)
        } else if str_matches_ci(s, "application/x-messagepack") {
            Some(ContentType::MessagePack)
        } else if str_matches_ci(s, "pickle") {
            Some(ContentType::Pickle)
        } else if str_matches_ci(s, "application/pickle") {
            Some(ContentType::Pickle)
        } else if str_matches_ci(s, "application/x-pickle") {
            Some(ContentType::Pickle)
        } else if str_matches_ci(s, "postcard") {
            Some(ContentType::Postcard)
        } else if str_matches_ci(s, "application/postcard") {
            Some(ContentType::Postcard)
        } else if str_matches_ci(s, "application/x-postcard") {
            Some(ContentType::Postcard)
        } else if str_matches_ci(s, "ron") {
            Some(ContentType::Ron)
        } else if str_matches_ci(s, "application/ron") {
            Some(ContentType::Ron)
        } else if str_matches_ci(s, "application/x-ron") {
            Some(ContentType::Ron)
        } else if str_matches_ci(s, "toml") {
            Some(ContentType::Toml)
        } else if str_matches_ci(s, "application/toml") {
            Some(ContentType::Toml)
        } else if str_matches_ci(s, "application/x-toml") {
            Some(ContentType::Toml)
        } else if str_matches_ci(s, "querystring") {
            Some(ContentType::QueryString)
        } else if str_matches_ci(s, "application/querystring") {
            Some(ContentType::QueryString)
        } else if str_matches_ci(s, "application/x-querystring") {
            Some(ContentType::QueryString)
        } else if str_matches_ci(s, "yaml") {
            Some(ContentType::Yaml)
        } else if str_matches_ci(s, "application/yaml") {
            Some(ContentType::Yaml)
        } else if str_matches_ci(s, "application/x-yaml") {
            Some(ContentType::Yaml)
        } else if str_matches_ci(s, "xml") {
            Some(ContentType::Xml)
        } else if str_matches_ci(s, "application/xml") {
            Some(ContentType::Xml)
        } else if str_matches_ci(s, "application/x-xml") {
            Some(ContentType::Xml)
        } else {
            None
        }
    }

    /// The canonical MIME-type string of this content type.
    pub open spec fn spec_as_mime(self) -> Seq<char> {
        match self {
            ContentType::Bson => "application/x-bson"@,
            ContentType::Cbor => "application/x-cbor"@,
            ContentType::FlexBuffers => "application/x-flexbuffers"@,
            ContentType::Json => "application/json"@,
            ContentType::Json5 => "application/json5"@,
            ContentType::Lexpr => "application/x-lexpr"@,
            ContentType::MessagePack => "application/x-messagepack"@,
            ContentType::Pickle => "application/x-pickle"@,
            ContentType::Postcard => "application/x-postcard"@,
            ContentType::Ron => "application/ron"@,
            ContentType::Toml => "application/toml"@,
            ContentType::QueryString => "application/x-url"@,
            ContentType::Yaml => "application/yaml"@,
            ContentType::Xml => "application/xml"@,
        }
    }

    /// The canonical MIME-type string of this content type.
    pub fn as_mime(&self) -> (mime: String)
        ensures
            mime@ == self.spec_as_mime(),
    {
        match self {
            ContentType::Bson => "application/x-bson".to_owned(),
            ContentType::Cbor => "application/x-cbor".to_owned(),
            ContentType::FlexBuffers => "application/x-flexbuffers".to_owned(),
            ContentType::Json => "application/json".to_owned(),
            ContentType::Json5 => "application/json5".to_owned(),
            ContentType::Lexpr => "application/x-lexpr".to_owned(),
            ContentType::MessagePack => "application/x-messagepack".to_owned(),
            ContentType::Pickle => "application/x-pickle".to_owned(),
            ContentType::Postcard => "application/x-postcard".to_owned(),
            ContentType::Ron => "application/ron".to_owned(),
            ContentType::Toml => "application/toml".to_owned(),
            ContentType::QueryString => "application/x-url".to_owned(),
            ContentType::Yaml => "application/yaml".to_owned(),
            ContentType::Xml => "application/xml".to_owned(),
        }
    }
}

/// The content type the assembler resolves from the request's `Content-Type`
/// values: the first one the adapter knows, or nothing.
pub open spec fn spec_resolved_content_type(values: Seq<Seq<char>>) -> Option<ContentType>
    decreases values.len(),
{
    if values.len() == 0 {
        None
    } else if spec_from_mime(values.first()) is Some {
        spec_from_mime(values.first())
    } else {
        spec_resolved_content_type(values.drop_first())
    }
}

/// The first `Content-Type` value the adapter knows, or nothing.
pub fn resolve_content_type(values: &Vec<String>) -> (resolved: Option<ContentType>)
    ensures
        resolved == spec_resolved_content_type(values.deep_view()),
{
    let ghost all = values.deep_view();
    let mut i: usize = 0;
    proof {
        assert(all.skip(0) =~= all);
    }
    while i < values.len()
        invariant
            i <= values.len(),
            values.len() == all.len(),
            all == values.deep_view(),
            spec_resolved_content_type(all) == spec_resolved_content_type(all.skip(i as int)),
        decreases values.len() - i,
    {
        let ghost pending = all.skip(i as int);
        proof {
            assert(pending.first() == all[i as int]);
            assert(pending.drop_first() =~= all.skip(i as int + 1));
        }
        if let Some(found) = ContentType::from_mime(values[i].as_str()) {
            return Some(found);
        }
        i = i + 1;
    }
    proof {
        assert(all.skip(values.len() as int) =~= Seq::<Seq<char>>::empty());
    }
    None
}

/// The content type negotiated from a request's `Accept` values: the first
/// one the adapter knows, or JSON when none is usable.
pub open spec fn spec_negotiated_content_type(accepts: Seq<Seq<char>>) -> ContentType {
    match spec_resolved_content_type(accepts) {
        Some(found) => found,
        None => ContentType::Json,
    }
}

/// The first `Accept` value the adapter knows, or JSON when none is usable.
pub fn negotiate_content_type(accepts: &Vec<String>) -> (negotiated: ContentType)
    ensures
        negotiated == spec_negotiated_content_type(accepts.deep_view()),
{
    match resolve_content_type(accepts) {
        Some(found) => found,
        None => ContentType::Json,
    }
}

} // verus!
