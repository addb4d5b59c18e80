use vstd::prelude::*;

use crate::annotations::{spec_annotations_upserted, Annotations};
use crate::header_map::HeaderMap;

verus! {

/// Out-of-band envelope metadata: identity, free-form annotations, a
/// signature, and headers carried alongside the payload.
///
/// Every part is optional and stays absent until something stores a value;
/// absence is observable in the encoded form.
#[derive(Debug, Clone, PartialEq)]
pub struct Metadata {
    pub id: Option<String>,
    pub name: Option<String>,
    pub annotations: Option<Annotations>,
    pub signature: Option<String>,
    pub header: Option<HeaderMap>,
}

impl Metadata {
    /// Metadata from its parts.
    pub fn new(
        id: Option<String>,
        name: Option<String>,
        annotations: Option<Annotations>,
        signature: Option<String>,
        header: Option<HeaderMap>,
    ) -> (metadata: Metadata)
        ensures
            metadata == (Metadata { id, name, annotations, signature, header }),
    {
        Metadata { id, name, annotations, signature, header }
    }

    /// Upserts an annotation, materializing the annotation map on first use.
    pub fn add_annotation(&mut self, key: &str, value: &str)
        ensures
            final(self).annotations is Some,
            old(self).annotations is None ==> spec_annotations_upserted(
                Seq::<(Seq<char>, Seq<char>)>::empty(),
                key@,
                value@,
                final(self).annotations->Some_0@,
            ),
            old(self).annotations is Some ==> spec_annotations_upserted(
                old(self).annotations->Some_0@,
                key@,
                value@,
                final(self).annotations->Some_0@,
            ),
            final(self).id == old(self).id,
            final(self).name == old(self).name,
            final(self).signature == old(self).signature,
            final(self).header == old(self).header,
    {
        if self.annotations.is_none() {
            self.annotations = Some(Annotations::new());
        }
        match &mut self.annotations {
            Some(annotations) => annotations.insert(key, value),
            None => vstd::pervasive::unreached(),
        }
    }

    /// The headers carried in the metadata.
    pub fn headers(&self) -> (header: &Option<HeaderMap>)
        ensures
            header == self.header,
    {
        &self.header
    }

    /// The headers, open for modification.
    pub fn headers_mut(&mut self) -> (header: &mut Option<HeaderMap>)
        ensures
            *header == old(self).header,
            final(self).header == *final(header),
            final(self).id == old(self).id,
            final(self).name == old(self).name,
            final(self).annotations == old(self).annotations,
            final(self).signature == old(self).signature,
    {
        &mut self.header
    }
}

impl Default for Metadata {
    /// Metadata with every part absent.
    fn default() -> (metadata: Metadata)
        ensures
            metadata.id is None,
            metadata.name is None,
            metadata.annotations is None,
            metadata.signature is None,
            metadata.header is None,
    {
        Metadata { id: None, name: None, annotations: None, signature: None, header: None }
    }
}

} // verus!
