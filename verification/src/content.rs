use vstd::prelude::*;

use crate::rel_link::RelLinkView;
use crate::rel_link_collection::RelLinkCollection;

verus! {

/// The payload slot of an envelope: an optional typed value plus the
/// hyperlinks relevant to it.
///
/// An absent link collection is distinct from a present-but-empty one until
/// the first mutable access materializes it.
#[derive(Debug, Clone, PartialEq)]
pub struct Content<T> {
    pub content: Option<T>,
    pub rel: Option<RelLinkCollection>,
}

impl<T> Content<T> {
    /// A slot holding the given payload and no links.
    pub fn new(content: T) -> (slot: Content<T>)
        ensures
            slot.content == Some(content),
            slot.rel is None,
    {
        Content { content: Some(content), rel: None }
    }

    /// Whether a payload is present.
    pub fn has_content(&self) -> (present: bool)
        ensures
            present == (self.content is Some),
    {
        self.content.is_some()
    }

    /// The payload, open for modification.
    pub fn content_mut(&mut self) -> (content: &mut Option<T>)
        ensures
            *content == old(self).content,
            final(self).content == *final(content),
            final(self).rel == old(self).rel,
    {
        &mut self.content
    }

    /// The payload.
    pub fn content(&self) -> (content: &Option<T>)
        ensures
            content == self.content,
    {
        &self.content
    }

    /// The link collection, materialized empty on first use.
    pub fn rel(&mut self) -> (rel: &mut RelLinkCollection)
        ensures
            old(self).rel is Some ==> *rel == old(self).rel->Some_0,
            old(self).rel is None ==> (*rel)@ == Seq::<RelLinkView>::empty(),
            final(self).rel == Some(*final(rel)),
            final(self).content == old(self).content,
    {
        if self.rel.is_none() {
            self.rel = Some(RelLinkCollection::default());
        }
        match &mut self.rel {
            Some(rel) => rel,
            None => vstd::pervasive::unreached(),
        }
    }
}

impl<T> From<T> for Content<T> {
    /// Wraps a bare payload value as a slot holding it.
    fn from(content: T) -> (slot: Content<T>) {
        Content::new(content)
    }
}

impl<T> vstd::std_specs::convert::FromSpecImpl<T> for Content<T> {
    open spec fn obeys_from_spec() -> bool {
        true
    }

    open spec fn from_spec(content: T) -> Content<T> {
        Content { content: Some(content), rel: None }
    }
}

impl<T> Default for Content<T> {
    /// A slot with neither payload nor links.
    fn default() -> (slot: Content<T>)
        ensures
            slot.content is None,
            slot.rel is None,
    {
        Content { content: None, rel: None }
    }
}

} // verus!
