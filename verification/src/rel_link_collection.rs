use vstd::prelude::*;

use crate::http_method::HttpMethod;
use crate::rel_link::{RelLink, RelLinkView};

verus! {

/// An ordered, relation-id-keyed collection of [`RelLink`] entries.
///
/// Lookups go by relation id to the first entry carrying it; adding a link
/// whose relation already exists overwrites that entry in place and hands the
/// previous link back (last-write-wins upsert).
#[derive(Debug, Clone, PartialEq)]
pub struct RelLinkCollection(pub Vec<RelLink>);

impl View for RelLinkCollection {
    type V = Seq<RelLinkView>;

    open spec fn view(&self) -> Seq<RelLinkView> {
        self.0.deep_view()
    }
}

/// Whether some entry carries the given relation id.
pub open spec fn spec_contains_rel(links: Seq<RelLinkView>, rel: Seq<char>) -> bool {
    exists|i: int| 0 <= i < links.len() && links[i].rel == rel
}

/// Whether `i` is the first entry carrying the given relation id.
pub open spec fn spec_first_rel_index(links: Seq<RelLinkView>, rel: Seq<char>, i: int) -> bool {
    &&& 0 <= i < links.len()
    &&& links[i].rel == rel
    &&& forall|j: int| 0 <= j < i ==> links[j].rel != rel
}

/// What can be handed to the collection as a link.
pub trait IntoRelLink: Sized {
    /// The link the conversion yields.
    spec fn spec_rel_link(self) -> RelLinkView;

    /// The conversion itself.
    fn into_rel_link(self) -> (link: RelLink)
        ensures
            link@ == self.spec_rel_link(),
    ;
}

impl IntoRelLink for RelLink {
    open spec fn spec_rel_link(self) -> RelLinkView {
        self@
    }

    fn into_rel_link(self) -> (link: RelLink) {
        self
    }
}

impl IntoRelLink for (&str, &str, HttpMethod) {
    open spec fn spec_rel_link(self) -> RelLinkView {
        RelLinkView {
            rel: self.0@,
            href: self.1@,
            method: self.2,
            headers: Seq::<(Seq<char>, Seq<Seq<char>>)>::empty(),
        }
    }

    fn into_rel_link(self) -> (link: RelLink) {
        RelLink::new(self.0, self.1, self.2, None)
    }
}

impl IntoRelLink for (String, String, HttpMethod) {
    open spec fn spec_rel_link(self) -> RelLinkView {
        RelLinkView {
            rel: self.0@,
            href: self.1@,
            method: self.2,
            headers: Seq::<(Seq<char>, Seq<Seq<char>>)>::empty(),
        }
    }

    fn into_rel_link(self) -> (link: RelLink) {
        RelLink::new(self.0.as_str(), self.1.as_str(), self.2, None)
    }
}

impl RelLinkCollection {
    /// A collection holding exactly the given links, in their given order.
    pub fn new(v_rel: Vec<RelLink>) -> (collection: RelLinkCollection)
        ensures
            collection@ == v_rel.deep_view(),
    {
        RelLinkCollection(v_rel)
    }

    /// The index of the first entry carrying the relation id, if any does.
    fn find_index(&self, rel: &String) -> (found: Option<usize>)
        ensures
            found is Some ==> spec_first_rel_index(self@, rel@, found->Some_0 as int),
            found is None ==> !spec_contains_rel(self@, rel@),
    {
        let mut i: usize = 0;
        while i < self.0.len()
            invariant
                i <= self.0.len(),
                self.0.len() == self@.len(),
                forall|j: int| 0 <= j < i ==> self@[j].rel != rel@,
            decreases self.0.len() - i,
        {
            if self.0[i].rel.eq(rel) {
                assert(self@[i as int].rel == rel@);
                return Some(i);
            }
            i = i + 1;
        }
        None
    }

    /// The first link carrying the relation id, if any does.
    pub fn get(&self, rel: &str) -> (found: Option<&RelLink>)
        ensures
            found is Some <==> spec_contains_rel(self@, rel@),
            found is Some ==> exists|i: int|
                spec_first_rel_index(self@, rel@, i) && found->Some_0@ == self@[i],
    {
        let rel_owned = rel.to_owned();
        match self.find_index(&rel_owned) {
            Some(i) => Some(&self.0[i]),
            None => None,
        }
    }

    /// Whether any link carries the relation id.
    pub fn has(&self, rel: &str) -> (present: bool)
        ensures
            present == spec_contains_rel(self@, rel@),
    {
        self.get(rel).is_some()
    }

    /// The first link carrying the relation id, open for modification.
    pub fn get_mut(&mut self, rel: &str) -> (found: Option<&mut RelLink>)
        ensures
            found is None ==> !spec_contains_rel(old(self)@, rel@) && final(self)@ == old(self)@,
            found is Some ==> exists|i: int|
                {
                    &&& spec_first_rel_index(old(self)@, rel@, i)
                    &&& *found->Some_0 == old(self).0[i]
                    &&& final(self).0@ == old(self).0@.update(i, *final(found->Some_0))
                },
    {
        let rel_owned = rel.to_owned();
        match self.find_index(&rel_owned) {
            Some(i) => Some(&mut self.0[i]),
            None => None,
        }
    }

    /// Upserts a link under its relation id: when the relation already
    /// exists, the first entry carrying it is overwritten in place and the
    /// previous link is handed back; otherwise the link is appended and
    /// nothing is handed back.
    pub fn add<I: IntoRelLink>(&mut self, rel: I) -> (previous: Option<RelLink>)
        ensures
            spec_contains_rel(old(self)@, rel.spec_rel_link().rel) ==> exists|i: int|
                {
                    &&& spec_first_rel_index(old(self)@, rel.spec_rel_link().rel, i)
                    &&& previous is Some
                    &&& previous->Some_0@ == old(self)@[i]
                    &&& final(self)@ == old(self)@.update(i, rel.spec_rel_link())
                },
            !spec_contains_rel(old(self)@, rel.spec_rel_link().rel) ==> previous is None
                && final(self)@ == old(self)@.push(rel.spec_rel_link()),
    {
        let new_link = rel.into_rel_link();
        match self.find_index(&new_link.rel) {
            Some(i) => {
                let ghost before = self@;
                let previous_link = self.0[i].duplicate();
                self.0[i] = new_link;
                proof {
                    assert(self@ =~= before.update(i as int, rel.spec_rel_link()));
                }
                Some(previous_link)
            },
            None => {
                let ghost before = self@;
                self.0.push(new_link);
                proof {
                    assert(self@ =~= before.push(rel.spec_rel_link()));
                }
                None
            },
        }
    }

    /// How many links the collection holds.
    pub fn len(&self) -> (n: usize)
        ensures
            n == self@.len(),
    {
        self.0.len()
    }
}

impl Default for RelLinkCollection {
    /// An empty collection.
    fn default() -> (collection: RelLinkCollection)
        ensures
            collection@ == Seq::<RelLinkView>::empty(),
    {
        let links: Vec<RelLink> = Vec::new();
        let collection = RelLinkCollection(links);
        proof {
            assert(collection@ =~= Seq::<RelLinkView>::empty());
        }
        collection
    }
}

} // verus!
