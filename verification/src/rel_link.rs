use vstd::prelude::*;

use crate::header_map::HeaderMap;
use crate::http_method::HttpMethod;

verus! {

/// One typed hyperlink to a related resource: the relation id that names it,
/// the target URI, the HTTP method to call it with, and any headers the call
/// should carry.
#[derive(Debug, Clone, PartialEq)]
pub struct RelLink {
    pub href: String,
    pub rel: String,
    pub method: HttpMethod,
    pub headers: HeaderMap,
}

/// The mathematical value of a [`RelLink`].
pub struct RelLinkView {
    pub href: Seq<char>,
    pub rel: Seq<char>,
    pub method: HttpMethod,
    pub headers: Seq<(Seq<char>, Seq<Seq<char>>)>,
}

impl View for RelLink {
    type V = RelLinkView;

    open spec fn view(&self) -> RelLinkView {
        RelLinkView {
            href: self.href@,
            rel: self.rel@,
            method: self.method,
            headers: self.headers@,
        }
    }
}

impl DeepView for RelLink {
    type V = RelLinkView;

    open spec fn deep_view(&self) -> RelLinkView {
        self.view()
    }
}

impl RelLink {
    /// A link from its parts; absent headers become an empty header map.
    pub fn new(rel: &str, href: &str, method: HttpMethod, headers: Option<HeaderMap>) -> (link:
        RelLink)
        ensures
            link.rel@ == rel@,
            link.href@ == href@,
            link.method == method,
            headers is Some ==> link.headers@ == headers->Some_0@,
            headers is None ==> link.headers@ == Seq::<(Seq<char>, Seq<Seq<char>>)>::empty(),
    {
        let header_map = match headers {
            Some(h) => h,
            None => HeaderMap::new(),
        };
        RelLink { href: href.to_owned(), rel: rel.to_owned(), method, headers: header_map }
    }

    /// The target URI.
    pub fn href(&self) -> (href: &str)
        ensures
            href@ == self.href@,
    {
        self.href.as_str()
    }

    /// The target URI, open for modification.
    pub fn href_mut(&mut self) -> (href: &mut String)
        ensures
            *href == old(self).href,
            final(self).href == *final(href),
            final(self).rel == old(self).rel,
            final(self).method == old(self).method,
            final(self).headers == old(self).headers,
    {
        &mut self.href
    }

    /// The relation id.
    pub fn rel(&self) -> (rel: &str)
        ensures
            rel@ == self.rel@,
    {
        self.rel.as_str()
    }

    /// The relation id, open for modification.
    pub fn rel_mut(&mut self) -> (rel: &mut String)
        ensures
            *rel == old(self).rel,
            final(self).rel == *final(rel),
            final(self).href == old(self).href,
            final(self).method == old(self).method,
            final(self).headers == old(self).headers,
    {
        &mut self.rel
    }

    /// The HTTP method.
    pub fn method(&self) -> (method: &HttpMethod)
        ensures
            method == self.method,
    {
        &self.method
    }

    /// The HTTP method, open for modification.
    pub fn method_mut(&mut self) -> (method: &mut HttpMethod)
        ensures
            *method == old(self).method,
            final(self).method == *final(method),
            final(self).href == old(self).href,
            final(self).rel == old(self).rel,
            final(self).headers == old(self).headers,
    {
        &mut self.method
    }

    /// The headers the call should carry.
    pub fn headers(&self) -> (headers: &HeaderMap)
        ensures
            headers == self.headers,
    {
        &self.headers
    }

    /// The headers, open for modification.
    pub fn headers_mut(&mut self) -> (headers: &mut HeaderMap)
        ensures
            *headers == old(self).headers,
            final(self).headers == *final(headers),
            final(self).href == old(self).href,
            final(self).rel == old(self).rel,
            final(self).method == old(self).method,
    {
        &mut self.headers
    }

    /// A fresh link holding the same parts.
    pub fn duplicate(&self) -> (link: RelLink)
        ensures
            link@ == self@,
    {
        RelLink {
            href: self.href.clone(),
            rel: self.rel.clone(),
            method: self.method,
            headers: self.headers.duplicate(),
        }
    }
}

impl RelLink {
    /// A link whose target requests a representation of the target resource.
    #[allow(non_snake_case)]
    pub fn GET(rel: &str, href: &str) -> (link: RelLink)
        ensures
            link.rel@ == rel@,
            link.href@ == href@,
            link.method == HttpMethod::Get,
            link.headers@ == Seq::<(Seq<char>, Seq<Seq<char>>)>::empty(),
    {
        RelLink::new(rel, href, HttpMethod::Get, None)
    }

    /// A link whose target asks for a response identical to GET, but without the body.
    #[allow(non_snake_case)]
    pub fn HEAD(rel: &str, href: &str) -> (link: RelLink)
        ensures
            link.rel@ == rel@,
            link.href@ == href@,
            link.method == HttpMethod::Head,
            link.headers@ == Seq::<(Seq<char>, Seq<Seq<char>>)>::empty(),
    {
        RelLink::new(rel, href, HttpMethod::Head, None)
    }

    /// A link whose target submits an entity to the target resource.
    #[allow(non_snake_case)]
    pub fn POST(rel: &str, href: &str) -> (link: RelLink)
        ensures
            link.rel@ == rel@,
            link.href@ == href@,
            link.method == HttpMethod::Post,
            link.headers@ == Seq::<(Seq<char>, Seq<Seq<char>>)>::empty(),
    {
        RelLink::new(rel, href, HttpMethod::Post, None)
    }

    /// A link whose target replaces the target resource with the request payload.
    #[allow(non_snake_case)]
    pub fn PUT(rel: &str, href: &str) -> (link: RelLink)
        ensures
            link.rel@ == rel@,
            link.href@ == href@,
            link.method == HttpMethod::Put,
            link.headers@ == Seq::<(Seq<char>, Seq<Seq<char>>)>::empty(),
    {
        RelLink::new(rel, href, HttpMethod::Put, None)
    }

    /// A link whose target deletes the target resource.
    #[allow(non_snake_case)]
    pub fn DELETE(rel: &str, href: &str) -> (link: RelLink)
        ensures
            link.rel@ == rel@,
            link.href@ == href@,
            link.method == HttpMethod::Delete,
            link.headers@ == Seq::<(Seq<char>, Seq<Seq<char>>)>::empty(),
    {
        RelLink::new(rel, href, HttpMethod::Delete, None)
    }

    /// A link whose target establishes a tunnel to the target resource.
    #[allow(non_snake_case)]
    pub fn CONNECT(rel: &str, href: &str) -> (link: RelLink)
        ensures
            link.rel@ == rel@,
            link.href@ == href@,
            link.method == HttpMethod::Connect,
            link.headers@ == Seq::<(Seq<char>, Seq<Seq<char>>)>::empty(),
    {
        RelLink::new(rel, href, HttpMethod::Connect, None)
    }

    /// A link whose target describes the communication options for the target resource.
    #[allow(non_snake_case)]
    pub fn OPTIONS(rel: &str, href: &str) -> (link: RelLink)
        ensures
            link.rel@ == rel@,
            link.href@ == href@,
            link.method == HttpMethod::Options,
            link.headers@ == Seq::<(Seq<char>, Seq<Seq<char>>)>::empty(),
    {
        RelLink::new(rel, href, HttpMethod::Options, None)
    }

    /// A link whose target performs a message loop-back test along the path.
    #[allow(non_snake_case)]
    pub fn TRACE(rel: &str, href: &str) -> (link: RelLink)
        ensures
            link.rel@ == rel@,
            link.href@ == href@,
            link.method == HttpMethod::Trace,
            link.headers@ == Seq::<(Seq<char>, Seq<Seq<char>>)>::empty(),
    {
        RelLink::new(rel, href, HttpMethod::Trace, None)
    }

    /// A link whose target applies partial modifications to the target resource.
    #[allow(non_snake_case)]
    pub fn PATCH(rel: &str, href: &str) -> (link: RelLink)
        ensures
            link.rel@ == rel@,
            link.href@ == href@,
            link.method == HttpMethod::Patch,
            link.headers@ == Seq::<(Seq<char>, Seq<Seq<char>>)>::empty(),
    {
        RelLink::new(rel, href, HttpMethod::Patch, None)
    }

}

} // verus!
