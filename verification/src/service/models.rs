//! Immutable value types of the domain: identifiers, targets, and the
//! aggregates handed back by commands and queries. Pure data; construction
//! never fails and no normalization or validation is applied.

use vstd::prelude::*;

verus! {

/// Opaque string identifier of a short link; equality is by exact string
/// value, and it is the unique key of the projection.
#[derive(Clone, Debug, PartialEq, Eq, Hash)]
pub struct Slug(pub String);

impl View for Slug {
    type V = Seq<char>;

    open spec fn view(&self) -> Seq<char> {
        self.0@
    }
}

/// Opaque string holding a target address; the core performs no validation.
#[derive(Clone, Debug, PartialEq)]
pub struct Url(pub String);

impl View for Url {
    type V = Seq<char>;

    open spec fn view(&self) -> Seq<char> {
        self.0@
    }
}

/// The bound pair of a slug and its target URL: the externally visible
/// result of creating or resolving a short link.
#[derive(Clone, Debug, PartialEq)]
pub struct ShortLink {
    pub slug: Slug,
    pub url: Url,
}

/// Read-only aggregate for a short link: the link itself and how many
/// redirects it has served.
#[derive(Clone, Debug, PartialEq)]
pub struct Stats {
    pub link: ShortLink,
    pub redirects: u64,
}

} // verus!
