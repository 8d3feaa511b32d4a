//! Domain events: immutable records of every state-changing action, appended
//! to an ordered log and never deleted. Each event's ghost view is the
//! [`EventModel`] the projection is computed from.

use vstd::prelude::*;
use crate::service::models::{ShortLink, Slug};
use crate::service::projection::EventModel;

verus! {

/// A state-changing action: a link was created, or a redirect through an
/// existing link was counted.
#[derive(Clone, Debug, PartialEq)]
pub enum Event {
    LinkCreated(ShortLink),
    RedirectCountIncremented(Slug),
}

impl View for Event {
    type V = EventModel;

    open spec fn view(&self) -> EventModel {
        match self {
            Event::LinkCreated(link) => EventModel::LinkCreated {
                slug: link.slug@,
                url: link.url@,
            },
            Event::RedirectCountIncremented(slug) => EventModel::RedirectCountIncremented {
                slug: slug@,
            },
        }
    }
}

} // verus!
