//! The read path: the contract every query handler obeys. A query never
//! mutates state; it reports exactly the projection the handler's event log
//! determines.

use vstd::prelude::*;
use crate::service::errors::ShortenerError;
use crate::service::models::{Slug, Stats};
use crate::service::projection::{has_link, redirect_count, url_of, EventModel};

verus! {

/// Trait for query handlers.
pub trait QueryHandler {
    /// The ordered history of events the handler has committed.
    spec fn log_model(&self) -> Seq<EventModel>;

    /// The handler's internal consistency; see
    /// [`crate::service::commands::CommandHandler::wf`].
    spec fn wf(&self) -> bool;

    /// Returns the [`Stats`] for a specific [`ShortLink`], such as the
    /// number of redirects (clicks).
    ///
    /// Succeeds if and only if the slug is bound; then the stats carry the
    /// URL from the slug's creation and the exact number of redirect events
    /// the log holds for it. On an unbound slug it fails with
    /// [`ShortenerError::SlugNotFound`].
    ///
    /// [`ShortLink`]: crate::service::models::ShortLink
    fn get_stats(&self, slug: Slug) -> (result: Result<Stats, ShortenerError>)
        requires
            self.wf(),
        ensures
            match result {
                Ok(stats) => has_link(self.log_model(), slug@) && stats.link.slug@ == slug@
                    && stats.link.url@ == url_of(self.log_model(), slug@) && stats.redirects
                    == redirect_count(self.log_model(), slug@),
                Err(e) => e == ShortenerError::SlugNotFound && !has_link(self.log_model(), slug@),
            },
    ;
}

} // verus!
