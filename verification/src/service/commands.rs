//! The write path: the contract every command handler obeys, stated over the
//! handler's event-log model. Success appends exactly one event and failure
//! appends none, so the projection never shows a partial effect.

use vstd::prelude::*;
use crate::service::errors::ShortenerError;
use crate::service::models::{ShortLink, Slug, Url};
use crate::service::projection::{has_link, log_wf, url_of, EventModel};

verus! {

/// Trait for command handlers.
pub trait CommandHandler {
    /// The ordered history of events the handler has committed.
    spec fn log_model(&self) -> Seq<EventModel>;

    /// The handler's internal consistency: its projection agrees with its
    /// log. Established by the handler's constructor and kept by every
    /// operation.
    spec fn wf(&self) -> bool;

    /// The slug the handler's generation policy would produce next; the
    /// policy is the implementer's, but it must be a function of the
    /// handler's current state.
    spec fn next_auto_slug(&self) -> Seq<char>;

    /// A well-formed handler holds a well-formed log, so the log lemmas
    /// apply to it.
    proof fn wf_implies_log_wf(&self)
        requires
            self.wf(),
        ensures
            log_wf(self.log_model()),
    ;

    /// Creates a new short link. It accepts the original url and an
    /// optional [`Slug`]. If a [`Slug`] is not provided, the service will
    /// generate one. Returns the newly created [`ShortLink`].
    ///
    /// Succeeds if and only if the resolved slug is not yet bound; then the
    /// link is created and exactly one creation event is appended. On a slug
    /// collision it fails with [`ShortenerError::SlugAlreadyInUse`] and the
    /// log — and with it the whole projection — is left unchanged.
    fn handle_create_short_link(&mut self, url: Url, slug: Option<Slug>) -> (result: Result<
        ShortLink,
        ShortenerError,
    >)
        requires
            old(self).wf(),
        ensures
            final(self).wf(),
            ({
                let target = match slug {
                    Some(s) => s@,
                    None => old(self).next_auto_slug(),
                };
                match result {
                    Ok(link) => !has_link(old(self).log_model(), target) && link.slug@ == target
                        && link.url@ == url@ && final(self).log_model() == old(
                        self,
                    ).log_model().push(EventModel::LinkCreated { slug: target, url: url@ }),
                    Err(e) => e == ShortenerError::SlugAlreadyInUse && has_link(
                        old(self).log_model(),
                        target,
                    ) && final(self).log_model() == old(self).log_model(),
                }
            }),
    ;

    /// Processes a redirection by [`Slug`], returning the associated
    /// [`ShortLink`] or a [`ShortenerError`].
    ///
    /// Succeeds if and only if the slug is bound; then the returned link
    /// carries the URL from the slug's creation and exactly one redirect
    /// event is appended. On an unbound slug it fails with
    /// [`ShortenerError::SlugNotFound`] and the log is left unchanged.
    fn handle_redirect(&mut self, slug: Slug) -> (result: Result<ShortLink, ShortenerError>)
        requires
            old(self).wf(),
        ensures
            final(self).wf(),
            match result {
                Ok(link) => has_link(old(self).log_model(), slug@) && link.slug@ == slug@
                    && link.url@ == url_of(old(self).log_model(), slug@) && final(self).log_model()
                    == old(self).log_model().push(
                    EventModel::RedirectCountIncremented { slug: slug@ },
                ),
                Err(e) => e == ShortenerError::SlugNotFound && !has_link(
                    old(self).log_model(),
                    slug@,
                ) && final(self).log_model() == old(self).log_model(),
            },
    ;
}

} // verus!
