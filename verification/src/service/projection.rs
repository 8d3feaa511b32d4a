//! The mathematical model of the event log and of the state projection
//! derived from it. A history is a sequence of [`EventModel`] values; the
//! projection — which slugs are bound, to which URL, and how many redirects
//! each has served — is a function of the history alone. The lemmas here are
//! the general laws of the service: slug uniqueness, monotone redirect
//! counting, and immutability of the slug-to-URL binding.

use vstd::prelude::*;

verus! {

/// Ghost counterpart of a domain event: creation binds a slug to a URL,
/// a redirect increments that slug's counter.
pub enum EventModel {
    LinkCreated { slug: Seq<char>, url: Seq<char> },
    RedirectCountIncremented { slug: Seq<char> },
}

/// Does this event create the link for `slug`?
pub open spec fn is_creation_for(e: EventModel, slug: Seq<char>) -> bool {
    match e {
        EventModel::LinkCreated { slug: s, .. } => s == slug,
        EventModel::RedirectCountIncremented { .. } => false,
    }
}

/// The URL bound by a creation event (empty for a redirect event).
pub open spec fn creation_url(e: EventModel) -> Seq<char> {
    match e {
        EventModel::LinkCreated { url, .. } => url,
        EventModel::RedirectCountIncremented { .. } => Seq::empty(),
    }
}

/// Does this event record a redirect through `slug`?
pub open spec fn is_redirect_for(e: EventModel, slug: Seq<char>) -> bool {
    match e {
        EventModel::LinkCreated { .. } => false,
        EventModel::RedirectCountIncremented { slug: s } => s == slug,
    }
}

/// A link for `slug` exists once a creation event for it stands in the log.
pub open spec fn has_link(log: Seq<EventModel>, slug: Seq<char>) -> bool
    decreases log.len(),
{
    if log.len() == 0 {
        false
    } else {
        is_creation_for(log.last(), slug) || has_link(log.drop_last(), slug)
    }
}

/// The URL bound to `slug`: the one carried by its creation event.
/// Meaningful only where `has_link` holds.
pub open spec fn url_of(log: Seq<EventModel>, slug: Seq<char>) -> Seq<char>
    decreases log.len(),
{
    if log.len() == 0 {
        Seq::empty()
    } else if is_creation_for(log.last(), slug) {
        creation_url(log.last())
    } else {
        url_of(log.drop_last(), slug)
    }
}

/// How many redirect events for `slug` the log holds.
pub open spec fn redirect_count(log: Seq<EventModel>, slug: Seq<char>) -> nat
    decreases log.len(),
{
    if log.len() == 0 {
        0
    } else {
        redirect_count(log.drop_last(), slug) + if is_redirect_for(log.last(), slug) {
            1nat
        } else {
            0nat
        }
    }
}

/// A log is well formed when every event was appended under the command
/// contracts: a creation only for a slug not yet bound, a redirect only for
/// a slug already bound.
pub open spec fn log_wf(log: Seq<EventModel>) -> bool
    decreases log.len(),
{
    if log.len() == 0 {
        true
    } else {
        log_wf(log.drop_last()) && match log.last() {
            EventModel::LinkCreated { slug, .. } => !has_link(log.drop_last(), slug),
            EventModel::RedirectCountIncremented { slug } => has_link(log.drop_last(), slug),
        }
    }
}

/// How one appended event moves the projection: a link, once created, stays
/// created (so a later create for the same slug can never succeed); the
/// redirect count for a slug rises by exactly one on a redirect event for it
/// and is otherwise untouched; the bound URL changes only at the slug's own
/// creation event.
pub proof fn lemma_projection_step(log: Seq<EventModel>, e: EventModel, slug: Seq<char>)
    ensures
        has_link(log.push(e), slug) == (has_link(log, slug) || is_creation_for(e, slug)),
        redirect_count(log.push(e), slug) == redirect_count(log, slug) + if is_redirect_for(
            e,
            slug,
        ) {
            1nat
        } else {
            0nat
        },
        url_of(log.push(e), slug) == if is_creation_for(e, slug) {
            creation_url(e)
        } else {
            url_of(log, slug)
        },
{
    assert(log.push(e).drop_last() =~= log);
    assert(log.push(e).last() == e);
}

/// Appending keeps a log well formed exactly when the new event obeys the
/// command contracts on the old log.
pub proof fn lemma_log_wf_step(log: Seq<EventModel>, e: EventModel)
    ensures
        log_wf(log.push(e)) == (log_wf(log) && match e {
            EventModel::LinkCreated { slug, .. } => !has_link(log, slug),
            EventModel::RedirectCountIncremented { slug } => has_link(log, slug),
        }),
{
    assert(log.push(e).drop_last() =~= log);
    assert(log.push(e).last() == e);
}

/// In a well-formed log, a slug with no link has served no redirects: the
/// counter of a freshly created link starts at zero.
pub proof fn lemma_absent_slug_count(log: Seq<EventModel>, slug: Seq<char>)
    requires
        log_wf(log),
        !has_link(log, slug),
    ensures
        redirect_count(log, slug) == 0,
    decreases log.len(),
{
    if log.len() > 0 {
        lemma_absent_slug_count(log.drop_last(), slug);
    }
}

/// In a well-formed log, the creation event of a bound slug occupies a slot
/// of its own, so the slug's redirect count stays below the log's length.
pub proof fn lemma_redirect_count_bound(log: Seq<EventModel>, slug: Seq<char>)
    requires
        log_wf(log),
        has_link(log, slug),
    ensures
        redirect_count(log, slug) < log.len(),
    decreases log.len(),
{
    if is_creation_for(log.last(), slug) {
        lemma_absent_slug_count(log.drop_last(), slug);
    } else {
        lemma_redirect_count_bound(log.drop_last(), slug);
    }
}

/// A link exists exactly when some position of the log holds its creation
/// event.
pub proof fn lemma_has_link_exists(log: Seq<EventModel>, slug: Seq<char>)
    ensures
        has_link(log, slug) <==> exists|i: int|
            0 <= i < log.len() && is_creation_for(#[trigger] log[i], slug),
    decreases log.len(),
{
    if log.len() > 0 {
        lemma_has_link_exists(log.drop_last(), slug);
        if has_link(log, slug) {
            if is_creation_for(log.last(), slug) {
                assert(is_creation_for(log[log.len() - 1], slug));
            } else {
                let i = choose|i: int|
                    0 <= i < log.drop_last().len() && is_creation_for(
                        #[trigger] log.drop_last()[i],
                        slug,
                    );
                assert(log.drop_last()[i] == log[i]);
            }
        }
        if exists|i: int| 0 <= i < log.len() && is_creation_for(#[trigger] log[i], slug) {
            let i = choose|i: int| 0 <= i < log.len() && is_creation_for(#[trigger] log[i], slug);
            if i < log.len() - 1 {
                assert(log.drop_last()[i] == log[i]);
            }
        }
    }
}

/// Slug uniqueness: a well-formed log holds at most one creation event per
/// slug, so at most one create command for a given slug ever succeeds.
pub proof fn lemma_unique_creation(log: Seq<EventModel>, slug: Seq<char>)
    requires
        log_wf(log),
    ensures
        forall|i: int, j: int|
            0 <= i < log.len() && 0 <= j < log.len() && is_creation_for(#[trigger] log[i], slug)
                && is_creation_for(#[trigger] log[j], slug) ==> i == j,
    decreases log.len(),
{
    if log.len() > 0 {
        lemma_unique_creation(log.drop_last(), slug);
        assert forall|i: int, j: int|
            0 <= i < log.len() && 0 <= j < log.len() && is_creation_for(#[trigger] log[i], slug)
                && is_creation_for(#[trigger] log[j], slug) implies i == j by {
            if i < log.len() - 1 && j < log.len() - 1 {
                assert(log.drop_last()[i] == log[i]);
                assert(log.drop_last()[j] == log[j]);
            } else if i < log.len() - 1 || j < log.len() - 1 {
                let k = if i < j {
                    i
                } else {
                    j
                };
                assert(log.drop_last()[k] == log[k]);
                lemma_has_link_exists(log.drop_last(), slug);
                assert(is_creation_for(log.last(), slug));
            }
        }
    }
}

/// Binding immutability: once a slug is bound, any event that can lawfully
/// be appended leaves its URL unchanged.
pub proof fn lemma_binding_immutable(log: Seq<EventModel>, e: EventModel, slug: Seq<char>)
    requires
        has_link(log, slug),
        log_wf(log.push(e)),
    ensures
        url_of(log.push(e), slug) == url_of(log, slug),
        has_link(log.push(e), slug),
{
    lemma_log_wf_step(log, e);
    lemma_projection_step(log, e, slug);
}

} // verus!
