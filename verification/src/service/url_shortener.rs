//! CQRS and Event Sourcing-based service implementation: the facade that
//! owns the event log and the state projection, keeps them consistent, and
//! implements both handler contracts. Taking the service by `&mut` for every
//! command makes each check-then-mutate sequence a single critical section.

use vstd::prelude::*;
use vstd::string::StringExecFns;
use crate::service::commands::CommandHandler;
use crate::service::errors::ShortenerError;
use crate::service::event::Event;
use crate::service::models::{ShortLink, Slug, Stats, Url};
use crate::service::projection::{
    has_link, lemma_absent_slug_count, lemma_log_wf_step, lemma_projection_step,
    lemma_redirect_count_bound, log_wf, redirect_count, url_of, EventModel,
};
use crate::service::queries::QueryHandler;

verus! {

/// One row of the projection: a bound slug, its target URL, and its redirect
/// counter. Born at link creation; only the counter ever changes.
struct StateEntry {
    slug: Slug,
    url: Url,
    redirects: u64,
}

/// Does `entry` say of its slug exactly what `log` says?
spec fn entry_consistent(log: Seq<EventModel>, entry: StateEntry) -> bool {
    &&& has_link(log, entry.slug@)
    &&& entry.url@ == url_of(log, entry.slug@)
    &&& entry.redirects == redirect_count(log, entry.slug@)
}

/// The ghost views of a sequence of appended events, in order.
pub open spec fn views_of(events: Seq<Event>) -> Seq<EventModel> {
    events.map_values(|e: Event| e@)
}

/// The decimal digit character for `d`; meaningful for `d < 10`.
pub open spec fn decimal_digit(d: nat) -> char {
    if d == 0 {
        '0'
    } else if d == 1 {
        '1'
    } else if d == 2 {
        '2'
    } else if d == 3 {
        '3'
    } else if d == 4 {
        '4'
    } else if d == 5 {
        '5'
    } else if d == 6 {
        '6'
    } else if d == 7 {
        '7'
    } else {
        if d == 8 {
            '8'
        } else {
            '9'
        }
    }
}

/// The decimal digits of `n`, most significant first, with no leading zero
/// except for `n == 0` itself.
pub open spec fn decimal_digits(n: nat) -> Seq<char>
    decreases n,
{
    if n < 10 {
        seq![decimal_digit(n)]
    } else {
        decimal_digits(n / 10) + seq![decimal_digit(n % 10)]
    }
}

/// The slug the generation policy derives from an event-log length of `n`.
pub open spec fn auto_slug(n: nat) -> Seq<char> {
    "slug_"@ + decimal_digits(n)
}

/// CQRS and Event Sourcing-based service implementation
pub struct UrlShortenerService {
    events: Vec<Event>,
    state: Vec<StateEntry>,
}

impl UrlShortenerService {
    /// The committed history: the views of the appended events, in order.
    pub closed spec fn log(&self) -> Seq<EventModel> {
        views_of(self.events@)
    }

    /// Internal consistency: the log is well formed, the projection holds one
    /// row per bound slug, and every row states exactly what the log says.
    pub closed spec fn well_formed(&self) -> bool {
        &&& log_wf(self.log())
        &&& forall|i: int, j: int|
            0 <= i < self.state@.len() && 0 <= j < self.state@.len() && i != j ==> (
            #[trigger] self.state@[i].slug@) != (#[trigger] self.state@[j].slug@)
        &&& forall|i: int|
            0 <= i < self.state@.len() ==> entry_consistent(
                self.log(),
                #[trigger] self.state@[i],
            )
        &&& forall|s: Seq<char>|
            #[trigger] has_link(self.log(), s) ==> exists|i: int|
                0 <= i < self.state@.len() && self.state@[i].slug@ == s
    }

    /// Creates a new instance of the service, with an empty log and an empty
    /// projection.
    pub fn new() -> (service: Self)
        ensures
            service.well_formed(),
            service.log() == Seq::<EventModel>::empty(),
    {
        let service = UrlShortenerService { events: Vec::new(), state: Vec::new() };
        proof {
            assert(service.log() =~= Seq::<EventModel>::empty());
        }
        service
    }

    /// The slug generated for the current log length, per the counter-based
    /// generation policy.
    fn generate_slug(&self) -> (r: Slug)
        ensures
            r@ == auto_slug(self.log().len()),
    {
        let digits = decimal_string(self.events.len());
        let mut text = "slug_".to_owned();
        text.append(digits.as_str());
        Slug(text)
    }

    /// The index of the projection row for `slug`, where one exists.
    fn position_of(&self, slug: &Slug) -> (r: Option<usize>)
        ensures
            match r {
                Some(i) => i < self.state@.len() && self.state@[i as int].slug@ == slug@,
                None => forall|i: int|
                    0 <= i < self.state@.len() ==> (#[trigger] self.state@[i].slug@) != slug@,
            },
    {
        let mut i: usize = 0;
        while i < self.state.len()
            invariant
                i <= self.state@.len(),
                forall|j: int| 0 <= j < i ==> (#[trigger] self.state@[j].slug@) != slug@,
            decreases self.state@.len() - i,
        {
            if self.state[i].slug.0 == slug.0 {
                return Some(i);
            }
            i = i + 1;
        }
        None
    }

    /// A slug with no projection row has no link in the log.
    proof fn lemma_unbound(&self, slug: Seq<char>)
        requires
            self.well_formed(),
            forall|i: int|
                0 <= i < self.state@.len() ==> (#[trigger] self.state@[i].slug@) != slug,
        ensures
            !has_link(self.log(), slug),
    {
        if has_link(self.log(), slug) {
            let i = choose|i: int|
                0 <= i < self.state@.len() && self.state@[i].slug@ == slug;
            assert(false);
        }
    }
}

/// The digit of a single-digit number is the number's digit string.
fn decimal_digit_str(d: usize) -> (r: &'static str)
    requires
        d < 10,
    ensures
        r@ == seq![decimal_digit(d as nat)],
{
    let r: &'static str = if d == 0 {
        "0"
    } else if d == 1 {
        "1"
    } else if d == 2 {
        "2"
    } else if d == 3 {
        "3"
    } else if d == 4 {
        "4"
    } else if d == 5 {
        "5"
    } else if d == 6 {
        "6"
    } else if d == 7 {
        "7"
    } else if d == 8 {
        "8"
    } else {
        "9"
    };
    proof {
        reveal_strlit("0");
        reveal_strlit("1");
        reveal_strlit("2");
        reveal_strlit("3");
        reveal_strlit("4");
        reveal_strlit("5");
        reveal_strlit("6");
        reveal_strlit("7");
        reveal_strlit("8");
        reveal_strlit("9");
        assert(r@ =~= seq![decimal_digit(d as nat)]);
    }
    r
}

/// The decimal rendering of `n`, digit by digit.
fn decimal_string(n: usize) -> (r: String)
    ensures
        r@ == decimal_digits(n as nat),
    decreases n,
{
    let digit = decimal_digit_str(n % 10);
    if n < 10 {
        digit.to_owned()
    } else {
        let mut r = decimal_string(n / 10);
        r.append(digit);
        proof {
            assert(r@ =~= decimal_digits(n as nat));
        }
        r
    }
}

impl CommandHandler for UrlShortenerService {
    open spec fn log_model(&self) -> Seq<EventModel> {
        self.log()
    }

    open spec fn wf(&self) -> bool {
        self.well_formed()
    }

    open spec fn next_auto_slug(&self) -> Seq<char> {
        auto_slug(self.log().len())
    }

    proof fn wf_implies_log_wf(&self) {
    }

    fn handle_create_short_link(&mut self, url: Url, slug: Option<Slug>) -> (result: Result<
        ShortLink,
        ShortenerError,
    >) {
        let chosen: Slug = match slug {
            Some(s) => s,
            None => self.generate_slug(),
        };
        let ghost target = chosen@;
        match self.position_of(&chosen) {
            Some(_) => Err(ShortenerError::SlugAlreadyInUse),
            None => {
                proof {
                    self.lemma_unbound(target);
                }
                let link = ShortLink { slug: Slug(chosen.0.clone()), url: Url(url.0.clone()) };
                let logged = ShortLink { slug: Slug(chosen.0.clone()), url: Url(url.0.clone()) };
                let ghost old_log = self.log();
                let ghost e = EventModel::LinkCreated { slug: target, url: url@ };
                self.events.push(Event::LinkCreated(logged));
                self.state.push(StateEntry { slug: chosen, url, redirects: 0 });
                proof {
                    lemma_views_push(old(self).events@, self.events@.last());
                    assert(self.log() =~= old_log.push(e));
                    lemma_log_wf_step(old_log, e);
                    lemma_absent_slug_count(old_log, target);
                    assert forall|s: Seq<char>| #[trigger]
                        has_link(self.log(), s) implies exists|i: int|
                        0 <= i < self.state@.len() && self.state@[i].slug@ == s by {
                        lemma_projection_step(old_log, e, s);
                        if has_link(old_log, s) {
                            let i = choose|i: int|
                                0 <= i < old(self).state@.len() && old(self).state@[i].slug@ == s;
                            assert(self.state@[i].slug@ == s);
                        } else {
                            assert(self.state@[self.state@.len() - 1].slug@ == s);
                        }
                    }
                    assert forall|i: int|
                        0 <= i < self.state@.len() implies entry_consistent(
                        self.log(),
                        #[trigger] self.state@[i],
                    ) by {
                        lemma_projection_step(old_log, e, self.state@[i].slug@);
                    }
                }
                Ok(link)
            },
        }
    }

    fn handle_redirect(&mut self, slug: Slug) -> (result: Result<ShortLink, ShortenerError>) {
        match self.position_of(&slug) {
            None => {
                proof {
                    self.lemma_unbound(slug@);
                }
                Err(ShortenerError::SlugNotFound)
            },
            Some(i) => {
                let url_text = self.state[i].url.0.clone();
                let count = self.state[i].redirects;
                let ghost old_log = self.log();
                let ghost e = EventModel::RedirectCountIncremented { slug: slug@ };
                // the exec length call bounds the log's length by usize::MAX,
                // so the incremented counter below stays within u64
                let n = self.events.len();
                proof {
                    lemma_redirect_count_bound(old_log, slug@);
                    assert(count < n);
                }
                self.events.push(Event::RedirectCountIncremented(Slug(slug.0.clone())));
                self.state[i] = StateEntry {
                    slug: Slug(slug.0.clone()),
                    url: Url(url_text.clone()),
                    redirects: count + 1,
                };
                proof {
                    lemma_views_push(old(self).events@, self.events@.last());
                    assert(self.log() =~= old_log.push(e));
                    lemma_log_wf_step(old_log, e);
                    assert forall|s: Seq<char>| #[trigger]
                        has_link(self.log(), s) implies exists|j: int|
                        0 <= j < self.state@.len() && self.state@[j].slug@ == s by {
                        lemma_projection_step(old_log, e, s);
                        let j = choose|j: int|
                            0 <= j < old(self).state@.len() && old(self).state@[j].slug@ == s;
                        assert(self.state@[j].slug@ == s);
                    }
                    assert forall|j: int|
                        0 <= j < self.state@.len() implies entry_consistent(
                        self.log(),
                        #[trigger] self.state@[j],
                    ) by {
                        lemma_projection_step(old_log, e, self.state@[j].slug@);
                        assert(entry_consistent(old_log, old(self).state@[j]));
                    }
                }
                Ok(ShortLink { slug, url: Url(url_text) })
            },
        }
    }
}

impl QueryHandler for UrlShortenerService {
    open spec fn log_model(&self) -> Seq<EventModel> {
        self.log()
    }

    open spec fn wf(&self) -> bool {
        self.well_formed()
    }

    fn get_stats(&self, slug: Slug) -> (result: Result<Stats, ShortenerError>) {
        match self.position_of(&slug) {
            None => {
                proof {
                    self.lemma_unbound(slug@);
                }
                Err(ShortenerError::SlugNotFound)
            },
            Some(i) => {
                let link = ShortLink { slug, url: Url(self.state[i].url.0.clone()) };
                Ok(Stats { link, redirects: self.state[i].redirects })
            },
        }
    }
}

/// Pushing an event appends its view to the sequence of views.
proof fn lemma_views_push(events: Seq<Event>, e: Event)
    ensures
        views_of(events.push(e)) =~= views_of(events).push(e@),
{
    assert forall|i: int| 0 <= i < events.push(e).len() implies views_of(events.push(e))[i]
        == views_of(events).push(e@)[i] by {
        if i < events.len() {
            assert(events.push(e)[i] == events[i]);
        } else {
            assert(events.push(e)[i] == e);
        }
    }
}

} // verus!
