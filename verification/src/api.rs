//! Fetching a feed under the resolution policy: a fresh cache entry first,
//! then the network, then a stale cache entry.
//!
//! The library performs no network I/O. A fetch is two steps with the
//! host's request between them: the first step probes the cache and says
//! whether the network is needed; the host performs the request; the second
//! step takes the reply, parses it, stores what was parsed and falls back to
//! the stale entry where the reply is of no use.

use crate::app::stories_view;
use crate::app::NewsStory;
use crate::app::StoryView;
use crate::cache::get_fresh;
use crate::cache::get_stale;
use crate::cache::key_of;
use crate::cache::put;
use crate::cache::Cache;
use crate::cache::EntryView;
use crate::cache::FEED_TTL_SECS;
use crate::feed_parser::feed_stories;
use crate::feed_parser::parse_rss;
use crate::text::decimal;
use crate::text::decimal_digits;
use crate::xml::document_events;
use vstd::prelude::*;
use vstd::string::StringExecFns;

verus! {

/// Why a fetch failed.
#[derive(Debug)]
pub enum FetchError {
    /// The transport failed, timed out or answered without success.
    Network { message: String },
    /// The feed document is malformed at the given byte offset.
    Parse { offset: u64 },
    /// The article could not be cleaned up or converted to text.
    Extraction,
    /// Offline mode was requested and nothing is cached.
    OfflineNoCache,
}

/// The mathematical value of a [`FetchError`].
pub enum FetchErrorView {
    Network { message: Seq<char> },
    Parse { offset: u64 },
    Extraction,
    OfflineNoCache,
}

impl View for FetchError {
    type V = FetchErrorView;

    open spec fn view(&self) -> FetchErrorView {
        match *self {
            FetchError::Network { message } => FetchErrorView::Network { message: message@ },
            FetchError::Parse { offset } => FetchErrorView::Parse { offset },
            FetchError::Extraction => FetchErrorView::Extraction,
            FetchError::OfflineNoCache => FetchErrorView::OfflineNoCache,
        }
    }
}

impl FetchErrorView {
    /// A transient failure may succeed when tried again; "offline and
    /// nothing cached" will not, until the mode changes.
    pub open spec fn is_retryable(self) -> bool {
        !(self is OfflineNoCache)
    }

    /// The error in words.
    pub open spec fn message(self) -> Seq<char> {
        match self {
            FetchErrorView::Network { message } => message,
            FetchErrorView::Parse { offset } => "Error parsing XML at position "@
                + decimal_digits(offset as nat),
            FetchErrorView::Extraction => "Failed to extract the article"@,
            FetchErrorView::OfflineNoCache => "Offline mode - skipping network fetch"@,
        }
    }
}

impl FetchError {
    /// Whether trying again may help.
    pub fn is_retryable(&self) -> (retryable: bool)
        ensures
            retryable == self@.is_retryable(),
    {
        match self {
            FetchError::OfflineNoCache => false,
            _ => true,
        }
    }

    /// The error in words.
    pub fn message(&self) -> (text: String)
        ensures
            text@ == self@.message(),
    {
        match self {
            FetchError::Network { message } => message.clone(),
            FetchError::Parse { offset } => {
                let mut text = String::from_str("Error parsing XML at position ");
                text.append(decimal(*offset as u128).as_str());
                text
            },
            FetchError::Extraction => String::from_str("Failed to extract the article"),
            FetchError::OfflineNoCache => String::from_str(
                "Offline mode - skipping network fetch",
            ),
        }
    }
}

/// What the first step of a fetch decides.
#[derive(Debug)]
pub enum FetchPlan<T> {
    /// The cache answers: return the payload, make no request.
    Ready(T),
    /// Perform the request and hand the reply to the second step.
    NeedNetwork,
    /// Nothing can be returned.
    Failed(FetchError),
}

/// The mathematical value of a [`FetchPlan`].
pub enum PlanView<P> {
    Ready(P),
    NeedNetwork,
    Failed(FetchErrorView),
}

/// The first step of the resolution policy, given what the fresh probe and
/// the stale probe find. A fresh entry is returned at once. Otherwise the
/// network is needed, unless offline mode forbids it: then the stale entry
/// is returned, and where there is none the fetch fails.
pub open spec fn plan<P>(fresh: Option<P>, stale: Option<P>, offline: bool) -> PlanView<P> {
    match fresh {
        Some(payload) => PlanView::Ready(payload),
        None => {
            if !offline {
                PlanView::NeedNetwork
            } else {
                match stale {
                    Some(payload) => PlanView::Ready(payload),
                    None => PlanView::Failed(FetchErrorView::OfflineNoCache),
                }
            }
        },
    }
}

/// The second step of the resolution policy, given what the network attempt
/// came to. A payload is stored and returned. On an error the stale entry is
/// returned, and the error only where there is none; the cache stays as it
/// is.
pub open spec fn settle<P>(
    domain: Map<u64, EntryView<P>>,
    source: Seq<char>,
    outcome: Result<P, FetchErrorView>,
    now: u64,
) -> (Map<u64, EntryView<P>>, Result<P, FetchErrorView>) {
    match outcome {
        Ok(payload) => (put(domain, source, payload, now), Ok(payload)),
        Err(error) => (
            domain,
            match get_stale(domain, source) {
                Some(payload) => Ok(payload),
                None => Err(error),
            },
        ),
    }
}

/// The view of a plan for a feed.
pub open spec fn feed_plan_view(plan: FetchPlan<Vec<NewsStory>>) -> PlanView<Seq<StoryView>> {
    match plan {
        FetchPlan::Ready(stories) => PlanView::Ready(stories_view(stories@)),
        FetchPlan::NeedNetwork => PlanView::NeedNetwork,
        FetchPlan::Failed(error) => PlanView::Failed(error@),
    }
}

/// The view of the result of a feed fetch.
pub open spec fn feed_result_view(result: Result<Vec<NewsStory>, FetchError>) -> Result<
    Seq<StoryView>,
    FetchErrorView,
> {
    match result {
        Ok(stories) => Ok(stories_view(stories@)),
        Err(error) => Err(error@),
    }
}

/// The view of a reply from the transport: the body, or why there is none.
pub open spec fn reply_view(reply: Result<String, String>) -> Result<Seq<char>, Seq<char>> {
    match reply {
        Ok(body) => Ok(body@),
        Err(message) => Err(message@),
    }
}

/// What a network attempt for a feed came to: the stories parsed from the
/// body, a parse error, or the transport's failure.
pub open spec fn feed_outcome(reply: Result<Seq<char>, Seq<char>>) -> Result<
    Seq<StoryView>,
    FetchErrorView,
> {
    match reply {
        Ok(body) => match feed_stories(document_events(body)) {
            Ok(stories) => Ok(stories),
            Err(error) => Err(FetchErrorView::Parse { offset: error.offset }),
        },
        Err(message) => Err(FetchErrorView::Network { message }),
    }
}

/// The first step of a feed fetch, with the network allowed.
pub fn fetch_stories(cache: &Cache, feed_url: &str, now: u64) -> (step: FetchPlan<Vec<NewsStory>>)
    ensures
        feed_plan_view(step) == plan(
            get_fresh(cache@.feeds, feed_url@, now, FEED_TTL_SECS),
            get_stale(cache@.feeds, feed_url@),
            false,
        ),
{
    fetch_stories_with_cache(cache, feed_url, false, now)
}

/// The first step of a feed fetch. A listing that is fresh at `now` is
/// returned and no request is asked for. Otherwise the network is needed,
/// unless `force_offline` forbids it: then the stale listing is returned,
/// and where there is none the fetch fails as offline without cache.
pub fn fetch_stories_with_cache(
    cache: &Cache,
    feed_url: &str,
    force_offline: bool,
    now: u64,
) -> (step: FetchPlan<Vec<NewsStory>>)
    ensures
        feed_plan_view(step) == plan(
            get_fresh(cache@.feeds, feed_url@, now, FEED_TTL_SECS),
            get_stale(cache@.feeds, feed_url@),
            force_offline,
        ),
{
    match cache.load_feed(feed_url, now) {
        Some(stories) => FetchPlan::Ready(stories),
        None => {
            if !force_offline {
                FetchPlan::NeedNetwork
            } else {
                match cache.load_feed_offline(feed_url) {
                    Some(stories) => FetchPlan::Ready(stories),
                    None => FetchPlan::Failed(FetchError::OfflineNoCache),
                }
            }
        },
    }
}

/// Ends a feed fetch, given what the network attempt came to. Stories are
/// stored as captured at `now` and returned. On an error the stale listing
/// is returned, and the error only where there is none. The article domain
/// is untouched.
pub fn settle_feed(
    cache: &mut Cache,
    feed_url: &str,
    outcome: Result<Vec<NewsStory>, FetchError>,
    now: u64,
) -> (result: Result<Vec<NewsStory>, FetchError>)
    ensures
        (final(cache)@.feeds, feed_result_view(result)) == settle(
            old(cache)@.feeds,
            feed_url@,
            feed_result_view(outcome),
            now,
        ),
        final(cache)@.articles == old(cache)@.articles,
{
    match outcome {
        Ok(stories) => {
            cache.save_feed(feed_url, stories.as_slice(), now);
            Ok(stories)
        },
        Err(error) => {
            match cache.load_feed_offline(feed_url) {
                Some(stories) => Ok(stories),
                None => Err(error),
            }
        },
    }
}

/// What the transport's reply for a feed comes to: the body is parsed, and
/// a failure of the transport or of the parse becomes the fetch error.
pub fn read_feed_reply(reply: Result<String, String>) -> (outcome: Result<
    Vec<NewsStory>,
    FetchError,
>)
    ensures
        feed_result_view(outcome) == feed_outcome(reply_view(reply)),
{
    match reply {
        Ok(body) => {
            match parse_rss(body.as_str()) {
                Ok(stories) => Ok(stories),
                Err(error) => Err(FetchError::Parse { offset: error.offset }),
            }
        },
        Err(message) => Err(FetchError::Network { message }),
    }
}

/// The second step of a feed fetch: takes the transport's reply, parses the
/// body, stores and returns the stories, and falls back to the stale
/// listing where the transport or the parse failed.
pub fn complete_feed_fetch(
    cache: &mut Cache,
    feed_url: &str,
    reply: Result<String, String>,
    now: u64,
) -> (result: Result<Vec<NewsStory>, FetchError>)
    ensures
        (final(cache)@.feeds, feed_result_view(result)) == settle(
            old(cache)@.feeds,
            feed_url@,
            feed_outcome(reply_view(reply)),
            now,
        ),
        final(cache)@.articles == old(cache)@.articles,
{
    let outcome = read_feed_reply(reply);
    settle_feed(cache, feed_url, outcome, now)
}

/// While an entry is fresh the first step returns it and asks for no
/// request, whether offline mode is set or not; so two fetches against the
/// same cache, each at a time when the entry is fresh, return the same
/// payload.
pub proof fn lemma_fresh_fetch_is_idempotent<P>(
    domain: Map<u64, EntryView<P>>,
    source: Seq<char>,
    ttl: u64,
    first_time: u64,
    first_offline: bool,
    second_time: u64,
    second_offline: bool,
)
    requires
        get_fresh(domain, source, first_time, ttl) is Some,
        get_fresh(domain, source, second_time, ttl) is Some,
    ensures
        plan(get_fresh(domain, source, first_time, ttl), get_stale(domain, source), first_offline)
            == PlanView::Ready(domain[key_of(source)].payload),
        plan(
            get_fresh(domain, source, second_time, ttl),
            get_stale(domain, source),
            second_offline,
        ) == plan(
            get_fresh(domain, source, first_time, ttl),
            get_stale(domain, source),
            first_offline,
        ),
{
}

/// After a network attempt that yields a payload, the cache holds it as a
/// fresh entry, and a fetch at that time returns it without a request.
pub proof fn lemma_fetched_payload_is_fresh<P>(
    domain: Map<u64, EntryView<P>>,
    source: Seq<char>,
    payload: P,
    now: u64,
    ttl: u64,
    offline: bool,
)
    ensures
        settle(domain, source, Ok(payload), now).1 == Ok::<P, FetchErrorView>(payload),
        get_fresh(settle(domain, source, Ok(payload), now).0, source, now, ttl) == Some(payload),
        plan(
            get_fresh(settle(domain, source, Ok(payload), now).0, source, now, ttl),
            get_stale(settle(domain, source, Ok(payload), now).0, source),
            offline,
        ) == PlanView::Ready(payload),
{
}

/// Where the network attempt fails and an entry is stored, however old, the
/// entry is returned and no error is raised; the cache stays as it is.
pub proof fn lemma_stale_entry_covers_failure<P>(
    domain: Map<u64, EntryView<P>>,
    source: Seq<char>,
    error: FetchErrorView,
    now: u64,
)
    requires
        domain.contains_key(key_of(source)),
    ensures
        settle(domain, source, Err(error), now) == (
            domain,
            Ok::<P, FetchErrorView>(domain[key_of(source)].payload),
        ),
{
}

/// Where the network attempt fails and nothing is stored, the error of the
/// attempt is returned.
pub proof fn lemma_failure_without_entry_is_raised<P>(
    domain: Map<u64, EntryView<P>>,
    source: Seq<char>,
    error: FetchErrorView,
    now: u64,
)
    requires
        !domain.contains_key(key_of(source)),
    ensures
        settle(domain, source, Err(error), now) == (domain, Err::<P, FetchErrorView>(error)),
{
}

/// In offline mode no request is ever asked for: a stored entry is
/// returned, fresh or not, and without one the fetch fails as offline
/// without cache, which is the one error that is not worth a retry.
pub proof fn lemma_offline_never_needs_network<P>(
    domain: Map<u64, EntryView<P>>,
    source: Seq<char>,
    now: u64,
    ttl: u64,
)
    ensures
        !(plan(get_fresh(domain, source, now, ttl), get_stale(domain, source), true)
            is NeedNetwork),
        domain.contains_key(key_of(source)) ==> plan(
            get_fresh(domain, source, now, ttl),
            get_stale(domain, source),
            true,
        ) == PlanView::Ready(domain[key_of(source)].payload),
        !domain.contains_key(key_of(source)) ==> plan(
            get_fresh(domain, source, now, ttl),
            get_stale(domain, source),
            true,
        ) == PlanView::<P>::Failed(FetchErrorView::OfflineNoCache),
        !FetchErrorView::OfflineNoCache.is_retryable(),
{
}

/// With the network allowed, a request is asked for exactly when no fresh
/// entry is stored.
pub proof fn lemma_network_is_needed_without_fresh_entry<P>(
    domain: Map<u64, EntryView<P>>,
    source: Seq<char>,
    now: u64,
    ttl: u64,
)
    ensures
        plan(get_fresh(domain, source, now, ttl), get_stale(domain, source), false)
            is NeedNetwork <==> get_fresh(domain, source, now, ttl) is None,
{
}

} // verus!
