//! The cache store: time-stamped payloads in two independent domains, feed
//! listings and article bodies, each keyed by a hash of the source address.
//!
//! An entry is fresh while its age is within the domain's time to live.
//! Expired entries are not removed: the fast path ignores them, and the
//! fallback path still reads them. The clock is the caller's: every
//! operation that depends on the time takes the current time in seconds.
//!
//! The store is a value in memory. A host that keeps it on disk holds one
//! file per entry, named by [`Cache::feed_cache_path`] or
//! [`Cache::article_cache_path`]; it stores an entry that it has read with
//! the time at which the entry was captured, and treats a file that it
//! cannot read or decode as absent, so that every failure is a miss here.

use crate::app::copy_stories;
use crate::app::stories_view;
use crate::app::NewsStory;
use crate::app::StoryView;
use crate::text::lower_hex;
use crate::text::lower_hex_digits;
use std::collections::hash_map::DefaultHasher;
use std::collections::HashMap;
use std::hash::Hasher;
use vstd::prelude::*;
use vstd::std_specs::hash::DefaultHasherAdditionalSpecFns;
use vstd::string::StringExecFns;
use vstd::string::StringSliceAdditionalSpecFns;
use vstd::utf8::encode_utf8;

verus! {

broadcast use vstd::std_specs::hash::group_hash_axioms;

/// Seconds for which a feed listing is fresh.
pub const FEED_TTL_SECS: u64 = 900;

/// Seconds for which an article body is fresh.
pub const ARTICLE_TTL_SECS: u64 = 3600;

/// A cached feed listing.
#[derive(Debug)]
pub struct CachedFeed {
    pub stories: Vec<NewsStory>,
    /// When the listing was captured, in seconds since the epoch.
    pub timestamp: u64,
    pub feed_url: String,
}

/// A cached article body.
#[derive(Debug)]
pub struct CachedArticle {
    pub content: String,
    /// When the body was captured, in seconds since the epoch.
    pub timestamp: u64,
    pub url: String,
}

/// A cache entry as a mathematical value, for either domain.
pub struct EntryView<P> {
    pub payload: P,
    pub captured_at: u64,
    pub source: Seq<char>,
}

impl View for CachedFeed {
    type V = EntryView<Seq<StoryView>>;

    open spec fn view(&self) -> EntryView<Seq<StoryView>> {
        EntryView {
            payload: stories_view(self.stories@),
            captured_at: self.timestamp,
            source: self.feed_url@,
        }
    }
}

impl View for CachedArticle {
    type V = EntryView<Seq<char>>;

    open spec fn view(&self) -> EntryView<Seq<char>> {
        EntryView { payload: self.content@, captured_at: self.timestamp, source: self.url@ }
    }
}

/// The key of a source address: the hash that the standard library's
/// default hasher gives to the address as a string.
pub open spec fn key_of(source: Seq<char>) -> u64 {
    DefaultHasher::spec_finish(seq![encode_utf8(source), seq![0xffu8]])
}

/// Whether an entry captured at `captured_at` is within `ttl` seconds of
/// age at `now`. An entry from the future counts as fresh.
pub open spec fn is_fresh(captured_at: u64, now: u64, ttl: u64) -> bool {
    now - captured_at <= ttl
}

/// The domain after a payload is stored for `source` at `now`: a full
/// replacement of the entry under the source's key.
pub open spec fn put<P>(
    domain: Map<u64, EntryView<P>>,
    source: Seq<char>,
    payload: P,
    now: u64,
) -> Map<u64, EntryView<P>> {
    domain.insert(key_of(source), EntryView { payload, captured_at: now, source })
}

/// The payload stored for `source`, whatever its age; `None` is a miss.
pub open spec fn get_stale<P>(domain: Map<u64, EntryView<P>>, source: Seq<char>) -> Option<P> {
    if domain.contains_key(key_of(source)) {
        Some(domain[key_of(source)].payload)
    } else {
        None
    }
}

/// The payload stored for `source` if it is fresh at `now`; `None` is a
/// miss.
pub open spec fn get_fresh<P>(
    domain: Map<u64, EntryView<P>>,
    source: Seq<char>,
    now: u64,
    ttl: u64,
) -> Option<P> {
    if domain.contains_key(key_of(source)) && is_fresh(
        domain[key_of(source)].captured_at,
        now,
        ttl,
    ) {
        Some(domain[key_of(source)].payload)
    } else {
        None
    }
}

/// The seconds elapsed at `now` since the entry for `source` was captured,
/// zero for an entry from the future; `None` is a miss.
pub open spec fn age<P>(domain: Map<u64, EntryView<P>>, source: Seq<char>, now: u64) -> Option<
    u64,
> {
    if domain.contains_key(key_of(source)) {
        let captured_at = domain[key_of(source)].captured_at;
        if now >= captured_at {
            Some((now - captured_at) as u64)
        } else {
            Some(0)
        }
    } else {
        None
    }
}

/// The cache as a mathematical value: one map per domain.
pub struct CacheView {
    pub feeds: Map<u64, EntryView<Seq<StoryView>>>,
    pub articles: Map<u64, EntryView<Seq<char>>>,
}

/// The cache store.
pub struct Cache {
    feeds: HashMap<u64, CachedFeed>,
    articles: HashMap<u64, CachedArticle>,
}

impl View for Cache {
    type V = CacheView;

    closed spec fn view(&self) -> CacheView {
        CacheView {
            feeds: Map::new(|k: u64| self.feeds@.contains_key(k), |k: u64| self.feeds@[k]@),
            articles: Map::new(
                |k: u64| self.articles@.contains_key(k),
                |k: u64| self.articles@[k]@,
            ),
        }
    }
}

/// Whether an entry captured at `captured_at` is fresh at `now`.
pub fn fresh_at(captured_at: u64, now: u64, ttl: u64) -> (fresh: bool)
    ensures
        fresh == is_fresh(captured_at, now, ttl),
{
    now <= captured_at || now - captured_at <= ttl
}

/// The seconds elapsed at `now` since `captured_at`, zero if that lies in
/// the future.
pub fn elapsed(captured_at: u64, now: u64) -> (seconds: u64)
    ensures
        seconds == if now >= captured_at {
            now - captured_at
        } else {
            0
        },
{
    if now >= captured_at {
        now - captured_at
    } else {
        0
    }
}

impl Cache {
    /// An empty cache.
    pub fn new() -> (cache: Cache)
        ensures
            cache@.feeds == Map::<u64, EntryView<Seq<StoryView>>>::empty(),
            cache@.articles == Map::<u64, EntryView<Seq<char>>>::empty(),
    {
        let cache = Cache { feeds: HashMap::new(), articles: HashMap::new() };
        assert(cache@.feeds =~= Map::<u64, EntryView<Seq<StoryView>>>::empty());
        assert(cache@.articles =~= Map::<u64, EntryView<Seq<char>>>::empty());
        cache
    }

    /// The key of a source address.
    pub fn key(source: &str) -> (key: u64)
        ensures
            key == key_of(source@),
    {
        let mut hasher = DefaultHasher::new();
        hasher.write(source.as_bytes());
        let mut end: Vec<u8> = Vec::new();
        end.push(0xffu8);
        hasher.write(end.as_slice());
        proof {
            assert(end@ =~= seq![0xffu8]);
            assert(hasher@ =~= seq![encode_utf8(source@), seq![0xffu8]]);
        }
        hasher.finish()
    }

    /// The key of a source address in the form used in file names: lower-case
    /// hexadecimal, without leading zeros.
    pub fn hash_string(s: &str) -> (hash: String)
        ensures
            hash@ == lower_hex_digits(key_of(s@) as nat),
    {
        lower_hex(Cache::key(s))
    }

    /// The name of the file that holds the feed listing of `feed_url`.
    pub fn feed_cache_path(feed_url: &str) -> (name: String)
        ensures
            name@ == "feed_"@ + lower_hex_digits(key_of(feed_url@) as nat) + ".bin"@,
    {
        let hash = Cache::hash_string(feed_url);
        let mut name = String::from_str("feed_");
        name.append(hash.as_str());
        name.append(".bin");
        name
    }

    /// The name of the file that holds the article body of `article_url`.
    pub fn article_cache_path(article_url: &str) -> (name: String)
        ensures
            name@ == "article_"@ + lower_hex_digits(key_of(article_url@) as nat) + ".bin"@,
    {
        let hash = Cache::hash_string(article_url);
        let mut name = String::from_str("article_");
        name.append(hash.as_str());
        name.append(".bin");
        name
    }

    /// Stores a feed listing captured at `now`, replacing what was stored
    /// for the feed. The article domain is untouched.
    pub fn save_feed(&mut self, feed_url: &str, stories: &[NewsStory], now: u64)
        ensures
            final(self)@.feeds == put(old(self)@.feeds, feed_url@, stories_view(stories@), now),
            final(self)@.articles == old(self)@.articles,
    {
        let key = Cache::key(feed_url);
        let entry = CachedFeed {
            stories: copy_stories(stories),
            timestamp: now,
            feed_url: feed_url.to_owned(),
        };
        self.feeds.insert(key, entry);
        assert(self@.feeds =~= put(old(self)@.feeds, feed_url@, stories_view(stories@), now));
        assert(self@.articles =~= old(self)@.articles);
    }

    /// The feed listing stored for `feed_url`, if it is fresh at `now`.
    pub fn load_feed(&self, feed_url: &str, now: u64) -> (found: Option<Vec<NewsStory>>)
        ensures
            match found {
                Some(stories) => get_fresh(self@.feeds, feed_url@, now, FEED_TTL_SECS) == Some(
                    stories_view(stories@),
                ),
                None => get_fresh(self@.feeds, feed_url@, now, FEED_TTL_SECS) is None,
            },
    {
        let key = Cache::key(feed_url);
        match self.feeds.get(&key) {
            Some(entry) => {
                if fresh_at(entry.timestamp, now, FEED_TTL_SECS) {
                    Some(copy_stories(entry.stories.as_slice()))
                } else {
                    None
                }
            },
            None => None,
        }
    }

    /// The feed listing stored for `feed_url`, whatever its age.
    pub fn load_feed_offline(&self, feed_url: &str) -> (found: Option<Vec<NewsStory>>)
        ensures
            match found {
                Some(stories) => get_stale(self@.feeds, feed_url@) == Some(stories_view(stories@)),
                None => get_stale(self@.feeds, feed_url@) is None,
            },
    {
        let key = Cache::key(feed_url);
        match self.feeds.get(&key) {
            Some(entry) => Some(copy_stories(entry.stories.as_slice())),
            None => None,
        }
    }

    /// The age in seconds at `now` of the feed listing stored for
    /// `feed_url`.
    pub fn get_feed_age(&self, feed_url: &str, now: u64) -> (seconds: Option<u64>)
        ensures
            seconds == age(self@.feeds, feed_url@, now),
    {
        let key = Cache::key(feed_url);
        match self.feeds.get(&key) {
            Some(entry) => Some(elapsed(entry.timestamp, now)),
            None => None,
        }
    }

    /// Stores an article body captured at `now`, replacing what was stored
    /// for the article. The feed domain is untouched.
    pub fn save_article(&mut self, article_url: &str, content: &str, now: u64)
        ensures
            final(self)@.articles == put(old(self)@.articles, article_url@, content@, now),
            final(self)@.feeds == old(self)@.feeds,
    {
        let key = Cache::key(article_url);
        let entry = CachedArticle {
            content: content.to_owned(),
            timestamp: now,
            url: article_url.to_owned(),
        };
        self.articles.insert(key, entry);
        assert(self@.articles =~= put(old(self)@.articles, article_url@, content@, now));
        assert(self@.feeds =~= old(self)@.feeds);
    }

    /// The article body stored for `article_url`, if it is fresh at `now`.
    pub fn load_article(&self, article_url: &str, now: u64) -> (found: Option<String>)
        ensures
            match found {
                Some(content) => get_fresh(self@.articles, article_url@, now, ARTICLE_TTL_SECS)
                    == Some(content@),
                None => get_fresh(self@.articles, article_url@, now, ARTICLE_TTL_SECS) is None,
            },
    {
        let key = Cache::key(article_url);
        match self.articles.get(&key) {
            Some(entry) => {
                if fresh_at(entry.timestamp, now, ARTICLE_TTL_SECS) {
                    Some(entry.content.clone())
                } else {
                    None
                }
            },
            None => None,
        }
    }

    /// The article body stored for `article_url`, whatever its age.
    pub fn load_article_offline(&self, article_url: &str) -> (found: Option<String>)
        ensures
            match found {
                Some(content) => get_stale(self@.articles, article_url@) == Some(content@),
                None => get_stale(self@.articles, article_url@) is None,
            },
    {
        let key = Cache::key(article_url);
        match self.articles.get(&key) {
            Some(entry) => Some(entry.content.clone()),
            None => None,
        }
    }

    /// The age in seconds at `now` of the article body stored for
    /// `article_url`.
    pub fn get_article_age(&self, article_url: &str, now: u64) -> (seconds: Option<u64>)
        ensures
            seconds == age(self@.articles, article_url@, now),
    {
        let key = Cache::key(article_url);
        match self.articles.get(&key) {
            Some(entry) => Some(elapsed(entry.timestamp, now)),
            None => None,
        }
    }

    /// Empties both domains.
    pub fn clear_all(&mut self)
        ensures
            final(self)@.feeds == Map::<u64, EntryView<Seq<StoryView>>>::empty(),
            final(self)@.articles == Map::<u64, EntryView<Seq<char>>>::empty(),
    {
        self.feeds.clear();
        self.articles.clear();
        assert(self@.feeds =~= Map::<u64, EntryView<Seq<StoryView>>>::empty());
        assert(self@.articles =~= Map::<u64, EntryView<Seq<char>>>::empty());
    }
}

/// A payload that was just stored is read back by the fresh path.
pub proof fn lemma_put_then_get_fresh<P>(
    domain: Map<u64, EntryView<P>>,
    source: Seq<char>,
    payload: P,
    now: u64,
    ttl: u64,
)
    ensures
        get_fresh(put(domain, source, payload, now), source, now, ttl) == Some(payload),
        get_stale(put(domain, source, payload, now), source) == Some(payload),
        age(put(domain, source, payload, now), source, now) == Some(0u64),
{
}

/// Once the time to live has elapsed, the fresh path misses and the stale
/// path still returns the payload that was stored.
pub proof fn lemma_expired_entry_is_stale<P>(
    domain: Map<u64, EntryView<P>>,
    source: Seq<char>,
    payload: P,
    stored_at: u64,
    now: u64,
    ttl: u64,
)
    requires
        now - stored_at > ttl,
    ensures
        get_fresh(put(domain, source, payload, stored_at), source, now, ttl) is None,
        get_stale(put(domain, source, payload, stored_at), source) == Some(payload),
{
}

/// Until the time to live has elapsed, the fresh path returns the payload
/// that was stored.
pub proof fn lemma_entry_is_fresh_within_ttl<P>(
    domain: Map<u64, EntryView<P>>,
    source: Seq<char>,
    payload: P,
    stored_at: u64,
    now: u64,
    ttl: u64,
)
    requires
        now - stored_at <= ttl,
    ensures
        get_fresh(put(domain, source, payload, stored_at), source, now, ttl) == Some(payload),
{
}

/// A source whose key holds no entry misses on every path. In particular
/// every source misses in an empty domain.
pub proof fn lemma_absent_key_misses<P>(
    domain: Map<u64, EntryView<P>>,
    source: Seq<char>,
    now: u64,
    ttl: u64,
)
    requires
        !domain.contains_key(key_of(source)),
    ensures
        get_fresh(domain, source, now, ttl) is None,
        get_stale(domain, source) is None,
        age(domain, source, now) is None,
{
}

/// Storing a payload touches the key of its source and no other: a source
/// with another key reads what it read before.
pub proof fn lemma_put_leaves_other_keys<P>(
    domain: Map<u64, EntryView<P>>,
    source: Seq<char>,
    payload: P,
    stored_at: u64,
    other: Seq<char>,
    now: u64,
    ttl: u64,
)
    requires
        key_of(other) != key_of(source),
    ensures
        get_fresh(put(domain, source, payload, stored_at), other, now, ttl) == get_fresh(
            domain,
            other,
            now,
            ttl,
        ),
        get_stale(put(domain, source, payload, stored_at), other) == get_stale(domain, other),
        age(put(domain, source, payload, stored_at), other, now) == age(domain, other, now),
{
}

/// After the cache is cleared, every source misses on every path.
pub proof fn lemma_cleared_domain_misses<P>(source: Seq<char>, now: u64, ttl: u64)
    ensures
        get_fresh(Map::<u64, EntryView<P>>::empty(), source, now, ttl) is None,
        get_stale(Map::<u64, EntryView<P>>::empty(), source) is None,
        age(Map::<u64, EntryView<P>>::empty(), source, now) is None,
{
}

} // verus!
