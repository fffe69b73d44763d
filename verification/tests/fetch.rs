use bbc_news_cli::api::complete_feed_fetch;
use bbc_news_cli::api::fetch_stories;
use bbc_news_cli::api::fetch_stories_with_cache;
use bbc_news_cli::api::read_feed_reply;
use bbc_news_cli::api::settle_feed;
use bbc_news_cli::api::FetchError;
use bbc_news_cli::api::FetchPlan;
use bbc_news_cli::app::NewsStory;
use bbc_news_cli::cache::Cache;

const URL: &str = "https://feeds.example.org/news/rss.xml";

fn feed(count: usize) -> String {
    let mut xml = String::from("<?xml version=\"1.0\" encoding=\"UTF-8\"?><rss version=\"2.0\"><channel><title>News</title>");
    for i in 0..count {
        xml.push_str(&format!(
            "<item><title>Story {}</title><description>About {}</description><link>https://example.org/{}</link><pubDate>Tue, 03 Feb 2015 15:58:15 GMT</pubDate></item>",
            i, i, i
        ));
    }
    xml.push_str("</channel></rss>");
    xml
}

fn titles(stories: &[NewsStory]) -> Vec<String> {
    stories.iter().map(|s| s.title.clone()).collect()
}

fn story(title: &str) -> NewsStory {
    NewsStory {
        title: title.to_string(),
        description: String::new(),
        link: format!("https://example.org/{}", title),
        pub_date: String::new(),
        category: "News".to_string(),
        image_url: None,
    }
}

/// Runs a whole fetch against a transport that answers with `reply` and
/// counts how often it is asked.
fn run(
    cache: &mut Cache,
    offline: bool,
    now: u64,
    reply: Result<String, String>,
    requests: &mut u32,
) -> Result<Vec<NewsStory>, FetchError> {
    match fetch_stories_with_cache(cache, URL, offline, now) {
        FetchPlan::Ready(stories) => Ok(stories),
        FetchPlan::Failed(error) => Err(error),
        FetchPlan::NeedNetwork => {
            *requests += 1;
            complete_feed_fetch(cache, URL, reply, now)
        }
    }
}

#[test]
fn empty_cache_and_a_valid_feed_give_the_stories_and_a_fresh_entry() {
    let mut cache = Cache::new();
    let mut requests = 0;
    let stories = run(&mut cache, false, 1000, Ok(feed(5)), &mut requests).unwrap();
    assert_eq!(requests, 1);
    assert_eq!(stories.len(), 5);
    assert_eq!(titles(&stories), vec!["Story 0", "Story 1", "Story 2", "Story 3", "Story 4"]);
    assert_eq!(stories[0].pub_date, "2015-02-03 15:58:15");
    let cached = cache.load_feed(URL, 1000).unwrap();
    assert_eq!(titles(&cached), titles(&stories));
    assert_eq!(cache.get_feed_age(URL, 1000), Some(0));
}

#[test]
fn fresh_cache_makes_no_request() {
    let mut cache = Cache::new();
    cache.save_feed(URL, &vec![story("cached")], 1000);
    let mut requests = 0;
    let stories = run(&mut cache, false, 1500, Ok(feed(5)), &mut requests).unwrap();
    assert_eq!(requests, 0);
    assert_eq!(titles(&stories), vec!["cached"]);
    assert_eq!(cache.get_feed_age(URL, 1500), Some(500));
}

#[test]
fn stale_cache_covers_an_unreachable_network() {
    let mut cache = Cache::new();
    cache.save_feed(URL, &vec![story("old")], 1000);
    let mut requests = 0;
    let stories =
        run(&mut cache, false, 1000 + 901, Err("connection refused".to_string()), &mut requests)
            .unwrap();
    assert_eq!(requests, 1);
    assert_eq!(titles(&stories), vec!["old"]);
    assert_eq!(cache.get_feed_age(URL, 1901), Some(901));
}

#[test]
fn no_cache_and_no_network_fails_with_a_network_error() {
    let mut cache = Cache::new();
    let mut requests = 0;
    match run(&mut cache, false, 1000, Err("connection refused".to_string()), &mut requests) {
        Err(FetchError::Network { message }) => assert_eq!(message, "connection refused"),
        other => panic!("expected a network error, got {:?}", other),
    }
    assert_eq!(requests, 1);
    assert!(cache.load_feed_offline(URL).is_none());
}

#[test]
fn offline_mode_returns_the_stale_listing_without_a_request() {
    let mut cache = Cache::new();
    cache.save_feed(URL, &vec![story("old")], 1000);
    let mut requests = 0;
    let stories = run(&mut cache, true, 1_000_000, Ok(feed(5)), &mut requests).unwrap();
    assert_eq!(requests, 0);
    assert_eq!(titles(&stories), vec!["old"]);
}

#[test]
fn offline_mode_without_cache_is_a_distinct_error() {
    let mut cache = Cache::new();
    let mut requests = 0;
    match run(&mut cache, true, 1000, Ok(feed(5)), &mut requests) {
        Err(error) => {
            assert!(matches!(error, FetchError::OfflineNoCache));
            assert!(!error.is_retryable());
            assert_eq!(error.message(), "Offline mode - skipping network fetch");
        }
        Ok(_) => panic!("expected a failure"),
    }
    assert_eq!(requests, 0);
}

#[test]
fn offline_mode_prefers_a_fresh_listing() {
    let mut cache = Cache::new();
    cache.save_feed(URL, &vec![story("fresh")], 1000);
    match fetch_stories_with_cache(&cache, URL, true, 1001) {
        FetchPlan::Ready(stories) => assert_eq!(titles(&stories), vec!["fresh"]),
        other => panic!("expected a cache hit, got {:?}", other),
    }
}

#[test]
fn repeated_fetches_against_a_fresh_cache_are_identical() {
    let mut cache = Cache::new();
    let mut requests = 0;
    let first = run(&mut cache, false, 1000, Ok(feed(3)), &mut requests).unwrap();
    let second = run(&mut cache, false, 1200, Ok(feed(7)), &mut requests).unwrap();
    let third = run(&mut cache, true, 1900, Err("down".to_string()), &mut requests).unwrap();
    assert_eq!(requests, 1);
    assert_eq!(titles(&first), titles(&second));
    assert_eq!(titles(&second), titles(&third));
    assert_eq!(cache.get_feed_age(URL, 1900), Some(900));
}

#[test]
fn an_expired_listing_is_fetched_again_and_replaced() {
    let mut cache = Cache::new();
    cache.save_feed(URL, &vec![story("old")], 1000);
    let mut requests = 0;
    let stories = run(&mut cache, false, 1901, Ok(feed(2)), &mut requests).unwrap();
    assert_eq!(requests, 1);
    assert_eq!(titles(&stories), vec!["Story 0", "Story 1"]);
    assert_eq!(titles(&cache.load_feed(URL, 1901).unwrap()), vec!["Story 0", "Story 1"]);
}

#[test]
fn a_malformed_reply_falls_back_to_the_stale_listing() {
    let mut cache = Cache::new();
    cache.save_feed(URL, &vec![story("old")], 1000);
    let broken = "<rss><channel><item><title>t</wrong></item></channel></rss>".to_string();
    let stories = complete_feed_fetch(&mut cache, URL, Ok(broken), 5000).unwrap();
    assert_eq!(titles(&stories), vec!["old"]);
    assert_eq!(cache.get_feed_age(URL, 5000), Some(4000));
}

#[test]
fn a_malformed_reply_without_cache_is_a_parse_error() {
    let mut cache = Cache::new();
    let broken = "<rss><channel><item><title>t</wrong></item></channel></rss>".to_string();
    match complete_feed_fetch(&mut cache, URL, Ok(broken), 5000) {
        Err(error) => {
            assert!(error.is_retryable());
            match error {
                FetchError::Parse { offset } => assert!(offset > 0),
                other => panic!("expected a parse error, got {:?}", other),
            }
        }
        Ok(_) => panic!("expected a failure"),
    }
    assert!(cache.load_feed_offline(URL).is_none());
}

#[test]
fn fetch_stories_is_the_online_fetch() {
    let mut cache = Cache::new();
    assert!(matches!(fetch_stories(&cache, URL, 1000), FetchPlan::NeedNetwork));
    cache.save_feed(URL, &vec![story("a")], 1000);
    match fetch_stories(&cache, URL, 1900) {
        FetchPlan::Ready(stories) => assert_eq!(titles(&stories), vec!["a"]),
        other => panic!("expected a cache hit, got {:?}", other),
    }
    assert!(matches!(fetch_stories(&cache, URL, 1901), FetchPlan::NeedNetwork));
}

#[test]
fn settle_feed_stores_stories_and_keeps_the_cache_on_errors() {
    let mut cache = Cache::new();
    let stored = settle_feed(&mut cache, URL, Ok(vec![story("a"), story("b")]), 100).unwrap();
    assert_eq!(titles(&stored), vec!["a", "b"]);
    let kept =
        settle_feed(&mut cache, URL, Err(FetchError::Network { message: "x".to_string() }), 9000)
            .unwrap();
    assert_eq!(titles(&kept), vec!["a", "b"]);
    assert_eq!(cache.get_feed_age(URL, 9000), Some(8900));
}

#[test]
fn read_feed_reply_maps_failures() {
    assert_eq!(read_feed_reply(Ok(feed(2))).unwrap().len(), 2);
    assert!(matches!(
        read_feed_reply(Err("boom".to_string())),
        Err(FetchError::Network { .. })
    ));
    assert!(matches!(
        read_feed_reply(Ok("<a></b>".to_string())),
        Err(FetchError::Parse { .. })
    ));
}

#[test]
fn error_messages() {
    assert_eq!(FetchError::Network { message: "timed out".to_string() }.message(), "timed out");
    assert_eq!(FetchError::Parse { offset: 1234 }.message(), "Error parsing XML at position 1234");
    assert_eq!(FetchError::Extraction.message(), "Failed to extract the article");
    assert!(FetchError::Extraction.is_retryable());
    assert!(FetchError::Network { message: String::new() }.is_retryable());
}
