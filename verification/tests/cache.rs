use bbc_news_cli::app::NewsStory;
use bbc_news_cli::cache::Cache;
use bbc_news_cli::cache::ARTICLE_TTL_SECS;
use bbc_news_cli::cache::FEED_TTL_SECS;
use std::collections::hash_map::DefaultHasher;
use std::hash::Hash;
use std::hash::Hasher;

fn story(title: &str) -> NewsStory {
    NewsStory {
        title: title.to_string(),
        description: format!("about {}", title),
        link: format!("https://example.org/{}", title),
        pub_date: "2024-01-01 00:00:00".to_string(),
        category: "News".to_string(),
        image_url: Some(format!("https://img.example.org/{}.jpg", title)),
    }
}

fn titles(stories: &[NewsStory]) -> Vec<String> {
    stories.iter().map(|s| s.title.clone()).collect()
}

fn same_story(a: &NewsStory, b: &NewsStory) -> bool {
    a.title == b.title
        && a.description == b.description
        && a.link == b.link
        && a.pub_date == b.pub_date
        && a.category == b.category
        && a.image_url == b.image_url
}

const URL: &str = "https://feeds.example.org/news/rss.xml";

#[test]
fn ttl_values() {
    assert_eq!(FEED_TTL_SECS, 900);
    assert_eq!(ARTICLE_TTL_SECS, 3600);
}

#[test]
fn put_then_get_fresh_returns_the_payload() {
    let mut cache = Cache::new();
    let stories = vec![story("a"), story("b")];
    cache.save_feed(URL, &stories, 1000);
    let found = cache.load_feed(URL, 1000).unwrap();
    assert_eq!(found.len(), 2);
    assert!(same_story(&found[0], &stories[0]));
    assert!(same_story(&found[1], &stories[1]));

    cache.save_article(URL, "Title\n=====\n\nBody", 1000);
    assert_eq!(cache.load_article(URL, 1000).unwrap(), "Title\n=====\n\nBody");
}

#[test]
fn feed_is_fresh_up_to_the_ttl_and_stale_after() {
    let mut cache = Cache::new();
    cache.save_feed(URL, &vec![story("a")], 1000);
    assert!(cache.load_feed(URL, 1000 + 900).is_some());
    assert!(cache.load_feed(URL, 1000 + 901).is_none());
    assert_eq!(titles(&cache.load_feed_offline(URL).unwrap()), vec!["a"]);
}

#[test]
fn article_is_fresh_up_to_the_ttl_and_stale_after() {
    let mut cache = Cache::new();
    cache.save_article(URL, "text", 1000);
    assert_eq!(cache.load_article(URL, 1000 + 3600).unwrap(), "text");
    assert!(cache.load_article(URL, 1000 + 3601).is_none());
    assert_eq!(cache.load_article_offline(URL).unwrap(), "text");
}

#[test]
fn never_written_key_misses() {
    let cache = Cache::new();
    assert!(cache.load_feed(URL, 0).is_none());
    assert!(cache.load_feed_offline(URL).is_none());
    assert!(cache.load_article(URL, 0).is_none());
    assert!(cache.load_article_offline(URL).is_none());
    assert_eq!(cache.get_feed_age(URL, 0), None);
    assert_eq!(cache.get_article_age(URL, 0), None);
}

#[test]
fn domains_are_independent() {
    let mut cache = Cache::new();
    cache.save_feed(URL, &vec![story("a")], 1000);
    assert!(cache.load_article_offline(URL).is_none());
    cache.save_article(URL, "text", 2000);
    assert_eq!(titles(&cache.load_feed_offline(URL).unwrap()), vec!["a"]);
    assert_eq!(cache.get_feed_age(URL, 2000), Some(1000));
    assert_eq!(cache.get_article_age(URL, 2000), Some(0));
}

#[test]
fn put_replaces_the_whole_entry() {
    let mut cache = Cache::new();
    cache.save_feed(URL, &vec![story("a"), story("b")], 1000);
    cache.save_feed(URL, &vec![story("c")], 5000);
    assert_eq!(titles(&cache.load_feed_offline(URL).unwrap()), vec!["c"]);
    assert_eq!(cache.get_feed_age(URL, 5010), Some(10));
}

#[test]
fn other_keys_are_left_alone() {
    let mut cache = Cache::new();
    cache.save_feed("https://a.example.org/rss", &vec![story("a")], 1000);
    cache.save_feed("https://b.example.org/rss", &vec![story("b")], 2000);
    assert_eq!(titles(&cache.load_feed_offline("https://a.example.org/rss").unwrap()), vec!["a"]);
    assert_eq!(cache.get_feed_age("https://a.example.org/rss", 2000), Some(1000));
}

#[test]
fn age_is_elapsed_seconds() {
    let mut cache = Cache::new();
    cache.save_feed(URL, &vec![], 1000);
    assert_eq!(cache.get_feed_age(URL, 1000), Some(0));
    assert_eq!(cache.get_feed_age(URL, 1234), Some(234));
    assert_eq!(cache.get_feed_age(URL, u64::MAX), Some(u64::MAX - 1000));
}

#[test]
fn entry_from_the_future_is_fresh_and_has_age_zero() {
    let mut cache = Cache::new();
    cache.save_feed(URL, &vec![story("a")], 5000);
    assert!(cache.load_feed(URL, 10).is_some());
    assert_eq!(cache.get_feed_age(URL, 10), Some(0));
}

#[test]
fn clear_all_empties_both_domains() {
    let mut cache = Cache::new();
    cache.save_feed(URL, &vec![story("a")], 1000);
    cache.save_article(URL, "text", 1000);
    cache.save_article("https://example.org/other", "other", 1000);
    cache.clear_all();
    assert!(cache.load_feed(URL, 1000).is_none());
    assert!(cache.load_feed_offline(URL).is_none());
    assert!(cache.load_article(URL, 1000).is_none());
    assert!(cache.load_article_offline(URL).is_none());
    assert!(cache.load_article_offline("https://example.org/other").is_none());
    assert_eq!(cache.get_feed_age(URL, 1000), None);
}

#[test]
fn key_is_the_default_hash_of_the_string() {
    for s in ["", "a", URL, "https://example.org/\u{e9}t\u{e9}?q=\u{1f600}"] {
        let mut hasher = DefaultHasher::new();
        s.hash(&mut hasher);
        assert_eq!(Cache::key(s), hasher.finish());
        assert_eq!(Cache::hash_string(s), format!("{:x}", hasher.finish()));
    }
}

#[test]
fn file_names_carry_the_domain_prefix() {
    let mut hasher = DefaultHasher::new();
    URL.hash(&mut hasher);
    let hash = format!("{:x}", hasher.finish());
    assert_eq!(Cache::feed_cache_path(URL), format!("feed_{}.bin", hash));
    assert_eq!(Cache::article_cache_path(URL), format!("article_{}.bin", hash));
}
