use bbc_news_cli::feeds::get_all_feeds;
use bbc_news_cli::feeds::get_default_feed;
use bbc_news_cli::feeds::get_feed_by_name;
use bbc_news_cli::feeds::Feed;

#[test]
fn new_feed_keeps_name_and_url() {
    let feed = Feed::new("World", "https://feeds.bbci.co.uk/news/world/rss.xml");
    assert_eq!(feed.name, "World");
    assert_eq!(feed.url, "https://feeds.bbci.co.uk/news/world/rss.xml");
    let copy = feed.clone();
    assert_eq!(copy.name, feed.name);
    assert_eq!(copy.url, feed.url);
}

#[test]
fn twenty_feeds_are_on_offer() {
    let feeds = get_all_feeds();
    assert_eq!(feeds.len(), 20);
    assert_eq!(feeds[0].name, "Top Stories");
    assert_eq!(feeds[0].url, "https://feeds.bbci.co.uk/news/rss.xml");
    assert_eq!(feeds[7].name, "Science & Environment");
    assert_eq!(feeds[7].url, "https://feeds.bbci.co.uk/news/science_and_environment/rss.xml");
    assert_eq!(feeds[19].name, "US & Canada");
    assert_eq!(feeds[19].url, "https://feeds.bbci.co.uk/news/world/us_and_canada/rss.xml");
}

#[test]
fn default_feed_is_top_stories() {
    let feed = get_default_feed();
    assert_eq!(feed.name, "Top Stories");
    assert_eq!(feed.url, "https://feeds.bbci.co.uk/news/rss.xml");
}

#[test]
fn exact_name_without_regard_to_case() {
    assert_eq!(get_feed_by_name("world").unwrap().name, "World");
    assert_eq!(get_feed_by_name("WORLD").unwrap().name, "World");
    assert_eq!(get_feed_by_name("uk").unwrap().url, "https://feeds.bbci.co.uk/news/uk/rss.xml");
    assert_eq!(get_feed_by_name("Us & Canada").unwrap().name, "US & Canada");
}

#[test]
fn exact_name_wins_over_partial() {
    // "UK" is the third feed on offer; no earlier name is "uk", so the exact
    // pass finds it before the partial pass is tried at all.
    assert_eq!(get_feed_by_name("business").unwrap().name, "Business");
    assert_eq!(get_feed_by_name("england").unwrap().name, "England");
    assert_eq!(get_feed_by_name("Uk").unwrap().name, "UK");
}

#[test]
fn partial_name_finds_the_first_feed_that_contains_it() {
    assert_eq!(get_feed_by_name("tech").unwrap().name, "Technology");
    assert_eq!(get_feed_by_name("Sci").unwrap().name, "Science & Environment");
    assert_eq!(get_feed_by_name("edu").unwrap().name, "Education & Family");
    assert_eq!(get_feed_by_name("land").unwrap().name, "England");
    // "ent" is part of "Science & Environment", which comes before "Entertainment & Arts".
    assert_eq!(get_feed_by_name("ent").unwrap().name, "Science & Environment");
    // Every name contains the empty text.
    assert_eq!(get_feed_by_name("").unwrap().name, "Top Stories");
}

#[test]
fn short_name_that_no_feed_contains() {
    let feed = get_feed_by_name("biz").unwrap();
    assert_eq!(feed.name, "Business");
    assert_eq!(feed.url, "https://feeds.bbci.co.uk/news/business/rss.xml");
    assert_eq!(get_feed_by_name("BIZ").unwrap().name, "Business");
}

#[test]
fn unknown_name_is_an_error() {
    let error = get_feed_by_name("sports").unwrap_err();
    assert_eq!(error.name, "sports");
    assert_eq!(
        error.message(),
        "Unknown feed: 'sports'. Use 'world', 'uk', 'business', 'technology', etc."
    );
}
