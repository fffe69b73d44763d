use bbc_news_cli::app::NewsStory;
use bbc_news_cli::app::SortOrder;
use bbc_news_cli::sorting::precedes;
use bbc_news_cli::sorting::sort_stories;
use bbc_news_cli::sorting::text_no_later;

fn story(title: &str, date: &str) -> NewsStory {
    NewsStory {
        title: title.to_string(),
        description: String::new(),
        link: String::new(),
        pub_date: date.to_string(),
        category: String::new(),
        image_url: None,
    }
}

fn titles(stories: &[NewsStory]) -> Vec<String> {
    stories.iter().map(|s| s.title.clone()).collect()
}

fn sample() -> Vec<NewsStory> {
    vec![
        story("a", "2024-03-01 10:00:00"),
        story("b", "2024-01-01 10:00:00"),
        story("c", "2024-03-01 10:00:00"),
        story("d", "2023-12-31 23:59:59"),
        story("e", ""),
        story("f", "2024-03-01 10:00:01"),
        story("g", "2024-01-01 10:00:00"),
    ]
}

#[test]
fn text_order_is_the_order_of_str() {
    let samples = ["", "a", "ab", "b", "B", "2024-01-01", "2024-01-02", "\u{e9}", "z", "\u{1f600}"];
    for a in samples {
        for b in samples {
            assert_eq!(text_no_later(a, b), a <= b, "{:?} {:?}", a, b);
        }
    }
}

#[test]
fn feed_order_is_kept() {
    let sorted = sort_stories(&sample(), SortOrder::Default);
    assert_eq!(titles(&sorted), vec!["a", "b", "c", "d", "e", "f", "g"]);
}

#[test]
fn oldest_first_is_stable() {
    let sorted = sort_stories(&sample(), SortOrder::DateOldest);
    assert_eq!(titles(&sorted), vec!["e", "d", "b", "g", "a", "c", "f"]);
    let mut expected = sample();
    expected.sort_by(|a, b| a.pub_date.cmp(&b.pub_date));
    assert_eq!(titles(&sorted), titles(&expected));
}

#[test]
fn newest_first_is_stable() {
    let sorted = sort_stories(&sample(), SortOrder::DateNewest);
    assert_eq!(titles(&sorted), vec!["f", "a", "c", "b", "g", "d", "e"]);
    let mut expected = sample();
    expected.sort_by(|a, b| b.pub_date.cmp(&a.pub_date));
    assert_eq!(titles(&sorted), titles(&expected));
}

#[test]
fn sorting_keeps_every_field() {
    let mut one = story("t", "2024-01-01 00:00:00");
    one.description = "d".to_string();
    one.link = "l".to_string();
    one.category = "c".to_string();
    one.image_url = Some("i".to_string());
    let sorted = sort_stories(&[story("u", "2025-01-01 00:00:00"), one], SortOrder::DateOldest);
    assert_eq!(sorted[0].title, "t");
    assert_eq!(sorted[0].description, "d");
    assert_eq!(sorted[0].link, "l");
    assert_eq!(sorted[0].category, "c");
    assert_eq!(sorted[0].image_url.as_deref(), Some("i"));
}

#[test]
fn empty_and_single_lists() {
    assert!(sort_stories(&[], SortOrder::DateNewest).is_empty());
    assert_eq!(titles(&sort_stories(&[story("x", "d")], SortOrder::DateOldest)), vec!["x"]);
}

#[test]
fn who_may_stand_before_whom() {
    let early = story("early", "2024-01-01 00:00:00");
    let late = story("late", "2024-06-01 00:00:00");
    assert!(precedes(SortOrder::Default, &late, &early));
    assert!(precedes(SortOrder::DateOldest, &early, &late));
    assert!(!precedes(SortOrder::DateOldest, &late, &early));
    assert!(precedes(SortOrder::DateNewest, &late, &early));
    assert!(!precedes(SortOrder::DateNewest, &early, &late));
    assert!(precedes(SortOrder::DateNewest, &early, &early));
}
