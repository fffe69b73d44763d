use bbc_news_cli::app::story_by_number;
use bbc_news_cli::app::App;
use bbc_news_cli::app::NewsStory;
use bbc_news_cli::display::fit_to_width;
use bbc_news_cli::display::footer_text;
use bbc_news_cli::display::header_title;
use bbc_news_cli::display::last_updated_line;
use bbc_news_cli::display::show_date;
use bbc_news_cli::display::story_meta_row;
use bbc_news_cli::display::story_title_row;
use bbc_news_cli::display::FOOTER_TICKER_STORIES;
use bbc_news_cli::events::needs_redraw;
use bbc_news_cli::events::AppAction;
use bbc_news_cli::theme::ThemeName;

fn story(title: &str, date: &str) -> NewsStory {
    NewsStory {
        title: title.to_string(),
        description: String::new(),
        link: String::new(),
        pub_date: date.to_string(),
        category: String::new(),
        image_url: None,
    }
}

#[test]
fn short_text_is_padded_to_the_width() {
    assert_eq!(fit_to_width("abc", 6), "abc   ");
    assert_eq!(fit_to_width("", 2), "  ");
    assert_eq!(fit_to_width("", 0), "");
}

#[test]
fn long_text_is_cut_and_marked() {
    assert_eq!(fit_to_width("abcdefgh", 6), "abc...");
    assert_eq!(fit_to_width("abcdef", 6), "abc...");
    assert_eq!(fit_to_width("abcdefgh", 4), "a...");
}

#[test]
fn narrow_rows_take_the_first_characters() {
    assert_eq!(fit_to_width("abcdefgh", 3), "abc");
    assert_eq!(fit_to_width("abcdefgh", 1), "a");
    assert_eq!(fit_to_width("abcdefgh", 0), "");
    assert_eq!(fit_to_width("ab", 2), "ab");
}

#[test]
fn width_counts_bytes_and_the_cut_counts_characters() {
    // Three characters of two bytes each: six bytes.
    let text = "\u{e9}\u{e9}\u{e9}";
    assert_eq!(fit_to_width(text, 7), "\u{e9}\u{e9}\u{e9} ");
    assert_eq!(fit_to_width(text, 6), "\u{e9}\u{e9}\u{e9}...");
    assert_eq!(fit_to_width(text, 5), "\u{e9}\u{e9}...");
    assert_eq!(fit_to_width(text, 2), "\u{e9}\u{e9}");
}

#[test]
fn rows_of_a_story() {
    assert_eq!(story_title_row(3, "Title", 12), "3. Title    ");
    assert_eq!(story_title_row(12, "A long title", 10), "12. A l...");
    assert_eq!(
        story_meta_row("5 minutes ago", "World", 44),
        "   Last updated: 5 minutes ago | World      "
    );
    assert_eq!(story_meta_row("5 minutes ago", "World", 20), "   Last updated: ...");
}

#[test]
fn dates_in_words_or_as_they_are() {
    assert_eq!(show_date(false, "2024-01-01 00:00:00", 1_704_067_500), "2024-01-01 00:00:00");
    assert_eq!(show_date(true, "2024-01-01 00:00:00", 1_704_067_500), "5 minutes ago");
    assert_eq!(show_date(true, "soon", 0), "soon");
}

#[test]
fn header_lines() {
    assert_eq!(header_title(false), "BBC | NEWS");
    assert_eq!(header_title(true), "BBC | NEWS [OFFLINE]");
    let mut app = App::new(ThemeName::Light, 0);
    assert_eq!(last_updated_line(&app, 0), "Last updated: -- | Top Stories");
    app.update_stories(vec![story("a", "2024-01-01 00:00:00"), story("b", "2023-01-01 00:00:00")]);
    assert_eq!(last_updated_line(&app, 1_704_067_200 + 7200), "Last updated: 2 hours ago | Top Stories");
    app.toggle_date_format();
    assert_eq!(last_updated_line(&app, 0), "Last updated: 2024-01-01 00:00:00 | Top Stories");
}

#[test]
fn footer_lines() {
    assert_eq!(FOOTER_TICKER_STORIES, 8);
    let mut app = App::new(ThemeName::Light, 0);
    let keys = "q: quit | o: open | Tab: preview | f: feeds | s: sort (Default) | t: dates | p: protocol (Auto) | r: refresh";
    assert_eq!(footer_text(&app), keys);
    app.update_ticker_stories((0..10).map(|i| story(&format!("t{}", i), "")).collect());
    assert_eq!(footer_text(&app), "[LATEST] t0 (1/8)");
    app.ticker_index = 4;
    assert_eq!(footer_text(&app), "[LATEST] t4 (5/8)");
    app.ticker_index = 10;
    assert_eq!(footer_text(&app), keys);
    app.update_ticker_stories(vec![story("only", "")]);
    app.ticker_index = 0;
    assert_eq!(footer_text(&app), "[LATEST] only (1/1)");
    app.cycle_sort_order();
    app.cycle_image_protocol();
    app.ticker_index = 1;
    assert_eq!(
        footer_text(&app),
        "q: quit | o: open | Tab: preview | f: feeds | s: sort (Newest First) | t: dates | p: protocol (Halfblocks) | r: refresh"
    );
    app.is_refreshing = true;
    assert_eq!(footer_text(&app), "Refreshing News...");
}

#[test]
fn stories_are_numbered_from_one() {
    let stories = vec![story("a", ""), story("b", "")];
    assert!(story_by_number(&stories, 0).is_none());
    assert_eq!(story_by_number(&stories, 1).unwrap().title, "a");
    assert_eq!(story_by_number(&stories, 2).unwrap().title, "b");
    assert!(story_by_number(&stories, 3).is_none());
    assert!(story_by_number(&[], 1).is_none());
    assert!(story_by_number(&stories, usize::MAX).is_none());
}

#[test]
fn redraw_when_something_shows() {
    let mut app = App::new(ThemeName::Light, 0);
    let before = app.shown();
    assert!(!needs_redraw(before, app.shown(), false, AppAction::Idle));
    assert!(needs_redraw(before, app.shown(), true, AppAction::Idle));
    assert!(needs_redraw(before, app.shown(), false, AppAction::Resize));
    assert!(needs_redraw(before, app.shown(), false, AppAction::Refresh));
    assert!(needs_redraw(before, app.shown(), false, AppAction::FeedChanged));
    app.toggle_preview();
    assert!(needs_redraw(before, app.shown(), false, AppAction::Idle));
    let before = app.shown();
    app.mark_refreshed(10);
    app.cycle_theme();
    assert!(!needs_redraw(before, app.shown(), false, AppAction::Idle));
    app.article_scroll_offset = 1;
    assert!(needs_redraw(before, app.shown(), false, AppAction::Idle));
}
