//! The story record, and the state of the reader: what is loaded, what is
//! selected and what is shown.
//!
//! The state holds no clock and does no I/O. Where a step needs the outside
//! world (opening the browser, fetching an article), the state says what is
//! needed and takes the result; where it needs the time, the host gives it.

use crate::feeds::default_feed;
use crate::feeds::get_default_feed;
use crate::feeds::Feed;
use crate::feeds::FeedView;
use crate::sorting::is_stable_sort;
use crate::sorting::sort_stories;
use crate::text::copy_optional_text;
use crate::text::text_eq;
use crate::text::optional_text;
use crate::theme::ThemeName;
use vstd::prelude::*;
use vstd::string::StringExecFns;

verus! {

/// What the display is showing.
#[derive(Debug, Clone, Copy, PartialEq, Eq, Structural)]
pub enum AppMode {
    Normal,
    FeedMenu,
    Preview,
    Help,
}

/// The order in which a story list is shown.
#[derive(Debug, Clone, Copy, PartialEq, Eq, Structural)]
pub enum SortOrder {
    /// The order of the feed, as received.
    Default,
    /// Newest first.
    DateNewest,
    /// Oldest first.
    DateOldest,
}

impl SortOrder {
    /// The order that follows this one in the cycle
    /// `Default`, `DateNewest`, `DateOldest`, `Default`.
    pub open spec fn spec_next(self) -> SortOrder {
        match self {
            SortOrder::Default => SortOrder::DateNewest,
            SortOrder::DateNewest => SortOrder::DateOldest,
            SortOrder::DateOldest => SortOrder::Default,
        }
    }

    /// The label of this order.
    pub open spec fn spec_name(self) -> Seq<char> {
        match self {
            SortOrder::Default => "Default"@,
            SortOrder::DateNewest => "Newest First"@,
            SortOrder::DateOldest => "Oldest First"@,
        }
    }

    /// The order that follows this one in the cycle.
    pub fn next(&self) -> (following: SortOrder)
        ensures
            following == self.spec_next(),
    {
        match self {
            SortOrder::Default => SortOrder::DateNewest,
            SortOrder::DateNewest => SortOrder::DateOldest,
            SortOrder::DateOldest => SortOrder::Default,
        }
    }

    /// The label of this order.
    pub fn name(&self) -> (label: &'static str)
        ensures
            label@ == self.spec_name(),
    {
        match self {
            SortOrder::Default => "Default",
            SortOrder::DateNewest => "Newest First",
            SortOrder::DateOldest => "Oldest First",
        }
    }
}

/// How images are drawn on the terminal.
#[derive(Debug, Clone, Copy, PartialEq, Eq, Structural)]
pub enum ImageProtocol {
    /// Detect the best protocol.
    Auto,
    /// Unicode half blocks.
    Halfblocks,
    /// Sixel graphics.
    Sixel,
    /// The Kitty graphics protocol.
    Kitty,
}

impl ImageProtocol {
    /// The protocol that follows this one in the cycle
    /// `Auto`, `Halfblocks`, `Sixel`, `Kitty`, `Auto`.
    pub open spec fn spec_next(self) -> ImageProtocol {
        match self {
            ImageProtocol::Auto => ImageProtocol::Halfblocks,
            ImageProtocol::Halfblocks => ImageProtocol::Sixel,
            ImageProtocol::Sixel => ImageProtocol::Kitty,
            ImageProtocol::Kitty => ImageProtocol::Auto,
        }
    }

    /// The label of this protocol.
    pub open spec fn spec_name(self) -> Seq<char> {
        match self {
            ImageProtocol::Auto => "Auto"@,
            ImageProtocol::Halfblocks => "Halfblocks"@,
            ImageProtocol::Sixel => "Sixel"@,
            ImageProtocol::Kitty => "Kitty"@,
        }
    }

    /// The protocol that follows this one in the cycle.
    pub fn next(&self) -> (following: ImageProtocol)
        ensures
            following == self.spec_next(),
    {
        match self {
            ImageProtocol::Auto => ImageProtocol::Halfblocks,
            ImageProtocol::Halfblocks => ImageProtocol::Sixel,
            ImageProtocol::Sixel => ImageProtocol::Kitty,
            ImageProtocol::Kitty => ImageProtocol::Auto,
        }
    }

    /// The label of this protocol.
    pub fn name(&self) -> (label: &'static str)
        ensures
            label@ == self.spec_name(),
    {
        match self {
            ImageProtocol::Auto => "Auto",
            ImageProtocol::Halfblocks => "Halfblocks",
            ImageProtocol::Sixel => "Sixel",
            ImageProtocol::Kitty => "Kitty",
        }
    }
}

/// One normalized content record of a feed.
#[derive(Debug, Clone)]
pub struct NewsStory {
    pub title: String,
    pub description: String,
    pub link: String,
    pub pub_date: String,
    pub category: String,
    pub image_url: Option<String>,
}

/// The mathematical value of a [`NewsStory`]: every text field as a sequence
/// of characters.
pub struct StoryView {
    pub title: Seq<char>,
    pub description: Seq<char>,
    pub link: Seq<char>,
    pub pub_date: Seq<char>,
    pub category: Seq<char>,
    pub image_url: Option<Seq<char>>,
}

impl View for NewsStory {
    type V = StoryView;

    open spec fn view(&self) -> StoryView {
        StoryView {
            title: self.title@,
            description: self.description@,
            link: self.link@,
            pub_date: self.pub_date@,
            category: self.category@,
            image_url: optional_text(self.image_url),
        }
    }
}

/// Copies a story field by field.
pub fn copy_story(story: &NewsStory) -> (copy: NewsStory)
    ensures
        copy@ == story@,
{
    NewsStory {
        title: story.title.clone(),
        description: story.description.clone(),
        link: story.link.clone(),
        pub_date: story.pub_date.clone(),
        category: story.category.clone(),
        image_url: copy_optional_text(&story.image_url),
    }
}

/// The views of a sequence of stories, in order.
pub open spec fn stories_view(stories: Seq<NewsStory>) -> Seq<StoryView> {
    Seq::new(stories.len(), |i: int| stories[i]@)
}

/// Copies a list of stories.
pub fn copy_stories(stories: &[NewsStory]) -> (copy: Vec<NewsStory>)
    ensures
        stories_view(copy@) == stories_view(stories@),
{
    let mut copy: Vec<NewsStory> = Vec::new();
    let mut i: usize = 0;
    while i < stories.len()
        invariant
            i <= stories@.len(),
            copy@.len() == i,
            forall|k: int| 0 <= k < i ==> copy@[k]@ == stories@[k]@,
        decreases stories@.len() - i,
    {
        copy.push(copy_story(&stories[i]));
        i += 1;
    }
    assert(stories_view(copy@) =~= stories_view(stories@));
    copy
}

/// The text of an article that was fetched, by the address of the article.
#[derive(Debug)]
pub struct ArticleText {
    pub url: String,
    pub content: String,
}

/// The views of a list of article texts: pairs of address and content.
pub open spec fn articles_view(articles: Seq<ArticleText>) -> Seq<(Seq<char>, Seq<char>)> {
    Seq::new(articles.len(), |i: int| (articles[i].url@, articles[i].content@))
}

/// The place of the first article with the given address, or the length of
/// the list where there is none.
pub open spec fn article_place(articles: Seq<(Seq<char>, Seq<char>)>, url: Seq<char>) -> int
    decreases articles.len(),
{
    if articles.len() == 0 {
        0
    } else if articles[0].0 == url {
        0
    } else {
        1 + article_place(articles.skip(1), url)
    }
}

/// The content held for an address, if any.
pub open spec fn article_for(articles: Seq<(Seq<char>, Seq<char>)>, url: Seq<char>) -> Option<
    Seq<char>,
> {
    if article_place(articles, url) < articles.len() {
        Some(articles[article_place(articles, url)].1)
    } else {
        None
    }
}

/// The list after content is stored for an address: the content replaces
/// what was held for the address, or is added at the end.
pub open spec fn with_article(
    articles: Seq<(Seq<char>, Seq<char>)>,
    url: Seq<char>,
    content: Seq<char>,
) -> Seq<(Seq<char>, Seq<char>)> {
    if article_place(articles, url) < articles.len() {
        articles.update(article_place(articles, url), (url, content))
    } else {
        articles.push((url, content))
    }
}

/// The place of the first story with the given link, or the length of the
/// list where there is none.
pub open spec fn story_place(stories: Seq<StoryView>, link: Seq<char>) -> int
    decreases stories.len(),
{
    if stories.len() == 0 {
        0
    } else if stories[0].link == link {
        0
    } else {
        1 + story_place(stories.skip(1), link)
    }
}

/// What a jump to the article of the ticker came to.
#[derive(Debug, Clone, Copy, PartialEq, Eq, Structural)]
pub enum TickerJump {
    /// The ticker shows no story: nothing changed.
    Nothing,
    /// The reader was on another feed and is now on the top stories, which
    /// have yet to be fetched.
    ChangeFeed,
    /// The story is in the list and is now selected.
    Found,
    /// The story is not in the list: the first story is selected.
    Missing,
}

/// The state of the reader: what is loaded, what is selected and what is
/// shown.
#[derive(Debug)]
pub struct App {
    pub stories: Vec<NewsStory>,
    /// The top stories, for the ticker.
    pub ticker_stories: Vec<NewsStory>,
    pub selected: usize,
    pub should_quit: bool,
    pub is_loading: bool,
    pub is_refreshing: bool,
    pub is_offline: bool,
    pub error_message: Option<String>,
    pub ticker_index: usize,
    pub ticker_counter: u32,
    pub mode: AppMode,
    pub current_feed: Feed,
    pub feed_menu_selected: usize,
    pub show_preview: bool,
    pub humanize_dates: bool,
    pub image_protocol: ImageProtocol,
    pub theme: ThemeName,
    /// Whether the full article is shown in place of the preview.
    pub show_full_article: bool,
    pub article_scroll_offset: usize,
    pub is_fetching_article: bool,
    pub sort_order: SortOrder,
    /// When the feeds were last refreshed, in seconds on the host's clock.
    pub last_refresh_time: u64,
    /// The articles fetched so far.
    pub article_cache: Vec<ArticleText>,
    /// The story that was last opened in the browser, so that it is not
    /// opened again until the selection moves.
    pub last_opened_index: Option<usize>,
}

/// The state of the reader as a mathematical value.
pub struct AppView {
    pub stories: Seq<StoryView>,
    pub ticker_stories: Seq<StoryView>,
    pub selected: usize,
    pub should_quit: bool,
    pub is_loading: bool,
    pub is_refreshing: bool,
    pub is_offline: bool,
    pub error_message: Option<Seq<char>>,
    pub ticker_index: usize,
    pub ticker_counter: u32,
    pub mode: AppMode,
    pub current_feed: FeedView,
    pub feed_menu_selected: usize,
    pub show_preview: bool,
    pub humanize_dates: bool,
    pub image_protocol: ImageProtocol,
    pub theme: ThemeName,
    pub show_full_article: bool,
    pub article_scroll_offset: usize,
    pub is_fetching_article: bool,
    pub sort_order: SortOrder,
    pub last_refresh_time: u64,
    pub article_cache: Seq<(Seq<char>, Seq<char>)>,
    pub last_opened_index: Option<usize>,
}

impl View for App {
    type V = AppView;

    open spec fn view(&self) -> AppView {
        AppView {
            stories: stories_view(self.stories@),
            ticker_stories: stories_view(self.ticker_stories@),
            selected: self.selected,
            should_quit: self.should_quit,
            is_loading: self.is_loading,
            is_refreshing: self.is_refreshing,
            is_offline: self.is_offline,
            error_message: optional_text(self.error_message),
            ticker_index: self.ticker_index,
            ticker_counter: self.ticker_counter,
            mode: self.mode,
            current_feed: self.current_feed@,
            feed_menu_selected: self.feed_menu_selected,
            show_preview: self.show_preview,
            humanize_dates: self.humanize_dates,
            image_protocol: self.image_protocol,
            theme: self.theme,
            show_full_article: self.show_full_article,
            article_scroll_offset: self.article_scroll_offset,
            is_fetching_article: self.is_fetching_article,
            sort_order: self.sort_order,
            last_refresh_time: self.last_refresh_time,
            article_cache: articles_view(self.article_cache@),
            last_opened_index: self.last_opened_index,
        }
    }
}

/// Seconds after which the feeds are refreshed without being asked.
pub const AUTO_REFRESH_SECS: u64 = 300;

/// Ticks after which the ticker moves on to the next story.
pub const TICKER_PERIOD: u32 = 100;

/// Ticks after which the clock is drawn again.
pub const CLOCK_PERIOD: u32 = 10;

/// The number of stories that the ticker goes round at most.
pub const TICKER_STORIES: usize = 5;

/// The state in which the reader starts.
pub open spec fn initial_app(theme: ThemeName, now: u64) -> AppView {
    AppView {
        stories: Seq::empty(),
        ticker_stories: Seq::empty(),
        selected: 0,
        should_quit: false,
        is_loading: true,
        is_refreshing: false,
        is_offline: false,
        error_message: None,
        ticker_index: 0,
        ticker_counter: 0,
        mode: AppMode::Normal,
        current_feed: default_feed(),
        feed_menu_selected: 0,
        show_preview: false,
        humanize_dates: true,
        image_protocol: ImageProtocol::Auto,
        theme,
        show_full_article: false,
        article_scroll_offset: 0,
        is_fetching_article: false,
        sort_order: SortOrder::Default,
        last_refresh_time: now,
        article_cache: Seq::empty(),
        last_opened_index: None,
    }
}

/// The place that follows `place` among `count` places, staying on the
/// last one.
pub open spec fn place_after(place: usize, count: usize) -> usize {
    if place + 1 < count {
        (place + 1) as usize
    } else {
        (count - 1) as usize
    }
}

/// The ticker place that follows `place` when the ticker shows `count`
/// stories: the places of the first [`TICKER_STORIES`] stories go round.
pub open spec fn ticker_after(place: usize, count: nat) -> usize {
    if count == 0 {
        0
    } else if count < TICKER_STORIES {
        ((place + 1) % (count as int)) as usize
    } else {
        ((place + 1) % (TICKER_STORIES as int)) as usize
    }
}

/// The selection after a new story list of `count` stories arrives: a
/// selection beyond the list moves to the last story.
pub open spec fn selection_within(selected: usize, count: nat) -> usize {
    if selected >= count && count > 0 {
        (count - 1) as usize
    } else {
        selected
    }
}

/// The state after one tick: the count goes up, and when it reaches
/// [`TICKER_PERIOD`] it starts again and the ticker moves on.
pub open spec fn after_tick(app: AppView) -> AppView {
    if app.ticker_counter + 1 >= 100 {
        AppView {
            ticker_counter: 0,
            ticker_index: ticker_after(app.ticker_index, app.ticker_stories.len()),
            ..app
        }
    } else {
        AppView { ticker_counter: (app.ticker_counter + 1) as u32, ..app }
    }
}

/// The theme that follows a theme.
pub open spec fn theme_after(theme: ThemeName) -> ThemeName {
    match theme {
        ThemeName::Light => ThemeName::Dark,
        ThemeName::Dark => ThemeName::Light,
    }
}

impl App {
    /// The state in which the reader starts, at time `now` on the host's
    /// clock.
    pub fn new(theme: ThemeName, now: u64) -> (app: App)
        ensures
            app@ == initial_app(theme, now),
    {
        let app = App {
            stories: Vec::new(),
            ticker_stories: Vec::new(),
            selected: 0,
            should_quit: false,
            is_loading: true,
            is_refreshing: false,
            is_offline: false,
            error_message: None,
            ticker_index: 0,
            ticker_counter: 0,
            mode: AppMode::Normal,
            current_feed: get_default_feed(),
            feed_menu_selected: 0,
            show_preview: false,
            humanize_dates: true,
            image_protocol: ImageProtocol::Auto,
            theme,
            show_full_article: false,
            article_scroll_offset: 0,
            is_fetching_article: false,
            sort_order: SortOrder::Default,
            last_refresh_time: now,
            article_cache: Vec::new(),
            last_opened_index: None,
        };
        assert(app@.stories =~= Seq::empty());
        assert(app@.ticker_stories =~= Seq::empty());
        assert(app@.article_cache =~= Seq::empty());
        app
    }

    /// Selects the next story, staying on the last one. Says whether there
    /// was a story to select; without stories nothing changes.
    pub fn next(&mut self) -> (moved: bool)
        ensures
            moved == (old(self)@.stories.len() > 0),
            moved ==> final(self)@ == (AppView {
                selected: place_after(old(self)@.selected, old(self)@.stories.len() as usize),
                last_opened_index: None,
                ..old(self)@
            }),
            !moved ==> final(self)@ == old(self)@,
    {
        if !self.stories.is_empty() {
            let last = self.stories.len() - 1;
            if self.selected < last {
                self.selected = self.selected + 1;
            } else {
                self.selected = last;
            }
            self.last_opened_index = None;
            true
        } else {
            false
        }
    }

    /// Selects the story before the selected one. Says whether there was
    /// one; on the first story nothing changes.
    pub fn previous(&mut self) -> (moved: bool)
        ensures
            moved == (old(self)@.selected > 0),
            moved ==> final(self)@ == (AppView {
                selected: (old(self)@.selected - 1) as usize,
                last_opened_index: None,
                ..old(self)@
            }),
            !moved ==> final(self)@ == old(self)@,
    {
        if self.selected > 0 {
            self.selected = self.selected - 1;
            self.last_opened_index = None;
            true
        } else {
            false
        }
    }

    /// Selects the last story. Says whether there was a story to select;
    /// without stories nothing changes.
    pub fn scroll_to_bottom(&mut self) -> (moved: bool)
        ensures
            moved == (old(self)@.stories.len() > 0),
            moved ==> final(self)@ == (AppView {
                selected: (old(self)@.stories.len() - 1) as usize,
                last_opened_index: None,
                ..old(self)@
            }),
            !moved ==> final(self)@ == old(self)@,
    {
        if !self.stories.is_empty() {
            self.selected = self.stories.len() - 1;
            self.last_opened_index = None;
            true
        } else {
            false
        }
    }

    /// Selects the first place.
    pub fn scroll_to_top(&mut self)
        ensures
            final(self)@ == (AppView { selected: 0, last_opened_index: None, ..old(self)@ }),
    {
        self.selected = 0;
        self.last_opened_index = None;
    }

    /// The story to open in the browser: the selected one, unless it is
    /// the one that was opened last or nothing is selected.
    pub fn story_to_open(&self) -> (story: Option<&NewsStory>)
        ensures
            match story {
                Some(s) => self@.selected < self@.stories.len() && self@.last_opened_index
                    != Some(self@.selected) && s@ == self@.stories[self@.selected as int],
                None => self@.selected >= self@.stories.len() || self@.last_opened_index == Some(
                    self@.selected,
                ),
            },
    {
        match self.last_opened_index {
            Some(last) => {
                if last == self.selected {
                    return None;
                }
            },
            None => {},
        }
        if self.selected < self.stories.len() {
            Some(&self.stories[self.selected])
        } else {
            None
        }
    }

    /// Notes that the selected story was opened in the browser.
    pub fn mark_opened(&mut self)
        ensures
            final(self)@ == (AppView {
                last_opened_index: Some(old(self)@.selected),
                ..old(self)@
            }),
    {
        self.last_opened_index = Some(self.selected);
    }

    /// Asks the host to end the session.
    pub fn quit(&mut self)
        ensures
            final(self)@ == (AppView { should_quit: true, ..old(self)@ }),
    {
        self.should_quit = true;
    }

    /// Puts the story list in the current sort order and selects the first
    /// place.
    pub fn apply_sort(&mut self)
        ensures
            exists|places: Seq<int>|
                is_stable_sort(
                    old(self)@.sort_order,
                    old(self)@.stories,
                    final(self)@.stories,
                    places,
                ),
            final(self)@ == (AppView { stories: final(self)@.stories, selected: 0, ..old(self)@ }),
    {
        let ghost before = self@.stories;
        let ghost order = self.sort_order;
        let ghost mut places: Seq<int> = Seq::new(before.len(), |i: int| i);
        match self.sort_order {
            SortOrder::Default => {
                assert(is_stable_sort(order, before, self@.stories, places));
            },
            _ => {
                let sorted = sort_stories(self.stories.as_slice(), self.sort_order);
                proof {
                    places = choose|places: Seq<int>|
                        is_stable_sort(order, before, stories_view(sorted@), places);
                }
                self.stories = sorted;
            },
        }
        self.selected = 0;
        assert(is_stable_sort(order, before, self@.stories, places));
    }

    /// Takes a new story list. Loading and refreshing are over. In the
    /// order of the feed the list is kept as it is and a selection beyond
    /// it moves to its last story; in an order by date the list is sorted
    /// and the first place is selected.
    pub fn update_stories(&mut self, stories: Vec<NewsStory>)
        ensures
            exists|places: Seq<int>|
                is_stable_sort(
                    old(self)@.sort_order,
                    stories_view(stories@),
                    final(self)@.stories,
                    places,
                ),
            final(self)@ == (AppView {
                stories: final(self)@.stories,
                selected: if old(self)@.sort_order == SortOrder::Default {
                    selection_within(old(self)@.selected, stories@.len())
                } else {
                    0
                },
                is_loading: false,
                is_refreshing: false,
                ..old(self)@
            }),
    {
        let ghost arrived = stories_view(stories@);
        let ghost order = self.sort_order;
        let ghost mut places: Seq<int> = Seq::new(arrived.len(), |i: int| i);
        self.stories = stories;
        self.is_loading = false;
        self.is_refreshing = false;
        if self.selected >= self.stories.len() && !self.stories.is_empty() {
            self.selected = self.stories.len() - 1;
        }
        match self.sort_order {
            SortOrder::Default => {
                assert(is_stable_sort(order, arrived, self@.stories, places));
            },
            _ => {
                self.apply_sort();
                proof {
                    places = choose|places: Seq<int>|
                        is_stable_sort(order, arrived, self@.stories, places);
                }
            },
        }
        assert(is_stable_sort(order, arrived, self@.stories, places));
    }

    /// Takes the story list of the current feed, from the network or, when
    /// `offline`, from what the host still holds; see
    /// [`App::update_stories`].
    pub fn feed_loaded(&mut self, stories: Vec<NewsStory>, offline: bool)
        ensures
            exists|places: Seq<int>|
                is_stable_sort(
                    old(self)@.sort_order,
                    stories_view(stories@),
                    final(self)@.stories,
                    places,
                ),
            final(self)@ == (AppView {
                stories: final(self)@.stories,
                selected: if old(self)@.sort_order == SortOrder::Default {
                    selection_within(old(self)@.selected, stories@.len())
                } else {
                    0
                },
                is_loading: false,
                is_refreshing: false,
                is_offline: offline,
                ..old(self)@
            }),
    {
        let ghost arrived = stories_view(stories@);
        let ghost order = self.sort_order;
        self.is_offline = offline;
        self.update_stories(stories);
        proof {
            let places = choose|places: Seq<int>|
                is_stable_sort(order, arrived, self@.stories, places);
            assert(is_stable_sort(order, arrived, self@.stories, places));
        }
    }

    /// Begins a refresh: the stories stay in view, and the last error is
    /// forgotten.
    pub fn start_refresh(&mut self)
        ensures
            final(self)@ == (AppView { is_refreshing: true, error_message: None, ..old(self)@ }),
    {
        self.is_refreshing = true;
        self.error_message = None;
    }

    /// Begins the change to another feed: the feed is yet to load, and the
    /// last error is forgotten.
    pub fn start_feed_change(&mut self)
        ensures
            final(self)@ == (AppView {
                is_loading: true,
                is_refreshing: true,
                error_message: None,
                ..old(self)@
            }),
    {
        self.is_loading = true;
        self.is_refreshing = true;
        self.error_message = None;
    }

    /// Takes a new list of top stories for the ticker. Refreshing is over.
    pub fn update_ticker_stories(&mut self, stories: Vec<NewsStory>)
        ensures
            final(self)@ == (AppView {
                ticker_stories: stories_view(stories@),
                is_refreshing: false,
                ..old(self)@
            }),
    {
        self.ticker_stories = stories;
        self.is_refreshing = false;
    }

    /// Shows an error. Loading and refreshing are over.
    pub fn set_error(&mut self, error: String)
        ensures
            final(self)@ == (AppView {
                error_message: Some(error@),
                is_loading: false,
                is_refreshing: false,
                ..old(self)@
            }),
    {
        self.error_message = Some(error);
        self.is_loading = false;
        self.is_refreshing = false;
    }

    /// Forgets the last error.
    pub fn clear_error(&mut self)
        ensures
            final(self)@ == (AppView { error_message: None, ..old(self)@ }),
    {
        self.error_message = None;
    }

    /// Moves the ticker on to the next of its stories.
    pub fn rotate_ticker(&mut self)
        ensures
            final(self)@ == (AppView {
                ticker_index: ticker_after(
                    old(self)@.ticker_index,
                    old(self)@.ticker_stories.len(),
                ),
                ..old(self)@
            }),
    {
        if self.ticker_stories.is_empty() {
            self.ticker_index = 0;
            return ;
        }
        let shown = if self.ticker_stories.len() < TICKER_STORIES {
            self.ticker_stories.len()
        } else {
            TICKER_STORIES
        };
        let ghost place = self.ticker_index as int;
        assert(((place % (shown as int)) + 1) % (shown as int) == (place + 1) % (shown as int))
            by (nonlinear_arith)
            requires
                place >= 0,
                shown > 0,
        ;
        self.ticker_index = (self.ticker_index % shown + 1) % shown;
    }

    /// Counts one tick of the host's loop. Every [`TICKER_PERIOD`] ticks the
    /// count starts again and the ticker moves on. Says whether the clock
    /// is to be drawn again: every [`CLOCK_PERIOD`] ticks.
    pub fn tick(&mut self) -> (clock: bool)
        ensures
            final(self)@ == after_tick(old(self)@),
            clock == (final(self)@.ticker_counter % 10 == 0),
    {
        if self.ticker_counter >= 99 {
            self.ticker_counter = 0;
            self.rotate_ticker();
        } else {
            self.ticker_counter = self.ticker_counter + 1;
        }
        self.ticker_counter % 10 == 0
    }

    /// Opens the feed menu, or closes it.
    pub fn toggle_feed_menu(&mut self)
        ensures
            final(self)@ == (AppView {
                mode: if old(self)@.mode == AppMode::FeedMenu {
                    AppMode::Normal
                } else {
                    AppMode::FeedMenu
                },
                ..old(self)@
            }),
    {
        self.mode = match self.mode {
            AppMode::FeedMenu => AppMode::Normal,
            _ => AppMode::FeedMenu,
        };
    }

    /// Opens the preview, or closes it.
    pub fn toggle_preview(&mut self)
        ensures
            final(self)@ == (AppView { show_preview: !old(self)@.show_preview, ..old(self)@ }),
    {
        self.show_preview = !self.show_preview;
    }

    /// Switches between dates in words and dates as they are.
    pub fn toggle_date_format(&mut self)
        ensures
            final(self)@ == (AppView { humanize_dates: !old(self)@.humanize_dates, ..old(self)@ }),
    {
        self.humanize_dates = !self.humanize_dates;
    }

    /// Moves on to the next image protocol.
    pub fn cycle_image_protocol(&mut self)
        ensures
            final(self)@ == (AppView {
                image_protocol: old(self)@.image_protocol.spec_next(),
                ..old(self)@
            }),
    {
        self.image_protocol = self.image_protocol.next();
    }

    /// Moves the mark in the feed menu down, staying on the last of
    /// `feed_count` feeds.
    pub fn feed_menu_next(&mut self, feed_count: usize)
        ensures
            feed_count > 0 ==> final(self)@ == (AppView {
                feed_menu_selected: place_after(old(self)@.feed_menu_selected, feed_count),
                ..old(self)@
            }),
            feed_count == 0 ==> final(self)@ == old(self)@,
    {
        if feed_count > 0 {
            let last = feed_count - 1;
            if self.feed_menu_selected < last {
                self.feed_menu_selected = self.feed_menu_selected + 1;
            } else {
                self.feed_menu_selected = last;
            }
        }
    }

    /// Moves the mark in the feed menu up, staying on the first feed.
    pub fn feed_menu_previous(&mut self)
        ensures
            final(self)@ == (AppView {
                feed_menu_selected: if old(self)@.feed_menu_selected > 0 {
                    (old(self)@.feed_menu_selected - 1) as usize
                } else {
                    0
                },
                ..old(self)@
            }),
    {
        if self.feed_menu_selected > 0 {
            self.feed_menu_selected = self.feed_menu_selected - 1;
        }
    }

    /// Switches to a feed: the menu closes, and the feed is yet to load.
    pub fn select_feed(&mut self, feed: Feed)
        ensures
            final(self)@ == (AppView {
                current_feed: feed@,
                mode: AppMode::Normal,
                is_loading: true,
                selected: 0,
                ..old(self)@
            }),
    {
        self.current_feed = feed;
        self.mode = AppMode::Normal;
        self.is_loading = true;
        self.selected = 0;
    }

    fn find_article(&self, url: &str) -> (place: usize)
        ensures
            place == article_place(self@.article_cache, url@),
            place <= self.article_cache@.len(),
    {
        let ghost all = self@.article_cache;
        let mut i: usize = 0;
        assert(all.skip(0) =~= all);
        while i < self.article_cache.len()
            invariant
                i <= self.article_cache@.len(),
                all == articles_view(self.article_cache@),
                article_place(all, url@) == i + article_place(all.skip(i as int), url@),
            decreases self.article_cache@.len() - i,
        {
            assert(all.skip(i as int).skip(1) =~= all.skip(i + 1));
            assert(all.skip(i as int)[0] == all[i as int]);
            if text_eq(self.article_cache[i].url.as_str(), url) {
                return i;
            }
            i += 1;
        }
        i
    }

    /// Asks for the article of the selected story. If its text is held, the
    /// article view opens at the top and nothing is to be fetched. If not,
    /// fetching begins, and the address to fetch is returned: the host
    /// fetches it and hands the result to [`App::article_fetched`]. Without
    /// a selected story nothing changes.
    pub fn fetch_and_show_article(&mut self) -> (request: Option<String>)
        ensures
            old(self)@.selected >= old(self)@.stories.len() ==> request is None && final(self)@
                == old(self)@,
            old(self)@.selected < old(self)@.stories.len() ==> {
                let link = old(self)@.stories[old(self)@.selected as int].link;
                if article_for(old(self)@.article_cache, link) is Some {
                    &&& request is None
                    &&& final(self)@ == (AppView {
                        show_full_article: true,
                        article_scroll_offset: 0,
                        ..old(self)@
                    })
                } else {
                    &&& optional_text(request) == Some(link)
                    &&& final(self)@ == (AppView { is_fetching_article: true, ..old(self)@ })
                }
            },
    {
        if self.selected < self.stories.len() {
            let place = self.find_article(self.stories[self.selected].link.as_str());
            if place < self.article_cache.len() {
                self.show_full_article = true;
                self.article_scroll_offset = 0;
                None
            } else {
                self.is_fetching_article = true;
                Some(self.stories[self.selected].link.clone())
            }
        } else {
            None
        }
    }

    /// Takes the result of fetching an article. Fetching is over. A text is
    /// held under its address and the article view opens at the top; a
    /// failure is shown as an error.
    pub fn article_fetched(&mut self, url: String, result: Result<String, String>)
        ensures
            match result {
                Ok(content) => final(self)@ == (AppView {
                    article_cache: with_article(old(self)@.article_cache, url@, content@),
                    is_fetching_article: false,
                    show_full_article: true,
                    article_scroll_offset: 0,
                    ..old(self)@
                }),
                Err(reason) => final(self)@ == (AppView {
                    is_fetching_article: false,
                    error_message: Some("Failed to fetch article: "@ + reason@),
                    is_loading: false,
                    is_refreshing: false,
                    ..old(self)@
                }),
            },
    {
        match result {
            Ok(content) => {
                let place = self.find_article(url.as_str());
                let ghost before = self@.article_cache;
                if place < self.article_cache.len() {
                    self.article_cache[place] = ArticleText { url, content };
                } else {
                    self.article_cache.push(ArticleText { url, content });
                }
                assert(self@.article_cache =~= with_article(before, url@, content@));
                self.is_fetching_article = false;
                self.show_full_article = true;
                self.article_scroll_offset = 0;
            },
            Err(reason) => {
                self.is_fetching_article = false;
                let mut message = String::from_str("Failed to fetch article: ");
                message.append(reason.as_str());
                self.set_error(message);
            },
        }
    }

    /// Leaves the article view for the preview.
    pub fn toggle_article_view(&mut self)
        ensures
            old(self)@.show_full_article ==> final(self)@ == (AppView {
                show_full_article: false,
                article_scroll_offset: 0,
                ..old(self)@
            }),
            !old(self)@.show_full_article ==> final(self)@ == old(self)@,
    {
        if self.show_full_article {
            self.show_full_article = false;
            self.article_scroll_offset = 0;
        }
    }

    /// Scrolls the article up by a line, staying at the top.
    pub fn scroll_article_up(&mut self)
        ensures
            final(self)@ == (AppView {
                article_scroll_offset: if old(self)@.article_scroll_offset > 0 {
                    (old(self)@.article_scroll_offset - 1) as usize
                } else {
                    0
                },
                ..old(self)@
            }),
    {
        if self.article_scroll_offset > 0 {
            self.article_scroll_offset = self.article_scroll_offset - 1;
        }
    }

    /// Scrolls the article down by a line. Where the article ends is for
    /// the display to say; the count stops at the largest number.
    pub fn scroll_article_down(&mut self)
        ensures
            final(self)@ == (AppView {
                article_scroll_offset: if old(self)@.article_scroll_offset < usize::MAX {
                    (old(self)@.article_scroll_offset + 1) as usize
                } else {
                    usize::MAX
                },
                ..old(self)@
            }),
    {
        if self.article_scroll_offset < usize::MAX {
            self.article_scroll_offset = self.article_scroll_offset + 1;
        }
    }

    /// The text held for the article of the selected story, if any.
    pub fn get_current_article_text(&self) -> (text: Option<&String>)
        ensures
            self@.selected >= self@.stories.len() ==> text is None,
            self@.selected < self@.stories.len() ==> match text {
                Some(t) => article_for(
                    self@.article_cache,
                    self@.stories[self@.selected as int].link,
                ) == Some(t@),
                None => article_for(
                    self@.article_cache,
                    self@.stories[self@.selected as int].link,
                ) is None,
            },
    {
        if self.selected < self.stories.len() {
            let place = self.find_article(self.stories[self.selected].link.as_str());
            if place < self.article_cache.len() {
                Some(&self.article_cache[place].content)
            } else {
                None
            }
        } else {
            None
        }
    }

    /// Opens the help menu, or closes it.
    pub fn toggle_help_menu(&mut self)
        ensures
            final(self)@ == (AppView {
                mode: if old(self)@.mode == AppMode::Help {
                    AppMode::Normal
                } else {
                    AppMode::Help
                },
                ..old(self)@
            }),
    {
        self.mode = match self.mode {
            AppMode::Help => AppMode::Normal,
            _ => AppMode::Help,
        };
    }

    /// Switches between the light and the dark theme.
    pub fn cycle_theme(&mut self)
        ensures
            final(self)@ == (AppView { theme: theme_after(old(self)@.theme), ..old(self)@ }),
    {
        self.theme = match self.theme {
            ThemeName::Light => ThemeName::Dark,
            ThemeName::Dark => ThemeName::Light,
        };
    }

    /// Moves on to the next sort order, puts the story list in it and
    /// selects the first place.
    pub fn cycle_sort_order(&mut self)
        ensures
            exists|places: Seq<int>|
                is_stable_sort(
                    old(self)@.sort_order.spec_next(),
                    old(self)@.stories,
                    final(self)@.stories,
                    places,
                ),
            final(self)@ == (AppView {
                sort_order: old(self)@.sort_order.spec_next(),
                stories: final(self)@.stories,
                selected: 0,
                ..old(self)@
            }),
    {
        let ghost before = self@.stories;
        self.sort_order = self.sort_order.next();
        let ghost order = self.sort_order;
        self.apply_sort();
        proof {
            let places = choose|places: Seq<int>|
                is_stable_sort(order, before, self@.stories, places);
            assert(is_stable_sort(order, before, self@.stories, places));
        }
    }

    /// Whether the feeds are due for a refresh at time `now` on the host's
    /// clock: [`AUTO_REFRESH_SECS`] after the last one.
    pub fn check_auto_refresh(&self, now: u64) -> (due: bool)
        ensures
            due == (now - self@.last_refresh_time >= AUTO_REFRESH_SECS),
    {
        now >= self.last_refresh_time && now - self.last_refresh_time >= AUTO_REFRESH_SECS
    }

    /// Notes that the feeds were refreshed at time `now`.
    pub fn mark_refreshed(&mut self, now: u64)
        ensures
            final(self)@ == (AppView { last_refresh_time: now, ..old(self)@ }),
    {
        self.last_refresh_time = now;
    }

    fn find_story(&self, link: &str) -> (place: usize)
        ensures
            place == story_place(self@.stories, link@),
            place <= self.stories@.len(),
    {
        let ghost all = self@.stories;
        let mut i: usize = 0;
        assert(all.skip(0) =~= all);
        while i < self.stories.len()
            invariant
                i <= self.stories@.len(),
                all == stories_view(self.stories@),
                story_place(all, link@) == i + story_place(all.skip(i as int), link@),
            decreases self.stories@.len() - i,
        {
            assert(all.skip(i as int).skip(1) =~= all.skip(i + 1));
            assert(all.skip(i as int)[0] == all[i as int]);
            if text_eq(self.stories[i].link.as_str(), link) {
                return i;
            }
            i += 1;
        }
        i
    }

    fn is_on_top_stories(&self) -> (yes: bool)
        ensures
            yes == (self@.current_feed.url == default_feed().url),
    {
        let top_stories = get_default_feed();
        text_eq(self.current_feed.url.as_str(), top_stories.url.as_str())
    }

    fn switch_to_top_stories(&mut self)
        ensures
            final(self)@ == (AppView {
                current_feed: default_feed(),
                is_loading: true,
                selected: 0,
                ..old(self)@
            }),
    {
        self.current_feed = get_default_feed();
        self.is_loading = true;
        self.selected = 0;
    }

    fn ticker_story_place(&self) -> (place: usize)
        requires
            self@.ticker_index < self@.ticker_stories.len(),
        ensures
            place == story_place(
                self@.stories,
                self@.ticker_stories[self@.ticker_index as int].link,
            ),
            place <= self@.stories.len(),
    {
        self.find_story(self.ticker_stories[self.ticker_index].link.as_str())
    }

    /// Jumps to the story that the ticker shows. Without such a story
    /// nothing changes. On another feed than the top stories, the reader
    /// switches to the top stories, which are yet to load. On the top
    /// stories, the first story with the link of the ticker's story is
    /// selected, or the first place if there is none.
    pub fn jump_to_ticker_article(&mut self) -> (jump: TickerJump)
        ensures
            jump == ticker_jump(old(self)@),
            final(self)@ == after_ticker_jump(old(self)@),
    {
        if self.ticker_index >= self.ticker_stories.len() {
            return TickerJump::Nothing;
        }
        if !self.is_on_top_stories() {
            self.switch_to_top_stories();
            return TickerJump::ChangeFeed;
        }
        let place = self.ticker_story_place();
        if place < self.stories.len() {
            self.selected = place;
            self.last_opened_index = None;
            TickerJump::Found
        } else {
            self.selected = 0;
            TickerJump::Missing
        }
    }
}

/// What a jump to the story of the ticker comes to in a given state.
pub open spec fn ticker_jump(app: AppView) -> TickerJump {
    if app.ticker_index >= app.ticker_stories.len() {
        TickerJump::Nothing
    } else if app.current_feed.url != default_feed().url {
        TickerJump::ChangeFeed
    } else if story_place(app.stories, app.ticker_stories[app.ticker_index as int].link)
        < app.stories.len() {
        TickerJump::Found
    } else {
        TickerJump::Missing
    }
}

/// The state after a jump to the story of the ticker.
pub open spec fn after_ticker_jump(app: AppView) -> AppView {
    match ticker_jump(app) {
        TickerJump::Nothing => app,
        TickerJump::ChangeFeed => AppView {
            current_feed: default_feed(),
            is_loading: true,
            selected: 0,
            ..app
        },
        TickerJump::Found => AppView {
            selected: story_place(
                app.stories,
                app.ticker_stories[app.ticker_index as int].link,
            ) as usize,
            last_opened_index: None,
            ..app
        },
        TickerJump::Missing => AppView { selected: 0, ..app },
    }
}

/// What is held for an address after content is stored for it is that
/// content, and what is held for any other address is what was held.
pub proof fn lemma_article_is_held(
    articles: Seq<(Seq<char>, Seq<char>)>,
    url: Seq<char>,
    content: Seq<char>,
    other: Seq<char>,
)
    ensures
        article_place(with_article(articles, url, content), url) == article_place(articles, url),
        0 <= article_place(articles, url) <= articles.len(),
        article_for(with_article(articles, url, content), url) == Some(content),
        other != url ==> article_place(with_article(articles, url, content), other)
            == article_place(articles, other) + if article_place(articles, other)
            == articles.len() && article_place(articles, url) == articles.len() {
            1int
        } else {
            0int
        },
        other != url ==> article_for(with_article(articles, url, content), other) == article_for(
            articles,
            other,
        ),
    decreases articles.len(),
{
    let stored = with_article(articles, url, content);
    if articles.len() == 0 {
        assert(stored =~= seq![(url, content)]);
        assert(stored.skip(1) =~= Seq::<(Seq<char>, Seq<char>)>::empty());
        assert(article_place(stored.skip(1), other) == 0);
    } else {
        let rest = articles.skip(1);
        lemma_article_is_held(rest, url, content, other);
        lemma_article_place_in_range(rest, other);
        if articles[0].0 == url {
            assert(stored =~= articles.update(0, (url, content)));
            assert(stored.skip(1) =~= rest);
        } else {
            let p = article_place(rest, url);
            assert(article_place(articles, url) == 1 + p);
            if p < rest.len() {
                assert(stored =~= articles.update(1 + p, (url, content)));
                assert(stored.skip(1) =~= rest.update(p, (url, content)));
            } else {
                assert(stored =~= articles.push((url, content)));
                assert(stored.skip(1) =~= rest.push((url, content)));
            }
            assert(stored.skip(1) =~= with_article(rest, url, content));
            assert(stored[0] == articles[0]);
        }
    }
}

/// The place of an address lies within the list or just behind it.
pub proof fn lemma_article_place_in_range(articles: Seq<(Seq<char>, Seq<char>)>, url: Seq<char>)
    ensures
        0 <= article_place(articles, url) <= articles.len(),
    decreases articles.len(),
{
    if articles.len() > 0 && articles[0].0 != url {
        lemma_article_place_in_range(articles.skip(1), url);
    }
}

/// The story with the given number, counting from one.
pub fn story_by_number(stories: &[NewsStory], number: usize) -> (story: Option<&NewsStory>)
    ensures
        match story {
            Some(s) => 1 <= number <= stories@.len() && *s == stories@[number - 1],
            None => number == 0 || number > stories@.len(),
        },
{
    if number == 0 || number > stories.len() {
        None
    } else {
        Some(&stories[number - 1])
    }
}

/// What of the state shows on the screen at once, so that a change of it
/// calls for drawing again.
#[derive(Debug, Clone, Copy, PartialEq, Eq, Structural)]
pub struct Shown {
    pub selected: usize,
    pub mode: AppMode,
    pub show_preview: bool,
    pub image_protocol: ImageProtocol,
    pub ticker_index: usize,
    pub is_loading: bool,
    pub is_refreshing: bool,
    pub humanize_dates: bool,
    pub feed_menu_selected: usize,
    pub show_full_article: bool,
    pub article_scroll_offset: usize,
    pub is_fetching_article: bool,
    pub sort_order: SortOrder,
    pub is_offline: bool,
}

/// What of a state shows on the screen at once.
pub open spec fn shown_of(app: AppView) -> Shown {
    Shown {
        selected: app.selected,
        mode: app.mode,
        show_preview: app.show_preview,
        image_protocol: app.image_protocol,
        ticker_index: app.ticker_index,
        is_loading: app.is_loading,
        is_refreshing: app.is_refreshing,
        humanize_dates: app.humanize_dates,
        feed_menu_selected: app.feed_menu_selected,
        show_full_article: app.show_full_article,
        article_scroll_offset: app.article_scroll_offset,
        is_fetching_article: app.is_fetching_article,
        sort_order: app.sort_order,
        is_offline: app.is_offline,
    }
}

impl App {
    /// What of the state shows on the screen at once.
    pub fn shown(&self) -> (shown: Shown)
        ensures
            shown == shown_of(self@),
    {
        Shown {
            selected: self.selected,
            mode: self.mode,
            show_preview: self.show_preview,
            image_protocol: self.image_protocol,
            ticker_index: self.ticker_index,
            is_loading: self.is_loading,
            is_refreshing: self.is_refreshing,
            humanize_dates: self.humanize_dates,
            feed_menu_selected: self.feed_menu_selected,
            show_full_article: self.show_full_article,
            article_scroll_offset: self.article_scroll_offset,
            is_fetching_article: self.is_fetching_article,
            sort_order: self.sort_order,
            is_offline: self.is_offline,
        }
    }
}

} // verus!
