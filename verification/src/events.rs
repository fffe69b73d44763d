//! Keys and what they ask for.
//!
//! The host reads the keyboard and hands each key press over as a [`Key`].
//! [`key_command`] says what the key asks for in the current state, and
//! [`perform`] carries out what needs neither the clock nor the outside
//! world. The rest (moving the selection, which the host may pause, opening
//! the browser, fetching an article, draining buffered keys) is for the
//! host to carry out with the methods of [`App`].

use crate::app::theme_after;
use crate::app::App;
use crate::app::AppMode;
use crate::app::AppView;
use crate::app::Shown;
use crate::app::TickerJump;
use crate::config::Config;
use crate::config::KeyBindings;
use crate::feeds::all_feeds;
use crate::feeds::feeds_view;
use crate::feeds::get_all_feeds;
use crate::feeds::Feed;
use crate::sorting::is_stable_sort;
use vstd::prelude::*;

verus! {

/// The action that follows an input event.
#[derive(Debug, Clone, Copy, PartialEq, Eq, Structural)]
pub enum AppAction {
    /// Nothing is asked for.
    Idle,
    Refresh,
    FeedChanged,
    Resize,
}

/// A key press, as far as the reader tells keys apart.
#[derive(Debug, Clone, Copy, PartialEq, Eq, Structural)]
pub enum Key {
    Char(char),
    Up,
    Down,
    Enter,
    Tab,
    Esc,
    /// Any other key.
    Other,
}

/// What a key press asks for.
#[derive(Debug, Clone, Copy, PartialEq, Eq, Structural)]
pub enum KeyCommand {
    Ignore,
    ToggleHelp,
    FeedMenuNext,
    FeedMenuPrevious,
    SelectFeed,
    ToggleFeedMenu,
    ScrollArticleUp,
    ScrollArticleDown,
    ToggleArticleView,
    /// Discard the scroll keys that are buffered, up to the first other key.
    DrainScrollKeys,
    Quit,
    Next,
    Previous,
    ScrollToBottom,
    ScrollToTop,
    OpenSelected,
    OpenSelectedNewTab,
    Refresh,
    CycleSortOrder,
    ToggleDateFormat,
    CycleTheme,
    CycleImageProtocol,
    FetchArticle,
    JumpToTicker,
    TogglePreview,
}

/// Whether a key scrolls the story list: an arrow up or down, or a key
/// bound to scrolling down, up, to the bottom or to the top.
pub open spec fn is_scroll_key(key: Key, kb: KeyBindings) -> bool {
    match key {
        Key::Down => true,
        Key::Up => true,
        Key::Char(c) => c == kb.scroll_down || c == kb.scroll_up || c == kb.scroll_bottom || c
            == kb.latest,
        _ => false,
    }
}

/// What a key asks for while the help menu is open.
pub open spec fn help_command(key: Key) -> KeyCommand {
    if key == Key::Char('?') || key == Key::Esc {
        KeyCommand::ToggleHelp
    } else {
        KeyCommand::Ignore
    }
}

/// What a key asks for while the feed menu is open.
pub open spec fn feed_menu_command(key: Key) -> KeyCommand {
    if key == Key::Char('j') || key == Key::Down {
        KeyCommand::FeedMenuNext
    } else if key == Key::Char('k') || key == Key::Up {
        KeyCommand::FeedMenuPrevious
    } else if key == Key::Enter {
        KeyCommand::SelectFeed
    } else if key == Key::Char('f') || key == Key::Esc {
        KeyCommand::ToggleFeedMenu
    } else {
        KeyCommand::Ignore
    }
}

/// What a key asks for while the full article is shown.
pub open spec fn article_command(key: Key, kb: KeyBindings) -> KeyCommand {
    if key == Key::Up || key == Key::Char('k') {
        KeyCommand::ScrollArticleUp
    } else if key == Key::Down || key == Key::Char('j') {
        KeyCommand::ScrollArticleDown
    } else if key == Key::Char(kb.open) {
        KeyCommand::OpenSelected
    } else if key == Key::Enter || key == Key::Tab || key == Key::Esc {
        KeyCommand::ToggleArticleView
    } else {
        KeyCommand::Ignore
    }
}

/// What a key asks for in the story list. Where a character is bound to
/// several commands, the first in this order is meant; the bindings come
/// before the fixed keys.
pub open spec fn list_command(key: Key, kb: KeyBindings) -> KeyCommand {
    match key {
        Key::Char(c) => {
            if c == kb.quit {
                KeyCommand::Quit
            } else if c == kb.scroll_down {
                KeyCommand::Next
            } else if c == kb.scroll_up {
                KeyCommand::Previous
            } else if c == kb.scroll_bottom {
                KeyCommand::ScrollToBottom
            } else if c == kb.open {
                KeyCommand::OpenSelected
            } else if c == kb.open_new_tab {
                KeyCommand::OpenSelectedNewTab
            } else if c == kb.latest {
                KeyCommand::ScrollToTop
            } else if c == kb.refresh {
                KeyCommand::Refresh
            } else if c == 'f' {
                KeyCommand::ToggleFeedMenu
            } else if c == 's' {
                KeyCommand::CycleSortOrder
            } else if c == 't' {
                KeyCommand::ToggleDateFormat
            } else if c == 'T' {
                KeyCommand::CycleTheme
            } else if c == 'p' {
                KeyCommand::CycleImageProtocol
            } else if c == '?' {
                KeyCommand::ToggleHelp
            } else if c == 'a' {
                KeyCommand::FetchArticle
            } else if c == ' ' {
                KeyCommand::JumpToTicker
            } else {
                KeyCommand::Ignore
            }
        },
        Key::Tab => KeyCommand::TogglePreview,
        Key::Enter => KeyCommand::FetchArticle,
        Key::Down => KeyCommand::Next,
        Key::Up => KeyCommand::Previous,
        Key::Esc => KeyCommand::Quit,
        Key::Other => KeyCommand::Ignore,
    }
}

/// What a key asks for. The help menu and the feed menu take every key
/// while they are open, and so does the article view. While the preview is
/// open, scroll keys are not obeyed but drained. Every other key is read as
/// in the story list.
pub open spec fn command_for(app: AppView, key: Key, kb: KeyBindings) -> KeyCommand {
    if app.mode == AppMode::Help {
        help_command(key)
    } else if app.mode == AppMode::FeedMenu {
        feed_menu_command(key)
    } else if app.show_full_article {
        article_command(key, kb)
    } else if app.show_preview && is_scroll_key(key, kb) {
        KeyCommand::DrainScrollKeys
    } else {
        list_command(key, kb)
    }
}

/// Whether a key scrolls the story list.
pub fn scroll_key(key: Key, kb: &KeyBindings) -> (yes: bool)
    ensures
        yes == is_scroll_key(key, *kb),
{
    match key {
        Key::Down => true,
        Key::Up => true,
        Key::Char(c) => c == kb.scroll_down || c == kb.scroll_up || c == kb.scroll_bottom || c
            == kb.latest,
        _ => false,
    }
}

fn key_in_help(key: Key) -> (command: KeyCommand)
    ensures
        command == help_command(key),
{
    match key {
        Key::Char('?') => KeyCommand::ToggleHelp,
        Key::Esc => KeyCommand::ToggleHelp,
        _ => KeyCommand::Ignore,
    }
}

fn key_in_feed_menu(key: Key) -> (command: KeyCommand)
    ensures
        command == feed_menu_command(key),
{
    match key {
        Key::Char('j') => KeyCommand::FeedMenuNext,
        Key::Down => KeyCommand::FeedMenuNext,
        Key::Char('k') => KeyCommand::FeedMenuPrevious,
        Key::Up => KeyCommand::FeedMenuPrevious,
        Key::Enter => KeyCommand::SelectFeed,
        Key::Char('f') => KeyCommand::ToggleFeedMenu,
        Key::Esc => KeyCommand::ToggleFeedMenu,
        _ => KeyCommand::Ignore,
    }
}

fn key_in_article(key: Key, kb: &KeyBindings) -> (command: KeyCommand)
    ensures
        command == article_command(key, *kb),
{
    match key {
        Key::Up => KeyCommand::ScrollArticleUp,
        Key::Char('k') => KeyCommand::ScrollArticleUp,
        Key::Down => KeyCommand::ScrollArticleDown,
        Key::Char('j') => KeyCommand::ScrollArticleDown,
        Key::Char(c) => {
            if c == kb.open {
                KeyCommand::OpenSelected
            } else {
                KeyCommand::Ignore
            }
        },
        Key::Enter => KeyCommand::ToggleArticleView,
        Key::Tab => KeyCommand::ToggleArticleView,
        Key::Esc => KeyCommand::ToggleArticleView,
        Key::Other => KeyCommand::Ignore,
    }
}

fn key_in_list(key: Key, kb: &KeyBindings) -> (command: KeyCommand)
    ensures
        command == list_command(key, *kb),
{
    match key {
        Key::Char(c) => {
            if c == kb.quit {
                KeyCommand::Quit
            } else if c == kb.scroll_down {
                KeyCommand::Next
            } else if c == kb.scroll_up {
                KeyCommand::Previous
            } else if c == kb.scroll_bottom {
                KeyCommand::ScrollToBottom
            } else if c == kb.open {
                KeyCommand::OpenSelected
            } else if c == kb.open_new_tab {
                KeyCommand::OpenSelectedNewTab
            } else if c == kb.latest {
                KeyCommand::ScrollToTop
            } else if c == kb.refresh {
                KeyCommand::Refresh
            } else if c == 'f' {
                KeyCommand::ToggleFeedMenu
            } else if c == 's' {
                KeyCommand::CycleSortOrder
            } else if c == 't' {
                KeyCommand::ToggleDateFormat
            } else if c == 'T' {
                KeyCommand::CycleTheme
            } else if c == 'p' {
                KeyCommand::CycleImageProtocol
            } else if c == '?' {
                KeyCommand::ToggleHelp
            } else if c == 'a' {
                KeyCommand::FetchArticle
            } else if c == ' ' {
                KeyCommand::JumpToTicker
            } else {
                KeyCommand::Ignore
            }
        },
        Key::Tab => KeyCommand::TogglePreview,
        Key::Enter => KeyCommand::FetchArticle,
        Key::Down => KeyCommand::Next,
        Key::Up => KeyCommand::Previous,
        Key::Esc => KeyCommand::Quit,
        Key::Other => KeyCommand::Ignore,
    }
}

/// What a key press asks for in the current state.
pub fn key_command(app: &App, key: Key, config: &Config) -> (command: KeyCommand)
    ensures
        command == command_for(app@, key, config.keybindings),
{
    match app.mode {
        AppMode::Help => key_in_help(key),
        AppMode::FeedMenu => key_in_feed_menu(key),
        _ => {
            if app.show_full_article {
                key_in_article(key, &config.keybindings)
            } else if app.show_preview && scroll_key(key, &config.keybindings) {
                KeyCommand::DrainScrollKeys
            } else {
                key_in_list(key, &config.keybindings)
            }
        },
    }
}

/// Whether a command is carried out by [`perform`]. The others need the
/// clock or the outside world and are carried out by the host.
pub open spec fn is_performed_here(command: KeyCommand) -> bool {
    match command {
        KeyCommand::Next => false,
        KeyCommand::Previous => false,
        KeyCommand::ScrollToBottom => false,
        KeyCommand::ScrollToTop => false,
        KeyCommand::OpenSelected => false,
        KeyCommand::OpenSelectedNewTab => false,
        KeyCommand::FetchArticle => false,
        KeyCommand::JumpToTicker => false,
        KeyCommand::DrainScrollKeys => false,
        _ => true,
    }
}

/// The action that follows a command that is carried out here.
pub open spec fn action_of(app: AppView, command: KeyCommand) -> AppAction {
    match command {
        KeyCommand::Refresh => AppAction::Refresh,
        KeyCommand::SelectFeed => if app.feed_menu_selected < all_feeds().len() {
            AppAction::FeedChanged
        } else {
            AppAction::Idle
        },
        _ => AppAction::Idle,
    }
}

/// The state after a command that is carried out here and that does not
/// touch the story list.
pub open spec fn after_command(app: AppView, command: KeyCommand) -> AppView {
    match command {
        KeyCommand::ToggleHelp => AppView {
            mode: if app.mode == AppMode::Help {
                AppMode::Normal
            } else {
                AppMode::Help
            },
            ..app
        },
        KeyCommand::FeedMenuNext => AppView {
            feed_menu_selected: crate::app::place_after(
                app.feed_menu_selected,
                all_feeds().len() as usize,
            ),
            ..app
        },
        KeyCommand::FeedMenuPrevious => AppView {
            feed_menu_selected: if app.feed_menu_selected > 0 {
                (app.feed_menu_selected - 1) as usize
            } else {
                0
            },
            ..app
        },
        KeyCommand::SelectFeed => if app.feed_menu_selected < all_feeds().len() {
            AppView {
                current_feed: all_feeds()[app.feed_menu_selected as int],
                mode: AppMode::Normal,
                is_loading: true,
                selected: 0,
                ..app
            }
        } else {
            app
        },
        KeyCommand::ToggleFeedMenu => AppView {
            mode: if app.mode == AppMode::FeedMenu {
                AppMode::Normal
            } else {
                AppMode::FeedMenu
            },
            ..app
        },
        KeyCommand::ScrollArticleUp => AppView {
            article_scroll_offset: if app.article_scroll_offset > 0 {
                (app.article_scroll_offset - 1) as usize
            } else {
                0
            },
            ..app
        },
        KeyCommand::ScrollArticleDown => AppView {
            article_scroll_offset: if app.article_scroll_offset < usize::MAX {
                (app.article_scroll_offset + 1) as usize
            } else {
                usize::MAX
            },
            ..app
        },
        KeyCommand::ToggleArticleView => if app.show_full_article {
            AppView { show_full_article: false, article_scroll_offset: 0, ..app }
        } else {
            app
        },
        KeyCommand::Quit => AppView { should_quit: true, ..app },
        KeyCommand::ToggleDateFormat => AppView { humanize_dates: !app.humanize_dates, ..app },
        KeyCommand::CycleTheme => AppView { theme: theme_after(app.theme), ..app },
        KeyCommand::CycleImageProtocol => AppView {
            image_protocol: app.image_protocol.spec_next(),
            ..app
        },
        KeyCommand::TogglePreview => AppView { show_preview: !app.show_preview, ..app },
        _ => app,
    }
}

fn perform_toggle_help(app: &mut App)
    ensures
        final(app)@ == after_command(old(app)@, KeyCommand::ToggleHelp),
{
    app.toggle_help_menu();
}

fn perform_feed_menu_previous(app: &mut App)
    ensures
        final(app)@ == after_command(old(app)@, KeyCommand::FeedMenuPrevious),
{
    app.feed_menu_previous();
}

fn perform_toggle_feed_menu(app: &mut App)
    ensures
        final(app)@ == after_command(old(app)@, KeyCommand::ToggleFeedMenu),
{
    app.toggle_feed_menu();
}

fn perform_scroll_article_up(app: &mut App)
    ensures
        final(app)@ == after_command(old(app)@, KeyCommand::ScrollArticleUp),
{
    app.scroll_article_up();
}

fn perform_scroll_article_down(app: &mut App)
    ensures
        final(app)@ == after_command(old(app)@, KeyCommand::ScrollArticleDown),
{
    app.scroll_article_down();
}

fn perform_toggle_article_view(app: &mut App)
    ensures
        final(app)@ == after_command(old(app)@, KeyCommand::ToggleArticleView),
{
    app.toggle_article_view();
}

fn perform_quit(app: &mut App)
    ensures
        final(app)@ == after_command(old(app)@, KeyCommand::Quit),
{
    app.quit();
}

fn perform_toggle_date_format(app: &mut App)
    ensures
        final(app)@ == after_command(old(app)@, KeyCommand::ToggleDateFormat),
{
    app.toggle_date_format();
}

fn perform_cycle_theme(app: &mut App)
    ensures
        final(app)@ == after_command(old(app)@, KeyCommand::CycleTheme),
{
    app.cycle_theme();
}

fn perform_cycle_image_protocol(app: &mut App)
    ensures
        final(app)@ == after_command(old(app)@, KeyCommand::CycleImageProtocol),
{
    app.cycle_image_protocol();
}

fn perform_toggle_preview(app: &mut App)
    ensures
        final(app)@ == after_command(old(app)@, KeyCommand::TogglePreview),
{
    app.toggle_preview();
}

fn perform_feed_menu_next(app: &mut App)
    ensures
        final(app)@ == after_command(old(app)@, KeyCommand::FeedMenuNext),
{
    let feeds = get_all_feeds();
    assert(feeds@.len() == feeds_view(feeds@).len());
    app.feed_menu_next(feeds.len());
}

fn perform_select_feed(app: &mut App) -> (action: AppAction)
    ensures
        final(app)@ == after_command(old(app)@, KeyCommand::SelectFeed),
        action == action_of(old(app)@, KeyCommand::SelectFeed),
{
    let feeds = get_all_feeds();
    assert(feeds@.len() == feeds_view(feeds@).len());
    if app.feed_menu_selected < feeds.len() {
        assert(feeds_view(feeds@)[app.feed_menu_selected as int]
            == feeds@[app.feed_menu_selected as int]@);
        let feed: Feed = feeds[app.feed_menu_selected].clone();
        app.select_feed(feed);
        AppAction::FeedChanged
    } else {
        AppAction::Idle
    }
}

/// Carries out a command that needs neither the clock nor the outside
/// world, and says which action follows. A command that is for the host
/// changes nothing here. Cycling the sort order moves on to the next order,
/// sorts the story list and selects the first place; every other command
/// leaves the story list alone.
pub fn perform(app: &mut App, command: KeyCommand) -> (action: AppAction)
    ensures
        action == action_of(old(app)@, command),
        !is_performed_here(command) ==> final(app)@ == old(app)@,
        command != KeyCommand::CycleSortOrder ==> final(app)@ == after_command(
            old(app)@,
            command,
        ),
        command == KeyCommand::CycleSortOrder ==> {
            &&& exists|places: Seq<int>|
                is_stable_sort(
                    old(app)@.sort_order.spec_next(),
                    old(app)@.stories,
                    final(app)@.stories,
                    places,
                )
            &&& final(app)@ == (AppView {
                sort_order: old(app)@.sort_order.spec_next(),
                stories: final(app)@.stories,
                selected: 0,
                ..old(app)@
            })
        },
{
    match command {
        KeyCommand::ToggleHelp => {
            perform_toggle_help(app);
            AppAction::Idle
        },
        KeyCommand::FeedMenuPrevious => {
            perform_feed_menu_previous(app);
            AppAction::Idle
        },
        KeyCommand::ToggleFeedMenu => {
            perform_toggle_feed_menu(app);
            AppAction::Idle
        },
        KeyCommand::ScrollArticleUp => {
            perform_scroll_article_up(app);
            AppAction::Idle
        },
        KeyCommand::ScrollArticleDown => {
            perform_scroll_article_down(app);
            AppAction::Idle
        },
        KeyCommand::ToggleArticleView => {
            perform_toggle_article_view(app);
            AppAction::Idle
        },
        KeyCommand::Quit => {
            perform_quit(app);
            AppAction::Idle
        },
        KeyCommand::ToggleDateFormat => {
            perform_toggle_date_format(app);
            AppAction::Idle
        },
        KeyCommand::CycleTheme => {
            perform_cycle_theme(app);
            AppAction::Idle
        },
        KeyCommand::CycleImageProtocol => {
            perform_cycle_image_protocol(app);
            AppAction::Idle
        },
        KeyCommand::TogglePreview => {
            perform_toggle_preview(app);
            AppAction::Idle
        },
        KeyCommand::FeedMenuNext => {
            perform_feed_menu_next(app);
            AppAction::Idle
        },
        KeyCommand::SelectFeed => perform_select_feed(app),
        KeyCommand::Refresh => AppAction::Refresh,
        KeyCommand::CycleSortOrder => {
            app.cycle_sort_order();
            AppAction::Idle
        },
        _ => AppAction::Idle,
    }
}

/// The action that follows a jump to the story of the ticker: the feed has
/// changed where the reader had to switch to the top stories.
pub fn action_after_jump(jump: TickerJump) -> (action: AppAction)
    ensures
        action == if jump == TickerJump::ChangeFeed {
            AppAction::FeedChanged
        } else {
            AppAction::Idle
        },
{
    match jump {
        TickerJump::ChangeFeed => AppAction::FeedChanged,
        _ => AppAction::Idle,
    }
}

/// The action of one round of the host's loop: a refresh that is due is
/// taken when nothing else was asked for.
pub fn action_with_auto_refresh(action: AppAction, refresh_due: bool) -> (taken: AppAction)
    ensures
        taken == if refresh_due && action == AppAction::Idle {
            AppAction::Refresh
        } else {
            action
        },
{
    if refresh_due && action == AppAction::Idle {
        AppAction::Refresh
    } else {
        action
    }
}

/// Whether the screen is to be drawn again after one round of the host's
/// loop: when what shows has changed, when the clock has moved on, or when
/// an action was taken.
pub fn needs_redraw(before: Shown, after: Shown, clock_tick: bool, action: AppAction) -> (redraw:
    bool)
    ensures
        redraw == (before != after || clock_tick || action != AppAction::Idle),
{
    before != after || clock_tick || action != AppAction::Idle
}

} // verus!
