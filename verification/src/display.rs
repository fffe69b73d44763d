//! The lines of text that the reader shows: the rows of the story list, the
//! header and the footer. Colours, borders and images are the host's.

use crate::app::App;
use crate::app::AppView;
use crate::date_utils::humanize_time;
use crate::date_utils::humanized_time;
use crate::text::append_repeated;
use crate::text::decimal;
use crate::text::decimal_digits;
use crate::text::repeated;
use vstd::prelude::*;
use vstd::string::StrSliceExecFns;
use vstd::string::StringExecFns;
use vstd::string::StringSliceAdditionalSpecFns;
use vstd::utf8::encode_utf8;

verus! {

/// The number of stories that the footer counts the ticker round.
pub const FOOTER_TICKER_STORIES: usize = 8;

/// A text made to fit a row of `width` columns. A text of fewer bytes than
/// the row has columns is padded with spaces to as many bytes. Any other
/// text is cut: to three characters less than the width, followed by three
/// dots, or in a row of three columns or less to as many characters as the
/// width.
pub open spec fn fitted(text: Seq<char>, width: nat) -> Seq<char> {
    let bytes = encode_utf8(text).len();
    if bytes < width {
        text + repeated(seq![' '], (width - bytes) as nat)
    } else if width > 3 {
        if width - 3 < text.len() {
            text.take(width - 3) + "..."@
        } else {
            text + "..."@
        }
    } else {
        if width < text.len() {
            text.take(width as int)
        } else {
            text
        }
    }
}

/// A date as a row shows it: the time elapsed at `now` in words, or the
/// date as it is.
pub open spec fn shown_date(humanize: bool, date: Seq<char>, now: i64) -> Seq<char> {
    if humanize {
        humanized_time(date, now)
    } else {
        date
    }
}

/// The first row of a story in the list: its number and its title.
pub open spec fn title_row(number: nat, title: Seq<char>, width: nat) -> Seq<char> {
    fitted(decimal_digits(number) + ". "@ + title, width)
}

/// The second row of a story in the list: its date and the feed.
pub open spec fn meta_row(date: Seq<char>, feed: Seq<char>, width: nat) -> Seq<char> {
    fitted("   Last updated: "@ + date + " | "@ + feed, width)
}

/// The keys in short, with the sort order and the image protocol.
pub open spec fn keys_help(app: AppView) -> Seq<char> {
    "q: quit | o: open | Tab: preview | f: feeds | s: sort ("@ + app.sort_order.spec_name()
        + ") | t: dates | p: protocol ("@ + app.image_protocol.spec_name() + ") | r: refresh"@
}

/// The left part of the footer: a note while refreshing; else the story of
/// the ticker with its place; else the keys in short.
pub open spec fn footer_line(app: AppView) -> Seq<char> {
    if app.is_refreshing {
        "Refreshing News..."@
    } else if app.ticker_index < app.ticker_stories.len() {
        "[LATEST] "@ + app.ticker_stories[app.ticker_index as int].title + " ("@ + decimal_digits(
            (app.ticker_index + 1) as nat,
        ) + "/"@ + decimal_digits(
            if app.ticker_stories.len() < FOOTER_TICKER_STORIES {
                app.ticker_stories.len()
            } else {
                FOOTER_TICKER_STORIES as nat
            },
        ) + ")"@
    } else {
        keys_help(app)
    }
}

/// The second line of the header: the date of the first story, or two
/// dashes without stories, and the feed.
pub open spec fn updated_line(app: AppView, now: i64) -> Seq<char> {
    if app.stories.len() > 0 {
        "Last updated: "@ + shown_date(app.humanize_dates, app.stories[0].pub_date, now) + " | "@
            + app.current_feed.name
    } else {
        "Last updated: -- | "@ + app.current_feed.name
    }
}

/// Makes a text fit a row of `width` columns.
pub fn fit_to_width(text: &str, width: usize) -> (row: String)
    ensures
        row@ == fitted(text@, width as nat),
{
    proof {
        reveal_strlit(" ");
        assert(" "@ =~= seq![' ']);
    }
    let bytes = text.as_bytes().len();
    if bytes < width {
        let mut row = String::from_str(text);
        append_repeated(&mut row, " ", width - bytes);
        row
    } else {
        let count = text.unicode_len();
        if width > 3 {
            if width - 3 < count {
                let mut row = String::from_str(text.substring_char(0, width - 3));
                row.append("...");
                row
            } else {
                let mut row = String::from_str(text);
                row.append("...");
                row
            }
        } else {
            if width < count {
                String::from_str(text.substring_char(0, width))
            } else {
                String::from_str(text)
            }
        }
    }
}

/// A date as a row shows it.
pub fn show_date(humanize: bool, date: &str, now: i64) -> (text: String)
    ensures
        text@ == shown_date(humanize, date@, now),
{
    if humanize {
        humanize_time(date, now)
    } else {
        String::from_str(date)
    }
}

/// The first row of a story in the list.
pub fn story_title_row(number: usize, title: &str, width: usize) -> (row: String)
    ensures
        row@ == title_row(number as nat, title@, width as nat),
{
    let mut text = decimal(number as u128);
    text.append(". ");
    text.append(title);
    fit_to_width(text.as_str(), width)
}

/// The second row of a story in the list.
pub fn story_meta_row(date: &str, feed: &str, width: usize) -> (row: String)
    ensures
        row@ == meta_row(date@, feed@, width as nat),
{
    let mut text = String::from_str("   Last updated: ");
    text.append(date);
    text.append(" | ");
    text.append(feed);
    fit_to_width(text.as_str(), width)
}

/// The title of the header.
pub fn header_title(is_offline: bool) -> (title: &'static str)
    ensures
        title@ == if is_offline {
            "BBC | NEWS [OFFLINE]"@
        } else {
            "BBC | NEWS"@
        },
{
    if is_offline {
        "BBC | NEWS [OFFLINE]"
    } else {
        "BBC | NEWS"
    }
}

/// The second line of the header.
pub fn last_updated_line(app: &App, now: i64) -> (line: String)
    ensures
        line@ == updated_line(app@, now),
{
    if app.stories.len() > 0 {
        let date = show_date(app.humanize_dates, app.stories[0].pub_date.as_str(), now);
        let mut line = String::from_str("Last updated: ");
        line.append(date.as_str());
        line.append(" | ");
        line.append(app.current_feed.name.as_str());
        line
    } else {
        let mut line = String::from_str("Last updated: -- | ");
        line.append(app.current_feed.name.as_str());
        line
    }
}

fn keys_help_text(app: &App) -> (text: String)
    ensures
        text@ == keys_help(app@),
{
    let mut text = String::from_str("q: quit | o: open | Tab: preview | f: feeds | s: sort (");
    text.append(app.sort_order.name());
    text.append(") | t: dates | p: protocol (");
    text.append(app.image_protocol.name());
    text.append(") | r: refresh");
    text
}

/// The left part of the footer.
pub fn footer_text(app: &App) -> (text: String)
    ensures
        text@ == footer_line(app@),
{
    if app.is_refreshing {
        String::from_str("Refreshing News...")
    } else if app.ticker_index < app.ticker_stories.len() {
        let round = if app.ticker_stories.len() < FOOTER_TICKER_STORIES {
            app.ticker_stories.len()
        } else {
            FOOTER_TICKER_STORIES
        };
        let mut text = String::from_str("[LATEST] ");
        text.append(app.ticker_stories[app.ticker_index].title.as_str());
        text.append(" (");
        text.append(decimal(app.ticker_index as u128 + 1).as_str());
        text.append("/");
        text.append(decimal(round as u128).as_str());
        text.append(")");
        text
    } else {
        keys_help_text(app)
    }
}

} // verus!
