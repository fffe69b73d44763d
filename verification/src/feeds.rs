//! The feeds that can be read, by name.

use crate::text::contains;
use crate::text::contains_text;
use crate::text::lowercase;
use crate::text::text_eq;
use crate::text::to_lowercase;
use vstd::prelude::*;
use vstd::string::StringExecFns;

verus! {

/// A feed: its display name and the address it is served at.
#[derive(Debug)]
pub struct Feed {
    pub name: String,
    pub url: String,
}

/// The mathematical value of a [`Feed`].
pub struct FeedView {
    pub name: Seq<char>,
    pub url: Seq<char>,
}

impl View for Feed {
    type V = FeedView;

    open spec fn view(&self) -> FeedView {
        FeedView { name: self.name@, url: self.url@ }
    }
}

impl Clone for Feed {
    fn clone(&self) -> (copy: Feed)
        ensures
            copy@ == self@,
    {
        Feed { name: self.name.clone(), url: self.url.clone() }
    }
}

impl Feed {
    /// A feed with the given name and address.
    pub fn new(name: &str, url: &str) -> (feed: Feed)
        ensures
            feed@ == (FeedView { name: name@, url: url@ }),
    {
        Feed { name: name.to_owned(), url: url.to_owned() }
    }
}

/// The feeds on offer, in menu order.
pub open spec fn all_feeds() -> Seq<FeedView> {
    seq![
        FeedView { name: "Top Stories"@, url: "https://feeds.bbci.co.uk/news/rss.xml"@ },
        FeedView { name: "World"@, url: "https://feeds.bbci.co.uk/news/world/rss.xml"@ },
        FeedView { name: "UK"@, url: "https://feeds.bbci.co.uk/news/uk/rss.xml"@ },
        FeedView { name: "Business"@, url: "https://feeds.bbci.co.uk/news/business/rss.xml"@ },
        FeedView { name: "Politics"@, url: "https://feeds.bbci.co.uk/news/politics/rss.xml"@ },
        FeedView { name: "Health"@, url: "https://feeds.bbci.co.uk/news/health/rss.xml"@ },
        FeedView { name: "Education & Family"@, url: "https://feeds.bbci.co.uk/news/education/rss.xml"@ },
        FeedView { name: "Science & Environment"@, url: "https://feeds.bbci.co.uk/news/science_and_environment/rss.xml"@ },
        FeedView { name: "Technology"@, url: "https://feeds.bbci.co.uk/news/technology/rss.xml"@ },
        FeedView { name: "Entertainment & Arts"@, url: "https://feeds.bbci.co.uk/news/entertainment_and_arts/rss.xml"@ },
        FeedView { name: "England"@, url: "https://feeds.bbci.co.uk/news/england/rss.xml"@ },
        FeedView { name: "Northern Ireland"@, url: "https://feeds.bbci.co.uk/news/northern_ireland/rss.xml"@ },
        FeedView { name: "Scotland"@, url: "https://feeds.bbci.co.uk/news/scotland/rss.xml"@ },
        FeedView { name: "Wales"@, url: "https://feeds.bbci.co.uk/news/wales/rss.xml"@ },
        FeedView { name: "Africa"@, url: "https://feeds.bbci.co.uk/news/world/africa/rss.xml"@ },
        FeedView { name: "Asia"@, url: "https://feeds.bbci.co.uk/news/world/asia/rss.xml"@ },
        FeedView { name: "Europe"@, url: "https://feeds.bbci.co.uk/news/world/europe/rss.xml"@ },
        FeedView { name: "Latin America"@, url: "https://feeds.bbci.co.uk/news/world/latin_america/rss.xml"@ },
        FeedView { name: "Middle East"@, url: "https://feeds.bbci.co.uk/news/world/middle_east/rss.xml"@ },
        FeedView { name: "US & Canada"@, url: "https://feeds.bbci.co.uk/news/world/us_and_canada/rss.xml"@ },
    ]
}

/// The views of a list of feeds, in order.
pub open spec fn feeds_view(feeds: Seq<Feed>) -> Seq<FeedView> {
    Seq::new(feeds.len(), |i: int| feeds[i]@)
}

/// The feeds on offer, in menu order.
pub fn get_all_feeds() -> (feeds: Vec<Feed>)
    ensures
        feeds_view(feeds@) == all_feeds(),
{
    let mut feeds: Vec<Feed> = Vec::new();
    feeds.push(Feed::new("Top Stories", "https://feeds.bbci.co.uk/news/rss.xml"));
    feeds.push(Feed::new("World", "https://feeds.bbci.co.uk/news/world/rss.xml"));
    feeds.push(Feed::new("UK", "https://feeds.bbci.co.uk/news/uk/rss.xml"));
    feeds.push(Feed::new("Business", "https://feeds.bbci.co.uk/news/business/rss.xml"));
    feeds.push(Feed::new("Politics", "https://feeds.bbci.co.uk/news/politics/rss.xml"));
    feeds.push(Feed::new("Health", "https://feeds.bbci.co.uk/news/health/rss.xml"));
    feeds.push(Feed::new("Education & Family", "https://feeds.bbci.co.uk/news/education/rss.xml"));
    feeds.push(Feed::new("Science & Environment", "https://feeds.bbci.co.uk/news/science_and_environment/rss.xml"));
    feeds.push(Feed::new("Technology", "https://feeds.bbci.co.uk/news/technology/rss.xml"));
    feeds.push(Feed::new("Entertainment & Arts", "https://feeds.bbci.co.uk/news/entertainment_and_arts/rss.xml"));
    feeds.push(Feed::new("England", "https://feeds.bbci.co.uk/news/england/rss.xml"));
    feeds.push(Feed::new("Northern Ireland", "https://feeds.bbci.co.uk/news/northern_ireland/rss.xml"));
    feeds.push(Feed::new("Scotland", "https://feeds.bbci.co.uk/news/scotland/rss.xml"));
    feeds.push(Feed::new("Wales", "https://feeds.bbci.co.uk/news/wales/rss.xml"));
    feeds.push(Feed::new("Africa", "https://feeds.bbci.co.uk/news/world/africa/rss.xml"));
    feeds.push(Feed::new("Asia", "https://feeds.bbci.co.uk/news/world/asia/rss.xml"));
    feeds.push(Feed::new("Europe", "https://feeds.bbci.co.uk/news/world/europe/rss.xml"));
    feeds.push(Feed::new("Latin America", "https://feeds.bbci.co.uk/news/world/latin_america/rss.xml"));
    feeds.push(Feed::new("Middle East", "https://feeds.bbci.co.uk/news/world/middle_east/rss.xml"));
    feeds.push(Feed::new("US & Canada", "https://feeds.bbci.co.uk/news/world/us_and_canada/rss.xml"));
    assert(feeds_view(feeds@) =~= all_feeds());
    feeds
}

/// The feed that is read where none is chosen: the top stories.
pub open spec fn default_feed() -> FeedView {
    FeedView { name: "Top Stories"@, url: "https://feeds.bbci.co.uk/news/rss.xml"@ }
}

/// The feed that is read where none is chosen.
pub fn get_default_feed() -> (feed: Feed)
    ensures
        feed@ == default_feed(),
{
    Feed::new("Top Stories", "https://feeds.bbci.co.uk/news/rss.xml")
}

/// A feed name that no feed answers to.
#[derive(Debug)]
pub struct UnknownFeed {
    pub name: String,
}

impl UnknownFeed {
    /// The error in words.
    pub fn message(&self) -> (text: String)
        ensures
            text@ == "Unknown feed: '"@ + self.name@
                + "'. Use 'world', 'uk', 'business', 'technology', etc."@,
    {
        let mut text = String::from_str("Unknown feed: '");
        text.append(self.name.as_str());
        text.append("'. Use 'world', 'uk', 'business', 'technology', etc.");
        text
    }
}

/// The first feed whose name in lower case is `wanted`.
pub open spec fn first_exact(feeds: Seq<FeedView>, wanted: Seq<char>) -> Option<FeedView>
    decreases feeds.len(),
{
    if feeds.len() == 0 {
        None
    } else if lowercase(feeds[0].name) == wanted {
        Some(feeds[0])
    } else {
        first_exact(feeds.skip(1), wanted)
    }
}

/// The first feed whose name in lower case contains `wanted`.
pub open spec fn first_partial(feeds: Seq<FeedView>, wanted: Seq<char>) -> Option<FeedView>
    decreases feeds.len(),
{
    if feeds.len() == 0 {
        None
    } else if contains_text(lowercase(feeds[0].name), wanted) {
        Some(feeds[0])
    } else {
        first_partial(feeds.skip(1), wanted)
    }
}

/// The feed that a common short name stands for.
pub open spec fn shortcut(wanted: Seq<char>) -> Option<FeedView> {
    if wanted == "tech"@ {
        Some(
            FeedView {
                name: "Technology"@,
                url: "https://feeds.bbci.co.uk/news/technology/rss.xml"@,
            },
        )
    } else if wanted == "biz"@ || wanted == "business"@ {
        Some(
            FeedView {
                name: "Business"@,
                url: "https://feeds.bbci.co.uk/news/business/rss.xml"@,
            },
        )
    } else if wanted == "pol"@ || wanted == "politics"@ {
        Some(
            FeedView {
                name: "Politics"@,
                url: "https://feeds.bbci.co.uk/news/politics/rss.xml"@,
            },
        )
    } else if wanted == "sci"@ || wanted == "science"@ {
        Some(
            FeedView {
                name: "Science & Environment"@,
                url: "https://feeds.bbci.co.uk/news/science_and_environment/rss.xml"@,
            },
        )
    } else if wanted == "entertainment"@ || wanted == "ent"@ {
        Some(
            FeedView {
                name: "Entertainment & Arts"@,
                url: "https://feeds.bbci.co.uk/news/entertainment_and_arts/rss.xml"@,
            },
        )
    } else if wanted == "edu"@ || wanted == "education"@ {
        Some(
            FeedView {
                name: "Education & Family"@,
                url: "https://feeds.bbci.co.uk/news/education/rss.xml"@,
            },
        )
    } else {
        None
    }
}

/// The feed that a name stands for, without regard to case: the first feed
/// on offer with that name; failing that, the first whose name contains it;
/// failing that, the feed that it is a short name of.
pub open spec fn feed_by_name(name: Seq<char>) -> Option<FeedView> {
    let wanted = lowercase(name);
    match first_exact(all_feeds(), wanted) {
        Some(feed) => Some(feed),
        None => match first_partial(all_feeds(), wanted) {
            Some(feed) => Some(feed),
            None => shortcut(wanted),
        },
    }
}

fn find_exact(feeds: &Vec<Feed>, wanted: &str) -> (found: Option<Feed>)
    ensures
        match found {
            Some(feed) => first_exact(feeds_view(feeds@), wanted@) == Some(feed@),
            None => first_exact(feeds_view(feeds@), wanted@) is None,
        },
{
    let ghost all = feeds_view(feeds@);
    let mut i: usize = 0;
    assert(all.skip(0) =~= all);
    while i < feeds.len()
        invariant
            i <= feeds@.len(),
            all == feeds_view(feeds@),
            first_exact(all, wanted@) == first_exact(all.skip(i as int), wanted@),
        decreases feeds@.len() - i,
    {
        assert(all.skip(i as int).skip(1) =~= all.skip(i + 1));
        assert(all.skip(i as int)[0] == feeds@[i as int]@);
        let lower = to_lowercase(feeds[i].name.as_str());
        if text_eq(lower.as_str(), wanted) {
            return Some(feeds[i].clone());
        }
        i += 1;
    }
    None
}

fn find_partial(feeds: &Vec<Feed>, wanted: &str) -> (found: Option<Feed>)
    ensures
        match found {
            Some(feed) => first_partial(feeds_view(feeds@), wanted@) == Some(feed@),
            None => first_partial(feeds_view(feeds@), wanted@) is None,
        },
{
    let ghost all = feeds_view(feeds@);
    let mut i: usize = 0;
    assert(all.skip(0) =~= all);
    while i < feeds.len()
        invariant
            i <= feeds@.len(),
            all == feeds_view(feeds@),
            first_partial(all, wanted@) == first_partial(all.skip(i as int), wanted@),
        decreases feeds@.len() - i,
    {
        assert(all.skip(i as int).skip(1) =~= all.skip(i + 1));
        assert(all.skip(i as int)[0] == feeds@[i as int]@);
        let lower = to_lowercase(feeds[i].name.as_str());
        if contains(lower.as_str(), wanted) {
            return Some(feeds[i].clone());
        }
        i += 1;
    }
    None
}

fn find_shortcut(wanted: &str) -> (found: Option<Feed>)
    ensures
        match found {
            Some(feed) => shortcut(wanted@) == Some(feed@),
            None => shortcut(wanted@) is None,
        },
{
    if text_eq(wanted, "tech") {
        Some(Feed::new("Technology", "https://feeds.bbci.co.uk/news/technology/rss.xml"))
    } else if text_eq(wanted, "biz") || text_eq(wanted, "business") {
        Some(Feed::new("Business", "https://feeds.bbci.co.uk/news/business/rss.xml"))
    } else if text_eq(wanted, "pol") || text_eq(wanted, "politics") {
        Some(Feed::new("Politics", "https://feeds.bbci.co.uk/news/politics/rss.xml"))
    } else if text_eq(wanted, "sci") || text_eq(wanted, "science") {
        Some(
            Feed::new(
                "Science & Environment",
                "https://feeds.bbci.co.uk/news/science_and_environment/rss.xml",
            ),
        )
    } else if text_eq(wanted, "entertainment") || text_eq(wanted, "ent") {
        Some(
            Feed::new(
                "Entertainment & Arts",
                "https://feeds.bbci.co.uk/news/entertainment_and_arts/rss.xml",
            ),
        )
    } else if text_eq(wanted, "edu") || text_eq(wanted, "education") {
        Some(Feed::new("Education & Family", "https://feeds.bbci.co.uk/news/education/rss.xml"))
    } else {
        None
    }
}

/// Finds a feed by name, without regard to case. An exact name wins over a
/// name that only contains what was asked for, and that over a short name;
/// among several feeds the first on offer wins. A name that nothing answers
/// to is returned in the error.
pub fn get_feed_by_name(name: &str) -> (result: Result<Feed, UnknownFeed>)
    ensures
        match result {
            Ok(feed) => feed_by_name(name@) == Some(feed@),
            Err(unknown) => feed_by_name(name@) is None && unknown.name@ == name@,
        },
{
    let name_lower = to_lowercase(name);
    let feeds = get_all_feeds();
    match find_exact(&feeds, name_lower.as_str()) {
        Some(feed) => {
            return Ok(feed);
        },
        None => {},
    }
    match find_partial(&feeds, name_lower.as_str()) {
        Some(feed) => {
            return Ok(feed);
        },
        None => {},
    }
    match find_shortcut(name_lower.as_str()) {
        Some(feed) => Ok(feed),
        None => Err(UnknownFeed { name: name.to_owned() }),
    }
}

} // verus!
