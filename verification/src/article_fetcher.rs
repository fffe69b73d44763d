//! Fetching an article body under the resolution policy, and turning a page
//! into the text that is shown.
//!
//! The readable part of a page is found by `dom_smoothie` and converted to
//! plain text by `html2text`; what this module states of those two calls is
//! trusted, not proved. Formatting the result is the library's own.

use crate::api::plan;
use crate::api::reply_view;
use crate::api::settle;
use crate::api::FetchError;
use crate::api::FetchErrorView;
use crate::api::FetchPlan;
use crate::api::PlanView;
use crate::cache::get_fresh;
use crate::cache::get_stale;
use crate::cache::Cache;
use crate::cache::ARTICLE_TTL_SECS;
use crate::text::append_repeated;
use crate::text::repeated;
use crate::text::trim;
use crate::text::trimmed;
use dom_smoothie::Readability;
use vstd::prelude::*;
use vstd::string::StringExecFns;
use vstd::string::StringSliceAdditionalSpecFns;
use vstd::utf8::encode_utf8;

verus! {

/// The width in columns at which an article is converted to text: wide
/// enough that lines are not wrapped here but where they are shown.
pub const ARTICLE_WIDTH: usize = 1000;

/// What `dom_smoothie` extracts from a page: the title and the cleaned
/// content as HTML. `None` where the extraction fails.
pub uninterp spec fn readable_article(html: Seq<char>) -> Option<(Seq<char>, Seq<char>)>;

/// The plain text that `html2text` renders for a piece of HTML, wrapped to
/// `width` columns. `None` where the conversion fails.
pub uninterp spec fn rendered_text(html: Seq<char>, width: nat) -> Option<Seq<char>>;

/// `Readability::new` on the page, without a document address and with the
/// default configuration, then `Readability::parse`. Trusted: the title and
/// the content are a function of the page alone.
#[verifier::external_body]
pub(crate) fn read_article(html: &str) -> (article: Option<(String, String)>)
    ensures
        match article {
            Some(parts) => readable_article(html@) == Some((parts.0@, parts.1@)),
            None => readable_article(html@) is None,
        },
{
    let mut readability = Readability::new(html, None, None).ok()?;
    let article = readability.parse().ok()?;
    Some((article.title, article.content.to_string()))
}

/// `html2text::config::plain().string_from_read` on the bytes of `html`.
/// Trusted: the text is a function of the HTML and the width alone.
#[verifier::external_body]
pub(crate) fn render_text(html: &str, width: usize) -> (text: Option<String>)
    ensures
        match text {
            Some(t) => rendered_text(html@, width as nat) == Some(t@),
            None => rendered_text(html@, width as nat) is None,
        },
{
    html2text::config::plain().string_from_read(html.as_bytes(), width).ok()
}

/// An article as it is shown and cached: the title, a line of `=` as long
/// as the title has bytes, an empty line, and the body without leading and
/// trailing whitespace.
pub open spec fn article_text(title: Seq<char>, body: Seq<char>) -> Seq<char> {
    title + seq!['\n'] + repeated(seq!['='], encode_utf8(title).len()) + seq!['\n', '\n']
        + trimmed(body)
}

/// What extraction makes of a page: the formatted article, or an extraction
/// error where the page has no readable part or cannot be converted.
pub open spec fn extracted_article(html: Seq<char>) -> Result<Seq<char>, FetchErrorView> {
    match readable_article(html) {
        Some((title, content)) => match rendered_text(content, ARTICLE_WIDTH as nat) {
            Some(body) => Ok(article_text(title, body)),
            None => Err(FetchErrorView::Extraction),
        },
        None => Err(FetchErrorView::Extraction),
    }
}

/// What a network attempt for an article came to.
pub open spec fn article_outcome(reply: Result<Seq<char>, Seq<char>>) -> Result<
    Seq<char>,
    FetchErrorView,
> {
    match reply {
        Ok(html) => extracted_article(html),
        Err(message) => Err(FetchErrorView::Network { message }),
    }
}

/// The view of a plan for an article.
pub open spec fn article_plan_view(plan: FetchPlan<String>) -> PlanView<Seq<char>> {
    match plan {
        FetchPlan::Ready(content) => PlanView::Ready(content@),
        FetchPlan::NeedNetwork => PlanView::NeedNetwork,
        FetchPlan::Failed(error) => PlanView::Failed(error@),
    }
}

/// The view of the result of an article fetch.
pub open spec fn article_result_view(result: Result<String, FetchError>) -> Result<
    Seq<char>,
    FetchErrorView,
> {
    match result {
        Ok(content) => Ok(content@),
        Err(error) => Err(error@),
    }
}

/// Formats an article from its title and its body text.
pub fn format_article(title: &str, body: &str) -> (formatted: String)
    ensures
        formatted@ == article_text(title@, body@),
{
    proof {
        reveal_strlit("\n");
        reveal_strlit("=");
        reveal_strlit("\n\n");
        assert("\n"@ =~= seq!['\n']);
        assert("="@ =~= seq!['=']);
        assert("\n\n"@ =~= seq!['\n', '\n']);
    }
    let mut formatted = String::from_str(title);
    formatted.append("\n");
    append_repeated(&mut formatted, "=", title.as_bytes().len());
    formatted.append("\n\n");
    formatted.append(trim(body));
    formatted
}

/// Extracts the readable part of a page and formats it.
pub fn extract_article(html: &str) -> (result: Result<String, FetchError>)
    ensures
        article_result_view(result) == extracted_article(html@),
{
    match read_article(html) {
        Some((title, content)) => {
            match render_text(content.as_str(), ARTICLE_WIDTH) {
                Some(body) => Ok(format_article(title.as_str(), body.as_str())),
                None => Err(FetchError::Extraction),
            }
        },
        None => Err(FetchError::Extraction),
    }
}

/// The first step of an article fetch. A body that is fresh at `now` is
/// returned and no request is asked for. Otherwise the network is needed,
/// unless `force_offline` forbids it: then the stale body is returned, and
/// where there is none the fetch fails as offline without cache.
pub fn fetch_article_content(cache: &Cache, url: &str, force_offline: bool, now: u64) -> (step:
    FetchPlan<String>)
    ensures
        article_plan_view(step) == plan(
            get_fresh(cache@.articles, url@, now, ARTICLE_TTL_SECS),
            get_stale(cache@.articles, url@),
            force_offline,
        ),
{
    match cache.load_article(url, now) {
        Some(content) => FetchPlan::Ready(content),
        None => {
            if !force_offline {
                FetchPlan::NeedNetwork
            } else {
                match cache.load_article_offline(url) {
                    Some(content) => FetchPlan::Ready(content),
                    None => FetchPlan::Failed(FetchError::OfflineNoCache),
                }
            }
        },
    }
}

/// Ends an article fetch, given what the network attempt came to. A body is
/// stored as captured at `now` and returned. On an error the stale body is
/// returned, and the error only where there is none. The feed domain is
/// untouched.
pub fn settle_article(
    cache: &mut Cache,
    url: &str,
    outcome: Result<String, FetchError>,
    now: u64,
) -> (result: Result<String, FetchError>)
    ensures
        (final(cache)@.articles, article_result_view(result)) == settle(
            old(cache)@.articles,
            url@,
            article_result_view(outcome),
            now,
        ),
        final(cache)@.feeds == old(cache)@.feeds,
{
    match outcome {
        Ok(content) => {
            cache.save_article(url, content.as_str(), now);
            Ok(content)
        },
        Err(error) => {
            match cache.load_article_offline(url) {
                Some(content) => Ok(content),
                None => Err(error),
            }
        },
    }
}

/// What the transport's reply for an article comes to: the page is
/// extracted and formatted, and a failure of the transport or of the
/// extraction becomes the fetch error.
pub fn read_article_reply(reply: Result<String, String>) -> (outcome: Result<String, FetchError>)
    ensures
        article_result_view(outcome) == article_outcome(reply_view(reply)),
{
    match reply {
        Ok(html) => extract_article(html.as_str()),
        Err(message) => Err(FetchError::Network { message }),
    }
}

/// The second step of an article fetch: takes the transport's reply,
/// extracts and formats the article, stores and returns it, and falls back
/// to the stale body where the transport or the extraction failed.
pub fn complete_article_fetch(
    cache: &mut Cache,
    url: &str,
    reply: Result<String, String>,
    now: u64,
) -> (result: Result<String, FetchError>)
    ensures
        (final(cache)@.articles, article_result_view(result)) == settle(
            old(cache)@.articles,
            url@,
            article_outcome(reply_view(reply)),
            now,
        ),
        final(cache)@.feeds == old(cache)@.feeds,
{
    let outcome = read_article_reply(reply);
    settle_article(cache, url, outcome, now)
}

} // verus!
