//! The feed parser: a state machine over the tokens of an RSS 2.0 document.
//!
//! The machine is either outside an item or inside one, remembering which
//! field's tag is open. It fills a working record while inside an item and
//! accepts the record when the item closes, if its title is not empty. The
//! stories of a feed are the first thirty accepted records.

use crate::app::copy_story;
use crate::app::stories_view;
use crate::app::NewsStory;
use crate::app::StoryView;
use crate::date_utils::format_date;
use crate::date_utils::normalized_date;
use crate::date_utils::rfc2822_rendered;
use crate::date_utils::sortable_pattern;
use crate::text::copy_optional_text;
use crate::text::optional_text;
use crate::text::text_eq;
use crate::xml::attributes_view;
use crate::xml::document_events;
use crate::xml::events_view;
use crate::xml::is_event_stream;
use crate::xml::next_event;
use crate::xml::open_reader;
use crate::xml::pending_events;
use crate::xml::AttributeView;
use crate::xml::EventView;
use crate::xml::XmlAttribute;
use crate::xml::XmlEvent;
use vstd::prelude::*;

verus! {

/// The number of stories that a feed yields at most.
pub const MAX_STORIES: usize = 30;

/// Markup that the tokenizer cannot advance past, with the byte offset that
/// it had reached.
#[derive(Debug, Clone, Copy, PartialEq, Eq, Structural)]
pub struct ParseError {
    pub offset: u64,
}

/// The field of a story that character data is assigned to.
#[derive(Debug, Clone, Copy, PartialEq, Eq, Structural)]
pub enum Field {
    Title,
    Description,
    Link,
    PubDate,
    Category,
    /// No recognized field is open: character data is ignored.
    Other,
}

/// Where the parser is in the document.
#[derive(Debug, Clone, Copy, PartialEq, Eq, Structural)]
pub enum ParserState {
    OutsideItem,
    InItem { field: Field },
}

/// The parser as a mathematical value.
pub struct ParserView {
    pub state: ParserState,
    /// The record being filled.
    pub working: StoryView,
    /// The records accepted so far, in document order.
    pub accepted: Seq<StoryView>,
}

/// Whether a tag opens or closes an item.
pub open spec fn is_item_tag(name: Seq<char>) -> bool {
    name == "item"@
}

/// Whether a tag carries an image attachment.
pub open spec fn is_image_tag(name: Seq<char>) -> bool {
    name == "media:thumbnail"@ || name == "media:content"@
}

/// The field that a tag opens.
pub open spec fn field_of_tag(name: Seq<char>) -> Field {
    if name == "title"@ {
        Field::Title
    } else if name == "description"@ {
        Field::Description
    } else if name == "link"@ {
        Field::Link
    } else if name == "pubDate"@ {
        Field::PubDate
    } else if name == "category"@ {
        Field::Category
    } else {
        Field::Other
    }
}

/// The record that an item starts with: category "News", every other text
/// empty, no image.
pub open spec fn fresh_story() -> StoryView {
    StoryView {
        title: Seq::empty(),
        description: Seq::empty(),
        link: Seq::empty(),
        pub_date: Seq::empty(),
        category: "News"@,
        image_url: None,
    }
}

/// The first attribute that could be read and whose key is `url`.
pub open spec fn first_url_attribute(attributes: Seq<Option<AttributeView>>) -> Option<
    AttributeView,
>
    decreases attributes.len(),
{
    if attributes.len() == 0 {
        None
    } else {
        match attributes[0] {
            Some(a) if a.key == "url"@ => Some(a),
            _ => first_url_attribute(attributes.skip(1)),
        }
    }
}

/// The image address that a tag's attributes give: the value of the first
/// `url` attribute, if it could be unescaped.
pub open spec fn image_url_of(attributes: Seq<Option<AttributeView>>) -> Option<Seq<char>> {
    match first_url_attribute(attributes) {
        Some(a) => a.value,
        None => None,
    }
}

/// The record after a tag inside an item: an image tag with an address
/// replaces the image reference, so of several the last one stays.
pub open spec fn with_image(
    story: StoryView,
    name: Seq<char>,
    attributes: Seq<Option<AttributeView>>,
) -> StoryView {
    if is_image_tag(name) && image_url_of(attributes) is Some {
        StoryView { image_url: image_url_of(attributes), ..story }
    } else {
        story
    }
}

/// The record after character data arrives while `field` is open: the text
/// replaces what the field held, a publish date in sortable form.
pub open spec fn with_field(story: StoryView, field: Field, text: Seq<char>) -> StoryView {
    match field {
        Field::Title => StoryView { title: text, ..story },
        Field::Description => StoryView { description: text, ..story },
        Field::Link => StoryView { link: text, ..story },
        Field::PubDate => StoryView { pub_date: normalized_date(text), ..story },
        Field::Category => StoryView { category: text, ..story },
        Field::Other => story,
    }
}

/// The records after an item closes: the working record joins them if its
/// title is not empty.
pub open spec fn with_accepted(accepted: Seq<StoryView>, working: StoryView) -> Seq<StoryView> {
    if working.title.len() > 0 {
        accepted.push(working)
    } else {
        accepted
    }
}

/// The parser before the first token.
pub open spec fn initial_parser() -> ParserView {
    ParserView { state: ParserState::OutsideItem, working: fresh_story(), accepted: Seq::empty() }
}

/// One transition of the state machine.
pub open spec fn step(m: ParserView, event: EventView) -> ParserView {
    match event {
        EventView::Start { name, attributes } => {
            if is_item_tag(name) {
                ParserView {
                    state: ParserState::InItem {
                        field: match m.state {
                            ParserState::InItem { field } => field,
                            ParserState::OutsideItem => Field::Other,
                        },
                    },
                    working: fresh_story(),
                    accepted: m.accepted,
                }
            } else if m.state is InItem {
                ParserView {
                    state: ParserState::InItem { field: field_of_tag(name) },
                    working: with_image(m.working, name, attributes),
                    accepted: m.accepted,
                }
            } else {
                m
            }
        },
        EventView::Empty { name, attributes } => {
            if m.state is InItem {
                ParserView { working: with_image(m.working, name, attributes), ..m }
            } else {
                m
            }
        },
        EventView::Text { content } => {
            match m.state {
                ParserState::InItem { field } => ParserView {
                    working: with_field(
                        m.working,
                        field,
                        match content {
                            Some(text) => text,
                            None => Seq::empty(),
                        },
                    ),
                    ..m
                },
                ParserState::OutsideItem => m,
            }
        },
        EventView::CData { data } => {
            match m.state {
                ParserState::InItem { field } => ParserView {
                    working: with_field(m.working, field, data),
                    ..m
                },
                ParserState::OutsideItem => m,
            }
        },
        EventView::End { name } => {
            if is_item_tag(name) {
                ParserView {
                    state: ParserState::OutsideItem,
                    working: m.working,
                    accepted: with_accepted(m.accepted, m.working),
                }
            } else if m.state is InItem {
                ParserView { state: ParserState::InItem { field: Field::Other }, ..m }
            } else {
                m
            }
        },
        _ => m,
    }
}

/// The first [`MAX_STORIES`] of the accepted records.
pub open spec fn first_stories(accepted: Seq<StoryView>) -> Seq<StoryView> {
    if accepted.len() <= MAX_STORIES {
        accepted
    } else {
        accepted.take(MAX_STORIES as int)
    }
}

/// What parsing yields when the machine is in `m` and `events` are still to
/// come: the tokens are taken in order up to the end of the document, which
/// yields the first stories accepted, or up to a failure, which yields its
/// offset. Tokens that run out count as the end of the document.
pub open spec fn parse_outcome(m: ParserView, events: Seq<EventView>) -> Result<
    Seq<StoryView>,
    ParseError,
>
    decreases events.len(),
{
    if events.len() == 0 {
        Ok(first_stories(m.accepted))
    } else {
        match events[0] {
            EventView::Eof => Ok(first_stories(m.accepted)),
            EventView::Invalid { offset } => Err(ParseError { offset }),
            event => parse_outcome(step(m, event), events.skip(1)),
        }
    }
}

/// The stories of a feed, given the tokens of its document.
pub open spec fn feed_stories(events: Seq<EventView>) -> Result<Seq<StoryView>, ParseError> {
    parse_outcome(initial_parser(), events)
}

/// The view of a parse result.
pub open spec fn outcome_view(result: Result<Vec<NewsStory>, ParseError>) -> Result<
    Seq<StoryView>,
    ParseError,
> {
    match result {
        Ok(stories) => Ok(stories_view(stories@)),
        Err(e) => Err(e),
    }
}

/// The field that a tag opens.
pub fn field_for(name: &str) -> (field: Field)
    ensures
        field == field_of_tag(name@),
{
    if text_eq(name, "title") {
        Field::Title
    } else if text_eq(name, "description") {
        Field::Description
    } else if text_eq(name, "link") {
        Field::Link
    } else if text_eq(name, "pubDate") {
        Field::PubDate
    } else if text_eq(name, "category") {
        Field::Category
    } else {
        Field::Other
    }
}

/// The image address that a tag's attributes give, if any.
pub fn image_url(attributes: &Vec<Option<XmlAttribute>>) -> (url: Option<String>)
    ensures
        optional_text(url) == image_url_of(attributes_view(attributes@)),
{
    let ghost all = attributes_view(attributes@);
    let mut i: usize = 0;
    assert(all.skip(0) =~= all);
    while i < attributes.len()
        invariant
            i <= attributes@.len(),
            all == attributes_view(attributes@),
            first_url_attribute(all) == first_url_attribute(all.skip(i as int)),
        decreases attributes@.len() - i,
    {
        assert(all.skip(i as int).skip(1) =~= all.skip(i + 1));
        assert(all.skip(i as int)[0] == all[i as int]);
        match &attributes[i] {
            Some(attribute) => {
                if text_eq(attribute.key.as_str(), "url") {
                    return copy_optional_text(&attribute.value);
                }
            },
            None => {},
        }
        i += 1;
    }
    None
}

/// The streaming feed parser.
pub struct FeedParser {
    state: ParserState,
    working: NewsStory,
    accepted: Vec<NewsStory>,
}

impl View for FeedParser {
    type V = ParserView;

    closed spec fn view(&self) -> ParserView {
        ParserView {
            state: self.state,
            working: self.working@,
            accepted: stories_view(self.accepted@),
        }
    }
}

/// A record with category "News", every other text empty, and no image.
pub fn new_story() -> (story: NewsStory)
    ensures
        story@ == fresh_story(),
{
    NewsStory {
        title: String::new(),
        description: String::new(),
        link: String::new(),
        pub_date: String::new(),
        category: "News".to_owned(),
        image_url: None,
    }
}

impl FeedParser {
    /// A parser before the first token.
    pub fn new() -> (parser: FeedParser)
        ensures
            parser@ == initial_parser(),
    {
        let parser = FeedParser {
            state: ParserState::OutsideItem,
            working: new_story(),
            accepted: Vec::new(),
        };
        assert(stories_view(parser.accepted@) =~= Seq::empty());
        parser
    }

    /// Where the parser is in the document.
    pub fn state(&self) -> (state: ParserState)
        ensures
            state == self@.state,
    {
        self.state
    }

    /// How many records have been accepted.
    pub fn accepted_count(&self) -> (count: usize)
        ensures
            count == self@.accepted.len(),
    {
        self.accepted.len()
    }

    fn note_image(&mut self, name: &str, attributes: &Vec<Option<XmlAttribute>>)
        ensures
            final(self)@ == (ParserView {
                working: with_image(old(self)@.working, name@, attributes_view(attributes@)),
                ..old(self)@
            }),
    {
        if text_eq(name, "media:thumbnail") || text_eq(name, "media:content") {
            match image_url(attributes) {
                Some(url) => {
                    self.working.image_url = Some(url);
                },
                None => {},
            }
        }
    }

    fn assign(&mut self, field: Field, text: String)
        ensures
            final(self)@ == (ParserView {
                working: with_field(old(self)@.working, field, text@),
                ..old(self)@
            }),
    {
        match field {
            Field::Title => {
                self.working.title = text;
            },
            Field::Description => {
                self.working.description = text;
            },
            Field::Link => {
                self.working.link = text;
            },
            Field::PubDate => {
                self.working.pub_date = format_date(text.as_str());
            },
            Field::Category => {
                self.working.category = text;
            },
            Field::Other => {},
        }
    }

    fn close_item(&mut self)
        ensures
            final(self)@ == (ParserView {
                state: ParserState::OutsideItem,
                working: old(self)@.working,
                accepted: with_accepted(old(self)@.accepted, old(self)@.working),
            }),
    {
        self.state = ParserState::OutsideItem;
        if !self.working.title.as_str().is_empty() {
            let ghost before = stories_view(self.accepted@);
            let record = copy_story(&self.working);
            self.accepted.push(record);
            assert(stories_view(self.accepted@) =~= before.push(self.working@));
        }
    }

    /// Takes one token: the parser moves as [`step`] says.
    pub fn feed(&mut self, event: &XmlEvent)
        ensures
            final(self)@ == step(old(self)@, event@),
    {
        match event {
            XmlEvent::Start { name, attributes } => {
                if text_eq(name.as_str(), "item") {
                    let field = match self.state {
                        ParserState::InItem { field } => field,
                        ParserState::OutsideItem => Field::Other,
                    };
                    self.state = ParserState::InItem { field };
                    self.working = new_story();
                } else {
                    match self.state {
                        ParserState::InItem { .. } => {
                            self.note_image(name.as_str(), attributes);
                            self.state = ParserState::InItem { field: field_for(name.as_str()) };
                        },
                        ParserState::OutsideItem => {},
                    }
                }
            },
            XmlEvent::Empty { name, attributes } => {
                match self.state {
                    ParserState::InItem { .. } => {
                        self.note_image(name.as_str(), attributes);
                    },
                    ParserState::OutsideItem => {},
                }
            },
            XmlEvent::Text { content } => {
                match self.state {
                    ParserState::InItem { field } => {
                        let text = match content {
                            Some(text) => text.clone(),
                            None => String::new(),
                        };
                        self.assign(field, text);
                    },
                    ParserState::OutsideItem => {},
                }
            },
            XmlEvent::CData { data } => {
                match self.state {
                    ParserState::InItem { field } => {
                        self.assign(field, data.clone());
                    },
                    ParserState::OutsideItem => {},
                }
            },
            XmlEvent::End { name } => {
                if text_eq(name.as_str(), "item") {
                    self.close_item();
                } else {
                    match self.state {
                        ParserState::InItem { .. } => {
                            self.state = ParserState::InItem { field: Field::Other };
                        },
                        ParserState::OutsideItem => {},
                    }
                }
            },
            XmlEvent::Other => {},
            XmlEvent::Eof => {},
            XmlEvent::Invalid { .. } => {},
        }
    }

    /// Ends the parse: the first [`MAX_STORIES`] accepted records.
    pub fn finish(self) -> (stories: Vec<NewsStory>)
        ensures
            stories_view(stories@) == first_stories(self@.accepted),
    {
        let mut stories = self.accepted;
        let ghost all = stories_view(stories@);
        stories.truncate(MAX_STORIES);
        assert(stories_view(stories@) =~= first_stories(all));
        stories
    }
}

/// Parses a feed from its tokens. Tokens after the end of the document or
/// after a failure are not looked at.
pub fn parse_events(events: &[XmlEvent]) -> (result: Result<Vec<NewsStory>, ParseError>)
    ensures
        outcome_view(result) == feed_stories(events_view(events@)),
{
    let ghost all = events_view(events@);
    let mut parser = FeedParser::new();
    let mut i: usize = 0;
    assert(all.skip(0) =~= all);
    while i < events.len()
        invariant
            i <= events@.len(),
            all == events_view(events@),
            parse_outcome(parser@, all.skip(i as int)) == feed_stories(all),
        decreases events@.len() - i,
    {
        assert(all.skip(i as int).skip(1) =~= all.skip(i + 1));
        assert(all.skip(i as int)[0] == events@[i as int]@);
        match &events[i] {
            XmlEvent::Eof => {
                return Ok(parser.finish());
            },
            XmlEvent::Invalid { offset } => {
                return Err(ParseError { offset: *offset });
            },
            event => {
                parser.feed(event);
            },
        }
        i += 1;
    }
    assert(all.skip(i as int).len() == 0);
    Ok(parser.finish())
}

/// After a token that is not terminal, what is left of a well-formed stream
/// is a well-formed stream.
pub proof fn lemma_stream_rest(events: Seq<EventView>)
    requires
        is_event_stream(events),
        !events[0].is_terminal(),
    ensures
        is_event_stream(events.skip(1)),
        events.skip(1).len() < events.len(),
{
    let rest = events.skip(1);
    assert(events.len() > 1);
    assert(rest.last() == events.last());
    assert forall|i: int| 0 <= i < rest.len() - 1 implies !(#[trigger] rest[i]).is_terminal() by {
        assert(rest[i] == events[i + 1]);
    }
}

/// Parses an RSS 2.0 document into its stories: at most [`MAX_STORIES`], in
/// document order, each with a title that is not empty. The document is
/// read to its end, and markup that the tokenizer cannot advance past fails
/// the parse with the offset reached, wherever it stands.
pub fn parse_rss(xml_content: &str) -> (result: Result<Vec<NewsStory>, ParseError>)
    ensures
        outcome_view(result) == feed_stories(document_events(xml_content@)),
{
    let mut reader = open_reader(xml_content);
    let mut parser = FeedParser::new();
    loop
        invariant
            is_event_stream(pending_events(reader)),
            parse_outcome(parser@, pending_events(reader)) == feed_stories(
                document_events(xml_content@),
            ),
        decreases pending_events(reader).len(),
    {
        let ghost before = pending_events(reader);
        let event = next_event(&mut reader);
        match event {
            XmlEvent::Eof => {
                return Ok(parser.finish());
            },
            XmlEvent::Invalid { offset } => {
                return Err(ParseError { offset });
            },
            _ => {
                proof {
                    lemma_stream_rest(before);
                }
                parser.feed(&event);
            },
        }
    }
}

/// The records accepted by the time the document ends or fails.
pub open spec fn accepted_records(m: ParserView, events: Seq<EventView>) -> Seq<StoryView>
    decreases events.len(),
{
    if events.len() == 0 || events[0].is_terminal() {
        m.accepted
    } else {
        accepted_records(step(m, events[0]), events.skip(1))
    }
}

/// Whether every record has a title that is not empty.
pub open spec fn all_titled(stories: Seq<StoryView>) -> bool {
    forall|i: int| 0 <= i < stories.len() ==> (#[trigger] stories[i]).title.len() > 0
}

/// The same event with a CDATA section read as plain text.
pub open spec fn cdata_as_text(event: EventView) -> EventView {
    match event {
        EventView::CData { data } => EventView::Text { content: Some(data) },
        other => other,
    }
}

/// A parse that succeeds yields the first [`MAX_STORIES`] of the records
/// accepted: as many stories as records were accepted, up to the cap, each
/// at the place where it was accepted.
pub proof fn lemma_feed_is_capped_prefix(m: ParserView, events: Seq<EventView>)
    requires
        parse_outcome(m, events) is Ok,
    ensures
        parse_outcome(m, events) == Ok::<Seq<StoryView>, ParseError>(
            first_stories(accepted_records(m, events)),
        ),
        parse_outcome(m, events)->Ok_0.len() == if accepted_records(m, events).len()
            <= MAX_STORIES {
            accepted_records(m, events).len()
        } else {
            MAX_STORIES as nat
        },
        forall|i: int|
            0 <= i < parse_outcome(m, events)->Ok_0.len() ==> parse_outcome(m, events)->Ok_0[i]
                == accepted_records(m, events)[i],
    decreases events.len(),
{
    if events.len() > 0 && !events[0].is_terminal() {
        lemma_feed_is_capped_prefix(step(m, events[0]), events.skip(1));
    }
}

/// A transition keeps the records accepted so far, in their order, and
/// accepts at most one more, whose title is not empty.
pub proof fn lemma_step_extends_accepted(m: ParserView, event: EventView)
    ensures
        step(m, event).accepted == m.accepted || (m.working.title.len() > 0 && step(
            m,
            event,
        ).accepted == m.accepted.push(m.working)),
        all_titled(m.accepted) ==> all_titled(step(m, event).accepted),
{
}

/// Records whose title is empty are dropped: every story of a feed has a
/// title that is not empty.
pub proof fn lemma_stories_are_titled(m: ParserView, events: Seq<EventView>)
    requires
        all_titled(m.accepted),
        parse_outcome(m, events) is Ok,
    ensures
        all_titled(parse_outcome(m, events)->Ok_0),
    decreases events.len(),
{
    if events.len() > 0 && !events[0].is_terminal() {
        lemma_step_extends_accepted(m, events[0]);
        lemma_stories_are_titled(step(m, events[0]), events.skip(1));
    }
}

/// Every story of a feed has a title that is not empty.
pub proof fn lemma_feed_stories_are_titled(events: Seq<EventView>)
    requires
        feed_stories(events) is Ok,
    ensures
        all_titled(feed_stories(events)->Ok_0),
{
    lemma_stories_are_titled(initial_parser(), events);
}

/// A CDATA section and plain text with the same content move the parser to
/// the same place.
pub proof fn lemma_cdata_reads_as_text(m: ParserView, event: EventView)
    ensures
        step(m, cdata_as_text(event)) == step(m, event),
{
}

/// Content wrapped in CDATA and the same content as plain text give the
/// same feed.
pub proof fn lemma_cdata_feed_reads_as_text(m: ParserView, events: Seq<EventView>)
    ensures
        parse_outcome(m, events.map_values(|e: EventView| cdata_as_text(e))) == parse_outcome(
            m,
            events,
        ),
    decreases events.len(),
{
    let plain = events.map_values(|e: EventView| cdata_as_text(e));
    if events.len() > 0 {
        assert(plain[0] == cdata_as_text(events[0]));
        assert(plain.skip(1) =~= events.skip(1).map_values(|e: EventView| cdata_as_text(e)));
        lemma_cdata_reads_as_text(m, events[0]);
        lemma_cdata_feed_reads_as_text(step(m, events[0]), events.skip(1));
    }
}

/// A publish date that is no RFC 2822 timestamp is kept as it was written.
pub proof fn lemma_unparsable_date_is_kept(story: StoryView, text: Seq<char>)
    requires
        rfc2822_rendered(text, sortable_pattern()) is None,
    ensures
        with_field(story, Field::PubDate, text).pub_date == text,
{
}

} // verus!
