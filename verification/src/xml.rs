//! The XML tokenizer behind the feed parser.
//!
//! Tokenizing is done by `quick_xml`. This module declares the reader and the
//! event of that crate, gives the events a plain model ([`XmlEvent`]), and
//! states, without proof, what each call into the crate returns. Everything
//! that the feed parser decides is decided on the plain model.

use quick_xml::events::Event;
use quick_xml::Reader;
use crate::text::optional_text;
use vstd::prelude::*;

verus! {

/// `quick_xml::Reader`, opaque to the verifier.
#[verifier::external_type_specification]
#[verifier::external_body]
#[verifier::reject_recursive_types(R)]
pub struct ExReader<R>(Reader<R>);

/// `quick_xml::events::Event`, opaque to the verifier.
#[verifier::external_type_specification]
#[verifier::external_body]
pub struct ExEvent<'a>(Event<'a>);

/// One attribute of a tag: its key, and its value with entities resolved
/// (`None` where the value could not be unescaped).
#[derive(Debug)]
pub struct XmlAttribute {
    pub key: String,
    pub value: Option<String>,
}

/// The mathematical value of an [`XmlAttribute`].
pub struct AttributeView {
    pub key: Seq<char>,
    pub value: Option<Seq<char>>,
}

impl View for XmlAttribute {
    type V = AttributeView;

    open spec fn view(&self) -> AttributeView {
        AttributeView {
            key: self.key@,
            value: optional_text(self.value),
        }
    }
}

/// The attribute list of a tag, in document order. An entry is `None` where
/// the tokenizer met an attribute that it could not read.
pub open spec fn attributes_view(attributes: Seq<Option<XmlAttribute>>) -> Seq<
    Option<AttributeView>,
> {
    Seq::new(
        attributes.len(),
        |i: int|
            match attributes[i] {
                Some(a) => Some(a@),
                None => None,
            },
    )
}

/// One token of a document, as plain values.
#[derive(Debug)]
pub enum XmlEvent {
    /// An opening tag `<name ...>`.
    Start { name: String, attributes: Vec<Option<XmlAttribute>> },
    /// A self-closing tag `<name ... />`.
    Empty { name: String, attributes: Vec<Option<XmlAttribute>> },
    /// A closing tag `</name>`.
    End { name: String },
    /// Character data between tags, entities resolved; `None` where it holds
    /// an entity that cannot be resolved.
    Text { content: Option<String> },
    /// The content of a `<![CDATA[ ... ]]>` section, verbatim.
    CData { data: String },
    /// A comment, declaration, processing instruction or document type.
    Other,
    /// The end of the document.
    Eof,
    /// Markup that the tokenizer cannot advance past, with the byte offset
    /// that it had reached.
    Invalid { offset: u64 },
}

/// The mathematical value of an [`XmlEvent`].
pub enum EventView {
    Start { name: Seq<char>, attributes: Seq<Option<AttributeView>> },
    Empty { name: Seq<char>, attributes: Seq<Option<AttributeView>> },
    End { name: Seq<char> },
    Text { content: Option<Seq<char>> },
    CData { data: Seq<char> },
    Other,
    Eof,
    Invalid { offset: u64 },
}

impl View for XmlEvent {
    type V = EventView;

    open spec fn view(&self) -> EventView {
        match *self {
            XmlEvent::Start { name, attributes } => EventView::Start {
                name: name@,
                attributes: attributes_view(attributes@),
            },
            XmlEvent::Empty { name, attributes } => EventView::Empty {
                name: name@,
                attributes: attributes_view(attributes@),
            },
            XmlEvent::End { name } => EventView::End { name: name@ },
            XmlEvent::Text { content } => EventView::Text { content: optional_text(content) },
            XmlEvent::CData { data } => EventView::CData { data: data@ },
            XmlEvent::Other => EventView::Other,
            XmlEvent::Eof => EventView::Eof,
            XmlEvent::Invalid { offset } => EventView::Invalid { offset },
        }
    }
}

impl EventView {
    /// Reading stops at the end of the document and at the first failure.
    pub open spec fn is_terminal(self) -> bool {
        self is Eof || self is Invalid
    }
}

/// The views of a slice of events.
pub open spec fn events_view(events: Seq<XmlEvent>) -> Seq<EventView> {
    Seq::new(events.len(), |i: int| events[i]@)
}

/// A well-formed token stream: it is not empty, it ends with a terminal
/// event, and no earlier event is terminal.
pub open spec fn is_event_stream(events: Seq<EventView>) -> bool {
    &&& events.len() > 0
    &&& events.last().is_terminal()
    &&& forall|i: int| 0 <= i < events.len() - 1 ==> !(#[trigger] events[i]).is_terminal()
}

/// The tokens that `quick_xml` yields for `doc`, read with whitespace
/// trimmed from both ends of text, up to and including the end of the
/// document or the first failure.
pub uninterp spec fn document_events(doc: Seq<char>) -> Seq<EventView>;

/// The tokens that a reader has yet to yield, up to and including the end of
/// its document or the first failure.
pub uninterp spec fn pending_events(reader: Reader<&[u8]>) -> Seq<EventView>;

/// What an event of `quick_xml` holds, as plain values: which variant it
/// is; for a tag its name and its attributes; for text and CDATA sections
/// their character data.
pub uninterp spec fn event_content(event: Event<'static>) -> EventView;

/// Which variant an event is.
#[derive(Debug, Clone, Copy, PartialEq, Eq, Structural)]
pub enum EventKind {
    Start,
    Empty,
    End,
    Text,
    CData,
    Other,
    Eof,
}

/// `Reader::from_str` followed by `Config::trim_text(true)`: a reader at the
/// start of `xml`. Trusted: the reader will yield the document's tokens, and
/// they form a well-formed stream, because every read before the end
/// consumes input.
#[verifier::external_body]
pub(crate) fn open_reader<'a>(xml: &'a str) -> (reader: Reader<&'a [u8]>)
    ensures
        pending_events(reader) == document_events(xml@),
        is_event_stream(pending_events(reader)),
{
    let mut reader = Reader::from_str(xml);
    reader.config_mut().trim_text(true);
    reader
}

/// `Reader::read_event_into`: the next token, or on failure the reader's
/// `buffer_position`. Trusted: the result is the first pending token, and
/// unless that token is terminal the rest stay pending.
#[verifier::external_body]
pub(crate) fn read_event<'a>(reader: &mut Reader<&'a [u8]>) -> (result: Result<Event<'static>, u64>)
    ensures
        match result {
            Ok(event) => event_content(event) == pending_events(*old(reader))[0],
            Err(offset) => pending_events(*old(reader))[0] == (EventView::Invalid { offset }),
        },
        !pending_events(*old(reader))[0].is_terminal() ==> pending_events(*final(reader))
            == pending_events(*old(reader)).skip(1),
{
    let mut buf = Vec::new();
    match reader.read_event_into(&mut buf) {
        Ok(event) => Ok(event.into_owned()),
        Err(_) => Err(reader.buffer_position()),
    }
}

impl EventView {
    /// The variant of an event that was read; `None` for the failure marker,
    /// which is no event of the tokenizer.
    pub open spec fn kind(self) -> Option<EventKind> {
        match self {
            EventView::Start { .. } => Some(EventKind::Start),
            EventView::Empty { .. } => Some(EventKind::Empty),
            EventView::End { .. } => Some(EventKind::End),
            EventView::Text { .. } => Some(EventKind::Text),
            EventView::CData { .. } => Some(EventKind::CData),
            EventView::Other => Some(EventKind::Other),
            EventView::Eof => Some(EventKind::Eof),
            EventView::Invalid { .. } => None,
        }
    }

    /// The tag name of an opening, self-closing or closing tag; empty for
    /// every other event.
    pub open spec fn tag_name(self) -> Seq<char> {
        match self {
            EventView::Start { name, .. } => name,
            EventView::Empty { name, .. } => name,
            EventView::End { name } => name,
            _ => Seq::empty(),
        }
    }

    /// The attributes of an opening or self-closing tag; empty for every
    /// other event.
    pub open spec fn tag_attributes(self) -> Seq<Option<AttributeView>> {
        match self {
            EventView::Start { attributes, .. } => attributes,
            EventView::Empty { attributes, .. } => attributes,
            _ => Seq::empty(),
        }
    }

    /// The character data of a text event or a CDATA section; `None` for
    /// every other event, and for text that cannot be unescaped.
    pub open spec fn character_data(self) -> Option<Seq<char>> {
        match self {
            EventView::Text { content } => content,
            EventView::CData { data } => Some(data),
            _ => None,
        }
    }
}

/// Tells the variants of `Event` apart. Trusted: the answer is the variant
/// that the event's model has.
#[verifier::external_body]
pub(crate) fn event_kind(event: &Event<'static>) -> (kind: EventKind)
    ensures
        event_content(*event).kind() == Some(kind),
{
    match event {
        Event::Start(_) => EventKind::Start,
        Event::Empty(_) => EventKind::Empty,
        Event::End(_) => EventKind::End,
        Event::Text(_) => EventKind::Text,
        Event::CData(_) => EventKind::CData,
        Event::Eof => EventKind::Eof,
        _ => EventKind::Other,
    }
}

/// `BytesStart::name` and `BytesEnd::name`, decoded by
/// `String::from_utf8_lossy`. Trusted: the result is the tag name that the
/// event's model has.
#[verifier::external_body]
pub(crate) fn event_name(event: &Event<'static>) -> (name: String)
    ensures
        name@ == event_content(*event).tag_name(),
{
    match event {
        Event::Start(tag) | Event::Empty(tag) => String::from_utf8_lossy(
            tag.name().as_ref(),
        ).into_owned(),
        Event::End(tag) => String::from_utf8_lossy(tag.name().as_ref()).into_owned(),
        _ => String::new(),
    }
}

/// `BytesStart::attributes`, each key decoded by `String::from_utf8_lossy`
/// and each value read by `Attribute::unescape_value`. Trusted: the result
/// is the attribute list that the event's model has.
#[verifier::external_body]
pub(crate) fn event_attributes(event: &Event<'static>) -> (attributes: Vec<Option<XmlAttribute>>)
    ensures
        attributes_view(attributes@) == event_content(*event).tag_attributes(),
{
    match event {
        Event::Start(tag) | Event::Empty(tag) => tag.attributes().map(
            |read| read.ok().map(
                |a| XmlAttribute {
                    key: String::from_utf8_lossy(a.key.as_ref()).into_owned(),
                    value: a.unescape_value().ok().map(|v| v.into_owned()),
                },
            ),
        ).collect(),
        _ => Vec::new(),
    }
}

/// `BytesText::unescape` for text, and `BytesCData::into_inner` decoded by
/// `String::from_utf8_lossy` for a CDATA section. Trusted: the result is
/// the character data that the event's model has.
#[verifier::external_body]
pub(crate) fn event_text(event: Event<'static>) -> (text: Option<String>)
    ensures
        optional_text(text) == event_content(event).character_data(),
{
    match event {
        Event::Text(t) => t.unescape().ok().map(|s| s.into_owned()),
        Event::CData(c) => Some(String::from_utf8_lossy(&c.into_inner()).into_owned()),
        _ => None,
    }
}

/// Copies what an event of the tokenizer holds into the plain model.
pub(crate) fn describe_event(event: Event<'static>) -> (plain: XmlEvent)
    ensures
        plain@ == event_content(event),
{
    match event_kind(&event) {
        EventKind::Start => {
            let name = event_name(&event);
            let attributes = event_attributes(&event);
            XmlEvent::Start { name, attributes }
        },
        EventKind::Empty => {
            let name = event_name(&event);
            let attributes = event_attributes(&event);
            XmlEvent::Empty { name, attributes }
        },
        EventKind::End => XmlEvent::End { name: event_name(&event) },
        EventKind::Text => XmlEvent::Text { content: event_text(event) },
        EventKind::CData => XmlEvent::CData { data: event_text(event).unwrap() },
        EventKind::Other => XmlEvent::Other,
        EventKind::Eof => XmlEvent::Eof,
    }
}

/// Reads the next token of a document into the plain model.
pub(crate) fn next_event<'a>(reader: &mut Reader<&'a [u8]>) -> (plain: XmlEvent)
    ensures
        plain@ == pending_events(*old(reader))[0],
        !plain@.is_terminal() ==> pending_events(*final(reader)) == pending_events(
            *old(reader),
        ).skip(1),
{
    match read_event(reader) {
        Ok(event) => describe_event(event),
        Err(offset) => XmlEvent::Invalid { offset },
    }
}

} // verus!
