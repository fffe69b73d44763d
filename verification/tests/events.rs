use bbc_news_cli::feed_parser::field_for;
use bbc_news_cli::feed_parser::image_url;
use bbc_news_cli::feed_parser::new_story;
use bbc_news_cli::feed_parser::parse_events;
use bbc_news_cli::feed_parser::FeedParser;
use bbc_news_cli::feed_parser::Field;
use bbc_news_cli::feed_parser::ParseError;
use bbc_news_cli::feed_parser::ParserState;
use bbc_news_cli::feed_parser::MAX_STORIES;
use bbc_news_cli::xml::XmlAttribute;
use bbc_news_cli::xml::XmlEvent;

fn start(name: &str) -> XmlEvent {
    XmlEvent::Start { name: name.to_string(), attributes: Vec::new() }
}

fn end(name: &str) -> XmlEvent {
    XmlEvent::End { name: name.to_string() }
}

fn text(content: &str) -> XmlEvent {
    XmlEvent::Text { content: Some(content.to_string()) }
}

fn cdata(content: &str) -> XmlEvent {
    XmlEvent::CData { data: content.to_string() }
}

fn attribute(key: &str, value: Option<&str>) -> Option<XmlAttribute> {
    Some(XmlAttribute { key: key.to_string(), value: value.map(|v| v.to_string()) })
}

fn titled_item(title: &str) -> Vec<XmlEvent> {
    vec![start("item"), start("title"), text(title), end("title"), end("item")]
}

#[test]
fn the_cap_is_thirty() {
    assert_eq!(MAX_STORIES, 30);
}

#[test]
fn events_of_one_item() {
    let events = vec![
        start("rss"),
        start("item"),
        start("title"),
        text("A title"),
        end("title"),
        start("link"),
        text("https://example.org/a"),
        end("link"),
        start("description"),
        cdata("<p>markup</p>"),
        end("description"),
        start("category"),
        text("World"),
        end("category"),
        end("item"),
        end("rss"),
        XmlEvent::Eof,
    ];
    let stories = parse_events(&events).unwrap();
    assert_eq!(stories.len(), 1);
    assert_eq!(stories[0].title, "A title");
    assert_eq!(stories[0].link, "https://example.org/a");
    assert_eq!(stories[0].description, "<p>markup</p>");
    assert_eq!(stories[0].category, "World");
    assert_eq!(stories[0].pub_date, "");
    assert_eq!(stories[0].image_url, None);
}

#[test]
fn events_after_the_end_are_not_looked_at() {
    let mut events = titled_item("first");
    events.push(XmlEvent::Eof);
    events.extend(titled_item("second"));
    events.push(XmlEvent::Invalid { offset: 7 });
    let stories = parse_events(&events).unwrap();
    assert_eq!(stories.len(), 1);
    assert_eq!(stories[0].title, "first");
}

#[test]
fn a_failure_gives_its_offset() {
    let mut events = titled_item("first");
    events.push(XmlEvent::Invalid { offset: 42 });
    events.extend(titled_item("second"));
    assert_eq!(parse_events(&events).unwrap_err(), ParseError { offset: 42 });
}

#[test]
fn events_that_run_out_count_as_the_end() {
    assert_eq!(parse_events(&titled_item("only")).unwrap().len(), 1);
    assert_eq!(parse_events(&[]).unwrap().len(), 0);
}

#[test]
fn thirty_of_forty_accepted_records() {
    let mut events = Vec::new();
    for i in 0..40 {
        events.extend(titled_item(&format!("t{}", i)));
        events.extend(titled_item(""));
    }
    let stories = parse_events(&events).unwrap();
    assert_eq!(stories.len(), 30);
    assert_eq!(stories[0].title, "t0");
    assert_eq!(stories[29].title, "t29");
}

#[test]
fn cdata_and_text_events_are_read_alike() {
    let with_text = vec![start("item"), start("title"), text("same"), end("title"), end("item")];
    let with_cdata = vec![start("item"), start("title"), cdata("same"), end("title"), end("item")];
    let a = parse_events(&with_text).unwrap();
    let b = parse_events(&with_cdata).unwrap();
    assert_eq!(a[0].title, "same");
    assert_eq!(b[0].title, "same");
}

#[test]
fn text_that_cannot_be_unescaped_empties_the_field() {
    let events = vec![
        start("item"),
        start("title"),
        text("first"),
        end("title"),
        start("title"),
        XmlEvent::Text { content: None },
        end("title"),
        end("item"),
    ];
    assert_eq!(parse_events(&events).unwrap().len(), 0);
}

#[test]
fn closing_an_item_twice_accepts_the_record_twice() {
    let events = vec![
        start("item"),
        start("item"),
        start("title"),
        text("inner"),
        end("title"),
        end("item"),
        end("item"),
    ];
    let stories = parse_events(&events).unwrap();
    assert_eq!(stories.len(), 2);
    assert_eq!(stories[0].title, "inner");
    assert_eq!(stories[1].title, "inner");
}

#[test]
fn parser_states() {
    let mut parser = FeedParser::new();
    assert_eq!(parser.state(), ParserState::OutsideItem);
    parser.feed(&start("title"));
    assert_eq!(parser.state(), ParserState::OutsideItem);
    parser.feed(&start("item"));
    assert_eq!(parser.state(), ParserState::InItem { field: Field::Other });
    parser.feed(&start("pubDate"));
    assert_eq!(parser.state(), ParserState::InItem { field: Field::PubDate });
    parser.feed(&text("not a date"));
    parser.feed(&end("pubDate"));
    assert_eq!(parser.state(), ParserState::InItem { field: Field::Other });
    parser.feed(&start("title"));
    parser.feed(&text("t"));
    // A nested item keeps the open field and starts the record afresh.
    parser.feed(&start("item"));
    assert_eq!(parser.state(), ParserState::InItem { field: Field::Title });
    parser.feed(&text("again"));
    assert_eq!(parser.accepted_count(), 0);
    parser.feed(&end("item"));
    assert_eq!(parser.state(), ParserState::OutsideItem);
    assert_eq!(parser.accepted_count(), 1);
    let stories = parser.finish();
    assert_eq!(stories[0].title, "again");
    assert_eq!(stories[0].pub_date, "");
    assert_eq!(stories[0].category, "News");
}

#[test]
fn fields_by_tag_name() {
    assert_eq!(field_for("title"), Field::Title);
    assert_eq!(field_for("description"), Field::Description);
    assert_eq!(field_for("link"), Field::Link);
    assert_eq!(field_for("pubDate"), Field::PubDate);
    assert_eq!(field_for("category"), Field::Category);
    assert_eq!(field_for("pubdate"), Field::Other);
    assert_eq!(field_for("guid"), Field::Other);
    assert_eq!(field_for(""), Field::Other);
}

#[test]
fn image_url_is_the_first_url_attribute() {
    assert_eq!(image_url(&vec![]), None);
    assert_eq!(image_url(&vec![attribute("width", Some("240"))]), None);
    assert_eq!(
        image_url(&vec![
            None,
            attribute("width", Some("240")),
            attribute("url", Some("first")),
            attribute("url", Some("second")),
        ])
        .as_deref(),
        Some("first")
    );
    // The first url attribute decides, also where its value cannot be read.
    assert_eq!(image_url(&vec![attribute("url", None), attribute("url", Some("second"))]), None);
    assert_eq!(image_url(&vec![attribute("URL", Some("upper"))]), None);
}

#[test]
fn image_events() {
    let events = vec![
        start("item"),
        start("title"),
        text("t"),
        end("title"),
        XmlEvent::Empty {
            name: "media:thumbnail".to_string(),
            attributes: vec![attribute("url", Some("one"))],
        },
        XmlEvent::Start {
            name: "media:content".to_string(),
            attributes: vec![attribute("url", Some("two"))],
        },
        end("media:content"),
        XmlEvent::Empty { name: "enclosure".to_string(), attributes: vec![attribute("url", Some("three"))] },
        XmlEvent::Other,
        end("item"),
    ];
    let stories = parse_events(&events).unwrap();
    assert_eq!(stories[0].image_url.as_deref(), Some("two"));
}

#[test]
fn a_new_record_has_the_default_category() {
    let story = new_story();
    assert_eq!(story.title, "");
    assert_eq!(story.description, "");
    assert_eq!(story.link, "");
    assert_eq!(story.pub_date, "");
    assert_eq!(story.category, "News");
    assert_eq!(story.image_url, None);
}
