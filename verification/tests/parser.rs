use bbc_news_cli::date_utils::format_date;
use bbc_news_cli::feed_parser::parse_rss;
use bbc_news_cli::feed_parser::ParseError;

fn item(title: &str) -> String {
    format!("<item><title>{}</title><link>https://example.org/{}</link></item>", title, title)
}

fn feed_of(items: &[String]) -> String {
    format!("<?xml version=\"1.0\"?><rss><channel><title>Feed</title>{}</channel></rss>", items.concat())
}

#[test]
fn parses_fields_of_one_item() {
    let xml = "<rss><channel><item>\
        <title>Hello &amp; welcome</title>\
        <description><![CDATA[Some <b>bold</b> text]]></description>\
        <link>https://example.org/a</link>\
        <pubDate>Wed, 18 Feb 2015 23:16:09 GMT</pubDate>\
        <category>World</category>\
        <media:thumbnail url=\"https://img.example.org/a.jpg\" width=\"240\"/>\
        </item></channel></rss>";
    let stories = parse_rss(xml).unwrap();
    assert_eq!(stories.len(), 1);
    let s = &stories[0];
    assert_eq!(s.title, "Hello & welcome");
    assert_eq!(s.description, "Some <b>bold</b> text");
    assert_eq!(s.link, "https://example.org/a");
    assert_eq!(s.pub_date, "2015-02-18 23:16:09");
    assert_eq!(s.category, "World");
    assert_eq!(s.image_url.as_deref(), Some("https://img.example.org/a.jpg"));
}

#[test]
fn category_defaults_to_news() {
    let stories = parse_rss(&feed_of(&[item("a")])).unwrap();
    assert_eq!(stories[0].category, "News");
    assert_eq!(stories[0].image_url, None);
    assert_eq!(stories[0].description, "");
}

#[test]
fn output_is_capped_at_thirty_in_document_order() {
    let items: Vec<String> = (0..45).map(|i| item(&format!("t{}", i))).collect();
    let stories = parse_rss(&feed_of(&items)).unwrap();
    assert_eq!(stories.len(), 30);
    for (i, s) in stories.iter().enumerate() {
        assert_eq!(s.title, format!("t{}", i));
    }
}

#[test]
fn output_length_is_item_count_below_the_cap() {
    let items: Vec<String> = (0..5).map(|i| item(&format!("t{}", i))).collect();
    let stories = parse_rss(&feed_of(&items)).unwrap();
    assert_eq!(stories.len(), 5);
}

#[test]
fn items_without_title_are_dropped() {
    let xml = "<rss><channel>\
        <item><title></title><link>https://example.org/1</link></item>\
        <item><link>https://example.org/2</link></item>\
        <item><title>kept</title></item>\
        </channel></rss>";
    let stories = parse_rss(xml).unwrap();
    assert_eq!(stories.len(), 1);
    assert_eq!(stories[0].title, "kept");
}

#[test]
fn cdata_and_plain_text_give_the_same_text() {
    let plain = parse_rss("<rss><item><title>Same text</title></item></rss>").unwrap();
    let cdata = parse_rss("<rss><item><title><![CDATA[Same text]]></title></item></rss>").unwrap();
    assert_eq!(plain[0].title, "Same text");
    assert_eq!(cdata[0].title, plain[0].title);
}

#[test]
fn unparsable_date_passes_through() {
    let xml = "<rss><item><title>t</title><pubDate>next Tuesday</pubDate></item></rss>";
    let stories = parse_rss(xml).unwrap();
    assert_eq!(stories[0].pub_date, "next Tuesday");
    assert_eq!(format_date("next Tuesday"), "next Tuesday");
}

#[test]
fn rfc2822_date_is_made_sortable() {
    assert_eq!(format_date("Wed, 03 Feb 2015 15:58:15 GMT"), "Wed, 03 Feb 2015 15:58:15 GMT");
    assert_eq!(format_date("Tue, 03 Feb 2015 15:58:15 GMT"), "2015-02-03 15:58:15");
    assert_eq!(format_date("Tue, 03 Feb 2015 15:58:15 +0100"), "2015-02-03 15:58:15");
}

#[test]
fn last_image_tag_wins() {
    let xml = "<rss><item><title>t</title>\
        <media:thumbnail url=\"https://img.example.org/1.jpg\"/>\
        <media:content url=\"https://img.example.org/2.jpg\"></media:content>\
        </item></rss>";
    let stories = parse_rss(xml).unwrap();
    assert_eq!(stories[0].image_url.as_deref(), Some("https://img.example.org/2.jpg"));
}

#[test]
fn last_occurrence_of_a_field_wins() {
    let xml = "<rss><item><title>first</title><title>second</title></item></rss>";
    let stories = parse_rss(xml).unwrap();
    assert_eq!(stories[0].title, "second");
}

#[test]
fn text_outside_items_is_ignored() {
    let xml = "<rss><channel><title>Channel</title><item><title>t</title></item></channel></rss>";
    let stories = parse_rss(xml).unwrap();
    assert_eq!(stories.len(), 1);
    assert_eq!(stories[0].title, "t");
}

#[test]
fn mismatched_end_tag_fails_with_offset() {
    let xml = "<rss><item><title>t</wrong></item></rss>";
    match parse_rss(xml) {
        Err(ParseError { offset }) => assert!(offset > 0 && offset <= xml.len() as u64),
        Ok(_) => panic!("expected a parse error"),
    }
}

#[test]
fn empty_document_has_no_stories() {
    assert_eq!(parse_rss("").unwrap().len(), 0);
}

#[test]
fn nested_tags_inside_a_field_close_the_field() {
    // After the inner tag closes, no field is open: the trailing text is ignored.
    let xml = "<rss><item><title>kept<b>inner</b>tail</title></item></rss>";
    let stories = parse_rss(xml).unwrap();
    assert_eq!(stories[0].title, "kept");
}

#[test]
fn unknown_entity_in_text_leaves_the_field_empty() {
    let xml = "<rss><item><title>a &nosuch; b</title><link>l</link></item>\
               <item><title>ok</title></item></rss>";
    let stories = parse_rss(xml).unwrap();
    assert_eq!(stories.len(), 1);
    assert_eq!(stories[0].title, "ok");
}

#[test]
fn image_tag_without_url_keeps_the_image() {
    let xml = "<rss><item><title>t</title>\
        <media:thumbnail url=\"https://img.example.org/1.jpg\"/>\
        <media:thumbnail width=\"10\"/>\
        </item></rss>";
    let stories = parse_rss(xml).unwrap();
    assert_eq!(stories[0].image_url.as_deref(), Some("https://img.example.org/1.jpg"));
}

#[test]
fn image_tags_outside_items_are_ignored() {
    let xml = "<rss><media:thumbnail url=\"https://img.example.org/0.jpg\"/>\
        <item><title>t</title></item></rss>";
    let stories = parse_rss(xml).unwrap();
    assert_eq!(stories[0].image_url, None);
}

#[test]
fn image_url_is_unescaped() {
    let xml = "<rss><item><title>t</title>\
        <media:content url=\"https://img.example.org/a.jpg?x=1&amp;y=2\"/></item></rss>";
    let stories = parse_rss(xml).unwrap();
    assert_eq!(stories[0].image_url.as_deref(), Some("https://img.example.org/a.jpg?x=1&y=2"));
}

#[test]
fn text_is_trimmed_by_the_tokenizer() {
    let xml = "<rss><item><title>\n   spaced out  \n</title></item></rss>";
    let stories = parse_rss(xml).unwrap();
    assert_eq!(stories[0].title, "spaced out");
}

#[test]
fn a_failure_after_thirty_stories_still_fails_the_parse() {
    let mut items: Vec<String> = (0..31).map(|i| item(&format!("t{}", i))).collect();
    items.push("<item><title>t</wrong></item>".to_string());
    assert!(parse_rss(&feed_of(&items)).is_err());
}
