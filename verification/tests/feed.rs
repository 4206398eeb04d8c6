use rss::{Channel, Item};
use substack_rss_filter::feed::{
    decode_feed, filter_channel, filter_items, keeps_content, parse_feed, render_feed,
};
use substack_rss_filter::AppError;

fn entry(title: &str, content: Option<&str>) -> Item {
    let mut item = Item::default();
    item.set_title(title.to_string());
    item.set_link(format!("https://example.com/{}", title));
    item.set_content(content.map(|text| text.to_string()));
    item
}

fn titles(items: &[Item]) -> Vec<String> {
    items.iter().map(|item| item.title().unwrap_or("").to_string()).collect()
}

fn sample_feed() -> String {
    let mut text = String::new();
    text.push_str("<?xml version=\"1.0\" encoding=\"UTF-8\"?>");
    text.push_str("<rss version=\"2.0\" xmlns:content=\"http://purl.org/rss/1.0/modules/content/\">");
    text.push_str("<channel><title>Example</title><link>https://example.com/</link>");
    text.push_str("<description>Posts &amp; notes</description><language>en</language>");
    text.push_str("<item><title>one</title><link>https://example.com/1</link>");
    text.push_str("<content:encoded><![CDATA[<p>Full text</p>]]></content:encoded></item>");
    text.push_str("<item><title>two</title><link>https://example.com/2</link>");
    text.push_str("<content:encoded><![CDATA[<p>Teaser</p><a>Read more</a>]]></content:encoded></item>");
    text.push_str("<item><title>three</title><description>no content field</description></item>");
    text.push_str("</channel></rss>");
    text
}

#[test]
fn content_without_marker_is_kept() {
    assert!(keeps_content(Some("<p>the whole post</p>")));
    assert!(keeps_content(Some("")));
    assert!(keeps_content(Some("read more")));
    assert!(keeps_content(Some("Read  more")));
}

#[test]
fn content_with_marker_is_not_kept() {
    assert!(!keeps_content(Some("Read more")));
    assert!(!keeps_content(Some("<p>teaser</p><a href=\"x\">Read more</a>")));
    assert!(!keeps_content(Some("Read moreover")));
}

#[test]
fn absent_content_is_kept() {
    assert!(keeps_content(None));
}

#[test]
fn items_without_content_are_retained() {
    let items = vec![entry("a", None), entry("b", None), entry("c", None)];
    let kept = filter_items(items.clone());
    assert_eq!(kept, items);
}

#[test]
fn items_with_marker_are_removed() {
    let items = vec![
        entry("a", Some("Read more")),
        entry("b", Some("intro ... Read more")),
        entry("c", Some("Read more ... outro")),
    ];
    assert!(filter_items(items).is_empty());
}

#[test]
fn items_with_other_content_are_retained() {
    let items = vec![
        entry("a", Some("all of it")),
        entry("b", Some("")),
        entry("c", Some("READ MORE")),
        entry("d", Some("Read\u{a0}more")),
    ];
    let kept = filter_items(items.clone());
    assert_eq!(kept, items);
}

#[test]
fn filtering_preserves_order_and_fields() {
    let items = vec![
        entry("first", Some("whole")),
        entry("second", Some("cut. Read more")),
        entry("third", None),
        entry("fourth", Some("Read more")),
        entry("fifth", Some("also whole")),
    ];
    let kept = filter_items(items.clone());
    assert_eq!(kept.len(), 3);
    assert_eq!(kept[0], items[0]);
    assert_eq!(kept[1], items[2]);
    assert_eq!(kept[2], items[4]);
}

#[test]
fn filtering_keeps_duplicates() {
    let items = vec![entry("same", Some("x")), entry("same", Some("x")), entry("same", Some("x"))];
    assert_eq!(filter_items(items.clone()), items);
}

#[test]
fn filtering_nothing_gives_nothing() {
    assert!(filter_items(Vec::new()).is_empty());
}

#[test]
fn filtering_twice_changes_nothing_more() {
    let items = vec![entry("a", Some("x")), entry("b", Some("Read more")), entry("c", None)];
    let once = filter_items(items);
    let twice = filter_items(once.clone());
    assert_eq!(once, twice);
}

#[test]
fn feed_is_parsed_with_its_items() {
    let channel = parse_feed(&sample_feed()).expect("a feed");
    assert_eq!(channel.title(), "Example");
    assert_eq!(channel.link(), "https://example.com/");
    assert_eq!(channel.description(), "Posts & notes");
    assert_eq!(titles(channel.items()), ["one", "two", "three"]);
    assert_eq!(channel.items()[0].content(), Some("<p>Full text</p>"));
    assert_eq!(channel.items()[2].content(), None);
}

#[test]
fn text_that_is_no_markup_is_a_parse_error() {
    assert_eq!(
        parse_feed("certainly not a feed").unwrap_err(),
        AppError::ParseError(
            "reached end of input without finding a complete channel".to_string()
        )
    );
    assert_eq!(
        parse_feed("").unwrap_err(),
        AppError::ParseError(
            "reached end of input without finding a complete channel".to_string()
        )
    );
}

#[test]
fn markup_with_another_root_is_a_parse_error() {
    assert_eq!(
        parse_feed("<html><body>hello</body></html>").unwrap_err(),
        AppError::ParseError("the input did not begin with an rss tag".to_string())
    );
}

#[test]
fn feed_without_channel_is_a_parse_error() {
    assert_eq!(
        parse_feed("<rss version=\"2.0\"></rss>").unwrap_err(),
        AppError::ParseError(
            "reached end of input without finding a complete channel".to_string()
        )
    );
}

#[test]
fn broken_markup_is_a_parse_error() {
    match parse_feed("<rss version=\"2.0\"><channel><title>x</item></channel></rss>") {
        Err(AppError::ParseError(detail)) => assert!(!detail.is_empty()),
        other => panic!("unexpected outcome: {:?}", other),
    }
}

#[test]
fn channel_loses_premium_items_only() {
    let mut channel = parse_feed(&sample_feed()).expect("a feed");
    let before = channel.clone();
    filter_channel(&mut channel);
    assert_eq!(titles(channel.items()), ["one", "three"]);
    assert_eq!(channel.items()[0], before.items()[0]);
    assert_eq!(channel.items()[1], before.items()[2]);
    let mut expected = before.clone();
    expected.set_items(vec![before.items()[0].clone(), before.items()[2].clone()]);
    assert_eq!(channel, expected);
}

#[test]
fn channel_without_items_stays_as_it_is() {
    let mut channel = Channel::default();
    channel.set_title("Empty");
    let before = channel.clone();
    filter_channel(&mut channel);
    assert_eq!(channel, before);
}

#[test]
fn rendered_feed_holds_the_document() {
    let mut channel = Channel::default();
    channel.set_title("Example");
    channel.set_link("https://example.com/");
    channel.set_description("Posts");
    channel.set_items(vec![entry("one", Some("<p>Full text</p>"))]);
    let text = render_feed(&channel).expect("a document");
    assert!(text.starts_with("<?xml version=\"1.0\" encoding=\"utf-8\"?><rss version=\"2.0\""));
    assert!(text.ends_with("</channel></rss>"));
    assert!(text.contains("<title>Example</title>"));
    assert!(text.contains("<item><title>one</title>"));
    assert!(text.contains("<content:encoded><![CDATA[<p>Full text</p>]]></content:encoded>"));
}

#[test]
fn parsing_what_was_rendered_gives_the_same_document() {
    let before = parse_feed(&sample_feed()).expect("a feed");
    let text = render_feed(&before).expect("a document");
    let again = parse_feed(&text).expect("a feed");
    assert_eq!(again, before);
    assert_eq!(render_feed(&again).expect("a document"), text);
}

#[test]
fn well_formed_bytes_are_decoded() {
    assert_eq!(decode_feed(b"<rss/>".to_vec()), Ok("<rss/>".to_string()));
    assert_eq!(decode_feed("caf\u{e9}".as_bytes().to_vec()), Ok("caf\u{e9}".to_string()));
    assert_eq!(decode_feed(Vec::new()), Ok(String::new()));
}

#[test]
fn ill_formed_bytes_are_a_build_error() {
    assert_eq!(
        decode_feed(vec![0x61, 0xff, 0x62]),
        Err(AppError::BuildError(
            "invalid utf-8 sequence of 1 bytes from index 1".to_string()
        ))
    );
    assert_eq!(
        decode_feed(vec![0xe2, 0x82]),
        Err(AppError::BuildError("incomplete utf-8 byte sequence from index 0".to_string()))
    );
}
