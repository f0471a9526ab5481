use austenite::hyper_headers::{are_quotes_well_placed, is_star, is_well_formed};
use austenite::precondition::{EntityTag, EntityTagMatch};
use austenite::preference::QualityItem;
use austenite::AcceptCharset;

fn raw(lines: &[&str]) -> Vec<Vec<u8>> {
    lines.iter().map(|l| l.as_bytes().to_vec()).collect()
}

fn charset(name: &str, quality: u16) -> QualityItem<String> {
    QualityItem::new(name.to_string(), quality)
}

#[test]
fn header_name_is_accept_charset() {
    assert_eq!(AcceptCharset::header_name(), "Accept-Charset");
}

#[test]
fn parses_a_list_with_qualities() {
    let parsed = AcceptCharset::parse_header(&raw(&["utf-8, iso-8859-1;q=0.5, *; q=0.1"]));
    assert_eq!(
        parsed,
        Some(AcceptCharset(vec![
            charset("utf-8", 1000),
            charset("iso-8859-1", 500),
            charset("*", 100),
        ]))
    );
}

#[test]
fn parses_several_lines_in_order() {
    let parsed = AcceptCharset::parse_header(&raw(&["utf-8;q=0.273", "us-ascii ,, koi8-r;Q=0"]));
    assert_eq!(
        parsed,
        Some(AcceptCharset(vec![
            charset("utf-8", 273),
            charset("us-ascii", 1000),
            charset("koi8-r", 0),
        ]))
    );
}

#[test]
fn an_empty_header_lists_nothing() {
    assert_eq!(AcceptCharset::parse_header(&raw(&[""])), Some(AcceptCharset(vec![])));
    assert_eq!(AcceptCharset::parse_header(&[]), Some(AcceptCharset(vec![])));
}

#[test]
fn items_that_do_not_parse_are_dropped() {
    let parsed = AcceptCharset::parse_header(&raw(&["utf-8;q=2, latin1;q=0.12345, ok"]));
    assert_eq!(parsed, Some(AcceptCharset(vec![charset("ok", 1000)])));
}

#[test]
fn a_parameter_that_is_no_quality_belongs_to_the_item() {
    let parsed = AcceptCharset::parse_header(&raw(&["utf-8;level=1"]));
    assert_eq!(parsed, Some(AcceptCharset(vec![charset("utf-8;level=1", 1000)])));
}

#[test]
fn lines_that_are_not_utf8_give_nothing() {
    assert_eq!(AcceptCharset::parse_header(&[vec![0xff, 0xfe]]), None);
}

#[test]
fn short_parameters_give_nothing() {
    assert_eq!(AcceptCharset::parse_header(&raw(&["utf-8;"])), None);
    assert_eq!(AcceptCharset::parse_header(&raw(&["utf-8;q"])), None);
    assert_eq!(AcceptCharset::parse_header(&raw(&["utf-8; q , latin1"])), None);
    assert_eq!(AcceptCharset::parse_header(&raw(&["utf-8", "x;\t"])), None);
    assert_eq!(AcceptCharset::parse_header(&raw(&["utf-8;q=0.5;q"])), None);
}

#[test]
fn only_the_last_parameter_of_an_item_counts() {
    assert_eq!(
        AcceptCharset::parse_header(&raw(&["utf-8;q;q=0.5, latin1;;xy"])),
        Some(AcceptCharset(vec![charset("utf-8;q", 500), charset("latin1;;xy", 1000)]))
    );
    assert!(is_well_formed(&raw(&["a;;q=1"])));
    assert!(!is_well_formed(&raw(&["a;q=1;"])));
    assert!(!is_well_formed(&raw(&["a;q=1, b;c;d"])));
}

#[test]
fn well_formed_lines() {
    assert!(is_well_formed(&raw(&["utf-8, iso-8859-1;q=0.5", "*;  q=0"])));
    assert!(is_well_formed(&raw(&["no parameters at all"])));
    assert!(is_well_formed(&[]));
    assert!(!is_well_formed(&raw(&["a;b"])));
    assert!(!is_well_formed(&raw(&["a; b,c"])));
    assert!(!is_well_formed(&raw(&["a;\u{e9}t"])));
    assert!(!is_well_formed(&raw(&["fine;q=1", "a;"])));
}

#[test]
fn formats_items_with_their_qualities() {
    let header = AcceptCharset(vec![
        charset("utf-8", 1000),
        charset("iso-8859-1", 500),
        charset("koi8-r", 1),
        charset("*", 0),
    ]);
    assert_eq!(header.fmt_header(), "utf-8, iso-8859-1; q=0.5, koi8-r; q=0.001, *; q=0");
}

#[test]
fn formats_one_item_and_none() {
    assert_eq!(AcceptCharset(vec![charset("utf-8", 1000)]).fmt_header(), "utf-8");
    assert_eq!(AcceptCharset(vec![charset("utf-8", 250)]).fmt_header(), "utf-8; q=0.25");
    assert_eq!(AcceptCharset(vec![]).fmt_header(), "");
}

#[test]
fn formatting_and_parsing_agree() {
    let header = AcceptCharset(vec![charset("utf-8", 1000), charset("latin1", 730)]);
    let text = header.fmt_header();
    assert_eq!(AcceptCharset::parse_header(&[text.into_bytes()]), Some(header));
}

#[test]
fn deref_gives_the_items() {
    let header = AcceptCharset(vec![charset("utf-8", 1000)]);
    assert_eq!(header.deref().len(), 1);
    assert_eq!(header.deref()[0], charset("utf-8", 1000));
}

#[test]
fn from_pairs_keeps_order() {
    let header = AcceptCharset::from_pairs(vec![("b".to_string(), 1), ("a".to_string(), 2)]);
    assert_eq!(header, AcceptCharset(vec![charset("b", 1), charset("a", 2)]));
}

#[test]
fn deref_mut_changes_the_items() {
    let mut header = AcceptCharset(vec![charset("utf-8", 1000)]);
    header.deref_mut().push(charset("latin1", 500));
    header.deref_mut()[0].quality = 900;
    assert_eq!(header, AcceptCharset(vec![charset("utf-8", 900), charset("latin1", 500)]));
}

fn strong(tag: &str) -> EntityTag {
    EntityTag::strong(tag.to_string())
}

fn weak(tag: &str) -> EntityTag {
    EntityTag::weak(tag.to_string())
}

#[test]
fn star_parses_to_any() {
    assert_eq!(EntityTagMatch::parse_header(&raw(&["*"])), Some(EntityTagMatch::Any));
    assert_eq!(EntityTagMatch::parse_header(&raw(&["  * "])), Some(EntityTagMatch::Any));
    assert_eq!(EntityTagMatch::parse_header(&raw(&["\t*\r\n"])), Some(EntityTagMatch::Any));
    assert!(is_star(&raw(&[" *"])));
    assert!(!is_star(&raw(&["**"])));
    assert!(!is_star(&raw(&["* *"])));
    assert!(!is_star(&raw(&["", "*"])));
    assert!(!is_star(&raw(&[""])));
    assert!(!is_star(&[]));
}

#[test]
fn two_stars_are_no_tags() {
    assert_eq!(EntityTagMatch::parse_header(&raw(&["*", "*"])), Some(EntityTagMatch::Tags(vec![])));
    assert_eq!(EntityTagMatch::parse_header(&raw(&["*, *"])), Some(EntityTagMatch::Tags(vec![])));
}

#[test]
fn entity_tags_parse_to_a_list() {
    assert_eq!(
        EntityTagMatch::parse_header(&raw(&["\"xyzzy\""])),
        Some(EntityTagMatch::Tags(vec![strong("xyzzy")]))
    );
    assert_eq!(
        EntityTagMatch::parse_header(&raw(&["\"xyzzy\", W/\"r2d2\" ,\"\"", "W/\"\""])),
        Some(EntityTagMatch::Tags(vec![strong("xyzzy"), weak("r2d2"), strong(""), weak("")]))
    );
}

#[test]
fn what_is_no_entity_tag_is_dropped() {
    assert_eq!(
        EntityTagMatch::parse_header(&raw(&["no-quotes, w/\"small\", \"ok\", \"open"])),
        Some(EntityTagMatch::Tags(vec![strong("ok")]))
    );
    assert_eq!(EntityTagMatch::parse_header(&raw(&[""])), Some(EntityTagMatch::Tags(vec![])));
}

#[test]
fn lone_quotes_give_nothing() {
    assert_eq!(EntityTagMatch::parse_header(&raw(&["\""])), None);
    assert_eq!(EntityTagMatch::parse_header(&raw(&["W/\""])), None);
    assert_eq!(EntityTagMatch::parse_header(&raw(&["\"a\", \" "])), None);
    assert_eq!(EntityTagMatch::parse_header(&raw(&["\"a\"", " W/\" ,\"b\""])), None);
    assert_eq!(EntityTagMatch::parse_header(&[vec![0x22, 0xff, 0x22]]), None);
    assert!(are_quotes_well_placed(&raw(&["\"a\", W/\"b\", \"\", W/\"\", x\""])));
    assert!(are_quotes_well_placed(&raw(&["\"ends-with/\""])));
    assert!(!are_quotes_well_placed(&raw(&["\"a\", \""])));
    assert!(!are_quotes_well_placed(&raw(&["W/\""])));
    assert!(!are_quotes_well_placed(&raw(&["fine", "\","])));
}

#[test]
fn entity_tag_lines_that_are_not_utf8_give_nothing() {
    assert_eq!(EntityTagMatch::parse_header(&[vec![0x22, 0x61, 0xff, 0x61, 0x22]]), None);
}

#[test]
fn entity_tags_are_written_between_quotes() {
    assert_eq!(strong("foobar").fmt_header(), "\"foobar\"");
    assert_eq!(strong("").fmt_header(), "\"\"");
    assert_eq!(weak("weak-etag").fmt_header(), "W/\"weak-etag\"");
    assert_eq!(weak("").fmt_header(), "W/\"\"");
}

#[test]
fn entity_tag_headers_are_written_as_lists() {
    assert_eq!(EntityTagMatch::Any.fmt_header(), "*");
    assert_eq!(EntityTagMatch::Tags(vec![]).fmt_header(), "");
    assert_eq!(EntityTagMatch::Tags(vec![strong("a")]).fmt_header(), "\"a\"");
    assert_eq!(
        EntityTagMatch::Tags(vec![strong("a"), weak("b"), strong("c")]).fmt_header(),
        "\"a\", W/\"b\", \"c\""
    );
}

#[test]
fn writing_is_the_inverse_of_parsing() {
    for header in [
        EntityTagMatch::Any,
        EntityTagMatch::Tags(vec![strong("v1")]),
        EntityTagMatch::Tags(vec![weak("v1"), strong("v2"), strong("")]),
    ] {
        let text = header.fmt_header();
        assert_eq!(EntityTagMatch::parse_header(&[text.into_bytes()]), Some(header));
    }
}

#[test]
fn qualities_out_of_range_are_written_as_they_are() {
    assert_eq!(AcceptCharset(vec![charset("utf-8", 1500)]).fmt_header(), "utf-8; q=0.15");
    assert_eq!(AcceptCharset(vec![charset("utf-8", 999)]).fmt_header(), "utf-8; q=0.999");
    assert_eq!(AcceptCharset(vec![charset("utf-8", 90)]).fmt_header(), "utf-8; q=0.09");
    assert_eq!(AcceptCharset(vec![charset("utf-8", 100)]).fmt_header(), "utf-8; q=0.1");
}
