use austenite::content_neg::{
    best_charset, best_content_type, best_encoding, best_language, charset_match, encoding_match,
    is_wildcard, language_match, mime_match, negotiate_charset, negotiate_encoding,
    negotiate_language, negotiate_media_type, Encoding, MediaType, Negotiation,
};
use austenite::preference::QualityItem;
use austenite::AcceptCharset;

fn media(top: &str, sub: &str) -> MediaType {
    MediaType::new(top.to_string(), sub.to_string(), vec![])
}

fn with_param(top: &str, sub: &str, name: &str, value: &str) -> MediaType {
    MediaType::new(
        top.to_string(),
        sub.to_string(),
        vec![(name.to_string(), value.to_string())],
    )
}

fn q<T>(item: T, quality: u16) -> QualityItem<T> {
    QualityItem::new(item, quality)
}

fn s(text: &str) -> String {
    text.to_string()
}

#[test]
fn test_mime_match() {
    assert!(mime_match(&media("*", "*"), &media("text", "plain")));
    assert!(!mime_match(&media("application", "*"), &media("text", "plain")));
    assert!(mime_match(&media("application", "*"), &media("application", "json")));
    assert!(mime_match(&media("application", "json"), &media("application", "json")));
    assert!(!mime_match(&media("application", "json"), &media("application", "yaml")));
}

#[test]
fn wildcards_live_on_the_client_side_only() {
    assert!(!mime_match(&media("text", "plain"), &media("*", "*")));
    assert!(!mime_match(&media("text", "plain"), &media("text", "*")));
    assert!(mime_match(&media("*", "plain"), &media("text", "html")));
}

#[test]
fn parameters_count_only_in_strict_equality() {
    let plain = media("text", "plain");
    let utf8 = with_param("text", "plain", "charset", "utf-8");
    let latin = with_param("text", "plain", "charset", "latin1");
    assert!(!mime_match(&plain, &utf8));
    assert!(!mime_match(&utf8, &plain));
    assert!(!mime_match(&utf8, &latin));
    assert!(mime_match(&utf8, &with_param("text", "plain", "charset", "utf-8")));
    assert!(mime_match(&with_param("text", "*", "charset", "utf-8"), &latin));
    assert!(mime_match(&with_param("*", "*", "q", "x"), &plain));
}

#[test]
fn tokens_match_by_equality_or_star() {
    assert!(language_match(&s("*"), &s("en")));
    assert!(language_match(&s("en"), &s("en")));
    assert!(!language_match(&s("en"), &s("en-GB")));
    assert!(!language_match(&s("en"), &s("*")));
    assert!(!language_match(&s("EN"), &s("en")));
    assert!(charset_match(&s("*"), &s("UTF-8")));
    assert!(charset_match(&s("UTF-8"), &s("UTF-8")));
    assert!(!charset_match(&s("utf-8"), &s("UTF-8")));
    assert!(!charset_match(&s("**"), &s("UTF-8")));
    assert!(is_wildcard(&s("*")));
    assert!(!is_wildcard(&s("")));
    assert!(!is_wildcard(&s("*/*")));
}

#[test]
fn encodings_match_by_strict_equality() {
    assert!(encoding_match(&Encoding::Gzip, &Encoding::Gzip));
    assert!(!encoding_match(&Encoding::Gzip, &Encoding::Deflate));
    assert!(!encoding_match(&Encoding::EncodingExt(s("gzip")), &Encoding::Gzip));
    assert!(!encoding_match(&Encoding::EncodingExt(s("*")), &Encoding::Identity));
    assert!(encoding_match(&Encoding::EncodingExt(s("br")), &Encoding::EncodingExt(s("br"))));
    assert!(!encoding_match(&Encoding::EncodingExt(s("br")), &Encoding::EncodingExt(s("zstd"))));
    assert!(encoding_match(&Encoding::Chunked, &Encoding::Chunked));
    assert!(encoding_match(&Encoding::Compress, &Encoding::Compress));
    assert!(encoding_match(&Encoding::Identity, &Encoding::Identity));
}

#[test]
fn the_highest_quality_that_matches_wins() {
    let accept = vec![q(media("text", "plain"), 1000), q(media("application", "json"), 900)];
    let avail = vec![media("application", "json")];
    assert_eq!(best_content_type(&accept, &avail), Some(media("application", "json")));
    let accept = vec![q(media("text", "html"), 300), q(media("text", "plain"), 800)];
    let avail = vec![media("text", "html"), media("text", "plain")];
    assert_eq!(best_content_type(&accept, &avail), Some(media("text", "plain")));
}

#[test]
fn the_result_is_the_servers_form() {
    let accept = vec![q(media("text", "*"), 1000)];
    let avail = vec![media("image", "png"), with_param("text", "html", "charset", "utf-8")];
    assert_eq!(
        best_content_type(&accept, &avail),
        Some(with_param("text", "html", "charset", "utf-8"))
    );
    assert_eq!(best_language(vec![q(s("*"), 1000)], &vec![s("da"), s("en")]), Some(s("da")));
}

#[test]
fn the_first_offer_that_matches_is_taken() {
    let accept = vec![q(media("*", "*"), 1000)];
    let avail = vec![media("text", "html"), media("text", "plain")];
    assert_eq!(best_content_type(&accept, &avail), Some(media("text", "html")));
}

#[test]
fn equal_qualities_keep_the_order_of_the_request() {
    let avail = vec![media("text", "html"), media("text", "plain")];
    let accept = vec![q(media("text", "plain"), 500), q(media("text", "html"), 500)];
    assert_eq!(best_content_type(&accept, &avail), Some(media("text", "plain")));
    let accept = vec![q(media("text", "html"), 500), q(media("text", "plain"), 500)];
    assert_eq!(best_content_type(&accept, &avail), Some(media("text", "html")));
}

#[test]
fn reordering_across_qualities_changes_nothing() {
    let avail = vec![s("en"), s("da"), s("fr")];
    let a = vec![q(s("fr"), 500), q(s("da"), 800), q(s("en"), 500), q(s("de"), 1000)];
    let b = vec![q(s("de"), 1000), q(s("fr"), 500), q(s("en"), 500), q(s("da"), 800)];
    let c = vec![q(s("da"), 800), q(s("de"), 1000), q(s("fr"), 500), q(s("en"), 500)];
    assert_eq!(best_language(a.clone(), &avail), Some(s("da")));
    assert_eq!(best_language(b.clone(), &avail), Some(s("da")));
    assert_eq!(best_language(c.clone(), &avail), Some(s("da")));
    let avail = vec![s("en"), s("fr")];
    assert_eq!(best_language(a, &avail), Some(s("fr")));
    assert_eq!(best_language(b, &avail), Some(s("fr")));
    assert_eq!(best_language(c, &avail), Some(s("fr")));
}

#[test]
fn repeated_negotiation_agrees() {
    let accept = vec![q(s("iso-8859-1"), 200), q(s("*"), 100), q(s("utf-8"), 200)];
    let avail = vec![s("utf-8"), s("iso-8859-1")];
    let first = best_charset(&accept, &avail);
    assert_eq!(first, Some(s("iso-8859-1")));
    assert_eq!(best_charset(&accept, &avail), first);
    assert_eq!(best_charset(&accept, &avail), first);
}

#[test]
fn wildcard_subsumption() {
    for m in [media("text", "plain"), media("application", "json"), media("x", "y")] {
        let any = vec![q(media("*", "*"), 1000)];
        assert_eq!(best_content_type(&any, &vec![m.clone()]), Some(m.clone()));
        let under = vec![q(MediaType::new(m.top_level.clone(), s("*"), vec![]), 1000)];
        assert_eq!(best_content_type(&under, &vec![m.clone()]), Some(m.clone()));
    }
}

#[test]
fn quality_zero_takes_part() {
    let accept = vec![q(media("text", "plain"), 0)];
    let avail = vec![media("text", "plain")];
    assert_eq!(best_content_type(&accept, &avail), Some(media("text", "plain")));
    let accept = vec![q(s("en"), 0), q(s("da"), 1)];
    assert_eq!(best_language(accept, &vec![s("en"), s("da")]), Some(s("da")));
}

#[test]
fn nothing_matches() {
    let accept = vec![q(media("text", "html"), 1000)];
    assert_eq!(best_content_type(&accept, &vec![media("application", "json")]), None);
    assert_eq!(best_content_type(&accept, &vec![]), None);
    assert_eq!(best_content_type(&vec![], &vec![media("text", "html")]), None);
    assert_eq!(best_language(vec![q(s("en"), 1000)], &vec![s("da")]), None);
    assert_eq!(best_charset(&vec![q(s("utf-8"), 1000)], &vec![s("UTF-8")]), None);
    assert_eq!(best_encoding(&vec![q(Encoding::Gzip, 1000)], &vec![Encoding::Identity]), None);
}

#[test]
fn encodings_are_negotiated_without_wildcards() {
    let accept = vec![q(Encoding::EncodingExt(s("*")), 1000), q(Encoding::Gzip, 500)];
    let avail = vec![Encoding::Identity, Encoding::Gzip];
    assert_eq!(best_encoding(&accept, &avail), Some(Encoding::Gzip));
    let accept = vec![q(Encoding::Deflate, 100), q(Encoding::Identity, 700)];
    assert_eq!(best_encoding(&accept, &avail), Some(Encoding::Identity));
}

#[test]
fn media_type_outcomes() {
    let offers = vec![media("text", "html"), media("text", "plain")];
    let stated = Some(vec![q(media("text", "plain"), 1000)]);
    assert_eq!(negotiate_media_type(&stated, &offers), Negotiation::Chosen(media("text", "plain")));
    let refused = Some(vec![q(media("image", "png"), 1000)]);
    assert_eq!(negotiate_media_type(&refused, &offers), Negotiation::NotAcceptable);
    assert_eq!(negotiate_media_type(&None, &offers), Negotiation::Chosen(media("text", "html")));
    assert_eq!(
        negotiate_media_type(&Some(vec![]), &offers),
        Negotiation::Chosen(media("text", "html"))
    );
    assert_eq!(negotiate_media_type(&None, &vec![]), Negotiation::Unchanged);
    assert_eq!(negotiate_media_type(&stated, &vec![]), Negotiation::NotAcceptable);
}

#[test]
fn token_outcomes() {
    let offers = vec![s("en"), s("da")];
    assert_eq!(negotiate_language(&None, &offers), Negotiation::Unchanged);
    assert_eq!(negotiate_language(&Some(vec![]), &offers), Negotiation::Unchanged);
    assert_eq!(
        negotiate_language(&Some(vec![q(s("da"), 1000)]), &offers),
        Negotiation::Chosen(s("da"))
    );
    assert_eq!(
        negotiate_language(&Some(vec![q(s("fr"), 1000)]), &offers),
        Negotiation::NotAcceptable
    );
    let charsets = vec![s("UTF-8")];
    assert_eq!(negotiate_charset(&None, &charsets), Negotiation::Unchanged);
    assert_eq!(negotiate_charset(&Some(AcceptCharset(vec![])), &charsets), Negotiation::Unchanged);
    assert_eq!(
        negotiate_charset(&Some(AcceptCharset(vec![q(s("*"), 10)])), &charsets),
        Negotiation::Chosen(s("UTF-8"))
    );
    assert_eq!(
        negotiate_charset(&Some(AcceptCharset(vec![q(s("latin1"), 10)])), &charsets),
        Negotiation::NotAcceptable
    );
}

#[test]
fn encoding_outcomes() {
    let offers = vec![Encoding::Identity];
    assert!(negotiate_encoding(&None, &offers));
    assert!(negotiate_encoding(&Some(vec![]), &offers));
    assert!(negotiate_encoding(&Some(vec![q(Encoding::Identity, 1000)]), &offers));
    assert!(!negotiate_encoding(&Some(vec![q(Encoding::Gzip, 1000)]), &offers));
}

#[test]
fn clones_are_equal() {
    let m = with_param("text", "plain", "charset", "utf-8");
    assert_eq!(m.clone(), m);
    let e = Encoding::EncodingExt(s("br"));
    assert_eq!(e.clone(), e);
    assert!(m.same_as(&m.clone()));
    assert!(e.same_as(&e.clone()));
}
