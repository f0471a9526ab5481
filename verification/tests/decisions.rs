use austenite::content_neg::{Encoding, MediaType};
use austenite::graph::{Node, Terminal};
use austenite::message::{Method, Request, Response};
use austenite::precondition::{EntityTag, EntityTagMatch, Timestamp};
use austenite::preference::QualityItem;
use austenite::resource::{
    accept_exists, charset_available, decide, encoding_available, failure_of, if_match,
    if_match_star, if_match_star_exists_for_missing, if_none_match, if_none_match_star, is_action,
    language_available, media_type_available, modified_since, settle, terminal_response,
    unmodified_since, Answer, DefaultResource, ResourceError,
};
use austenite::{AcceptCharset, Resource};

fn get() -> Request {
    Request::new(Method::Get, "/".to_string())
}

fn media(top: &str, sub: &str) -> MediaType {
    MediaType::new(top.to_string(), sub.to_string(), vec![])
}

fn q<T>(item: T, quality: u16) -> QualityItem<T> {
    QualityItem::new(item, quality)
}

struct Offers;

impl Resource for Offers {
    fn available_content_types(&self, _: &Request, _: &mut Response) -> Vec<MediaType> {
        vec![media("text", "html"), media("application", "json")]
    }

    fn available_languages(&self, _: &Request, _: &mut Response) -> Vec<String> {
        vec!["en".to_string(), "da".to_string()]
    }

    fn available_charsets(&self, _: &Request, _: &mut Response) -> Vec<String> {
        vec!["UTF-8".to_string(), "ISO-8859-1".to_string()]
    }

    fn available_encodings(&self, _: &Request, _: &mut Response) -> Vec<Encoding> {
        vec![Encoding::Identity, Encoding::Gzip]
    }

    fn etag(&self, _: &Request, _: &mut Response) -> Option<EntityTag> {
        Some(EntityTag::strong("v1".to_string()))
    }

    fn last_modified(&self, _: &Request, _: &Response) -> Option<Timestamp> {
        Some(Timestamp::new(1_000, 0))
    }
}

#[test]
fn the_defaults_of_the_providers() {
    let mut resp = Response::new();
    let r = DefaultResource;
    assert_eq!(r.available_languages(&get(), &mut resp), vec!["*".to_string()]);
    assert_eq!(r.available_charsets(&get(), &mut resp), vec!["UTF-8".to_string()]);
    assert_eq!(r.available_encodings(&get(), &mut resp), vec![Encoding::Identity]);
    assert_eq!(r.available_content_types(&get(), &mut resp), vec![]);
    assert_eq!(r.etag(&get(), &mut resp), None);
    assert_eq!(r.last_modified(&get(), &resp), None);
    assert_eq!(resp, Response::new());
}

#[test]
fn the_defaults_of_the_predicates() {
    let r = DefaultResource;
    let req = get();
    let mut resp = Response::new();
    assert!(r.service_available(&req, &mut resp));
    assert!(r.known_method(&req, &mut resp));
    assert!(!r.uri_too_long(&req, &mut resp));
    assert!(r.method_allowed(&req, &mut resp));
    assert!(!r.malformed(&req, &mut resp));
    assert!(r.authorized(&req, &mut resp));
    assert!(r.allowed(&req, &mut resp));
    assert!(r.valid_content_header(&req, &mut resp));
    assert!(r.known_content_type(&req, &mut resp));
    assert!(r.valid_entity_length(&req, &mut resp));
    assert!(r.resource_exists(&req, &mut resp));
    assert!(!r.existed(&req, &mut resp));
    assert!(!r.respond_with_entity(&req, &mut resp));
    assert!(r.new(&req, &mut resp));
    assert!(!r.post_redirect(&req, &mut resp));
    assert!(!r.put_to_different_url(&req, &mut resp));
    assert!(!r.multiple_representations(&req, &mut resp));
    assert!(!r.conflict(&req, &mut resp));
    assert!(r.can_post_to_missing(&req, &mut resp));
    assert!(!r.can_post_to_gone(&req, &mut resp));
    assert!(r.can_put_to_missing(&req, &mut resp));
    assert!(!r.moved_permanently(&req, &mut resp));
    assert!(!r.moved_temporarily(&req, &mut resp));
    assert!(r.delete_enacted(&req, &mut resp));
    assert!(r.processable(&req, &mut resp));
    assert_eq!(resp, Response::new());
}

#[test]
fn the_default_methods() {
    let r = DefaultResource;
    let mut resp = Response::new();
    for (method, known, allowed) in [
        (Method::Get, true, true),
        (Method::Head, true, true),
        (Method::Post, true, false),
        (Method::Put, true, false),
        (Method::Patch, true, false),
        (Method::Delete, true, false),
        (Method::Options, true, false),
        (Method::Other("TRACE".to_string()), false, false),
    ] {
        let req = Request::new(method, "/".to_string());
        assert_eq!(r.known_method(&req, &mut resp), known);
        assert_eq!(r.method_allowed(&req, &mut resp), allowed);
    }
}

#[test]
fn the_default_actions_are_not_implemented() {
    let r = DefaultResource;
    let req = get();
    assert_eq!(r.get(&req, Response::new()), Err(ResourceError::NotImplemented));
    assert_eq!(r.head(&req, Response::new()), Err(ResourceError::NotImplemented));
    assert_eq!(r.delete(&req, Response::new()), Err(ResourceError::NotImplemented));
    assert_eq!(r.patch(&req, Response::new()), Err(ResourceError::NotImplemented));
    assert_eq!(r.post(&req, Response::new()), Err(ResourceError::NotImplemented));
    assert_eq!(r.put(&req, Response::new()), Err(ResourceError::NotImplemented));
}

#[test]
fn the_default_terminals() {
    let r = DefaultResource;
    let req = get();
    let mut seeded = Response::new();
    seeded.content_language = Some("en".to_string());
    let out = r.handle_not_found(&req, seeded).unwrap();
    assert_eq!(out.status, Some(404));
    assert_eq!(out.body, "Not found");
    assert_eq!(out.content_language, Some("en".to_string()));
    assert_eq!(r.handle_created(&req, Response::new()).unwrap().status, Some(201));
    assert_eq!(r.handle_see_other(&req, Response::new()).unwrap().status, Some(303));
    assert_eq!(r.handle_uri_too_long(&req, Response::new()).unwrap().status, Some(414));
    assert_eq!(r.handle_moved_permanently(&req, Response::new()).unwrap().status, Some(301));
    assert_eq!(r.handle_options(&req, Response::new()).unwrap().body, "");
}

#[test]
fn terminal_responses_keep_what_was_negotiated() {
    let mut resp = Response::new();
    resp.content_type = Some(media("text", "html"));
    resp.charset = Some("UTF-8".to_string());
    resp.headers.push(("Vary".to_string(), "Accept".to_string()));
    let out = terminal_response(Terminal::Gone, resp);
    assert_eq!(out.status, Some(410));
    assert_eq!(out.body, "Gone");
    assert_eq!(out.content_type, Some(media("text", "html")));
    assert_eq!(out.charset, Some("UTF-8".to_string()));
    assert_eq!(out.headers, vec![("Vary".to_string(), "Accept".to_string())]);
}

#[test]
fn failures_report_their_error() {
    let f = failure_of(ResourceError::NotImplemented);
    assert_eq!(f.error, ResourceError::NotImplemented);
    assert_eq!(f.response.status, Some(501));
    assert_eq!(f.response.body, "Not implemented");
    assert_eq!(f.response.content_type, None);
    let f = failure_of(ResourceError::ApplicationError("disk full".to_string()));
    assert_eq!(f.response.status, Some(500));
    assert_eq!(f.response.body, "disk full");
    assert_eq!(f.response.content_type, Some(media("text", "plain")));
}

#[test]
fn accept_exists_with_and_without_a_header() {
    let mut req = get();
    let mut resp = Response::new();
    assert!(accept_exists(&Offers, &req, &mut resp));
    assert_eq!(resp.content_type, Some(media("text", "html")));
    let mut resp = Response::new();
    assert!(!accept_exists(&DefaultResource, &req, &mut resp));
    assert_eq!(resp, Response::new());
    req.accept = Some(vec![q(media("image", "png"), 1000)]);
    let mut resp = Response::new();
    assert!(accept_exists(&Offers, &req, &mut resp));
    assert_eq!(resp, Response::new());
}

#[test]
fn media_type_available_records_the_choice() {
    let mut req = get();
    req.accept = Some(vec![q(media("application", "*"), 800), q(media("image", "png"), 1000)]);
    let mut resp = Response::new();
    assert!(media_type_available(&Offers, &req, &mut resp));
    assert_eq!(resp.content_type, Some(media("application", "json")));
    assert_eq!(resp.status, None);
    req.accept = Some(vec![q(media("image", "png"), 1000)]);
    let mut resp = Response::new();
    assert!(!media_type_available(&Offers, &req, &mut resp));
    assert_eq!(resp.content_type, None);
}

#[test]
fn language_available_records_the_choice() {
    let mut req = get();
    req.accept_language = Some(vec![q("fr".to_string(), 1000), q("da".to_string(), 700)]);
    let mut resp = Response::new();
    assert!(language_available(&Offers, &req, &mut resp));
    assert_eq!(resp.content_language, Some("da".to_string()));
    req.accept_language = Some(vec![q("fr".to_string(), 1000)]);
    let mut resp = Response::new();
    assert!(!language_available(&Offers, &req, &mut resp));
    assert_eq!(resp.content_language, None);
    req.accept_language = None;
    assert!(language_available(&Offers, &req, &mut resp));
    assert_eq!(resp.content_language, None);
}

#[test]
fn charset_available_records_the_choice() {
    let mut req = get();
    req.accept_charset = Some(AcceptCharset(vec![q("ISO-8859-1".to_string(), 1000)]));
    let mut resp = Response::new();
    assert!(charset_available(&Offers, &req, &mut resp));
    assert_eq!(resp.charset, Some("ISO-8859-1".to_string()));
    req.accept_charset = Some(AcceptCharset(vec![q("koi8-r".to_string(), 1000)]));
    let mut resp = Response::new();
    assert!(!charset_available(&Offers, &req, &mut resp));
    assert_eq!(resp.charset, None);
}

#[test]
fn encoding_available_records_nothing() {
    let mut req = get();
    req.accept_encoding = Some(vec![q(Encoding::Gzip, 1000)]);
    let mut resp = Response::new();
    assert!(encoding_available(&Offers, &req, &mut resp));
    assert_eq!(resp, Response::new());
    assert!(!encoding_available(&DefaultResource, &req, &mut resp));
    req.accept_encoding = None;
    assert!(encoding_available(&DefaultResource, &req, &mut resp));
}

#[test]
fn tags_are_compared_with_the_resources() {
    let mut req = get();
    let mut resp = Response::new();
    req.if_match = Some(EntityTagMatch::Tags(vec![EntityTag::strong("v1".to_string())]));
    req.if_none_match = Some(EntityTagMatch::Tags(vec![EntityTag::weak("v1".to_string())]));
    assert!(if_match(&Offers, &req, &mut resp));
    assert!(if_none_match(&Offers, &req, &mut resp));
    assert!(!if_match(&DefaultResource, &req, &mut resp));
    assert!(!if_none_match(&DefaultResource, &req, &mut resp));
    req.if_match = Some(EntityTagMatch::Tags(vec![EntityTag::weak("v1".to_string())]));
    req.if_none_match = Some(EntityTagMatch::Tags(vec![EntityTag::weak("v2".to_string())]));
    assert!(!if_match(&Offers, &req, &mut resp));
    assert!(!if_none_match(&Offers, &req, &mut resp));
    assert_eq!(resp, Response::new());
}

#[test]
fn stars_are_read_from_the_request() {
    let mut req = get();
    assert!(!if_match_star(&req));
    assert!(!if_none_match_star(&req));
    assert!(!if_match_star_exists_for_missing(&req));
    req.if_match = Some(EntityTagMatch::Any);
    assert!(if_match_star(&req));
    assert!(if_match_star_exists_for_missing(&req));
    assert!(!if_none_match_star(&req));
    req.if_none_match = Some(EntityTagMatch::Any);
    assert!(if_none_match_star(&req));
    req.if_match = Some(EntityTagMatch::Tags(vec![]));
    assert!(!if_match_star(&req));
}

#[test]
fn dates_are_compared_with_the_resources() {
    let mut req = get();
    let resp = Response::new();
    req.if_modified_since = Some(Timestamp::new(999, 0));
    req.if_unmodified_since = Some(Timestamp::new(999, 0));
    assert!(modified_since(&Offers, &req, &resp));
    assert!(!unmodified_since(&Offers, &req, &resp));
    assert!(!modified_since(&DefaultResource, &req, &resp));
    assert!(!unmodified_since(&DefaultResource, &req, &resp));
    req.if_modified_since = Some(Timestamp::new(1_000, 0));
    req.if_unmodified_since = Some(Timestamp::new(1_000, 0));
    assert!(!modified_since(&Offers, &req, &resp));
    assert!(unmodified_since(&Offers, &req, &resp));
}

#[test]
fn modified_since_reads_its_own_header() {
    let mut req = get();
    let resp = Response::new();
    req.if_unmodified_since = Some(Timestamp::new(0, 0));
    assert!(!modified_since(&Offers, &req, &resp));
    req.if_unmodified_since = None;
    req.if_modified_since = Some(Timestamp::new(0, 0));
    assert!(modified_since(&Offers, &req, &resp));
    assert!(!unmodified_since(&Offers, &req, &resp));
}

#[test]
fn the_request_settles_methods_and_headers() {
    let mut req = Request::new(Method::Put, "/".to_string());
    assert_eq!(settle(Node::IsOptions, &req), Some(false));
    assert_eq!(settle(Node::PutToExisting, &req), Some(true));
    assert_eq!(settle(Node::MethodPut, &req), Some(true));
    assert_eq!(settle(Node::PostToExisting, &req), Some(false));
    assert_eq!(settle(Node::PostToGone, &req), Some(false));
    assert_eq!(settle(Node::PostToMissing, &req), Some(false));
    assert_eq!(settle(Node::MethodDelete, &req), Some(false));
    assert_eq!(settle(Node::MethodPatch, &req), Some(false));
    assert_eq!(settle(Node::NoneMatchStatus, &req), Some(false));
    assert_eq!(settle(Node::AcceptLanguageExists, &req), Some(false));
    assert_eq!(settle(Node::IfMatchExists, &req), Some(false));
    req.accept_language = Some(vec![]);
    req.accept_charset = Some(AcceptCharset(vec![q("*".to_string(), 1)]));
    req.accept_encoding = Some(vec![q(Encoding::Gzip, 1)]);
    req.if_match = Some(EntityTagMatch::Tags(vec![]));
    req.if_none_match = Some(EntityTagMatch::Any);
    req.if_modified_since = Some(Timestamp::new(0, 0));
    assert_eq!(settle(Node::AcceptLanguageExists, &req), Some(false));
    assert_eq!(settle(Node::AcceptCharsetExists, &req), Some(true));
    assert_eq!(settle(Node::AcceptEncodingExists, &req), Some(true));
    assert_eq!(settle(Node::IfMatchExists, &req), Some(true));
    assert_eq!(settle(Node::IfMatchStar, &req), Some(false));
    assert_eq!(settle(Node::IfMatchStarExistsForMissing, &req), Some(false));
    assert_eq!(settle(Node::IfNoneMatchExists, &req), Some(true));
    assert_eq!(settle(Node::IfNoneMatchStar, &req), Some(true));
    assert_eq!(settle(Node::IfModifiedSinceExists, &req), Some(true));
    assert_eq!(settle(Node::IfUnmodifiedSinceExists, &req), Some(false));
}

#[test]
fn the_resource_settles_the_rest() {
    let req = get();
    for node in [
        Node::ServiceAvailable,
        Node::AcceptExists,
        Node::MediaTypeAvailable,
        Node::IfMatch,
        Node::IfNoneMatch,
        Node::IfModifiedSince,
        Node::Conflict,
        Node::DeleteEnacted,
        Node::PerformGet,
    ] {
        assert_eq!(settle(node, &req), None);
    }
    assert_eq!(settle(Node::NoneMatchStatus, &req), Some(true));
    assert!(is_action(Node::PerformGet));
    assert!(is_action(Node::PerformDelete));
    assert!(!is_action(Node::DeleteEnacted));
    assert!(!is_action(Node::ServiceAvailable));
}

#[test]
fn decisions_by_value() {
    let req = get();
    assert_eq!(decide(Node::PerformGet, &DefaultResource, &req, Response::new()), None);
    assert_eq!(
        decide(Node::ServiceAvailable, &DefaultResource, &req, Response::new()),
        Some(Answer { yes: true, response: Response::new() })
    );
    assert_eq!(
        decide(Node::IsOptions, &DefaultResource, &req, Response::new()),
        Some(Answer { yes: false, response: Response::new() })
    );
    let mut seeded = Response::new();
    seeded.charset = Some("UTF-8".to_string());
    let answer = decide(Node::AcceptExists, &Offers, &req, seeded).unwrap();
    assert!(answer.yes);
    assert_eq!(answer.response.content_type, Some(media("text", "html")));
    assert_eq!(answer.response.charset, Some("UTF-8".to_string()));
    let answer = decide(Node::IfModifiedSince, &Offers, &req, Response::new()).unwrap();
    assert!(!answer.yes);
    assert_eq!(answer.response, Response::new());
}

#[test]
fn a_refused_preference_leaves_the_response_alone() {
    let mut req = get();
    req.accept = Some(vec![q(media("image", "png"), 1000)]);
    req.accept_language = Some(vec![q("fr".to_string(), 1000)]);
    req.accept_charset = Some(AcceptCharset(vec![q("koi8-r".to_string(), 1000)]));
    let mut seeded = Response::new();
    seeded.content_type = Some(media("text", "plain"));
    seeded.content_language = Some("en".to_string());
    seeded.charset = Some("UTF-8".to_string());
    let mut resp = Response::new();
    resp.content_type = Some(media("text", "plain"));
    resp.content_language = Some("en".to_string());
    resp.charset = Some("UTF-8".to_string());
    assert!(!media_type_available(&Offers, &req, &mut resp));
    assert!(!language_available(&Offers, &req, &mut resp));
    assert!(!charset_available(&Offers, &req, &mut resp));
    assert_eq!(resp, seeded);
}
