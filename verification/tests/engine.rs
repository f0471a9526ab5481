use austenite::content_neg::MediaType;
use austenite::graph::{successor, Node, Step, Terminal, Visit, LONGEST_WALK};
use austenite::message::{Method, Request, Response};
use austenite::precondition::{EntityTag, EntityTagMatch, Timestamp};
use austenite::preference::QualityItem;
use austenite::resource::{
    resource_handle, traverse, DefaultResource, Failure, ResourceError, Traversal,
};
use austenite::Resource;

fn request(method: Method) -> Request {
    Request::new(method, "/".to_string())
}

fn media(top: &str, sub: &str) -> MediaType {
    MediaType::new(top.to_string(), sub.to_string(), vec![])
}

fn nodes(t: &Traversal) -> Vec<Node> {
    t.visits.iter().map(|v| v.node).collect()
}

/// Follows the visits through the table and returns where they end.
fn replay(visits: &[Visit]) -> Step {
    let mut step = Step::Visit(Node::ServiceAvailable);
    for visit in visits {
        assert_eq!(step, Step::Visit(visit.node));
        step = successor(visit.node, visit.outcome);
    }
    step
}

struct GetOkContent;

impl Resource for GetOkContent {
    fn get(&self, _: &Request, mut resp: Response) -> Result<Response, ResourceError> {
        resp.set_status_and_body(200, "hello");
        Ok(resp)
    }
}

#[test]
fn test_get_ok_content() {
    match resource_handle(&GetOkContent, &request(Method::Get)) {
        Ok(r) => {
            assert_eq!("hello", r.body);
            assert_eq!(Some(200), r.status);
        }
        Err(_) => assert!(false, "get failed"),
    };
}

#[test]
fn default_get_is_not_implemented() {
    let t = traverse(&DefaultResource, &request(Method::Get));
    assert_eq!(replay(&t.visits), Step::Fail);
    assert_eq!(t.visits.last().map(|v| v.node), Some(Node::PerformGet));
    match t.result {
        Err(Failure { error, response }) => {
            assert_eq!(error, ResourceError::NotImplemented);
            assert_eq!(response.status, Some(501));
            assert_eq!(response.body, "Not implemented");
        }
        Ok(_) => panic!("the default get must fail"),
    }
}

#[test]
fn head_defaults_to_get() {
    let r = resource_handle(&GetOkContent, &request(Method::Head)).unwrap();
    assert_eq!(r.status, Some(200));
    assert_eq!(r.body, "hello");
}

struct Json;

impl Resource for Json {
    fn available_content_types(&self, _: &Request, _: &mut Response) -> Vec<MediaType> {
        vec![media("application", "json")]
    }

    fn get(&self, _: &Request, mut resp: Response) -> Result<Response, ResourceError> {
        let seen = resp.content_type.clone();
        resp.set_status_and_body(200, "{}");
        assert_eq!(seen, Some(media("application", "json")));
        Ok(resp)
    }
}

#[test]
fn content_negotiation_hit() {
    let mut req = request(Method::Get);
    req.accept = Some(vec![
        QualityItem::new(media("text", "plain"), 1000),
        QualityItem::new(media("application", "json"), 900),
    ]);
    let t = traverse(&Json, &req);
    assert!(nodes(&t).contains(&Node::MediaTypeAvailable));
    assert_eq!(t.visits.last(), Some(&Visit { node: Node::PerformGet, outcome: true }));
    let r = t.result.unwrap();
    assert_eq!(r.content_type, Some(media("application", "json")));
    assert_eq!(r.status, Some(200));
}

#[test]
fn content_negotiation_miss() {
    let mut req = request(Method::Get);
    req.accept = Some(vec![QualityItem::new(media("text", "html"), 1000)]);
    let t = traverse(&Json, &req);
    assert_eq!(replay(&t.visits), Step::Finish(Terminal::NotAcceptable));
    let r = t.result.unwrap();
    assert_eq!(r.status, Some(406));
    assert_eq!(r.body, "Not Acceptable");
}

#[test]
fn no_accept_header_takes_the_first_offer() {
    let r = resource_handle(&Json, &request(Method::Get)).unwrap();
    assert_eq!(r.content_type, Some(media("application", "json")));
}

#[test]
fn empty_accept_header_counts_as_absent() {
    let mut req = request(Method::Get);
    req.accept = Some(vec![]);
    let r = resource_handle(&Json, &req).unwrap();
    assert_eq!(r.content_type, Some(media("application", "json")));
    assert_eq!(r.status, Some(200));
}

#[test]
fn nothing_on_offer_and_no_accept_header_succeeds() {
    let t = traverse(&GetOkContent, &request(Method::Get));
    let visited = nodes(&t);
    assert!(visited.contains(&Node::AcceptExists));
    assert!(!visited.contains(&Node::MediaTypeAvailable));
    let r = t.result.unwrap();
    assert_eq!(r.content_type, None);
    assert_eq!(r.status, Some(200));
}

#[test]
fn method_not_allowed() {
    let t = traverse(&DefaultResource, &request(Method::Post));
    assert_eq!(replay(&t.visits), Step::Finish(Terminal::MethodNotAllowed));
    assert_eq!(t.visits.len(), 4);
    let r = t.result.unwrap();
    assert_eq!(r.status, Some(405));
    assert_eq!(r.body, "Method not allowed");
}

#[test]
fn unknown_method() {
    let t = traverse(&DefaultResource, &request(Method::Other("BREW".to_string())));
    assert_eq!(replay(&t.visits), Step::Finish(Terminal::UnknownMethod));
    let r = t.result.unwrap();
    assert_eq!(r.status, Some(501));
    assert_eq!(r.body, "Unknown method");
}

struct Tagged;

impl Resource for Tagged {
    fn etag(&self, _: &Request, _: &mut Response) -> Option<EntityTag> {
        Some(EntityTag::strong("v1".to_string()))
    }

    fn last_modified(&self, _: &Request, _: &Response) -> Option<Timestamp> {
        Some(Timestamp::new(1_000, 0))
    }

    fn get(&self, _: &Request, mut resp: Response) -> Result<Response, ResourceError> {
        resp.set_status_and_body(200, "tagged");
        Ok(resp)
    }
}

#[test]
fn if_match_precondition_failure() {
    let mut req = request(Method::Get);
    req.if_match = Some(EntityTagMatch::Tags(vec![EntityTag::strong("v2".to_string())]));
    let t = traverse(&Tagged, &req);
    assert_eq!(t.visits.last(), Some(&Visit { node: Node::IfMatch, outcome: false }));
    assert_eq!(replay(&t.visits), Step::Finish(Terminal::PreconditionFailed));
    let r = t.result.unwrap();
    assert_eq!(r.status, Some(412));
    assert_eq!(r.body, "Precondition failed");
}

#[test]
fn if_match_with_the_current_tag_passes() {
    let mut req = request(Method::Get);
    req.if_match = Some(EntityTagMatch::Tags(vec![
        EntityTag::strong("v0".to_string()),
        EntityTag::strong("v1".to_string()),
    ]));
    let r = resource_handle(&Tagged, &req).unwrap();
    assert_eq!(r.status, Some(200));
}

#[test]
fn if_match_with_a_weak_tag_fails() {
    let mut req = request(Method::Get);
    req.if_match = Some(EntityTagMatch::Tags(vec![EntityTag::weak("v1".to_string())]));
    let r = resource_handle(&Tagged, &req).unwrap();
    assert_eq!(r.status, Some(412));
}

#[test]
fn if_match_star_skips_the_comparison() {
    let mut req = request(Method::Get);
    req.if_match = Some(EntityTagMatch::Any);
    let t = traverse(&Tagged, &req);
    let visited = nodes(&t);
    assert!(visited.contains(&Node::IfMatchStar));
    assert!(!visited.contains(&Node::IfMatch));
    assert_eq!(t.result.unwrap().status, Some(200));
}

#[test]
fn if_none_match_star_compares_the_tags() {
    let mut req = request(Method::Get);
    req.if_none_match = Some(EntityTagMatch::Any);
    let t = traverse(&Tagged, &req);
    assert!(t.visits.contains(&Visit { node: Node::IfNoneMatchStar, outcome: true }));
    assert!(t.visits.contains(&Visit { node: Node::IfNoneMatch, outcome: false }));
    assert_eq!(t.result.unwrap().status, Some(200));
}

#[test]
fn if_none_match_with_tags_is_not_modified_for_get() {
    let mut req = request(Method::Get);
    req.if_none_match = Some(EntityTagMatch::Tags(vec![EntityTag::weak("v1".to_string())]));
    let t = traverse(&Tagged, &req);
    assert_eq!(t.visits.last(), Some(&Visit { node: Node::NoneMatchStatus, outcome: true }));
    let r = t.result.unwrap();
    assert_eq!(r.status, Some(304));
    assert_eq!(r.body, "Not modified");
}

#[test]
fn if_unmodified_since_a_later_date_fails() {
    let mut req = request(Method::Get);
    req.if_unmodified_since = Some(Timestamp::new(2_000, 0));
    let t = traverse(&Tagged, &req);
    assert_eq!(t.visits.last(), Some(&Visit { node: Node::IfUnmodifiedSince, outcome: true }));
    assert_eq!(t.result.unwrap().status, Some(412));
}

#[test]
fn if_unmodified_since_an_earlier_date_passes() {
    let mut req = request(Method::Get);
    req.if_unmodified_since = Some(Timestamp::new(500, 0));
    assert_eq!(resource_handle(&Tagged, &req).unwrap().status, Some(200));
}

#[test]
fn if_modified_since_an_earlier_date_passes() {
    let mut req = request(Method::Get);
    req.if_modified_since = Some(Timestamp::new(999, 999_999_999));
    assert_eq!(resource_handle(&Tagged, &req).unwrap().status, Some(200));
}

#[test]
fn if_modified_since_the_same_date_is_not_modified() {
    let mut req = request(Method::Get);
    req.if_modified_since = Some(Timestamp::new(1_000, 0));
    let t = traverse(&Tagged, &req);
    assert_eq!(t.visits.last(), Some(&Visit { node: Node::IfModifiedSince, outcome: false }));
    assert_eq!(t.result.unwrap().status, Some(304));
}

#[test]
fn dates_are_ignored_without_a_last_modified_time() {
    let mut req = request(Method::Get);
    req.if_unmodified_since = Some(Timestamp::new(2_000, 0));
    assert_eq!(resource_handle(&GetOkContent, &req).unwrap().status, Some(200));
    let mut req = request(Method::Get);
    req.if_modified_since = Some(Timestamp::new(0, 0));
    assert_eq!(resource_handle(&GetOkContent, &req).unwrap().status, Some(304));
}

struct Open;

impl Resource for Open {
    fn method_allowed(&self, _: &Request, _: &mut Response) -> bool {
        true
    }

    fn available_content_types(&self, _: &Request, _: &mut Response) -> Vec<MediaType> {
        vec![media("text", "plain")]
    }
}

#[test]
fn options_shortcut() {
    let t = traverse(&Open, &request(Method::Options));
    assert_eq!(t.visits.last(), Some(&Visit { node: Node::IsOptions, outcome: true }));
    assert_eq!(t.visits.len(), 11);
    assert!(!nodes(&t).contains(&Node::AcceptExists));
    let r = t.result.unwrap();
    assert_eq!(r.status, Some(200));
    assert_eq!(r.body, "");
    assert_eq!(r.content_type, None);
}

struct Counting {
    asked: std::sync::atomic::AtomicUsize,
}

impl Resource for Counting {
    fn method_allowed(&self, _: &Request, _: &mut Response) -> bool {
        true
    }

    fn available_content_types(&self, _: &Request, _: &mut Response) -> Vec<MediaType> {
        self.asked.fetch_add(1, std::sync::atomic::Ordering::SeqCst);
        vec![media("text", "plain")]
    }

    fn get(&self, _: &Request, resp: Response) -> Result<Response, ResourceError> {
        Ok(resp)
    }
}

#[test]
fn options_asks_for_no_offers() {
    let resource = Counting { asked: std::sync::atomic::AtomicUsize::new(0) };
    let r = resource_handle(&resource, &request(Method::Options)).unwrap();
    assert_eq!(r.status, Some(200));
    assert_eq!(resource.asked.load(std::sync::atomic::Ordering::SeqCst), 0);
    resource_handle(&resource, &request(Method::Get)).unwrap();
    assert_eq!(resource.asked.load(std::sync::atomic::Ordering::SeqCst), 2);
}

#[test]
fn default_resource_refuses_options() {
    let r = resource_handle(&DefaultResource, &request(Method::Options)).unwrap();
    assert_eq!(r.status, Some(405));
}

/// A resource whose predicates answer from a table, and whose actions
/// succeed.
struct Scripted {
    no: Vec<&'static str>,
    yes: Vec<&'static str>,
    fail: Option<ResourceError>,
}

impl Scripted {
    fn new(yes: &[&'static str], no: &[&'static str]) -> Scripted {
        Scripted { yes: yes.to_vec(), no: no.to_vec(), fail: None }
    }

    fn answer(&self, name: &str, default: bool) -> bool {
        if self.yes.contains(&name) {
            true
        } else if self.no.contains(&name) {
            false
        } else {
            default
        }
    }

    fn act(&self, name: &str, mut resp: Response) -> Result<Response, ResourceError> {
        match &self.fail {
            Some(e) => Err(e.clone()),
            None => {
                resp.set_status_and_body(200, name);
                Ok(resp)
            }
        }
    }
}

impl Resource for Scripted {
    fn service_available(&self, _: &Request, _: &mut Response) -> bool {
        self.answer("service_available", true)
    }
    fn uri_too_long(&self, _: &Request, _: &mut Response) -> bool {
        self.answer("uri_too_long", false)
    }
    fn method_allowed(&self, _: &Request, _: &mut Response) -> bool {
        true
    }
    fn malformed(&self, _: &Request, _: &mut Response) -> bool {
        self.answer("malformed", false)
    }
    fn authorized(&self, _: &Request, _: &mut Response) -> bool {
        self.answer("authorized", true)
    }
    fn allowed(&self, _: &Request, _: &mut Response) -> bool {
        self.answer("allowed", true)
    }
    fn valid_content_header(&self, _: &Request, _: &mut Response) -> bool {
        self.answer("valid_content_header", true)
    }
    fn known_content_type(&self, _: &Request, _: &mut Response) -> bool {
        self.answer("known_content_type", true)
    }
    fn valid_entity_length(&self, _: &Request, _: &mut Response) -> bool {
        self.answer("valid_entity_length", true)
    }
    fn processable(&self, _: &Request, _: &mut Response) -> bool {
        self.answer("processable", true)
    }
    fn resource_exists(&self, _: &Request, _: &mut Response) -> bool {
        self.answer("resource_exists", true)
    }
    fn existed(&self, _: &Request, _: &mut Response) -> bool {
        self.answer("existed", false)
    }
    fn respond_with_entity(&self, _: &Request, _: &mut Response) -> bool {
        self.answer("respond_with_entity", false)
    }
    fn new(&self, _: &Request, _: &mut Response) -> bool {
        self.answer("new", true)
    }
    fn post_redirect(&self, _: &Request, _: &mut Response) -> bool {
        self.answer("post_redirect", false)
    }
    fn put_to_different_url(&self, _: &Request, _: &mut Response) -> bool {
        self.answer("put_to_different_url", false)
    }
    fn multiple_representations(&self, _: &Request, _: &mut Response) -> bool {
        self.answer("multiple_representations", false)
    }
    fn conflict(&self, _: &Request, _: &mut Response) -> bool {
        self.answer("conflict", false)
    }
    fn can_post_to_missing(&self, _: &Request, _: &mut Response) -> bool {
        self.answer("can_post_to_missing", true)
    }
    fn can_post_to_gone(&self, _: &Request, _: &mut Response) -> bool {
        self.answer("can_post_to_gone", false)
    }
    fn can_put_to_missing(&self, _: &Request, _: &mut Response) -> bool {
        self.answer("can_put_to_missing", true)
    }
    fn moved_permanently(&self, _: &Request, _: &mut Response) -> bool {
        self.answer("moved_permanently", false)
    }
    fn moved_temporarily(&self, _: &Request, _: &mut Response) -> bool {
        self.answer("moved_temporarily", false)
    }
    fn delete_enacted(&self, _: &Request, _: &mut Response) -> bool {
        self.answer("delete_enacted", true)
    }
    fn get(&self, _: &Request, resp: Response) -> Result<Response, ResourceError> {
        self.act("get", resp)
    }
    fn delete(&self, _: &Request, resp: Response) -> Result<Response, ResourceError> {
        self.act("delete", resp)
    }
    fn patch(&self, _: &Request, resp: Response) -> Result<Response, ResourceError> {
        self.act("patch", resp)
    }
    fn post(&self, _: &Request, resp: Response) -> Result<Response, ResourceError> {
        self.act("post", resp)
    }
    fn put(&self, _: &Request, resp: Response) -> Result<Response, ResourceError> {
        self.act("put", resp)
    }
}

fn status(resource: &Scripted, method: Method) -> Option<u16> {
    let t = traverse(resource, &request(method));
    assert!(t.visits.len() <= LONGEST_WALK);
    assert!(!matches!(replay(&t.visits), Step::Visit(_)));
    match t.result {
        Ok(r) => r.status,
        Err(f) => f.response.status,
    }
}

#[test]
fn early_refusals() {
    assert_eq!(status(&Scripted::new(&[], &["service_available"]), Method::Get), Some(503));
    assert_eq!(status(&Scripted::new(&["uri_too_long"], &[]), Method::Get), Some(414));
    assert_eq!(status(&Scripted::new(&["malformed"], &[]), Method::Get), Some(400));
    assert_eq!(status(&Scripted::new(&[], &["authorized"]), Method::Get), Some(401));
    assert_eq!(status(&Scripted::new(&[], &["allowed"]), Method::Get), Some(403));
    assert_eq!(status(&Scripted::new(&[], &["valid_content_header"]), Method::Get), Some(501));
    assert_eq!(status(&Scripted::new(&[], &["known_content_type"]), Method::Get), Some(415));
    assert_eq!(status(&Scripted::new(&[], &["valid_entity_length"]), Method::Get), Some(413));
    assert_eq!(status(&Scripted::new(&[], &["processable"]), Method::Get), Some(422));
}

#[test]
fn not_implemented_terminal_has_its_own_body() {
    let r = resource_handle(&Scripted::new(&[], &["valid_content_header"]), &request(Method::Get))
        .unwrap();
    assert_eq!(r.status, Some(501));
    assert_eq!(r.body, "Not implemented");
}

#[test]
fn existing_entity() {
    assert_eq!(status(&Scripted::new(&[], &[]), Method::Get), Some(200));
    assert_eq!(status(&Scripted::new(&["multiple_representations"], &[]), Method::Get), Some(300));
    assert_eq!(status(&Scripted::new(&[], &[]), Method::Delete), Some(204));
    assert_eq!(status(&Scripted::new(&["respond_with_entity"], &[]), Method::Delete), Some(200));
    assert_eq!(status(&Scripted::new(&[], &[]), Method::Patch), Some(204));
    assert_eq!(status(&Scripted::new(&[], &[]), Method::Post), Some(201));
    assert_eq!(status(&Scripted::new(&["post_redirect"], &[]), Method::Post), Some(303));
    assert_eq!(status(&Scripted::new(&[], &["new"]), Method::Post), Some(204));
    assert_eq!(status(&Scripted::new(&[], &[]), Method::Put), Some(201));
    assert_eq!(status(&Scripted::new(&["conflict"], &[]), Method::Put), Some(409));
}

#[test]
fn missing_entity() {
    let missing = |yes: &[&'static str], no: &[&'static str]| {
        let mut no = no.to_vec();
        no.push("resource_exists");
        Scripted::new(yes, &no)
    };
    assert_eq!(status(&missing(&[], &[]), Method::Get), Some(404));
    assert_eq!(status(&missing(&[], &[]), Method::Post), Some(201));
    assert_eq!(status(&missing(&[], &["can_post_to_missing"]), Method::Post), Some(404));
    assert_eq!(status(&missing(&[], &[]), Method::Put), Some(201));
    assert_eq!(status(&missing(&["put_to_different_url"], &[]), Method::Put), Some(301));
    assert_eq!(status(&missing(&[], &["can_put_to_missing"]), Method::Put), Some(501));
    assert_eq!(status(&missing(&["conflict"], &[]), Method::Put), Some(409));
    assert_eq!(status(&missing(&["existed"], &[]), Method::Get), Some(410));
    assert_eq!(status(&missing(&["existed", "moved_permanently"], &[]), Method::Get), Some(301));
    assert_eq!(status(&missing(&["existed", "moved_temporarily"], &[]), Method::Get), Some(307));
    assert_eq!(status(&missing(&["existed"], &[]), Method::Post), Some(410));
    assert_eq!(status(&missing(&["existed", "can_post_to_gone"], &[]), Method::Post), Some(201));
}

#[test]
fn if_match_star_on_a_missing_entity_fails() {
    let mut req = request(Method::Put);
    req.if_match = Some(EntityTagMatch::Any);
    let t = traverse(&Scripted::new(&[], &["resource_exists"]), &req);
    assert_eq!(
        t.visits.last(),
        Some(&Visit { node: Node::IfMatchStarExistsForMissing, outcome: true })
    );
    assert_eq!(t.result.unwrap().status, Some(412));
}

#[test]
fn delete_enacted_does_not_change_the_way() {
    let yes = traverse(&Scripted::new(&["delete_enacted"], &[]), &request(Method::Delete));
    let no = traverse(&Scripted::new(&[], &["delete_enacted"]), &request(Method::Delete));
    assert_eq!(nodes(&yes), nodes(&no));
    assert!(nodes(&yes).contains(&Node::DeleteEnacted));
    assert_eq!(yes.result.unwrap().status, Some(204));
    assert_eq!(no.result.unwrap().status, Some(204));
}

struct Full;

impl Resource for Full {
    fn method_allowed(&self, _: &Request, _: &mut Response) -> bool {
        true
    }

    fn available_content_types(&self, _: &Request, _: &mut Response) -> Vec<MediaType> {
        vec![media("text", "plain")]
    }

    fn etag(&self, _: &Request, _: &mut Response) -> Option<EntityTag> {
        Some(EntityTag::strong("v1".to_string()))
    }

    fn last_modified(&self, _: &Request, _: &Response) -> Option<Timestamp> {
        Some(Timestamp::new(1_000, 0))
    }

    fn new(&self, _: &Request, _: &mut Response) -> bool {
        false
    }

    fn respond_with_entity(&self, _: &Request, _: &mut Response) -> bool {
        true
    }

    fn put(&self, _: &Request, resp: Response) -> Result<Response, ResourceError> {
        Ok(resp)
    }

    fn get(&self, _: &Request, mut resp: Response) -> Result<Response, ResourceError> {
        resp.set_status_and_body(200, "stored");
        Ok(resp)
    }
}

#[test]
fn the_longest_walk() {
    let mut req = request(Method::Put);
    req.accept = Some(vec![QualityItem::new(media("*", "*"), 1000)]);
    req.accept_language = Some(vec![QualityItem::new("*".to_string(), 1000)]);
    req.accept_charset =
        Some(austenite::AcceptCharset(vec![QualityItem::new("*".to_string(), 1000)]));
    req.accept_encoding = Some(vec![QualityItem::new(
        austenite::content_neg::Encoding::Identity,
        1000,
    )]);
    req.if_match = Some(EntityTagMatch::Tags(vec![EntityTag::strong("v1".to_string())]));
    req.if_unmodified_since = Some(Timestamp::new(500, 0));
    req.if_none_match = Some(EntityTagMatch::Any);
    req.if_modified_since = Some(Timestamp::new(500, 0));
    let t = traverse(&Full, &req);
    assert_eq!(t.visits.len(), 41);
    assert_eq!(LONGEST_WALK, 41);
    assert_eq!(replay(&t.visits), Step::Respond);
    assert!(t.visits.contains(&Visit { node: Node::PerformPut, outcome: true }));
    let r = t.result.unwrap();
    assert_eq!(r.status, Some(200));
    assert_eq!(r.body, "stored");
    assert_eq!(r.content_type, Some(media("text", "plain")));
    assert_eq!(r.content_language, Some("*".to_string()));
    assert_eq!(r.charset, Some("UTF-8".to_string()));
}

#[test]
fn a_stated_preference_without_offers_is_not_acceptable() {
    let mut req = request(Method::Get);
    req.accept = Some(vec![QualityItem::new(media("*", "*"), 1000)]);
    let t = traverse(&GetOkContent, &req);
    assert_eq!(t.visits.len(), 13);
    assert_eq!(t.result.unwrap().status, Some(406));
}

#[test]
fn application_errors_are_reported() {
    let mut resource = Scripted::new(&[], &[]);
    resource.fail = Some(ResourceError::ApplicationError("out of paper".to_string()));
    let t = traverse(&resource, &request(Method::Get));
    assert_eq!(replay(&t.visits), Step::Fail);
    match t.result {
        Err(f) => {
            assert_eq!(f.error, ResourceError::ApplicationError("out of paper".to_string()));
            assert_eq!(f.response.status, Some(500));
            assert_eq!(f.response.body, "out of paper");
            assert_eq!(f.response.content_type, Some(media("text", "plain")));
        }
        Ok(_) => panic!("the action failed"),
    }
}

#[test]
fn failing_post_ends_the_walk() {
    let mut resource = Scripted::new(&[], &[]);
    resource.fail = Some(ResourceError::NotImplemented);
    let t = traverse(&resource, &request(Method::Post));
    assert_eq!(t.visits.last(), Some(&Visit { node: Node::PerformPost, outcome: false }));
    assert_eq!(t.result.unwrap_err().response.status, Some(501));
}

struct RichNotFound;

impl Resource for RichNotFound {
    fn resource_exists(&self, _: &Request, _: &mut Response) -> bool {
        false
    }

    fn handle_not_found(&self, _: &Request, mut resp: Response) -> Result<Response, ResourceError> {
        resp.set_status_and_body(404, "Nothing here; try /index");
        Ok(resp)
    }
}

#[test]
fn terminals_can_be_overridden() {
    let r = resource_handle(&RichNotFound, &request(Method::Get)).unwrap();
    assert_eq!(r.status, Some(404));
    assert_eq!(r.body, "Nothing here; try /index");
}

#[test]
fn repeated_runs_agree() {
    let mut req = request(Method::Get);
    req.accept = Some(vec![
        QualityItem::new(media("text", "plain"), 1000),
        QualityItem::new(media("application", "json"), 900),
    ]);
    let first = traverse(&Json, &req);
    let second = traverse(&Json, &req);
    assert_eq!(first, second);
}

#[test]
fn resource_error_as_text() {
    assert_eq!(ResourceError::NotImplemented.to_string(), "NotImplemented");
    assert_eq!(
        ResourceError::ApplicationError("out of paper".to_string()).to_string(),
        "ApplicationError(\"out of paper\")"
    );
    assert_eq!(
        ResourceError::ApplicationError("a \"b\"\n".to_string()).to_string(),
        "ApplicationError(\"a \\\"b\\\"\\n\")"
    );
}

#[test]
fn resource_error_description() {
    assert_eq!(ResourceError::NotImplemented.description(), "ResourceError");
    let e = ResourceError::ApplicationError("x".to_string());
    assert_eq!(e.clone(), e);
}
