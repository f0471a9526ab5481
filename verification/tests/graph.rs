use austenite::graph::{successor, successors_of, Node, Step, Terminal, LONGEST_WALK};

const TERMINALS: [(Terminal, u16, &str); 24] = [
    (Terminal::Options, 200, ""),
    (Terminal::Created, 201, "Created"),
    (Terminal::NoContent, 204, "No content"),
    (Terminal::MultipleRepresentations, 300, "Multiple Choices"),
    (Terminal::MovedPermanently, 301, "Moved permanently"),
    (Terminal::SeeOther, 303, "See other"),
    (Terminal::NotModified, 304, "Not modified"),
    (Terminal::MovedTemporarily, 307, "Temporary redirect"),
    (Terminal::Malformed, 400, "Bad request"),
    (Terminal::Unauthorized, 401, "Unauthorized"),
    (Terminal::Forbidden, 403, "Forbidden"),
    (Terminal::NotFound, 404, "Not found"),
    (Terminal::MethodNotAllowed, 405, "Method not allowed"),
    (Terminal::NotAcceptable, 406, "Not Acceptable"),
    (Terminal::Conflict, 409, "Conflict"),
    (Terminal::Gone, 410, "Gone"),
    (Terminal::PreconditionFailed, 412, "Precondition failed"),
    (Terminal::PayloadTooLarge, 413, "Payload too large"),
    (Terminal::UriTooLong, 414, "Request URI too long"),
    (Terminal::UnsupportedMediaType, 415, "Unsupported media type"),
    (Terminal::UnprocessableEntity, 422, "Unprocessable entity"),
    (Terminal::UnknownMethod, 501, "Unknown method"),
    (Terminal::NotImplemented, 501, "Not implemented"),
    (Terminal::ServiceUnavailable, 503, "Service unavailable"),
];

#[test]
fn terminals_have_their_status_and_reason() {
    for (terminal, status, reason) in TERMINALS {
        assert_eq!(terminal.status(), status);
        assert_eq!(terminal.reason(), reason);
    }
}

#[test]
fn the_first_edges() {
    assert_eq!(successor(Node::ServiceAvailable, true), Step::Visit(Node::KnownMethod));
    assert_eq!(
        successor(Node::ServiceAvailable, false),
        Step::Finish(Terminal::ServiceUnavailable)
    );
    assert_eq!(successor(Node::UriTooLong, true), Step::Finish(Terminal::UriTooLong));
    assert_eq!(successor(Node::UriTooLong, false), Step::Visit(Node::MethodAllowed));
    assert_eq!(successor(Node::IsOptions, true), Step::Finish(Terminal::Options));
    assert_eq!(successor(Node::IsOptions, false), Step::Visit(Node::AcceptExists));
}

#[test]
fn edges_of_the_preconditions() {
    assert_eq!(successor(Node::IfMatchStar, true), Step::Visit(Node::IfUnmodifiedSinceExists));
    assert_eq!(successor(Node::IfMatchStar, false), Step::Visit(Node::IfMatch));
    assert_eq!(successor(Node::IfMatch, false), Step::Finish(Terminal::PreconditionFailed));
    assert_eq!(
        successor(Node::IfUnmodifiedSince, true),
        Step::Finish(Terminal::PreconditionFailed)
    );
    assert_eq!(successor(Node::IfNoneMatchStar, true), Step::Visit(Node::IfNoneMatch));
    assert_eq!(successor(Node::IfNoneMatchStar, false), Step::Visit(Node::NoneMatchStatus));
    assert_eq!(successor(Node::IfNoneMatch, true), Step::Visit(Node::NoneMatchStatus));
    assert_eq!(successor(Node::NoneMatchStatus, true), Step::Finish(Terminal::NotModified));
    assert_eq!(
        successor(Node::NoneMatchStatus, false),
        Step::Finish(Terminal::PreconditionFailed)
    );
    assert_eq!(successor(Node::IfModifiedSince, false), Step::Finish(Terminal::NotModified));
}

#[test]
fn edges_behind_the_actions() {
    assert_eq!(successor(Node::PerformDelete, true), Step::Visit(Node::DeleteEnacted));
    assert_eq!(successor(Node::DeleteEnacted, true), Step::Visit(Node::RespondWithEntity));
    assert_eq!(successor(Node::DeleteEnacted, false), Step::Visit(Node::RespondWithEntity));
    assert_eq!(successor(Node::PerformPatch, true), Step::Visit(Node::RespondWithEntity));
    assert_eq!(successor(Node::PerformPost, true), Step::Visit(Node::PostRedirect));
    assert_eq!(successor(Node::PerformPut, true), Step::Visit(Node::New));
    assert_eq!(successor(Node::PerformGet, true), Step::Respond);
    for action in [
        Node::PerformDelete,
        Node::PerformPatch,
        Node::PerformPost,
        Node::PerformPut,
        Node::PerformGet,
    ] {
        assert_eq!(successor(action, false), Step::Fail);
    }
}

#[test]
fn successor_picks_from_the_table() {
    let (yes, no) = successors_of(Node::Conflict);
    assert_eq!(yes, Step::Finish(Terminal::Conflict));
    assert_eq!(no, Step::Visit(Node::PerformPut));
    assert_eq!(successor(Node::Conflict, true), yes);
    assert_eq!(successor(Node::Conflict, false), no);
}

/// The longest walk from `node`, found by trying both answers everywhere.
fn longest_from(node: Node, depth: usize) -> usize {
    assert!(depth <= LONGEST_WALK, "a walk returned to a node");
    let mut longest = 1;
    for outcome in [true, false] {
        if let Step::Visit(then) = successor(node, outcome) {
            longest = longest.max(1 + longest_from(then, depth + 1));
        }
    }
    longest
}

#[test]
fn no_walk_is_longer_than_the_longest() {
    assert_eq!(longest_from(Node::ServiceAvailable, 1), 41);
    assert_eq!(LONGEST_WALK, 41);
}
