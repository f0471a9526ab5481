//! The decision graph: which question follows which answer, and where the
//! walk ends.
//!
//! The graph is data.  Every node asks one question; its two successors are
//! looked up in a table.  A successor is another node, a terminal that
//! produces the response, or the end of the walk behind an action.  Every
//! edge leads to a node of lower rank, so a walk cannot return to a node and
//! ends after at most [`LONGEST_WALK`] visits.
use crate::message::Method;
use vstd::prelude::*;

verus! {

/// A node of the graph: a decision with two answers, or an action that
/// succeeds or fails.
#[derive(Clone, Copy, Debug, PartialEq, Eq, Structural)]
pub enum Node {
    /// Is the service available?
    ServiceAvailable,
    /// Is the method known?
    KnownMethod,
    /// Is the request target too long?
    UriTooLong,
    /// Is the method allowed on this resource?
    MethodAllowed,
    /// Is the request malformed?
    Malformed,
    /// Is the client authenticated?
    Authorized,
    /// Is the client permitted?
    Allowed,
    /// Are the content headers valid?
    ValidContentHeader,
    /// Is the content type of the request known?
    KnownContentType,
    /// Is the length of the request entity valid?
    ValidEntityLength,
    /// Is the method OPTIONS?
    IsOptions,
    /// Does the request state, or the resource imply, a media type preference?
    AcceptExists,
    /// Can a media type be negotiated?
    MediaTypeAvailable,
    /// Does the request state a language preference?
    AcceptLanguageExists,
    /// Can a language be negotiated?
    LanguageAvailable,
    /// Does the request state a charset preference?
    AcceptCharsetExists,
    /// Can a charset be negotiated?
    CharsetAvailable,
    /// Does the request state a content-coding preference?
    AcceptEncodingExists,
    /// Can a content coding be negotiated?
    EncodingAvailable,
    /// Is the request entity processable?
    Processable,
    /// Does the entity exist?
    Exists,
    /// Does the request carry `If-Match`?
    IfMatchExists,
    /// Is `If-Match` the wildcard `*`?
    IfMatchStar,
    /// Does a tag of `If-Match` match the entity strongly?
    IfMatch,
    /// Does the request carry `If-Unmodified-Since`?
    IfUnmodifiedSinceExists,
    /// Is the entity unmodified since the date of `If-Unmodified-Since`?
    IfUnmodifiedSince,
    /// Does the request carry `If-None-Match`?
    IfNoneMatchExists,
    /// Is `If-None-Match` the wildcard `*`?
    IfNoneMatchStar,
    /// Does a tag of `If-None-Match` match the entity weakly?
    IfNoneMatch,
    /// Is the method GET or HEAD?
    NoneMatchStatus,
    /// Does the request carry `If-Modified-Since`?
    IfModifiedSinceExists,
    /// Is the entity modified since the date of `If-Modified-Since`?
    IfModifiedSince,
    /// Is the method DELETE?
    MethodDelete,
    /// Is the method PATCH?
    MethodPatch,
    /// Is the method POST, the entity existing?
    PostToExisting,
    /// Is the method PUT, the entity existing?
    PutToExisting,
    /// Does the PUT conflict with the state of the entity?
    Conflict,
    /// Is `If-Match` the wildcard `*`, the entity missing?
    IfMatchStarExistsForMissing,
    /// Is the method PUT, the entity missing?
    MethodPut,
    /// Should the PUT go to another URL?
    PutToDifferentUrl,
    /// May a PUT create the missing entity?
    CanPutToMissing,
    /// Did the entity exist before?
    Existed,
    /// Was the entity moved permanently?
    MovedPermanently,
    /// Was the entity moved temporarily?
    MovedTemporarily,
    /// Is the method POST, the entity gone?
    PostToGone,
    /// May a POST reach the entity that is gone?
    CanPostToGone,
    /// Is the method POST, the entity never having existed?
    PostToMissing,
    /// May a POST reach the entity that never existed?
    CanPostToMissing,
    /// Should the client be redirected after the POST?
    PostRedirect,
    /// Was an entity created?
    New,
    /// Should the response carry an entity?
    RespondWithEntity,
    /// Are there several representations to choose from?
    MultipleRepresentations,
    /// Was the DELETE enacted?  Both answers lead the same way.
    DeleteEnacted,
    /// Run the `delete` action.
    PerformDelete,
    /// Run the `patch` action.
    PerformPatch,
    /// Run the `post` action.
    PerformPost,
    /// Run the `put` action.
    PerformPut,
    /// Run the `get` action, or `head` for a HEAD request; its response is final.
    PerformGet,
}

/// A terminal: it produces the response and ends the walk.
#[derive(Clone, Copy, Debug, PartialEq, Eq, Structural)]
pub enum Terminal {
    /// 503: Service unavailable
    ServiceUnavailable,
    /// 501: Unknown method
    UnknownMethod,
    /// 414: Request URI too long
    UriTooLong,
    /// 405: Method not allowed
    MethodNotAllowed,
    /// 400: Bad request
    Malformed,
    /// 401: Unauthorized
    Unauthorized,
    /// 403: Forbidden
    Forbidden,
    /// 501: Not implemented
    NotImplemented,
    /// 415: Unsupported media type
    UnsupportedMediaType,
    /// 413: Payload too large
    PayloadTooLarge,
    /// 406: Not Acceptable
    NotAcceptable,
    /// 422: Unprocessable entity
    UnprocessableEntity,
    /// 409: Conflict
    Conflict,
    /// 303: See other
    SeeOther,
    /// 201: Created
    Created,
    /// 412: Precondition failed
    PreconditionFailed,
    /// 304: Not modified
    NotModified,
    /// 301: Moved permanently
    MovedPermanently,
    /// 307: Temporary redirect
    MovedTemporarily,
    /// 410: Gone
    Gone,
    /// 404: Not found
    NotFound,
    /// 204: No content
    NoContent,
    /// 300: Multiple Choices
    MultipleRepresentations,
    /// 200: the answer to OPTIONS
    Options,
}

/// What comes after a node.
#[derive(Clone, Copy, Debug, PartialEq, Eq, Structural)]
pub enum Step {
    /// Another node is visited.
    Visit(Node),
    /// A terminal produces the response.
    Finish(Terminal),
    /// The walk ends with the response of the action just run.
    Respond,
    /// The walk ends with the failure of the action just run.
    Fail,
}

/// One visit of a walk: the node, and the answer it gave.  For an action the
/// answer says whether it succeeded.
#[derive(Clone, Copy, Debug, PartialEq, Eq, Structural)]
pub struct Visit {
    /// The node that was visited.
    pub node: Node,
    /// The answer of the decision, or whether the action succeeded.
    pub outcome: bool,
}

/// The most visits that any walk makes.
pub const LONGEST_WALK: usize = 41;

/// The node at which every walk starts.
pub open spec fn root() -> Node {
    Node::ServiceAvailable
}

/// The table of the graph: for each node, what follows the answer yes and
/// what follows the answer no.
pub open spec fn successors(node: Node) -> (Step, Step) {
    match node {
        Node::ServiceAvailable => (
            Step::Visit(Node::KnownMethod),
            Step::Finish(Terminal::ServiceUnavailable),
        ),
        Node::KnownMethod => (Step::Visit(Node::UriTooLong), Step::Finish(Terminal::UnknownMethod)),
        Node::UriTooLong => (Step::Finish(Terminal::UriTooLong), Step::Visit(Node::MethodAllowed)),
        Node::MethodAllowed => (
            Step::Visit(Node::Malformed),
            Step::Finish(Terminal::MethodNotAllowed),
        ),
        Node::Malformed => (Step::Finish(Terminal::Malformed), Step::Visit(Node::Authorized)),
        Node::Authorized => (Step::Visit(Node::Allowed), Step::Finish(Terminal::Unauthorized)),
        Node::Allowed => (Step::Visit(Node::ValidContentHeader), Step::Finish(Terminal::Forbidden)),
        Node::ValidContentHeader => (
            Step::Visit(Node::KnownContentType),
            Step::Finish(Terminal::NotImplemented),
        ),
        Node::KnownContentType => (
            Step::Visit(Node::ValidEntityLength),
            Step::Finish(Terminal::UnsupportedMediaType),
        ),
        Node::ValidEntityLength => (
            Step::Visit(Node::IsOptions),
            Step::Finish(Terminal::PayloadTooLarge),
        ),
        Node::IsOptions => (Step::Finish(Terminal::Options), Step::Visit(Node::AcceptExists)),
        Node::AcceptExists => (
            Step::Visit(Node::MediaTypeAvailable),
            Step::Visit(Node::AcceptLanguageExists),
        ),
        Node::MediaTypeAvailable => (
            Step::Visit(Node::AcceptLanguageExists),
            Step::Finish(Terminal::NotAcceptable),
        ),
        Node::AcceptLanguageExists => (
            Step::Visit(Node::LanguageAvailable),
            Step::Visit(Node::AcceptCharsetExists),
        ),
        Node::LanguageAvailable => (
            Step::Visit(Node::AcceptCharsetExists),
            Step::Finish(Terminal::NotAcceptable),
        ),
        Node::AcceptCharsetExists => (
            Step::Visit(Node::CharsetAvailable),
            Step::Visit(Node::AcceptEncodingExists),
        ),
        Node::CharsetAvailable => (
            Step::Visit(Node::AcceptEncodingExists),
            Step::Finish(Terminal::NotAcceptable),
        ),
        Node::AcceptEncodingExists => (
            Step::Visit(Node::EncodingAvailable),
            Step::Visit(Node::Processable),
        ),
        Node::EncodingAvailable => (
            Step::Visit(Node::Processable),
            Step::Finish(Terminal::NotAcceptable),
        ),
        Node::Processable => (
            Step::Visit(Node::Exists),
            Step::Finish(Terminal::UnprocessableEntity),
        ),
        Node::Exists => (
            Step::Visit(Node::IfMatchExists),
            Step::Visit(Node::IfMatchStarExistsForMissing),
        ),
        Node::IfMatchExists => (
            Step::Visit(Node::IfMatchStar),
            Step::Visit(Node::IfUnmodifiedSinceExists),
        ),
        Node::IfMatchStar => (
            Step::Visit(Node::IfUnmodifiedSinceExists),
            Step::Visit(Node::IfMatch),
        ),
        Node::IfMatch => (
            Step::Visit(Node::IfUnmodifiedSinceExists),
            Step::Finish(Terminal::PreconditionFailed),
        ),
        Node::IfUnmodifiedSinceExists => (
            Step::Visit(Node::IfUnmodifiedSince),
            Step::Visit(Node::IfNoneMatchExists),
        ),
        Node::IfUnmodifiedSince => (
            Step::Finish(Terminal::PreconditionFailed),
            Step::Visit(Node::IfNoneMatchExists),
        ),
        Node::IfNoneMatchExists => (
            Step::Visit(Node::IfNoneMatchStar),
            Step::Visit(Node::IfModifiedSinceExists),
        ),
        Node::IfNoneMatchStar => (
            Step::Visit(Node::IfNoneMatch),
            Step::Visit(Node::NoneMatchStatus),
        ),
        Node::IfNoneMatch => (
            Step::Visit(Node::NoneMatchStatus),
            Step::Visit(Node::IfModifiedSinceExists),
        ),
        Node::NoneMatchStatus => (
            Step::Finish(Terminal::NotModified),
            Step::Finish(Terminal::PreconditionFailed),
        ),
        Node::IfModifiedSinceExists => (
            Step::Visit(Node::IfModifiedSince),
            Step::Visit(Node::MethodDelete),
        ),
        Node::IfModifiedSince => (
            Step::Visit(Node::MethodDelete),
            Step::Finish(Terminal::NotModified),
        ),
        Node::MethodDelete => (Step::Visit(Node::PerformDelete), Step::Visit(Node::MethodPatch)),
        Node::MethodPatch => (Step::Visit(Node::PerformPatch), Step::Visit(Node::PostToExisting)),
        Node::PostToExisting => (Step::Visit(Node::PerformPost), Step::Visit(Node::PutToExisting)),
        Node::PutToExisting => (
            Step::Visit(Node::Conflict),
            Step::Visit(Node::MultipleRepresentations),
        ),
        Node::Conflict => (Step::Finish(Terminal::Conflict), Step::Visit(Node::PerformPut)),
        Node::IfMatchStarExistsForMissing => (
            Step::Finish(Terminal::PreconditionFailed),
            Step::Visit(Node::MethodPut),
        ),
        Node::MethodPut => (Step::Visit(Node::PutToDifferentUrl), Step::Visit(Node::Existed)),
        Node::PutToDifferentUrl => (
            Step::Finish(Terminal::MovedPermanently),
            Step::Visit(Node::CanPutToMissing),
        ),
        Node::CanPutToMissing => (
            Step::Visit(Node::Conflict),
            Step::Finish(Terminal::NotImplemented),
        ),
        Node::Existed => (Step::Visit(Node::MovedPermanently), Step::Visit(Node::PostToMissing)),
        Node::MovedPermanently => (
            Step::Finish(Terminal::MovedPermanently),
            Step::Visit(Node::MovedTemporarily),
        ),
        Node::MovedTemporarily => (
            Step::Finish(Terminal::MovedTemporarily),
            Step::Visit(Node::PostToGone),
        ),
        Node::PostToGone => (Step::Visit(Node::CanPostToGone), Step::Finish(Terminal::Gone)),
        Node::CanPostToGone => (Step::Visit(Node::PerformPost), Step::Finish(Terminal::Gone)),
        Node::PostToMissing => (
            Step::Visit(Node::CanPostToMissing),
            Step::Finish(Terminal::NotFound),
        ),
        Node::CanPostToMissing => (
            Step::Visit(Node::PerformPost),
            Step::Finish(Terminal::NotFound),
        ),
        Node::PostRedirect => (Step::Finish(Terminal::SeeOther), Step::Visit(Node::New)),
        Node::New => (Step::Finish(Terminal::Created), Step::Visit(Node::RespondWithEntity)),
        Node::RespondWithEntity => (
            Step::Visit(Node::MultipleRepresentations),
            Step::Finish(Terminal::NoContent),
        ),
        Node::MultipleRepresentations => (
            Step::Finish(Terminal::MultipleRepresentations),
            Step::Visit(Node::PerformGet),
        ),
        Node::DeleteEnacted => (
            Step::Visit(Node::RespondWithEntity),
            Step::Visit(Node::RespondWithEntity),
        ),
        Node::PerformDelete => (Step::Visit(Node::DeleteEnacted), Step::Fail),
        Node::PerformPatch => (Step::Visit(Node::RespondWithEntity), Step::Fail),
        Node::PerformPost => (Step::Visit(Node::PostRedirect), Step::Fail),
        Node::PerformPut => (Step::Visit(Node::New), Step::Fail),
        Node::PerformGet => (Step::Respond, Step::Fail),
    }
}

/// What follows `node` when it answers `outcome`.
pub open spec fn edge(node: Node, outcome: bool) -> Step {
    if outcome {
        successors(node).0
    } else {
        successors(node).1
    }
}

/// The length of the longest way from `node` to the end of a walk, counted
/// in edges between nodes.
pub open spec fn rank(node: Node) -> nat {
    match node {
        Node::ServiceAvailable => 40,
        Node::KnownMethod => 39,
        Node::UriTooLong => 38,
        Node::MethodAllowed => 37,
        Node::Malformed => 36,
        Node::Authorized => 35,
        Node::Allowed => 34,
        Node::ValidContentHeader => 33,
        Node::KnownContentType => 32,
        Node::ValidEntityLength => 31,
        Node::IsOptions => 30,
        Node::AcceptExists => 29,
        Node::MediaTypeAvailable => 28,
        Node::AcceptLanguageExists => 27,
        Node::LanguageAvailable => 26,
        Node::AcceptCharsetExists => 25,
        Node::CharsetAvailable => 24,
        Node::AcceptEncodingExists => 23,
        Node::EncodingAvailable => 22,
        Node::Processable => 21,
        Node::Exists => 20,
        Node::IfMatchExists => 19,
        Node::IfMatchStar => 18,
        Node::IfMatch => 17,
        Node::IfUnmodifiedSinceExists => 16,
        Node::IfUnmodifiedSince => 15,
        Node::IfNoneMatchExists => 14,
        Node::IfNoneMatchStar => 13,
        Node::IfNoneMatch => 12,
        Node::NoneMatchStatus => 0,
        Node::IfModifiedSinceExists => 11,
        Node::IfModifiedSince => 10,
        Node::MethodDelete => 9,
        Node::MethodPatch => 8,
        Node::PostToExisting => 7,
        Node::PutToExisting => 6,
        Node::Conflict => 5,
        Node::IfMatchStarExistsForMissing => 12,
        Node::MethodPut => 11,
        Node::PutToDifferentUrl => 7,
        Node::CanPutToMissing => 6,
        Node::Existed => 10,
        Node::MovedPermanently => 9,
        Node::MovedTemporarily => 8,
        Node::PostToGone => 7,
        Node::CanPostToGone => 6,
        Node::PostToMissing => 7,
        Node::CanPostToMissing => 6,
        Node::PostRedirect => 4,
        Node::New => 3,
        Node::RespondWithEntity => 2,
        Node::MultipleRepresentations => 1,
        Node::DeleteEnacted => 3,
        Node::PerformDelete => 4,
        Node::PerformPatch => 3,
        Node::PerformPost => 5,
        Node::PerformPut => 4,
        Node::PerformGet => 0,
    }
}

/// The status code that a terminal gives the response.
pub open spec fn status_of(terminal: Terminal) -> u16 {
    match terminal {
        Terminal::ServiceUnavailable => 503,
        Terminal::UnknownMethod => 501,
        Terminal::UriTooLong => 414,
        Terminal::MethodNotAllowed => 405,
        Terminal::Malformed => 400,
        Terminal::Unauthorized => 401,
        Terminal::Forbidden => 403,
        Terminal::NotImplemented => 501,
        Terminal::UnsupportedMediaType => 415,
        Terminal::PayloadTooLarge => 413,
        Terminal::NotAcceptable => 406,
        Terminal::UnprocessableEntity => 422,
        Terminal::Conflict => 409,
        Terminal::SeeOther => 303,
        Terminal::Created => 201,
        Terminal::PreconditionFailed => 412,
        Terminal::NotModified => 304,
        Terminal::MovedPermanently => 301,
        Terminal::MovedTemporarily => 307,
        Terminal::Gone => 410,
        Terminal::NotFound => 404,
        Terminal::NoContent => 204,
        Terminal::MultipleRepresentations => 300,
        Terminal::Options => 200,
    }
}

/// The short body that a terminal gives the response by default.
pub open spec fn reason_of(terminal: Terminal) -> Seq<char> {
    match terminal {
        Terminal::ServiceUnavailable => "Service unavailable"@,
        Terminal::UnknownMethod => "Unknown method"@,
        Terminal::UriTooLong => "Request URI too long"@,
        Terminal::MethodNotAllowed => "Method not allowed"@,
        Terminal::Malformed => "Bad request"@,
        Terminal::Unauthorized => "Unauthorized"@,
        Terminal::Forbidden => "Forbidden"@,
        Terminal::NotImplemented => "Not implemented"@,
        Terminal::UnsupportedMediaType => "Unsupported media type"@,
        Terminal::PayloadTooLarge => "Payload too large"@,
        Terminal::NotAcceptable => "Not Acceptable"@,
        Terminal::UnprocessableEntity => "Unprocessable entity"@,
        Terminal::Conflict => "Conflict"@,
        Terminal::SeeOther => "See other"@,
        Terminal::Created => "Created"@,
        Terminal::PreconditionFailed => "Precondition failed"@,
        Terminal::NotModified => "Not modified"@,
        Terminal::MovedPermanently => "Moved permanently"@,
        Terminal::MovedTemporarily => "Temporary redirect"@,
        Terminal::Gone => "Gone"@,
        Terminal::NotFound => "Not found"@,
        Terminal::NoContent => "No content"@,
        Terminal::MultipleRepresentations => "Multiple Choices"@,
        Terminal::Options => ""@,
    }
}

impl Terminal {
    /// The status code that this terminal gives the response.
    pub fn status(self) -> (code: u16)
        ensures
            code == status_of(self),
    {
        match self {
            Terminal::ServiceUnavailable => 503,
            Terminal::UnknownMethod => 501,
            Terminal::UriTooLong => 414,
            Terminal::MethodNotAllowed => 405,
            Terminal::Malformed => 400,
            Terminal::Unauthorized => 401,
            Terminal::Forbidden => 403,
            Terminal::NotImplemented => 501,
            Terminal::UnsupportedMediaType => 415,
            Terminal::PayloadTooLarge => 413,
            Terminal::NotAcceptable => 406,
            Terminal::UnprocessableEntity => 422,
            Terminal::Conflict => 409,
            Terminal::SeeOther => 303,
            Terminal::Created => 201,
            Terminal::PreconditionFailed => 412,
            Terminal::NotModified => 304,
            Terminal::MovedPermanently => 301,
            Terminal::MovedTemporarily => 307,
            Terminal::Gone => 410,
            Terminal::NotFound => 404,
            Terminal::NoContent => 204,
            Terminal::MultipleRepresentations => 300,
            Terminal::Options => 200,
        }
    }

    /// The short body that this terminal gives the response by default.
    pub fn reason(self) -> (text: &'static str)
        ensures
            text@ == reason_of(self),
    {
        match self {
            Terminal::ServiceUnavailable => "Service unavailable",
            Terminal::UnknownMethod => "Unknown method",
            Terminal::UriTooLong => "Request URI too long",
            Terminal::MethodNotAllowed => "Method not allowed",
            Terminal::Malformed => "Bad request",
            Terminal::Unauthorized => "Unauthorized",
            Terminal::Forbidden => "Forbidden",
            Terminal::NotImplemented => "Not implemented",
            Terminal::UnsupportedMediaType => "Unsupported media type",
            Terminal::PayloadTooLarge => "Payload too large",
            Terminal::NotAcceptable => "Not Acceptable",
            Terminal::UnprocessableEntity => "Unprocessable entity",
            Terminal::Conflict => "Conflict",
            Terminal::SeeOther => "See other",
            Terminal::Created => "Created",
            Terminal::PreconditionFailed => "Precondition failed",
            Terminal::NotModified => "Not modified",
            Terminal::MovedPermanently => "Moved permanently",
            Terminal::MovedTemporarily => "Temporary redirect",
            Terminal::Gone => "Gone",
            Terminal::NotFound => "Not found",
            Terminal::NoContent => "No content",
            Terminal::MultipleRepresentations => "Multiple Choices",
            Terminal::Options => "",
        }
    }
}

/// Looks both successors of `node` up in the table.
pub fn successors_of(node: Node) -> (both: (Step, Step))
    ensures
        both == successors(node),
{
    match node {
        Node::ServiceAvailable => (
            Step::Visit(Node::KnownMethod),
            Step::Finish(Terminal::ServiceUnavailable),
        ),
        Node::KnownMethod => (Step::Visit(Node::UriTooLong), Step::Finish(Terminal::UnknownMethod)),
        Node::UriTooLong => (Step::Finish(Terminal::UriTooLong), Step::Visit(Node::MethodAllowed)),
        Node::MethodAllowed => (
            Step::Visit(Node::Malformed),
            Step::Finish(Terminal::MethodNotAllowed),
        ),
        Node::Malformed => (Step::Finish(Terminal::Malformed), Step::Visit(Node::Authorized)),
        Node::Authorized => (Step::Visit(Node::Allowed), Step::Finish(Terminal::Unauthorized)),
        Node::Allowed => (Step::Visit(Node::ValidContentHeader), Step::Finish(Terminal::Forbidden)),
        Node::ValidContentHeader => (
            Step::Visit(Node::KnownContentType),
            Step::Finish(Terminal::NotImplemented),
        ),
        Node::KnownContentType => (
            Step::Visit(Node::ValidEntityLength),
            Step::Finish(Terminal::UnsupportedMediaType),
        ),
        Node::ValidEntityLength => (
            Step::Visit(Node::IsOptions),
            Step::Finish(Terminal::PayloadTooLarge),
        ),
        Node::IsOptions => (Step::Finish(Terminal::Options), Step::Visit(Node::AcceptExists)),
        Node::AcceptExists => (
            Step::Visit(Node::MediaTypeAvailable),
            Step::Visit(Node::AcceptLanguageExists),
        ),
        Node::MediaTypeAvailable => (
            Step::Visit(Node::AcceptLanguageExists),
            Step::Finish(Terminal::NotAcceptable),
        ),
        Node::AcceptLanguageExists => (
            Step::Visit(Node::LanguageAvailable),
            Step::Visit(Node::AcceptCharsetExists),
        ),
        Node::LanguageAvailable => (
            Step::Visit(Node::AcceptCharsetExists),
            Step::Finish(Terminal::NotAcceptable),
        ),
        Node::AcceptCharsetExists => (
            Step::Visit(Node::CharsetAvailable),
            Step::Visit(Node::AcceptEncodingExists),
        ),
        Node::CharsetAvailable => (
            Step::Visit(Node::AcceptEncodingExists),
            Step::Finish(Terminal::NotAcceptable),
        ),
        Node::AcceptEncodingExists => (
            Step::Visit(Node::EncodingAvailable),
            Step::Visit(Node::Processable),
        ),
        Node::EncodingAvailable => (
            Step::Visit(Node::Processable),
            Step::Finish(Terminal::NotAcceptable),
        ),
        Node::Processable => (
            Step::Visit(Node::Exists),
            Step::Finish(Terminal::UnprocessableEntity),
        ),
        Node::Exists => (
            Step::Visit(Node::IfMatchExists),
            Step::Visit(Node::IfMatchStarExistsForMissing),
        ),
        Node::IfMatchExists => (
            Step::Visit(Node::IfMatchStar),
            Step::Visit(Node::IfUnmodifiedSinceExists),
        ),
        Node::IfMatchStar => (
            Step::Visit(Node::IfUnmodifiedSinceExists),
            Step::Visit(Node::IfMatch),
        ),
        Node::IfMatch => (
            Step::Visit(Node::IfUnmodifiedSinceExists),
            Step::Finish(Terminal::PreconditionFailed),
        ),
        Node::IfUnmodifiedSinceExists => (
            Step::Visit(Node::IfUnmodifiedSince),
            Step::Visit(Node::IfNoneMatchExists),
        ),
        Node::IfUnmodifiedSince => (
            Step::Finish(Terminal::PreconditionFailed),
            Step::Visit(Node::IfNoneMatchExists),
        ),
        Node::IfNoneMatchExists => (
            Step::Visit(Node::IfNoneMatchStar),
            Step::Visit(Node::IfModifiedSinceExists),
        ),
        Node::IfNoneMatchStar => (
            Step::Visit(Node::IfNoneMatch),
            Step::Visit(Node::NoneMatchStatus),
        ),
        Node::IfNoneMatch => (
            Step::Visit(Node::NoneMatchStatus),
            Step::Visit(Node::IfModifiedSinceExists),
        ),
        Node::NoneMatchStatus => (
            Step::Finish(Terminal::NotModified),
            Step::Finish(Terminal::PreconditionFailed),
        ),
        Node::IfModifiedSinceExists => (
            Step::Visit(Node::IfModifiedSince),
            Step::Visit(Node::MethodDelete),
        ),
        Node::IfModifiedSince => (
            Step::Visit(Node::MethodDelete),
            Step::Finish(Terminal::NotModified),
        ),
        Node::MethodDelete => (Step::Visit(Node::PerformDelete), Step::Visit(Node::MethodPatch)),
        Node::MethodPatch => (Step::Visit(Node::PerformPatch), Step::Visit(Node::PostToExisting)),
        Node::PostToExisting => (Step::Visit(Node::PerformPost), Step::Visit(Node::PutToExisting)),
        Node::PutToExisting => (
            Step::Visit(Node::Conflict),
            Step::Visit(Node::MultipleRepresentations),
        ),
        Node::Conflict => (Step::Finish(Terminal::Conflict), Step::Visit(Node::PerformPut)),
        Node::IfMatchStarExistsForMissing => (
            Step::Finish(Terminal::PreconditionFailed),
            Step::Visit(Node::MethodPut),
        ),
        Node::MethodPut => (Step::Visit(Node::PutToDifferentUrl), Step::Visit(Node::Existed)),
        Node::PutToDifferentUrl => (
            Step::Finish(Terminal::MovedPermanently),
            Step::Visit(Node::CanPutToMissing),
        ),
        Node::CanPutToMissing => (
            Step::Visit(Node::Conflict),
            Step::Finish(Terminal::NotImplemented),
        ),
        Node::Existed => (Step::Visit(Node::MovedPermanently), Step::Visit(Node::PostToMissing)),
        Node::MovedPermanently => (
            Step::Finish(Terminal::MovedPermanently),
            Step::Visit(Node::MovedTemporarily),
        ),
        Node::MovedTemporarily => (
            Step::Finish(Terminal::MovedTemporarily),
            Step::Visit(Node::PostToGone),
        ),
        Node::PostToGone => (Step::Visit(Node::CanPostToGone), Step::Finish(Terminal::Gone)),
        Node::CanPostToGone => (Step::Visit(Node::PerformPost), Step::Finish(Terminal::Gone)),
        Node::PostToMissing => (
            Step::Visit(Node::CanPostToMissing),
            Step::Finish(Terminal::NotFound),
        ),
        Node::CanPostToMissing => (
            Step::Visit(Node::PerformPost),
            Step::Finish(Terminal::NotFound),
        ),
        Node::PostRedirect => (Step::Finish(Terminal::SeeOther), Step::Visit(Node::New)),
        Node::New => (Step::Finish(Terminal::Created), Step::Visit(Node::RespondWithEntity)),
        Node::RespondWithEntity => (
            Step::Visit(Node::MultipleRepresentations),
            Step::Finish(Terminal::NoContent),
        ),
        Node::MultipleRepresentations => (
            Step::Finish(Terminal::MultipleRepresentations),
            Step::Visit(Node::PerformGet),
        ),
        Node::DeleteEnacted => (
            Step::Visit(Node::RespondWithEntity),
            Step::Visit(Node::RespondWithEntity),
        ),
        Node::PerformDelete => (Step::Visit(Node::DeleteEnacted), Step::Fail),
        Node::PerformPatch => (Step::Visit(Node::RespondWithEntity), Step::Fail),
        Node::PerformPost => (Step::Visit(Node::PostRedirect), Step::Fail),
        Node::PerformPut => (Step::Visit(Node::New), Step::Fail),
        Node::PerformGet => (Step::Respond, Step::Fail),
    }
}

/// The step that follows `node` when it answers `outcome`.
pub fn successor(node: Node, outcome: bool) -> (next: Step)
    ensures
        next == edge(node, outcome),
        next matches Step::Visit(then) ==> rank(then) < rank(node),
{
    let both = successors_of(node);
    if outcome {
        both.0
    } else {
        both.1
    }
}

/// Whether `node` is an action rather than a decision.
pub open spec fn acts(node: Node) -> bool {
    node == Node::PerformDelete || node == Node::PerformPatch || node == Node::PerformPost
        || node == Node::PerformPut || node == Node::PerformGet
}

/// Every edge leads to a node of strictly lower rank: the graph has no cycle.
pub proof fn edges_descend(node: Node, outcome: bool)
    ensures
        edge(node, outcome) matches Step::Visit(then) ==> rank(then) < rank(node),
        rank(node) <= rank(root()),
        rank(root()) + 1 == LONGEST_WALK,
{
}

/// A walk fails only behind an action, and ends with an action's response
/// only behind the action that retrieves.
pub proof fn ends_behind_actions(node: Node, outcome: bool)
    ensures
        edge(node, outcome) is Fail <==> acts(node) && !outcome,
        edge(node, outcome) is Respond <==> node == Node::PerformGet && outcome,
        acts(node) ==> !(edge(node, outcome) is Finish),
{
}

/// Where the visits `visits`, made in this order from the step `from`, lead:
/// the step after the last visit, or nothing if some visit is not of the node
/// that the walk had reached.
pub open spec fn follow(from: Step, visits: Seq<Visit>) -> Option<Step>
    decreases visits.len(),
{
    if visits.len() == 0 {
        Some(from)
    } else {
        match from {
            Step::Visit(node) => if visits[0].node == node {
                follow(edge(node, visits[0].outcome), visits.drop_first())
            } else {
                None
            },
            _ => None,
        }
    }
}

/// The visits are a walk of the graph from its root that is over: they lead
/// to `end`, which is no further node.
pub open spec fn complete_walk(visits: Seq<Visit>, end: Step) -> bool {
    follow(Step::Visit(root()), visits) == Some(end) && !(end is Visit)
}

/// Every answer of the walk is the one that `oracle` gives for the node.
pub open spec fn answered_by(visits: Seq<Visit>, oracle: spec_fn(Node) -> bool) -> bool {
    forall|k: int|
        0 <= k < visits.len() ==> (#[trigger] visits[k]).outcome == oracle(visits[k].node)
}

/// The walk from `node` when every node answers as `oracle` says.
pub open spec fn route(node: Node, oracle: spec_fn(Node) -> bool) -> Seq<Visit>
    decreases rank(node),
{
    let visit = Visit { node, outcome: oracle(node) };
    match edge(node, oracle(node)) {
        Step::Visit(then) => seq![visit] + route(then, oracle),
        _ => seq![visit],
    }
}

/// Where the walk from `node` ends when every node answers as `oracle` says.
pub open spec fn destination(node: Node, oracle: spec_fn(Node) -> bool) -> Step
    decreases rank(node),
{
    match edge(node, oracle(node)) {
        Step::Visit(then) => destination(then, oracle),
        end => end,
    }
}

/// Nothing can be visited from a step that is no node.
pub proof fn ends_are_final(from: Step, visits: Seq<Visit>)
    requires
        !(from is Visit),
    ensures
        follow(from, visits) is Some <==> visits.len() == 0,
{
}

/// One more visit, of the node that a walk has reached, extends the walk by
/// that node's edge.
pub proof fn follow_push(from: Step, visits: Seq<Visit>, node: Node, outcome: bool)
    requires
        follow(from, visits) == Some(Step::Visit(node)),
    ensures
        follow(from, visits.push((Visit { node, outcome }))) == Some(edge(node, outcome)),
    decreases visits.len(),
{
    let longer = visits.push(Visit { node, outcome });
    if visits.len() == 0 {
        assert(longer.drop_first() =~= Seq::<Visit>::empty());
        assert(follow(edge(node, outcome), longer.drop_first()) == Some(edge(node, outcome)));
    } else {
        assert(longer.drop_first() =~= visits.drop_first().push(Visit { node, outcome }));
        match from {
            Step::Visit(first) => {
                follow_push(edge(first, visits[0].outcome), visits.drop_first(), node, outcome);
            },
            _ => {},
        }
    }
}

/// A walk is its visits but the last, followed by the edge of the last: the
/// visits before the last lead to its node, and the walk leads where the
/// edge of the last visit leads.
pub proof fn the_last_edge(from: Step, visits: Seq<Visit>)
    requires
        visits.len() > 0,
        follow(from, visits) is Some,
    ensures
        follow(from, visits.drop_last()) == Some(Step::Visit(visits.last().node)),
        follow(from, visits) == Some(edge(visits.last().node, visits.last().outcome)),
    decreases visits.len(),
{
    match from {
        Step::Visit(node) => {
            let rest = visits.drop_first();
            if rest.len() == 0 {
                assert(visits.drop_last() =~= Seq::<Visit>::empty());
                assert(follow(edge(node, visits[0].outcome), rest) == Some(
                    edge(node, visits[0].outcome),
                ));
            } else {
                the_last_edge(edge(node, visits[0].outcome), rest);
                assert(visits.drop_last().drop_first() =~= rest.drop_last());
                assert(visits.drop_last()[0] == visits[0]);
            }
        },
        _ => {},
    }
}

/// A visit whose edge leads to no further node is the last of its walk.
pub proof fn an_end_is_last(from: Step, visits: Seq<Visit>, k: int)
    requires
        follow(from, visits) is Some,
        0 <= k < visits.len(),
        !(edge(visits[k].node, visits[k].outcome) is Visit),
    ensures
        k == visits.len() - 1,
    decreases visits.len(),
{
    match from {
        Step::Visit(node) => {
            let rest = visits.drop_first();
            if k == 0 {
                ends_are_final(edge(node, visits[0].outcome), rest);
            } else {
                assert(rest[k - 1] == visits[k]);
                an_end_is_last(edge(node, visits[0].outcome), rest, k - 1);
            }
        },
        _ => {},
    }
}

/// A walk that has reached a node has made at most as many visits as the
/// ranks between its start and that node allow.
pub proof fn walks_descend(start: Node, visits: Seq<Visit>)
    requires
        follow(Step::Visit(start), visits) is Some,
    ensures
        visits.len() <= rank(start) + 1,
        follow(Step::Visit(start), visits) matches Some(Step::Visit(node)) ==> visits.len() + rank(
            node,
        ) <= rank(start),
    decreases visits.len(),
{
    if visits.len() > 0 {
        edges_descend(start, visits[0].outcome);
        match edge(start, visits[0].outcome) {
            Step::Visit(then) => {
                walks_descend(then, visits.drop_first());
            },
            end => {
                ends_are_final(end, visits.drop_first());
            },
        }
    }
}

/// Totality: whatever the nodes answer, the walk from `node` is a walk of
/// the graph, it is over after at most `rank(node) + 1` visits, and it ends
/// in a terminal or behind an action.
pub proof fn every_walk_ends(node: Node, oracle: spec_fn(Node) -> bool)
    ensures
        follow(Step::Visit(node), route(node, oracle)) == Some(destination(node, oracle)),
        !(destination(node, oracle) is Visit),
        answered_by(route(node, oracle), oracle),
        1 <= route(node, oracle).len() <= rank(node) + 1,
        route(node, oracle)[0].node == node,
    decreases rank(node),
{
    let visit = Visit { node, outcome: oracle(node) };
    let visits = route(node, oracle);
    match edge(node, oracle(node)) {
        Step::Visit(then) => {
            every_walk_ends(then, oracle);
            assert(visits.drop_first() =~= route(then, oracle));
            assert forall|k: int| 0 <= k < visits.len() implies (#[trigger] visits[k]).outcome
                == oracle(visits[k].node) by {
                if k > 0 {
                    assert(visits[k] == route(then, oracle)[k - 1]);
                }
            }
        },
        _ => {
            assert(visits.drop_first() =~= Seq::<Visit>::empty());
            assert(follow(edge(node, oracle(node)), visits.drop_first()) == Some(
                edge(node, oracle(node)),
            ));
        },
    }
}

/// Exactly one end: a walk from `node` that is over, and whose answers are
/// those of `oracle`, is the walk that `oracle` determines.
pub proof fn the_walk_is_unique(
    node: Node,
    oracle: spec_fn(Node) -> bool,
    visits: Seq<Visit>,
    end: Step,
)
    requires
        follow(Step::Visit(node), visits) == Some(end),
        !(end is Visit),
        answered_by(visits, oracle),
    ensures
        visits == route(node, oracle),
        end == destination(node, oracle),
    decreases rank(node),
{
    assert(visits.len() > 0);
    assert(visits[0].outcome == oracle(visits[0].node));
    let rest = visits.drop_first();
    assert forall|k: int| 0 <= k < rest.len() implies (#[trigger] rest[k]).outcome == oracle(
        rest[k].node,
    ) by {
        assert(rest[k] == visits[k + 1]);
    }
    match edge(node, oracle(node)) {
        Step::Visit(then) => {
            the_walk_is_unique(then, oracle, rest, end);
            assert(visits =~= seq![visits[0]] + rest);
        },
        last => {
            ends_are_final(last, rest);
            assert(visits =~= seq![visits[0]]);
        },
    }
}

/// What a request says in an `If-Match` or `If-None-Match` header, as far as
/// the graph asks.
#[derive(Clone, Copy, Debug, PartialEq, Eq, Structural)]
pub enum TagHeader {
    /// The header is absent.
    Absent,
    /// The header names `*`.
    Star,
    /// The header lists entity tags.
    Listed,
}

/// What the graph asks of a request itself: its method, and which of the
/// headers that the engine reads it carries.
pub struct Situation {
    /// The method of the request.
    pub method: Method,
    /// Whether `Accept-Language` states a preference.
    pub language: bool,
    /// Whether `Accept-Charset` states a preference.
    pub charset: bool,
    /// Whether `Accept-Encoding` states a preference.
    pub encoding: bool,
    /// What `If-Match` says.
    pub if_match: TagHeader,
    /// Whether `If-Unmodified-Since` is present.
    pub if_unmodified_since: bool,
    /// What `If-None-Match` says.
    pub if_none_match: TagHeader,
    /// Whether `If-Modified-Since` is present.
    pub if_modified_since: bool,
}

/// What the request itself answers at `node`: the tests of the method and
/// of the presence of headers.  The other nodes ask the resource.
pub open spec fn settled_by(node: Node, s: Situation) -> Option<bool> {
    match node {
        Node::IsOptions => Some(s.method is Options),
        Node::AcceptLanguageExists => Some(s.language),
        Node::AcceptCharsetExists => Some(s.charset),
        Node::AcceptEncodingExists => Some(s.encoding),
        Node::IfMatchExists => Some(s.if_match != TagHeader::Absent),
        Node::IfMatchStar | Node::IfMatchStarExistsForMissing => Some(
            s.if_match == TagHeader::Star,
        ),
        Node::IfUnmodifiedSinceExists => Some(s.if_unmodified_since),
        Node::IfNoneMatchExists => Some(s.if_none_match != TagHeader::Absent),
        Node::IfNoneMatchStar => Some(s.if_none_match == TagHeader::Star),
        Node::NoneMatchStatus => Some(s.method.retrieves()),
        Node::IfModifiedSinceExists => Some(s.if_modified_since),
        Node::MethodDelete => Some(s.method is Delete),
        Node::MethodPatch => Some(s.method is Patch),
        Node::PostToExisting | Node::PostToGone | Node::PostToMissing => Some(s.method is Post),
        Node::PutToExisting | Node::MethodPut => Some(s.method is Put),
        _ => None,
    }
}

/// Every answer of the walk that the request settles is the one that the
/// request gives in the situation `s`.
pub open spec fn respects(visits: Seq<Visit>, s: Situation) -> bool {
    forall|k: int|
        0 <= k < visits.len() ==> (settled_by((#[trigger] visits[k]).node, s) matches Some(b)
            ==> visits[k].outcome == b)
}

/// The answers of all nodes in the situation `s`, where the nodes that ask
/// the resource answer as `hooks` says.
pub open spec fn answers_in(s: Situation, hooks: spec_fn(Node) -> bool) -> spec_fn(Node) -> bool {
    |node: Node|
        match settled_by(node, s) {
            Some(b) => b,
            None => hooks(node),
        }
}

/// Totality, for every combination of method, headers and answers of the
/// resource: the walk from the root ends in a terminal or behind an action,
/// after at most [`LONGEST_WALK`] visits, and its answers are those of the
/// request wherever the request settles them.
pub proof fn every_combination_ends(s: Situation, hooks: spec_fn(Node) -> bool)
    ensures
        complete_walk(
            route(root(), answers_in(s, hooks)),
            destination(root(), answers_in(s, hooks)),
        ),
        route(root(), answers_in(s, hooks)).len() <= LONGEST_WALK,
        respects(route(root(), answers_in(s, hooks)), s),
{
    let oracle = answers_in(s, hooks);
    every_walk_ends(root(), oracle);
    let visits = route(root(), oracle);
    assert forall|k: int| 0 <= k < visits.len() implies (settled_by(
        (#[trigger] visits[k]).node,
        s,
    ) matches Some(b) ==> visits[k].outcome == b) by {
        assert(visits[k].outcome == oracle(visits[k].node));
    }
}

/// One edge into each node but the root: the node it leaves and the answer
/// that it takes.
pub open spec fn entry(node: Node) -> (Node, bool) {
    match node {
        Node::ServiceAvailable => (Node::ServiceAvailable, true),
        Node::KnownMethod => (Node::ServiceAvailable, true),
        Node::UriTooLong => (Node::KnownMethod, true),
        Node::MethodAllowed => (Node::UriTooLong, false),
        Node::Malformed => (Node::MethodAllowed, true),
        Node::Authorized => (Node::Malformed, false),
        Node::Allowed => (Node::Authorized, true),
        Node::ValidContentHeader => (Node::Allowed, true),
        Node::KnownContentType => (Node::ValidContentHeader, true),
        Node::ValidEntityLength => (Node::KnownContentType, true),
        Node::IsOptions => (Node::ValidEntityLength, true),
        Node::AcceptExists => (Node::IsOptions, false),
        Node::MediaTypeAvailable => (Node::AcceptExists, true),
        Node::AcceptLanguageExists => (Node::AcceptExists, false),
        Node::LanguageAvailable => (Node::AcceptLanguageExists, true),
        Node::AcceptCharsetExists => (Node::AcceptLanguageExists, false),
        Node::CharsetAvailable => (Node::AcceptCharsetExists, true),
        Node::AcceptEncodingExists => (Node::AcceptCharsetExists, false),
        Node::EncodingAvailable => (Node::AcceptEncodingExists, true),
        Node::Processable => (Node::AcceptEncodingExists, false),
        Node::Exists => (Node::Processable, true),
        Node::IfMatchExists => (Node::Exists, true),
        Node::IfMatchStar => (Node::IfMatchExists, true),
        Node::IfMatch => (Node::IfMatchStar, false),
        Node::IfUnmodifiedSinceExists => (Node::IfMatchExists, false),
        Node::IfUnmodifiedSince => (Node::IfUnmodifiedSinceExists, true),
        Node::IfNoneMatchExists => (Node::IfUnmodifiedSinceExists, false),
        Node::IfNoneMatchStar => (Node::IfNoneMatchExists, true),
        Node::IfNoneMatch => (Node::IfNoneMatchStar, true),
        Node::NoneMatchStatus => (Node::IfNoneMatchStar, false),
        Node::IfModifiedSinceExists => (Node::IfNoneMatchExists, false),
        Node::IfModifiedSince => (Node::IfModifiedSinceExists, true),
        Node::MethodDelete => (Node::IfModifiedSinceExists, false),
        Node::MethodPatch => (Node::MethodDelete, false),
        Node::PostToExisting => (Node::MethodPatch, false),
        Node::PutToExisting => (Node::PostToExisting, false),
        Node::Conflict => (Node::PutToExisting, true),
        Node::IfMatchStarExistsForMissing => (Node::Exists, false),
        Node::MethodPut => (Node::IfMatchStarExistsForMissing, false),
        Node::PutToDifferentUrl => (Node::MethodPut, true),
        Node::CanPutToMissing => (Node::PutToDifferentUrl, false),
        Node::Existed => (Node::MethodPut, false),
        Node::MovedPermanently => (Node::Existed, true),
        Node::MovedTemporarily => (Node::MovedPermanently, false),
        Node::PostToGone => (Node::MovedTemporarily, false),
        Node::CanPostToGone => (Node::PostToGone, true),
        Node::PostToMissing => (Node::Existed, false),
        Node::CanPostToMissing => (Node::PostToMissing, true),
        Node::PostRedirect => (Node::PerformPost, true),
        Node::New => (Node::PostRedirect, false),
        Node::RespondWithEntity => (Node::New, false),
        Node::MultipleRepresentations => (Node::PutToExisting, false),
        Node::DeleteEnacted => (Node::PerformDelete, true),
        Node::PerformDelete => (Node::MethodDelete, true),
        Node::PerformPatch => (Node::MethodPatch, true),
        Node::PerformPost => (Node::PostToExisting, true),
        Node::PerformPut => (Node::Conflict, false),
        Node::PerformGet => (Node::MultipleRepresentations, false),
    }
}

/// `node` does not come behind `test` on the way along [`entry`].
pub open spec fn not_behind(node: Node, test: Node) -> bool {
    rank(node) >= rank(test)
}

/// The methods under which the way to `node` along [`entry`] is open.
pub open spec fn admits_method(node: Node, method: Method) -> bool {
    match node {
        Node::ServiceAvailable
        | Node::KnownMethod
        | Node::UriTooLong
        | Node::MethodAllowed
        | Node::Malformed
        | Node::Authorized
        | Node::Allowed
        | Node::ValidContentHeader
        | Node::KnownContentType
        | Node::ValidEntityLength
        | Node::IsOptions => true,
        Node::MethodPatch => !(method is Options) && !(method is Delete),
        Node::PostToExisting => !(method is Options) && !(method is Delete) && !(method is Patch),
        Node::PutToExisting => method.retrieves() || method is Put || method is Other,
        Node::MultipleRepresentations | Node::PerformGet => method.retrieves() || method is Other,
        Node::Conflict
        | Node::PutToDifferentUrl
        | Node::CanPutToMissing
        | Node::PerformPut => method is Put,
        Node::Existed
        | Node::MovedPermanently
        | Node::MovedTemporarily
        | Node::PostToGone
        | Node::PostToMissing => !(method is Options) && !(method is Put),
        Node::CanPostToGone
        | Node::CanPostToMissing
        | Node::PostRedirect
        | Node::New
        | Node::RespondWithEntity
        | Node::PerformPost => method is Post,
        Node::DeleteEnacted | Node::PerformDelete => method is Delete,
        Node::PerformPatch => method is Patch,
        _ => !(method is Options),
    }
}

/// The headers under which the way to `node` along [`entry`] is open: a
/// node behind the test of a header needs the header absent, but for the
/// nodes that are entered because it is present.
pub open spec fn admits_headers(node: Node, s: Situation) -> bool {
    &&& not_behind(node, Node::AcceptLanguageExists) || s.language == (node
        == Node::LanguageAvailable)
    &&& not_behind(node, Node::AcceptCharsetExists) || s.charset == (node == Node::CharsetAvailable)
    &&& not_behind(node, Node::AcceptEncodingExists) || s.encoding == (node
        == Node::EncodingAvailable)
    &&& not_behind(node, Node::IfMatchExists) || match node {
        Node::IfMatchStar => s.if_match != TagHeader::Absent,
        Node::IfMatch => s.if_match == TagHeader::Listed,
        _ => s.if_match == TagHeader::Absent,
    }
    &&& not_behind(node, Node::IfUnmodifiedSinceExists) || s.if_unmodified_since == (node
        == Node::IfUnmodifiedSince)
    &&& not_behind(node, Node::IfNoneMatchExists) || match node {
        Node::IfNoneMatchStar => s.if_none_match != TagHeader::Absent,
        Node::IfNoneMatch => s.if_none_match == TagHeader::Star,
        Node::NoneMatchStatus => s.if_none_match == TagHeader::Listed,
        _ => s.if_none_match == TagHeader::Absent,
    }
    &&& not_behind(node, Node::IfModifiedSinceExists) || s.if_modified_since == (node
        == Node::IfModifiedSince)
}

/// The situations in which the way to `node` along [`entry`] is open.
pub open spec fn admits(node: Node, s: Situation) -> bool {
    admits_method(node, s.method) && admits_headers(node, s)
}

/// A method under which `node` can be reached.
pub open spec fn opening_method(node: Node) -> Method {
    match node {
        Node::Conflict
        | Node::PutToDifferentUrl
        | Node::CanPutToMissing
        | Node::PerformPut => Method::Put,
        Node::CanPostToGone
        | Node::CanPostToMissing
        | Node::PostRedirect
        | Node::New
        | Node::RespondWithEntity
        | Node::PerformPost => Method::Post,
        Node::DeleteEnacted | Node::PerformDelete => Method::Delete,
        Node::PerformPatch => Method::Patch,
        _ => Method::Get,
    }
}

/// A situation in which `node` can be reached: the request carries no
/// header but the one, if any, whose presence leads into the node.
pub open spec fn opening(node: Node) -> Situation {
    Situation {
        method: opening_method(node),
        language: node == Node::LanguageAvailable,
        charset: node == Node::CharsetAvailable,
        encoding: node == Node::EncodingAvailable,
        if_match: match node {
            Node::IfMatchStar | Node::IfMatch => TagHeader::Listed,
            _ => TagHeader::Absent,
        },
        if_unmodified_since: node == Node::IfUnmodifiedSince,
        if_none_match: match node {
            Node::IfNoneMatchStar | Node::IfNoneMatch => TagHeader::Star,
            Node::NoneMatchStatus => TagHeader::Listed,
            _ => TagHeader::Absent,
        },
        if_modified_since: node == Node::IfModifiedSince,
    }
}

/// The way along [`entry`] stays open: a situation that admits a node
/// admits the node before it, and gives the answer that leads on.
pub proof fn entries_stay_open(node: Node, s: Situation)
    requires
        admits(node, s),
        node != root(),
    ensures
        admits(entry(node).0, s),
        edge(entry(node).0, entry(node).1) == Step::Visit(node),
        settled_by(entry(node).0, s) matches Some(b) ==> b == entry(node).1,
        rank(entry(node).0) > rank(node),
{
}

/// A walk from the root that reaches `node` and respects the situation `s`.
pub proof fn way_to(node: Node, s: Situation) -> (visits: Seq<Visit>)
    requires
        admits(node, s),
    ensures
        follow(Step::Visit(root()), visits) == Some(Step::Visit(node)),
        respects(visits, s),
    decreases rank(root()) - rank(node),
{
    if node == root() {
        Seq::empty()
    } else {
        entries_stay_open(node, s);
        let (before, outcome) = entry(node);
        let visits = way_to(before, s);
        follow_push(Step::Visit(root()), visits, before, outcome);
        visits.push(Visit { node: before, outcome })
    }
}

/// The visits are a walk from the root that reaches `node`, and every
/// answer on the way that the request settles is that of the situation `s`.
pub open spec fn reaches(visits: Seq<Visit>, s: Situation, node: Node) -> bool {
    follow(Step::Visit(root()), visits) == Some(Step::Visit(node)) && respects(visits, s)
}

/// No node is unreachable: for every node there are a method, a set of
/// headers and answers of the resource under which a walk from the root
/// visits the node.
pub proof fn every_node_is_reachable(node: Node)
    ensures
        exists|visits: Seq<Visit>, s: Situation| reaches(visits, s, node),
{
    let s = opening(node);
    let visits = way_to(node, s);
    assert(reaches(visits, s, node));
}

} // verus!
