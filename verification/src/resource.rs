//! Resources: the hooks by which a resource answers the questions of the
//! decision graph, and the engine that walks the graph over them.
//!
//! One value of a type that implements [`Resource`] serves many requests.  The
//! engine calls its hooks in the order of the graph, one request at a time,
//! and keeps all that belongs to a request in the [`Request`] and the
//! [`Response`] that it hands to the hooks.
use crate::content_neg::{
    coding_acceptable, imply_media_type, implied_media_type, is_stated, media_type_outcome,
    media_type_rule, negotiate_charset, negotiate_encoding, negotiate_language,
    negotiate_media_type, stated, token_outcome, Encoding, EncodingView, MediaType, MediaTypeView,
    Negotiation,
};
use crate::graph::{
    acts, answered_by, destination, ends_behind_actions, follow, follow_push, rank, reason_of,
    respects, root, route, settled_by, status_of, successor, the_walk_is_unique, walks_descend,
    Node, Situation, Step, TagHeader, Terminal, Visit, LONGEST_WALK,
};
use crate::message::{Method, Request, Response};
use crate::preference::negotiated_iff_acceptable;
use crate::precondition::{
    changed_since, if_match_holds, if_none_match_holds, is_modified_since, is_unmodified_since,
    matches_strongly, matches_weakly, names_any, unchanged_since, EntityTag, EntityTagMatchView,
    EntityTagView, Timestamp,
};
use vstd::prelude::*;

verus! {

/// Why a hook could not produce a response.
#[derive(Debug, PartialEq, Eq)]
pub enum ResourceError {
    /// The hook is not implemented.
    NotImplemented,
    /// The application failed, with this message.
    ApplicationError(String),
}

/// What the standard library's `Debug` makes of a string: the text between
/// double quotes, with the characters escaped that a string literal would
/// escape.
pub uninterp spec fn debug_quoted(text: Seq<char>) -> Seq<char>;

/// Formats `text` with `{:?}`, that is with the standard library's
/// `<str as Debug>::fmt`.  The result is the value that the name
/// [`debug_quoted`] stands for.
#[verifier::external_body]
fn quoted(text: &str) -> (r: String)
    ensures
        r@ == debug_quoted(text@),
{
    format!("{:?}", text)
}

/// The error as text: the name of the variant, and for a failure of the
/// application its message behind it, in brackets and quoted.
pub open spec fn error_text(error: ResourceError) -> Seq<char> {
    match error {
        ResourceError::NotImplemented => "NotImplemented"@,
        ResourceError::ApplicationError(text) => "ApplicationError("@ + debug_quoted(text@) + ")"@,
    }
}

impl ResourceError {
    /// A short name for errors of this type.
    pub fn description(&self) -> (text: &'static str)
        ensures
            text@ == "ResourceError"@,
    {
        "ResourceError"
    }

    /// The error as text, for logs and messages.
    pub fn to_string(&self) -> (text: String)
        ensures
            text@ == error_text(*self),
    {
        match self {
            ResourceError::NotImplemented => "NotImplemented".to_owned(),
            ResourceError::ApplicationError(message) => {
                let mut text = "ApplicationError(".to_owned();
                let inner = quoted(message.as_str());
                text.append(inner.as_str());
                text.append(")");
                text
            },
        }
    }
}

impl Clone for ResourceError {
    fn clone(&self) -> (r: Self)
        ensures
            r == *self,
    {
        match self {
            ResourceError::NotImplemented => ResourceError::NotImplemented,
            ResourceError::ApplicationError(text) => ResourceError::ApplicationError(text.clone()),
        }
    }
}

/// What an action or a terminal returns: the response, or the reason why
/// there is none.
pub type ResourceResult = Result<Response, ResourceError>;

/// A failed request: the error of the hook, and the response that reports
/// it to the client.
#[derive(Debug, PartialEq, Eq)]
pub struct Failure {
    /// What went wrong.
    pub error: ResourceError,
    /// The response that tells the client.
    pub response: Response,
}

/// The status that reports `error`: 501 for a hook that is not implemented,
/// 500 for a failure of the application.
pub open spec fn failure_status(error: ResourceError) -> u16 {
    match error {
        ResourceError::NotImplemented => 501,
        ResourceError::ApplicationError(_) => 500,
    }
}

/// The body that reports `error`: the application's message, or the words
/// "Not implemented".
pub open spec fn failure_text(error: ResourceError) -> Seq<char> {
    match error {
        ResourceError::NotImplemented => "Not implemented"@,
        ResourceError::ApplicationError(text) => text@,
    }
}

/// The media type that goes with the message of a failed application:
/// `text/plain`.
pub open spec fn plain_text() -> MediaTypeView {
    MediaTypeView { top_level: "text"@, sub_level: "plain"@, parameters: Seq::empty() }
}

/// `failure` reports its error as the engine does: on a response that holds
/// nothing but the status and the body for that error and, for a failure of
/// the application, the media type `text/plain`.
pub open spec fn reports(failure: Failure) -> bool {
    &&& failure.response.status == Some(failure_status(failure.error))
    &&& failure.response.body@ == failure_text(failure.error)
    &&& failure.response.content_type.deep_view() == if failure.error is ApplicationError {
        Some(plain_text())
    } else {
        None
    }
    &&& failure.response.content_language is None
    &&& failure.response.charset is None
    &&& failure.response.headers@.len() == 0
}

/// The failure that reports `error` to the client.
pub fn failure_of(error: ResourceError) -> (failure: Failure)
    ensures
        failure.error == error,
        reports(failure),
{
    let mut response = Response::new();
    match &error {
        ResourceError::NotImplemented => {
            response.set_status_and_body(501, "Not implemented");
        },
        ResourceError::ApplicationError(text) => {
            response.set_status_and_body(500, text.as_str());
            let plain = MediaType::new("text".to_owned(), "plain".to_owned(), Vec::new());
            assert(plain.deep_view() =~= plain_text());
            response.content_type = Some(plain);
        },
    }
    Failure { error, response }
}

/// `after` is `before` with the status and the short body of `terminal`,
/// and nothing else changed.
pub open spec fn finished(terminal: Terminal, before: Response, after: Response) -> bool {
    &&& after.status == Some(status_of(terminal))
    &&& after.body@ == reason_of(terminal)
    &&& after.content_type == before.content_type
    &&& after.content_language == before.content_language
    &&& after.charset == before.charset
    &&& after.headers == before.headers
}

/// The handler of `terminal` succeeded with the response `before`, given
/// the status and the short body of the terminal and otherwise unchanged.
pub open spec fn finishes(terminal: Terminal, before: Response, out: ResourceResult) -> bool {
    out matches Ok(after) && finished(terminal, before, after)
}

/// Gives `resp` the status and the default body of `terminal`, and leaves
/// the rest of it as it is.
pub fn terminal_response(terminal: Terminal, resp: Response) -> (r: Response)
    ensures
        finished(terminal, resp, r),
{
    let mut r = resp;
    r.set_status_and_body(terminal.status(), terminal.reason());
    r
}

/// A hook of a [`Resource`], by name.
#[derive(Clone, Copy, Debug, PartialEq, Eq, Structural)]
pub enum Hook {
    /// [`Resource::service_available`]
    ServiceAvailable,
    /// [`Resource::known_method`]
    KnownMethod,
    /// [`Resource::uri_too_long`]
    UriTooLong,
    /// [`Resource::method_allowed`]
    MethodAllowed,
    /// [`Resource::malformed`]
    Malformed,
    /// [`Resource::authorized`]
    Authorized,
    /// [`Resource::allowed`]
    Allowed,
    /// [`Resource::valid_content_header`]
    ValidContentHeader,
    /// [`Resource::known_content_type`]
    KnownContentType,
    /// [`Resource::valid_entity_length`]
    ValidEntityLength,
    /// [`Resource::resource_exists`]
    ResourceExists,
    /// [`Resource::existed`]
    Existed,
    /// [`Resource::respond_with_entity`]
    RespondWithEntity,
    /// [`Resource::new`]
    New,
    /// [`Resource::post_redirect`]
    PostRedirect,
    /// [`Resource::put_to_different_url`]
    PutToDifferentUrl,
    /// [`Resource::multiple_representations`]
    MultipleRepresentations,
    /// [`Resource::conflict`]
    Conflict,
    /// [`Resource::can_post_to_missing`]
    CanPostToMissing,
    /// [`Resource::can_post_to_gone`]
    CanPostToGone,
    /// [`Resource::can_put_to_missing`]
    CanPutToMissing,
    /// [`Resource::moved_permanently`]
    MovedPermanently,
    /// [`Resource::moved_temporarily`]
    MovedTemporarily,
    /// [`Resource::delete_enacted`]
    DeleteEnacted,
    /// [`Resource::processable`]
    Processable,
    /// [`Resource::etag`]
    Etag,
    /// [`Resource::last_modified`]
    LastModified,
    /// [`Resource::get`]
    Get,
    /// [`Resource::head`]
    Head,
    /// [`Resource::delete`]
    Delete,
    /// [`Resource::patch`]
    Patch,
    /// [`Resource::post`]
    Post,
    /// [`Resource::put`]
    Put,
    /// [`Resource::available_languages`]
    AvailableLanguages,
    /// [`Resource::available_charsets`]
    AvailableCharsets,
    /// [`Resource::available_encodings`]
    AvailableEncodings,
    /// [`Resource::available_content_types`]
    AvailableContentTypes,
    /// [`Resource::handle_service_unavailable`]
    HandleServiceUnavailable,
    /// [`Resource::handle_unknown_method`]
    HandleUnknownMethod,
    /// [`Resource::handle_uri_too_long`]
    HandleUriTooLong,
    /// [`Resource::handle_method_not_allowed`]
    HandleMethodNotAllowed,
    /// [`Resource::handle_malformed`]
    HandleMalformed,
    /// [`Resource::handle_unauthorized`]
    HandleUnauthorized,
    /// [`Resource::handle_forbidden`]
    HandleForbidden,
    /// [`Resource::handle_not_implemented`]
    HandleNotImplemented,
    /// [`Resource::handle_unsupported_media_type`]
    HandleUnsupportedMediaType,
    /// [`Resource::handle_payload_too_large`]
    HandlePayloadTooLarge,
    /// [`Resource::handle_not_acceptable`]
    HandleNotAcceptable,
    /// [`Resource::handle_unprocessable_entity`]
    HandleUnprocessableEntity,
    /// [`Resource::handle_conflict`]
    HandleConflict,
    /// [`Resource::handle_see_other`]
    HandleSeeOther,
    /// [`Resource::handle_created`]
    HandleCreated,
    /// [`Resource::handle_precondition_failed`]
    HandlePreconditionFailed,
    /// [`Resource::handle_not_modified`]
    HandleNotModified,
    /// [`Resource::handle_moved_permanently`]
    HandleMovedPermanently,
    /// [`Resource::handle_moved_temporarily`]
    HandleMovedTemporarily,
    /// [`Resource::handle_gone`]
    HandleGone,
    /// [`Resource::handle_not_found`]
    HandleNotFound,
    /// [`Resource::handle_no_content`]
    HandleNoContent,
    /// [`Resource::handle_multiple_representations`]
    HandleMultipleRepresentations,
    /// [`Resource::handle_options`]
    HandleOptions,
}

/// The hook failed as one that is not implemented does.
pub open spec fn not_implemented(out: ResourceResult) -> bool {
    out matches Err(ResourceError::NotImplemented)
}

/// The languages that a resource offers by default: `*`, any.
pub open spec fn default_languages() -> Seq<Seq<char>> {
    seq!["*"@]
}

/// The charsets that a resource offers by default: `UTF-8`.
pub open spec fn default_charsets() -> Seq<Seq<char>> {
    seq!["UTF-8"@]
}

/// The content codings that a resource offers by default: `identity`.
pub open spec fn default_encodings() -> Seq<EncodingView> {
    seq![EncodingView::Identity]
}

/// An HTTP resource.
///
/// Every hook has a default; implement those that the resource answers
/// differently.  The predicates, the providers and the metadata hooks may
/// change the response they are given, but never its status: only actions
/// and terminals set one.  A terminal gives the response the status of that
/// terminal, whatever else it puts into it.
///
/// A resource that keeps the default of a hook can say so in
/// [`Resource::overrides`]; the hook then answers as its default does and
/// leaves the response as it is.
#[allow(unused_variables)]
pub trait Resource: Sync + Send {
    /// Whether this resource may answer `hook` in its own way rather than by
    /// the default.  Unless a resource says otherwise, it may do so for
    /// every hook.
    open spec fn overrides(&self, hook: Hook) -> bool {
        true
    }

    /// Whether the service is available.  Answering no leads to 503 Service
    /// Unavailable.  Yes by default.
    fn service_available(&self, req: &Request, resp: &mut Response) -> (b: bool)
        ensures
            final(resp).status == old(resp).status,
            !self.overrides(Hook::ServiceAvailable) ==> b && *final(resp) == *old(resp),
    {
        true
    }

    /// Whether the method of the request is known.  Answering no leads to 501
    /// Not Implemented.  By default the seven methods that the engine knows
    /// are.
    fn known_method(&self, req: &Request, resp: &mut Response) -> (b: bool)
        ensures
            final(resp).status == old(resp).status,
            !self.overrides(Hook::KnownMethod) ==> b == req.method.known()
                && *final(resp) == *old(resp),
    {
        req.method.is_known()
    }

    /// Whether the request target is too long.  Answering yes leads to 414 URI
    /// Too Long.  No by default.
    fn uri_too_long(&self, req: &Request, resp: &mut Response) -> (b: bool)
        ensures
            final(resp).status == old(resp).status,
            !self.overrides(Hook::UriTooLong) ==> !b && *final(resp) == *old(resp),
    {
        false
    }

    /// Whether the method is allowed on the resource.  Answering no leads to
    /// 405 Method Not Allowed.  By default GET and HEAD are.
    fn method_allowed(&self, req: &Request, resp: &mut Response) -> (b: bool)
        ensures
            final(resp).status == old(resp).status,
            !self.overrides(Hook::MethodAllowed) ==> b == req.method.retrieves()
                && *final(resp) == *old(resp),
    {
        req.method.is_retrieval()
    }

    /// Whether the request is malformed.  Answering yes leads to 400 Bad
    /// Request.  No by default.
    fn malformed(&self, req: &Request, resp: &mut Response) -> (b: bool)
        ensures
            final(resp).status == old(resp).status,
            !self.overrides(Hook::Malformed) ==> !b && *final(resp) == *old(resp),
    {
        false
    }

    /// Whether the client is authenticated.  Answering no leads to 401
    /// Unauthorized.  Yes by default.
    fn authorized(&self, req: &Request, resp: &mut Response) -> (b: bool)
        ensures
            final(resp).status == old(resp).status,
            !self.overrides(Hook::Authorized) ==> b && *final(resp) == *old(resp),
    {
        true
    }

    /// Whether the client is permitted.  Answering no leads to 403 Forbidden.
    /// Yes by default.
    fn allowed(&self, req: &Request, resp: &mut Response) -> (b: bool)
        ensures
            final(resp).status == old(resp).status,
            !self.overrides(Hook::Allowed) ==> b && *final(resp) == *old(resp),
    {
        true
    }

    /// Whether the content headers are valid.  Answering no leads to 501 Not
    /// Implemented.  Yes by default.
    fn valid_content_header(&self, req: &Request, resp: &mut Response) -> (b: bool)
        ensures
            final(resp).status == old(resp).status,
            !self.overrides(Hook::ValidContentHeader) ==> b && *final(resp) == *old(resp),
    {
        true
    }

    /// Whether the content type of the request is known.  Answering no leads
    /// to 415 Unsupported Media Type.  Yes by default.
    fn known_content_type(&self, req: &Request, resp: &mut Response) -> (b: bool)
        ensures
            final(resp).status == old(resp).status,
            !self.overrides(Hook::KnownContentType) ==> b && *final(resp) == *old(resp),
    {
        true
    }

    /// Whether the length of the request entity is valid.  Answering no leads
    /// to 413 Payload Too Large.  Yes by default.
    fn valid_entity_length(&self, req: &Request, resp: &mut Response) -> (b: bool)
        ensures
            final(resp).status == old(resp).status,
            !self.overrides(Hook::ValidEntityLength) ==> b && *final(resp) == *old(resp),
    {
        true
    }

    /// Whether the entity exists.  This decides how POST, PUT and DELETE are
    /// handled.  Yes by default.
    fn resource_exists(&self, req: &Request, resp: &mut Response) -> (b: bool)
        ensures
            final(resp).status == old(resp).status,
            !self.overrides(Hook::ResourceExists) ==> b && *final(resp) == *old(resp),
    {
        true
    }

    /// Whether the entity existed before.  This decides how GET, POST and PUT
    /// on a missing entity are handled.  No by default.
    fn existed(&self, req: &Request, resp: &mut Response) -> (b: bool)
        ensures
            final(resp).status == old(resp).status,
            !self.overrides(Hook::Existed) ==> !b && *final(resp) == *old(resp),
    {
        false
    }

    /// Whether the response carries an entity.  Answering no leads to 204 No
    /// Content.  No by default.
    fn respond_with_entity(&self, req: &Request, resp: &mut Response) -> (b: bool)
        ensures
            final(resp).status == old(resp).status,
            !self.overrides(Hook::RespondWithEntity) ==> !b && *final(resp) == *old(resp),
    {
        false
    }

    /// Whether the request created an entity.  Answering yes leads to 201
    /// Created.  Yes by default.
    fn new(&self, req: &Request, resp: &mut Response) -> (b: bool)
        ensures
            final(resp).status == old(resp).status,
            !self.overrides(Hook::New) ==> b && *final(resp) == *old(resp),
    {
        true
    }

    /// Whether to redirect the client after a POST.  Answering yes leads to
    /// 303 See Other.  No by default.
    fn post_redirect(&self, req: &Request, resp: &mut Response) -> (b: bool)
        ensures
            final(resp).status == old(resp).status,
            !self.overrides(Hook::PostRedirect) ==> !b && *final(resp) == *old(resp),
    {
        false
    }

    /// Whether the PUT should go to another URL.  Answering yes leads to 301
    /// Moved Permanently.  No by default.
    fn put_to_different_url(&self, req: &Request, resp: &mut Response) -> (b: bool)
        ensures
            final(resp).status == old(resp).status,
            !self.overrides(Hook::PutToDifferentUrl) ==> !b && *final(resp) == *old(resp),
    {
        false
    }

    /// Whether there are several representations to choose from.  Answering
    /// yes leads to 300 Multiple Choices.  No by default.
    fn multiple_representations(&self, req: &Request, resp: &mut Response) -> (b: bool)
        ensures
            final(resp).status == old(resp).status,
            !self.overrides(Hook::MultipleRepresentations) ==> !b && *final(resp) == *old(resp),
    {
        false
    }

    /// Whether the PUT conflicts with the state of the entity.  Answering yes
    /// leads to 409 Conflict.  No by default.
    fn conflict(&self, req: &Request, resp: &mut Response) -> (b: bool)
        ensures
            final(resp).status == old(resp).status,
            !self.overrides(Hook::Conflict) ==> !b && *final(resp) == *old(resp),
    {
        false
    }

    /// Whether a POST may reach an entity that never existed.  Answering no
    /// leads to 404 Not Found.  Yes by default.
    fn can_post_to_missing(&self, req: &Request, resp: &mut Response) -> (b: bool)
        ensures
            final(resp).status == old(resp).status,
            !self.overrides(Hook::CanPostToMissing) ==> b && *final(resp) == *old(resp),
    {
        true
    }

    /// Whether a POST may reach an entity that is gone.  Answering no leads to
    /// 410 Gone.  No by default.
    fn can_post_to_gone(&self, req: &Request, resp: &mut Response) -> (b: bool)
        ensures
            final(resp).status == old(resp).status,
            !self.overrides(Hook::CanPostToGone) ==> !b && *final(resp) == *old(resp),
    {
        false
    }

    /// Whether a PUT may create a missing entity.  Answering no leads to 501
    /// Not Implemented.  Yes by default.
    fn can_put_to_missing(&self, req: &Request, resp: &mut Response) -> (b: bool)
        ensures
            final(resp).status == old(resp).status,
            !self.overrides(Hook::CanPutToMissing) ==> b && *final(resp) == *old(resp),
    {
        true
    }

    /// Whether the entity was moved permanently.  Answering yes leads to 301
    /// Moved Permanently.  No by default.
    fn moved_permanently(&self, req: &Request, resp: &mut Response) -> (b: bool)
        ensures
            final(resp).status == old(resp).status,
            !self.overrides(Hook::MovedPermanently) ==> !b && *final(resp) == *old(resp),
    {
        false
    }

    /// Whether the entity was moved temporarily.  Answering yes leads to 307
    /// Temporary Redirect.  No by default.
    fn moved_temporarily(&self, req: &Request, resp: &mut Response) -> (b: bool)
        ensures
            final(resp).status == old(resp).status,
            !self.overrides(Hook::MovedTemporarily) ==> !b && *final(resp) == *old(resp),
    {
        false
    }

    /// Whether the DELETE was enacted.  The graph asks, and goes on the same
    /// way whatever the answer.  Yes by default.
    fn delete_enacted(&self, req: &Request, resp: &mut Response) -> (b: bool)
        ensures
            final(resp).status == old(resp).status,
            !self.overrides(Hook::DeleteEnacted) ==> b && *final(resp) == *old(resp),
    {
        true
    }

    /// Whether the request entity is processable.  Answering no leads to 422
    /// Unprocessable Entity.  Yes by default.
    fn processable(&self, req: &Request, resp: &mut Response) -> (b: bool)
        ensures
            final(resp).status == old(resp).status,
            !self.overrides(Hook::Processable) ==> b && *final(resp) == *old(resp),
    {
        true
    }

    /// The entity tag of the entity, if it has one.  None by default.
    fn etag(&self, req: &Request, resp: &mut Response) -> (tag: Option<EntityTag>)
        ensures
            final(resp).status == old(resp).status,
            !self.overrides(Hook::Etag) ==> tag is None && *final(resp) == *old(resp),
    {
        None
    }

    /// When the entity was last modified, if that is known.  Unknown by
    /// default.
    fn last_modified(&self, req: &Request, resp: &Response) -> (time: Option<Timestamp>)
        ensures
            !self.overrides(Hook::LastModified) ==> time is None,
    {
        None
    }

    /// Executes a GET request.  Not implemented by default.
    fn get(&self, req: &Request, resp: Response) -> (out: ResourceResult)
        ensures
            !self.overrides(Hook::Get) ==> not_implemented(out),
    {
        Err(ResourceError::NotImplemented)
    }

    /// Executes a HEAD request.  By default it does what [`Resource::get`]
    /// does: its result is one that `get` gives for the same request and
    /// response.
    fn head(&self, req: &Request, resp: Response) -> (out: ResourceResult)
        ensures
            !self.overrides(Hook::Head) ==> call_ensures(Self::get, (self, req, resp), out),
    {
        self.get(req, resp)
    }

    /// Executes a DELETE request.  Not implemented by default.
    fn delete(&self, req: &Request, resp: Response) -> (out: ResourceResult)
        ensures
            !self.overrides(Hook::Delete) ==> not_implemented(out),
    {
        Err(ResourceError::NotImplemented)
    }

    /// Executes a PATCH request.  Not implemented by default.
    fn patch(&self, req: &Request, resp: Response) -> (out: ResourceResult)
        ensures
            !self.overrides(Hook::Patch) ==> not_implemented(out),
    {
        Err(ResourceError::NotImplemented)
    }

    /// Executes a POST request.  Not implemented by default.
    fn post(&self, req: &Request, resp: Response) -> (out: ResourceResult)
        ensures
            !self.overrides(Hook::Post) ==> not_implemented(out),
    {
        Err(ResourceError::NotImplemented)
    }

    /// Executes a PUT request.  Not implemented by default.
    fn put(&self, req: &Request, resp: Response) -> (out: ResourceResult)
        ensures
            !self.overrides(Hook::Put) ==> not_implemented(out),
    {
        Err(ResourceError::NotImplemented)
    }

    /// The languages in which the resource is available.  By default `*`:
    /// any.
    fn available_languages(&self, req: &Request, resp: &mut Response) -> (list: Vec<String>)
        ensures
            final(resp).status == old(resp).status,
            !self.overrides(Hook::AvailableLanguages) ==> list.deep_view() == default_languages()
                && *final(resp) == *old(resp),
    {
        let list = vec!["*".to_owned()];
        assert(list.deep_view() =~= default_languages());
        list
    }

    /// The charsets in which the resource is available.  By default `UTF-8`.
    fn available_charsets(&self, req: &Request, resp: &mut Response) -> (list: Vec<String>)
        ensures
            final(resp).status == old(resp).status,
            !self.overrides(Hook::AvailableCharsets) ==> list.deep_view() == default_charsets()
                && *final(resp) == *old(resp),
    {
        let list = vec!["UTF-8".to_owned()];
        assert(list.deep_view() =~= default_charsets());
        list
    }

    /// The content codings in which the resource is available.  By default
    /// `identity`.
    fn available_encodings(&self, req: &Request, resp: &mut Response) -> (list: Vec<Encoding>)
        ensures
            final(resp).status == old(resp).status,
            !self.overrides(Hook::AvailableEncodings) ==> list.deep_view() == default_encodings()
                && *final(resp) == *old(resp),
    {
        let list = vec![Encoding::Identity];
        assert(list.deep_view() =~= default_encodings());
        list
    }

    /// The media types in which the resource is available.  None by
    /// default.
    fn available_content_types(&self, req: &Request, resp: &mut Response) -> (list: Vec<
        MediaType,
    >)
        ensures
            final(resp).status == old(resp).status,
            !self.overrides(Hook::AvailableContentTypes) ==> list.deep_view().len() == 0
                && *final(resp) == *old(resp),
    {
        Vec::new()
    }

    /// Produces the response of the terminal [`Terminal::ServiceUnavailable`]:
    /// by default the response it is given, with the status and the short
    /// body of that terminal.
    fn handle_service_unavailable(&self, req: &Request, resp: Response) -> (out: ResourceResult)
        ensures
            out matches Ok(r) ==> r.status == Some(status_of(Terminal::ServiceUnavailable)),
            !self.overrides(Hook::HandleServiceUnavailable) ==> finishes(
                Terminal::ServiceUnavailable,
                resp,
                out,
            ),
    {
        Ok(terminal_response(Terminal::ServiceUnavailable, resp))
    }

    /// Produces the response of the terminal [`Terminal::UnknownMethod`]:
    /// by default the response it is given, with the status and the short
    /// body of that terminal.
    fn handle_unknown_method(&self, req: &Request, resp: Response) -> (out: ResourceResult)
        ensures
            out matches Ok(r) ==> r.status == Some(status_of(Terminal::UnknownMethod)),
            !self.overrides(Hook::HandleUnknownMethod) ==> finishes(
                Terminal::UnknownMethod,
                resp,
                out,
            ),
    {
        Ok(terminal_response(Terminal::UnknownMethod, resp))
    }

    /// Produces the response of the terminal [`Terminal::UriTooLong`]:
    /// by default the response it is given, with the status and the short
    /// body of that terminal.
    fn handle_uri_too_long(&self, req: &Request, resp: Response) -> (out: ResourceResult)
        ensures
            out matches Ok(r) ==> r.status == Some(status_of(Terminal::UriTooLong)),
            !self.overrides(Hook::HandleUriTooLong) ==> finishes(Terminal::UriTooLong, resp, out),
    {
        Ok(terminal_response(Terminal::UriTooLong, resp))
    }

    /// Produces the response of the terminal [`Terminal::MethodNotAllowed`]:
    /// by default the response it is given, with the status and the short
    /// body of that terminal.
    fn handle_method_not_allowed(&self, req: &Request, resp: Response) -> (out: ResourceResult)
        ensures
            out matches Ok(r) ==> r.status == Some(status_of(Terminal::MethodNotAllowed)),
            !self.overrides(Hook::HandleMethodNotAllowed) ==> finishes(
                Terminal::MethodNotAllowed,
                resp,
                out,
            ),
    {
        Ok(terminal_response(Terminal::MethodNotAllowed, resp))
    }

    /// Produces the response of the terminal [`Terminal::Malformed`]:
    /// by default the response it is given, with the status and the short
    /// body of that terminal.
    fn handle_malformed(&self, req: &Request, resp: Response) -> (out: ResourceResult)
        ensures
            out matches Ok(r) ==> r.status == Some(status_of(Terminal::Malformed)),
            !self.overrides(Hook::HandleMalformed) ==> finishes(Terminal::Malformed, resp, out),
    {
        Ok(terminal_response(Terminal::Malformed, resp))
    }

    /// Produces the response of the terminal [`Terminal::Unauthorized`]:
    /// by default the response it is given, with the status and the short
    /// body of that terminal.
    fn handle_unauthorized(&self, req: &Request, resp: Response) -> (out: ResourceResult)
        ensures
            out matches Ok(r) ==> r.status == Some(status_of(Terminal::Unauthorized)),
            !self.overrides(Hook::HandleUnauthorized) ==> finishes(
                Terminal::Unauthorized,
                resp,
                out,
            ),
    {
        Ok(terminal_response(Terminal::Unauthorized, resp))
    }

    /// Produces the response of the terminal [`Terminal::Forbidden`]:
    /// by default the response it is given, with the status and the short
    /// body of that terminal.
    fn handle_forbidden(&self, req: &Request, resp: Response) -> (out: ResourceResult)
        ensures
            out matches Ok(r) ==> r.status == Some(status_of(Terminal::Forbidden)),
            !self.overrides(Hook::HandleForbidden) ==> finishes(Terminal::Forbidden, resp, out),
    {
        Ok(terminal_response(Terminal::Forbidden, resp))
    }

    /// Produces the response of the terminal [`Terminal::NotImplemented`]:
    /// by default the response it is given, with the status and the short
    /// body of that terminal.
    fn handle_not_implemented(&self, req: &Request, resp: Response) -> (out: ResourceResult)
        ensures
            out matches Ok(r) ==> r.status == Some(status_of(Terminal::NotImplemented)),
            !self.overrides(Hook::HandleNotImplemented) ==> finishes(
                Terminal::NotImplemented,
                resp,
                out,
            ),
    {
        Ok(terminal_response(Terminal::NotImplemented, resp))
    }

    /// Produces the response of the terminal [`Terminal::UnsupportedMediaType`]:
    /// by default the response it is given, with the status and the short
    /// body of that terminal.
    fn handle_unsupported_media_type(&self, req: &Request, resp: Response) -> (out: ResourceResult)
        ensures
            out matches Ok(r) ==> r.status == Some(status_of(Terminal::UnsupportedMediaType)),
            !self.overrides(Hook::HandleUnsupportedMediaType) ==> finishes(
                Terminal::UnsupportedMediaType,
                resp,
                out,
            ),
    {
        Ok(terminal_response(Terminal::UnsupportedMediaType, resp))
    }

    /// Produces the response of the terminal [`Terminal::PayloadTooLarge`]:
    /// by default the response it is given, with the status and the short
    /// body of that terminal.
    fn handle_payload_too_large(&self, req: &Request, resp: Response) -> (out: ResourceResult)
        ensures
            out matches Ok(r) ==> r.status == Some(status_of(Terminal::PayloadTooLarge)),
            !self.overrides(Hook::HandlePayloadTooLarge) ==> finishes(
                Terminal::PayloadTooLarge,
                resp,
                out,
            ),
    {
        Ok(terminal_response(Terminal::PayloadTooLarge, resp))
    }

    /// Produces the response of the terminal [`Terminal::NotAcceptable`]:
    /// by default the response it is given, with the status and the short
    /// body of that terminal.
    fn handle_not_acceptable(&self, req: &Request, resp: Response) -> (out: ResourceResult)
        ensures
            out matches Ok(r) ==> r.status == Some(status_of(Terminal::NotAcceptable)),
            !self.overrides(Hook::HandleNotAcceptable) ==> finishes(
                Terminal::NotAcceptable,
                resp,
                out,
            ),
    {
        Ok(terminal_response(Terminal::NotAcceptable, resp))
    }

    /// Produces the response of the terminal [`Terminal::UnprocessableEntity`]:
    /// by default the response it is given, with the status and the short
    /// body of that terminal.
    fn handle_unprocessable_entity(&self, req: &Request, resp: Response) -> (out: ResourceResult)
        ensures
            out matches Ok(r) ==> r.status == Some(status_of(Terminal::UnprocessableEntity)),
            !self.overrides(Hook::HandleUnprocessableEntity) ==> finishes(
                Terminal::UnprocessableEntity,
                resp,
                out,
            ),
    {
        Ok(terminal_response(Terminal::UnprocessableEntity, resp))
    }

    /// Produces the response of the terminal [`Terminal::Conflict`]:
    /// by default the response it is given, with the status and the short
    /// body of that terminal.
    fn handle_conflict(&self, req: &Request, resp: Response) -> (out: ResourceResult)
        ensures
            out matches Ok(r) ==> r.status == Some(status_of(Terminal::Conflict)),
            !self.overrides(Hook::HandleConflict) ==> finishes(Terminal::Conflict, resp, out),
    {
        Ok(terminal_response(Terminal::Conflict, resp))
    }

    /// Produces the response of the terminal [`Terminal::SeeOther`]:
    /// by default the response it is given, with the status and the short
    /// body of that terminal.
    fn handle_see_other(&self, req: &Request, resp: Response) -> (out: ResourceResult)
        ensures
            out matches Ok(r) ==> r.status == Some(status_of(Terminal::SeeOther)),
            !self.overrides(Hook::HandleSeeOther) ==> finishes(Terminal::SeeOther, resp, out),
    {
        Ok(terminal_response(Terminal::SeeOther, resp))
    }

    /// Produces the response of the terminal [`Terminal::Created`]:
    /// by default the response it is given, with the status and the short
    /// body of that terminal.
    fn handle_created(&self, req: &Request, resp: Response) -> (out: ResourceResult)
        ensures
            out matches Ok(r) ==> r.status == Some(status_of(Terminal::Created)),
            !self.overrides(Hook::HandleCreated) ==> finishes(Terminal::Created, resp, out),
    {
        Ok(terminal_response(Terminal::Created, resp))
    }

    /// Produces the response of the terminal [`Terminal::PreconditionFailed`]:
    /// by default the response it is given, with the status and the short
    /// body of that terminal.
    fn handle_precondition_failed(&self, req: &Request, resp: Response) -> (out: ResourceResult)
        ensures
            out matches Ok(r) ==> r.status == Some(status_of(Terminal::PreconditionFailed)),
            !self.overrides(Hook::HandlePreconditionFailed) ==> finishes(
                Terminal::PreconditionFailed,
                resp,
                out,
            ),
    {
        Ok(terminal_response(Terminal::PreconditionFailed, resp))
    }

    /// Produces the response of the terminal [`Terminal::NotModified`]:
    /// by default the response it is given, with the status and the short
    /// body of that terminal.
    fn handle_not_modified(&self, req: &Request, resp: Response) -> (out: ResourceResult)
        ensures
            out matches Ok(r) ==> r.status == Some(status_of(Terminal::NotModified)),
            !self.overrides(Hook::HandleNotModified) ==> finishes(Terminal::NotModified, resp, out),
    {
        Ok(terminal_response(Terminal::NotModified, resp))
    }

    /// Produces the response of the terminal [`Terminal::MovedPermanently`]:
    /// by default the response it is given, with the status and the short
    /// body of that terminal.
    fn handle_moved_permanently(&self, req: &Request, resp: Response) -> (out: ResourceResult)
        ensures
            out matches Ok(r) ==> r.status == Some(status_of(Terminal::MovedPermanently)),
            !self.overrides(Hook::HandleMovedPermanently) ==> finishes(
                Terminal::MovedPermanently,
                resp,
                out,
            ),
    {
        Ok(terminal_response(Terminal::MovedPermanently, resp))
    }

    /// Produces the response of the terminal [`Terminal::MovedTemporarily`]:
    /// by default the response it is given, with the status and the short
    /// body of that terminal.
    fn handle_moved_temporarily(&self, req: &Request, resp: Response) -> (out: ResourceResult)
        ensures
            out matches Ok(r) ==> r.status == Some(status_of(Terminal::MovedTemporarily)),
            !self.overrides(Hook::HandleMovedTemporarily) ==> finishes(
                Terminal::MovedTemporarily,
                resp,
                out,
            ),
    {
        Ok(terminal_response(Terminal::MovedTemporarily, resp))
    }

    /// Produces the response of the terminal [`Terminal::Gone`]:
    /// by default the response it is given, with the status and the short
    /// body of that terminal.
    fn handle_gone(&self, req: &Request, resp: Response) -> (out: ResourceResult)
        ensures
            out matches Ok(r) ==> r.status == Some(status_of(Terminal::Gone)),
            !self.overrides(Hook::HandleGone) ==> finishes(Terminal::Gone, resp, out),
    {
        Ok(terminal_response(Terminal::Gone, resp))
    }

    /// Produces the response of the terminal [`Terminal::NotFound`]:
    /// by default the response it is given, with the status and the short
    /// body of that terminal.
    fn handle_not_found(&self, req: &Request, resp: Response) -> (out: ResourceResult)
        ensures
            out matches Ok(r) ==> r.status == Some(status_of(Terminal::NotFound)),
            !self.overrides(Hook::HandleNotFound) ==> finishes(Terminal::NotFound, resp, out),
    {
        Ok(terminal_response(Terminal::NotFound, resp))
    }

    /// Produces the response of the terminal [`Terminal::NoContent`]:
    /// by default the response it is given, with the status and the short
    /// body of that terminal.
    fn handle_no_content(&self, req: &Request, resp: Response) -> (out: ResourceResult)
        ensures
            out matches Ok(r) ==> r.status == Some(status_of(Terminal::NoContent)),
            !self.overrides(Hook::HandleNoContent) ==> finishes(Terminal::NoContent, resp, out),
    {
        Ok(terminal_response(Terminal::NoContent, resp))
    }

    /// Produces the response of the terminal [`Terminal::MultipleRepresentations`]:
    /// by default the response it is given, with the status and the short
    /// body of that terminal.
    fn handle_multiple_representations(&self, req: &Request, resp: Response) -> (out:
        ResourceResult)
        ensures
            out matches Ok(r) ==> r.status == Some(status_of(Terminal::MultipleRepresentations)),
            !self.overrides(Hook::HandleMultipleRepresentations) ==> finishes(
                Terminal::MultipleRepresentations,
                resp,
                out,
            ),
    {
        Ok(terminal_response(Terminal::MultipleRepresentations, resp))
    }

    /// Produces the response of the terminal [`Terminal::Options`]:
    /// by default the response it is given, with the status and the short
    /// body of that terminal.
    fn handle_options(&self, req: &Request, resp: Response) -> (out: ResourceResult)
        ensures
            out matches Ok(r) ==> r.status == Some(status_of(Terminal::Options)),
            !self.overrides(Hook::HandleOptions) ==> finishes(Terminal::Options, resp, out),
    {
        Ok(terminal_response(Terminal::Options, resp))
    }
}

/// The resource that overrides nothing.
#[derive(Clone, Copy, Debug, PartialEq, Eq)]
pub struct DefaultResource;

impl Resource for DefaultResource {
    open spec fn overrides(&self, hook: Hook) -> bool {
        false
    }
}

/// `after` is `left` with `chosen` as its content type, and nothing else
/// changed.
pub open spec fn with_content_type(left: Response, chosen: MediaTypeView, after: Response) -> bool {
    &&& after.content_type.deep_view() == Some(chosen)
    &&& after.status == left.status
    &&& after.content_language == left.content_language
    &&& after.charset == left.charset
    &&& after.headers == left.headers
    &&& after.body == left.body
}

/// `after` is `left` with `chosen` as its content language, and nothing
/// else changed.
pub open spec fn with_content_language(left: Response, chosen: Seq<char>, after: Response)
    -> bool {
    &&& after.content_language.deep_view() == Some(chosen)
    &&& after.status == left.status
    &&& after.content_type == left.content_type
    &&& after.charset == left.charset
    &&& after.headers == left.headers
    &&& after.body == left.body
}

/// `after` is `left` with `chosen` as its charset, and nothing else changed.
pub open spec fn with_charset(left: Response, chosen: Seq<char>, after: Response) -> bool {
    &&& after.charset.deep_view() == Some(chosen)
    &&& after.status == left.status
    &&& after.content_type == left.content_type
    &&& after.content_language == left.content_language
    &&& after.headers == left.headers
    &&& after.body == left.body
}

/// What [`accept_exists`] makes of the media types on offer where the
/// request states no preference: the first of them becomes the content type
/// and the answer is yes; with nothing on offer the answer is no and the
/// response stays as the resource left it.
pub open spec fn accept_implied(
    available: Seq<MediaTypeView>,
    left: Response,
    after: Response,
    b: bool,
) -> bool {
    match implied_media_type(available) {
        Negotiation::Chosen(chosen) => b && with_content_type(left, chosen, after),
        _ => !b && after == left,
    }
}

/// What [`media_type_available`] makes of the outcome of the negotiation:
/// the answer is no exactly when nothing is acceptable; a chosen media type
/// becomes the content type, and otherwise the response stays as the
/// resource left it.
pub open spec fn media_type_recorded(
    outcome: Negotiation<MediaTypeView>,
    left: Response,
    after: Response,
    b: bool,
) -> bool {
    &&& b == !(outcome is NotAcceptable)
    &&& match outcome {
        Negotiation::Chosen(chosen) => with_content_type(left, chosen, after),
        _ => after == left,
    }
}

/// What [`language_available`] makes of the outcome of the negotiation: the
/// answer is no exactly when nothing is acceptable; a chosen language
/// becomes the content language, and otherwise the response stays as the
/// resource left it.
pub open spec fn language_recorded(
    outcome: Negotiation<Seq<char>>,
    left: Response,
    after: Response,
    b: bool,
) -> bool {
    &&& b == !(outcome is NotAcceptable)
    &&& match outcome {
        Negotiation::Chosen(chosen) => with_content_language(left, chosen, after),
        _ => after == left,
    }
}

/// What [`charset_available`] makes of the outcome of the negotiation: the
/// answer is no exactly when nothing is acceptable; a chosen charset is
/// recorded, and otherwise the response stays as the resource left it.
pub open spec fn charset_recorded(
    outcome: Negotiation<Seq<char>>,
    left: Response,
    after: Response,
    b: bool,
) -> bool {
    &&& b == !(outcome is NotAcceptable)
    &&& match outcome {
        Negotiation::Chosen(chosen) => with_charset(left, chosen, after),
        _ => after == left,
    }
}

/// Whether the request states a media type preference, or the resource
/// implies one.  A stated preference says yes and nothing is asked or
/// changed.  Without one the resource is asked for the media types it
/// offers: the first of them becomes the content type of the response, and
/// the answer is no where it offers none.
pub fn accept_exists<R: Resource>(r: &R, req: &Request, resp: &mut Response) -> (b: bool)
    ensures
        final(resp).status == old(resp).status,
        stated(req.accept.deep_view()) ==> b && *final(resp) == *old(resp),
        !stated(req.accept.deep_view()) ==> exists|m: &mut Response, available: Vec<MediaType>|
            *m == *old(resp) && #[trigger] call_ensures(
                R::available_content_types,
                (r, req, m),
                available,
            ) && accept_implied(available.deep_view(), *final(m), *final(resp), b),
        !r.overrides(Hook::AvailableContentTypes) ==> b == stated(req.accept.deep_view())
            && *final(resp) == *old(resp),
{
    if is_stated(&req.accept) {
        return true;
    }
    let available = r.available_content_types(req, resp);
    let ghost left = *resp;
    assert(exists|m: &mut Response|
        *m == *old(resp) && *final(m) == left && #[trigger] call_ensures(
            R::available_content_types,
            (r, req, m),
            available,
        ));
    let b = match imply_media_type(&available) {
        Negotiation::Chosen(chosen) => {
            resp.content_type = Some(chosen);
            true
        },
        _ => false,
    };
    assert(accept_implied(available.deep_view(), left, *resp, b));
    b
}

/// Negotiates the media type over what the resource offers.  The chosen
/// media type becomes the content type of the response; the answer is no
/// where the request states a preference that no media type on offer
/// answers, and the response then stays as the resource left it.
pub fn media_type_available<R: Resource>(r: &R, req: &Request, resp: &mut Response) -> (b: bool)
    ensures
        final(resp).status == old(resp).status,
        exists|m: &mut Response, available: Vec<MediaType>|
            *m == *old(resp) && #[trigger] call_ensures(
                R::available_content_types,
                (r, req, m),
                available,
            ) && media_type_recorded(
                media_type_outcome(req.accept.deep_view(), available.deep_view()),
                *final(m),
                *final(resp),
                b,
            ),
        !r.overrides(Hook::AvailableContentTypes) ==> b == !stated(req.accept.deep_view())
            && *final(resp) == *old(resp),
{
    let available = r.available_content_types(req, resp);
    let ghost left = *resp;
    assert(exists|m: &mut Response|
        *m == *old(resp) && *final(m) == left && #[trigger] call_ensures(
            R::available_content_types,
            (r, req, m),
            available,
        ));
    let b = match negotiate_media_type(&req.accept, &available) {
        Negotiation::Chosen(chosen) => {
            resp.content_type = Some(chosen);
            true
        },
        Negotiation::Unchanged => true,
        Negotiation::NotAcceptable => false,
    };
    assert(media_type_recorded(
        media_type_outcome(req.accept.deep_view(), available.deep_view()),
        left,
        *resp,
        b,
    ));
    proof {
        if !r.overrides(Hook::AvailableContentTypes) {
            assert(available.deep_view() =~= Seq::<MediaTypeView>::empty());
            negotiated_iff_acceptable(
                media_type_rule(),
                req.accept.deep_view()->0,
                available.deep_view(),
            );
        }
    }
    b
}

/// Negotiates the language over what the resource offers.  The chosen
/// language becomes the content language of the response; the answer is no
/// where the request states a preference that no language on offer answers,
/// and the response then stays as the resource left it.
pub fn language_available<R: Resource>(r: &R, req: &Request, resp: &mut Response) -> (b: bool)
    ensures
        final(resp).status == old(resp).status,
        exists|m: &mut Response, available: Vec<String>|
            *m == *old(resp) && #[trigger] call_ensures(
                R::available_languages,
                (r, req, m),
                available,
            ) && language_recorded(
                token_outcome(req.accept_language.deep_view(), available.deep_view()),
                *final(m),
                *final(resp),
                b,
            ),
        !r.overrides(Hook::AvailableLanguages) ==> language_recorded(
            token_outcome(req.accept_language.deep_view(), default_languages()),
            *old(resp),
            *final(resp),
            b,
        ),
{
    let available = r.available_languages(req, resp);
    let ghost left = *resp;
    assert(exists|m: &mut Response|
        *m == *old(resp) && *final(m) == left && #[trigger] call_ensures(
            R::available_languages,
            (r, req, m),
            available,
        ));
    let b = match negotiate_language(&req.accept_language, &available) {
        Negotiation::Chosen(language) => {
            resp.content_language = Some(language);
            true
        },
        Negotiation::Unchanged => true,
        Negotiation::NotAcceptable => false,
    };
    assert(language_recorded(
        token_outcome(req.accept_language.deep_view(), available.deep_view()),
        left,
        *resp,
        b,
    ));
    b
}

/// Negotiates the charset over what the resource offers.  The chosen
/// charset is recorded on the response; the answer is no where the request
/// states a preference that no charset on offer answers, and the response
/// then stays as the resource left it.
pub fn charset_available<R: Resource>(r: &R, req: &Request, resp: &mut Response) -> (b: bool)
    ensures
        final(resp).status == old(resp).status,
        exists|m: &mut Response, available: Vec<String>|
            *m == *old(resp) && #[trigger] call_ensures(
                R::available_charsets,
                (r, req, m),
                available,
            ) && charset_recorded(
                token_outcome(req.accept_charset.deep_view(), available.deep_view()),
                *final(m),
                *final(resp),
                b,
            ),
        !r.overrides(Hook::AvailableCharsets) ==> charset_recorded(
            token_outcome(req.accept_charset.deep_view(), default_charsets()),
            *old(resp),
            *final(resp),
            b,
        ),
{
    let available = r.available_charsets(req, resp);
    let ghost left = *resp;
    assert(exists|m: &mut Response|
        *m == *old(resp) && *final(m) == left && #[trigger] call_ensures(
            R::available_charsets,
            (r, req, m),
            available,
        ));
    let b = match negotiate_charset(&req.accept_charset, &available) {
        Negotiation::Chosen(charset) => {
            resp.charset = Some(charset);
            true
        },
        Negotiation::Unchanged => true,
        Negotiation::NotAcceptable => false,
    };
    assert(charset_recorded(
        token_outcome(req.accept_charset.deep_view(), available.deep_view()),
        left,
        *resp,
        b,
    ));
    b
}

/// Negotiates the content coding over what the resource offers.  Nothing is
/// recorded; the answer is no where the request states a preference that no
/// coding on offer answers.
pub fn encoding_available<R: Resource>(r: &R, req: &Request, resp: &mut Response) -> (b: bool)
    ensures
        final(resp).status == old(resp).status,
        exists|m: &mut Response, available: Vec<Encoding>|
            *m == *old(resp) && *final(m) == *final(resp) && #[trigger] call_ensures(
                R::available_encodings,
                (r, req, m),
                available,
            ) && b == coding_acceptable(req.accept_encoding.deep_view(), available.deep_view()),
        !r.overrides(Hook::AvailableEncodings) ==> b == coding_acceptable(
            req.accept_encoding.deep_view(),
            default_encodings(),
        ) && *final(resp) == *old(resp),
{
    let available = r.available_encodings(req, resp);
    negotiate_encoding(&req.accept_encoding, &available)
}

/// Whether a tag of `If-Match` compares strongly equal to the tag that the
/// resource reports.
pub fn if_match<R: Resource>(r: &R, req: &Request, resp: &mut Response) -> (b: bool)
    ensures
        final(resp).status == old(resp).status,
        exists|m: &mut Response, current: Option<EntityTag>|
            *m == *old(resp) && *final(m) == *final(resp) && #[trigger] call_ensures(
                R::etag,
                (r, req, m),
                current,
            ) && b == matches_strongly(req.if_match.deep_view(), current.deep_view()),
        !r.overrides(Hook::Etag) ==> !b && *final(resp) == *old(resp),
{
    let current = r.etag(req, resp);
    if_match_holds(&req.if_match, &current)
}

/// Whether a tag of `If-None-Match` compares weakly equal to the tag that
/// the resource reports.
pub fn if_none_match<R: Resource>(r: &R, req: &Request, resp: &mut Response) -> (b: bool)
    ensures
        final(resp).status == old(resp).status,
        exists|m: &mut Response, current: Option<EntityTag>|
            *m == *old(resp) && *final(m) == *final(resp) && #[trigger] call_ensures(
                R::etag,
                (r, req, m),
                current,
            ) && b == matches_weakly(req.if_none_match.deep_view(), current.deep_view()),
        !r.overrides(Hook::Etag) ==> !b && *final(resp) == *old(resp),
{
    let current = r.etag(req, resp);
    if_none_match_holds(&req.if_none_match, &current)
}

/// Whether `If-Match` names `*`.
pub fn if_match_star(req: &Request) -> (b: bool)
    ensures
        b == (req.if_match.deep_view() == Some(EntityTagMatchView::Any)),
{
    names_any(&req.if_match)
}

/// Whether `If-None-Match` names `*`.
pub fn if_none_match_star(req: &Request) -> (b: bool)
    ensures
        b == (req.if_none_match.deep_view() == Some(EntityTagMatchView::Any)),
{
    names_any(&req.if_none_match)
}

/// Whether `If-Match` names `*`, asked where the entity is missing.
pub fn if_match_star_exists_for_missing(req: &Request) -> (b: bool)
    ensures
        b == (req.if_match.deep_view() == Some(EntityTagMatchView::Any)),
{
    names_any(&req.if_match)
}

/// Whether the entity is unmodified since the date of
/// `If-Unmodified-Since`: the resource reports when it was last modified,
/// and that is not after the date.
pub fn unmodified_since<R: Resource>(r: &R, req: &Request, resp: &Response) -> (b: bool)
    ensures
        exists|server: Option<Timestamp>| #[trigger]
            call_ensures(R::last_modified, (r, req, resp), server) && b == unchanged_since(
                req.if_unmodified_since,
                server,
            ),
        !r.overrides(Hook::LastModified) ==> !b,
{
    let server = r.last_modified(req, resp);
    is_unmodified_since(&req.if_unmodified_since, &server)
}

/// Whether the entity is modified since the date of `If-Modified-Since`:
/// the resource reports when it was last modified, and that is after the
/// date.
pub fn modified_since<R: Resource>(r: &R, req: &Request, resp: &Response) -> (b: bool)
    ensures
        exists|server: Option<Timestamp>| #[trigger]
            call_ensures(R::last_modified, (r, req, resp), server) && b == changed_since(
                req.if_modified_since,
                server,
            ),
        !r.overrides(Hook::LastModified) ==> !b,
{
    let server = r.last_modified(req, resp);
    is_modified_since(&req.if_modified_since, &server)
}

/// What an `If-Match` or `If-None-Match` header of a request says, as far
/// as the graph asks.
pub open spec fn tag_header(header: Option<EntityTagMatchView>) -> TagHeader {
    match header {
        None => TagHeader::Absent,
        Some(EntityTagMatchView::Any) => TagHeader::Star,
        Some(EntityTagMatchView::Tags(_)) => TagHeader::Listed,
    }
}

/// What the graph asks of `req` itself: its method, and which of the headers
/// that the engine reads it carries.  A list header that is present and
/// empty counts as absent.
pub open spec fn situation_of(req: Request) -> Situation {
    Situation {
        method: req.method,
        language: stated(req.accept_language.deep_view()),
        charset: stated(req.accept_charset.deep_view()),
        encoding: stated(req.accept_encoding.deep_view()),
        if_match: tag_header(req.if_match.deep_view()),
        if_unmodified_since: req.if_unmodified_since is Some,
        if_none_match: tag_header(req.if_none_match.deep_view()),
        if_modified_since: req.if_modified_since is Some,
    }
}

/// What the request alone answers at `node`: the tests of the method and of
/// the presence of headers.  The other nodes ask the resource.
pub open spec fn settled(node: Node, req: Request) -> Option<bool> {
    settled_by(node, situation_of(req))
}

/// Answers `node` from the request alone, where the request settles it.
pub fn settle(node: Node, req: &Request) -> (answer: Option<bool>)
    ensures
        answer == settled(node, *req),
{
    match node {
        Node::AcceptLanguageExists => Some(is_stated(&req.accept_language)),
        Node::AcceptCharsetExists => Some(
            match &req.accept_charset {
                Some(header) => header.0.len() > 0,
                None => false,
            },
        ),
        Node::AcceptEncodingExists => Some(is_stated(&req.accept_encoding)),
        Node::IfMatchExists => Some(req.if_match.is_some()),
        Node::IfMatchStar => Some(if_match_star(req)),
        Node::IfMatchStarExistsForMissing => Some(if_match_star_exists_for_missing(req)),
        Node::IfUnmodifiedSinceExists => Some(req.if_unmodified_since.is_some()),
        Node::IfNoneMatchExists => Some(req.if_none_match.is_some()),
        Node::IfNoneMatchStar => Some(if_none_match_star(req)),
        Node::IfModifiedSinceExists => Some(req.if_modified_since.is_some()),
        Node::IsOptions => Some(matches!(req.method, Method::Options)),
        Node::NoneMatchStatus => Some(req.method.is_retrieval()),
        Node::MethodDelete => Some(matches!(req.method, Method::Delete)),
        Node::MethodPatch => Some(matches!(req.method, Method::Patch)),
        Node::PostToExisting | Node::PostToGone | Node::PostToMissing => Some(
            matches!(req.method, Method::Post),
        ),
        Node::PutToExisting | Node::MethodPut => Some(matches!(req.method, Method::Put)),
        _ => None,
    }
}

/// The hook that answers at `node`, for the decisions that ask the resource
/// directly.
pub open spec fn hook_at(node: Node) -> Option<Hook> {
    match node {
        Node::ServiceAvailable => Some(Hook::ServiceAvailable),
        Node::KnownMethod => Some(Hook::KnownMethod),
        Node::UriTooLong => Some(Hook::UriTooLong),
        Node::MethodAllowed => Some(Hook::MethodAllowed),
        Node::Malformed => Some(Hook::Malformed),
        Node::Authorized => Some(Hook::Authorized),
        Node::Allowed => Some(Hook::Allowed),
        Node::ValidContentHeader => Some(Hook::ValidContentHeader),
        Node::KnownContentType => Some(Hook::KnownContentType),
        Node::ValidEntityLength => Some(Hook::ValidEntityLength),
        Node::Processable => Some(Hook::Processable),
        Node::Exists => Some(Hook::ResourceExists),
        Node::Conflict => Some(Hook::Conflict),
        Node::PutToDifferentUrl => Some(Hook::PutToDifferentUrl),
        Node::CanPutToMissing => Some(Hook::CanPutToMissing),
        Node::Existed => Some(Hook::Existed),
        Node::MovedPermanently => Some(Hook::MovedPermanently),
        Node::MovedTemporarily => Some(Hook::MovedTemporarily),
        Node::CanPostToGone => Some(Hook::CanPostToGone),
        Node::CanPostToMissing => Some(Hook::CanPostToMissing),
        Node::PostRedirect => Some(Hook::PostRedirect),
        Node::New => Some(Hook::New),
        Node::RespondWithEntity => Some(Hook::RespondWithEntity),
        Node::MultipleRepresentations => Some(Hook::MultipleRepresentations),
        Node::DeleteEnacted => Some(Hook::DeleteEnacted),
        _ => None,
    }
}

/// What the hook at `node` answers by default.
pub open spec fn default_answer(node: Node, req: Request) -> bool {
    match node {
        Node::KnownMethod => req.method.known(),
        Node::MethodAllowed => req.method.retrieves(),
        Node::ServiceAvailable
        | Node::Authorized
        | Node::Allowed
        | Node::ValidContentHeader
        | Node::KnownContentType
        | Node::ValidEntityLength
        | Node::Processable
        | Node::Exists
        | Node::New
        | Node::CanPostToMissing
        | Node::CanPutToMissing
        | Node::DeleteEnacted => true,
        _ => false,
    }
}

/// `b` is an answer that the hook or the derived predicate of `node` gives
/// for `req` and the response behind `m`.
pub open spec fn gave<R: Resource>(r: &R, node: Node, req: &Request, m: &mut Response, b: bool)
    -> bool {
    match node {
        Node::ServiceAvailable => call_ensures(R::service_available, (r, req, m), b),
        Node::KnownMethod => call_ensures(R::known_method, (r, req, m), b),
        Node::UriTooLong => call_ensures(R::uri_too_long, (r, req, m), b),
        Node::MethodAllowed => call_ensures(R::method_allowed, (r, req, m), b),
        Node::Malformed => call_ensures(R::malformed, (r, req, m), b),
        Node::Authorized => call_ensures(R::authorized, (r, req, m), b),
        Node::Allowed => call_ensures(R::allowed, (r, req, m), b),
        Node::ValidContentHeader => call_ensures(R::valid_content_header, (r, req, m), b),
        Node::KnownContentType => call_ensures(R::known_content_type, (r, req, m), b),
        Node::ValidEntityLength => call_ensures(R::valid_entity_length, (r, req, m), b),
        Node::Processable => call_ensures(R::processable, (r, req, m), b),
        Node::Exists => call_ensures(R::resource_exists, (r, req, m), b),
        Node::Conflict => call_ensures(R::conflict, (r, req, m), b),
        Node::PutToDifferentUrl => call_ensures(R::put_to_different_url, (r, req, m), b),
        Node::CanPutToMissing => call_ensures(R::can_put_to_missing, (r, req, m), b),
        Node::Existed => call_ensures(R::existed, (r, req, m), b),
        Node::MovedPermanently => call_ensures(R::moved_permanently, (r, req, m), b),
        Node::MovedTemporarily => call_ensures(R::moved_temporarily, (r, req, m), b),
        Node::CanPostToGone => call_ensures(R::can_post_to_gone, (r, req, m), b),
        Node::CanPostToMissing => call_ensures(R::can_post_to_missing, (r, req, m), b),
        Node::PostRedirect => call_ensures(R::post_redirect, (r, req, m), b),
        Node::New => call_ensures(R::new, (r, req, m), b),
        Node::RespondWithEntity => call_ensures(R::respond_with_entity, (r, req, m), b),
        Node::MultipleRepresentations => call_ensures(R::multiple_representations, (r, req, m), b),
        Node::DeleteEnacted => call_ensures(R::delete_enacted, (r, req, m), b),
        Node::AcceptExists => call_ensures(accept_exists::<R>, (r, req, m), b),
        Node::MediaTypeAvailable => call_ensures(media_type_available::<R>, (r, req, m), b),
        Node::LanguageAvailable => call_ensures(language_available::<R>, (r, req, m), b),
        Node::CharsetAvailable => call_ensures(charset_available::<R>, (r, req, m), b),
        Node::EncodingAvailable => call_ensures(encoding_available::<R>, (r, req, m), b),
        Node::IfMatch => call_ensures(if_match::<R>, (r, req, m), b),
        Node::IfNoneMatch => call_ensures(if_none_match::<R>, (r, req, m), b),
        _ => false,
    }
}

/// `b` is an answer that the derived predicate of `node`, one of the two
/// that only read the response, gives for `req` and `resp`.
pub open spec fn read<R: Resource>(r: &R, node: Node, req: &Request, resp: &Response, b: bool)
    -> bool {
    match node {
        Node::IfUnmodifiedSince => call_ensures(unmodified_since::<R>, (r, req, resp), b),
        Node::IfModifiedSince => call_ensures(modified_since::<R>, (r, req, resp), b),
        _ => false,
    }
}

/// Whether the decision at `node` only reads the response.
pub open spec fn reads(node: Node) -> bool {
    node == Node::IfUnmodifiedSince || node == Node::IfModifiedSince
}

/// What is known of the answer `b` at `node`, and of the response `after`
/// it, where the resource keeps the default of the hook that the node asks
/// or that its derived predicate consults.
pub open spec fn kept<R: Resource>(
    r: &R,
    node: Node,
    req: Request,
    before: Response,
    after: Response,
    b: bool,
) -> bool {
    &&& (hook_at(node) matches Some(hook) ==> (!r.overrides(hook) ==> b == default_answer(node, req)
        && after == before))
    &&& match node {
        Node::AcceptExists => !r.overrides(Hook::AvailableContentTypes) ==> b == stated(
            req.accept.deep_view(),
        ) && after == before,
        Node::MediaTypeAvailable => !r.overrides(Hook::AvailableContentTypes) ==> b == !stated(
            req.accept.deep_view(),
        ) && after == before,
        Node::LanguageAvailable => !r.overrides(Hook::AvailableLanguages) ==> language_recorded(
            token_outcome(req.accept_language.deep_view(), default_languages()),
            before,
            after,
            b,
        ),
        Node::CharsetAvailable => !r.overrides(Hook::AvailableCharsets) ==> charset_recorded(
            token_outcome(req.accept_charset.deep_view(), default_charsets()),
            before,
            after,
            b,
        ),
        Node::EncodingAvailable => !r.overrides(Hook::AvailableEncodings) ==> b
            == coding_acceptable(req.accept_encoding.deep_view(), default_encodings()) && after
            == before,
        Node::IfMatch | Node::IfNoneMatch => !r.overrides(Hook::Etag) ==> !b && after == before,
        Node::IfUnmodifiedSince | Node::IfModifiedSince => after == before && (!r.overrides(
            Hook::LastModified,
        ) ==> !b),
        _ => true,
    }
}

/// Asks the hook of a node at the head of the graph, from the availability
/// of the service to the length of the entity.
fn ask_gate<R: Resource>(node: Node, r: &R, req: &Request, resp: &mut Response) -> (b: bool)
    requires
        node == Node::ServiceAvailable
            || node == Node::KnownMethod
            || node == Node::UriTooLong
            || node == Node::MethodAllowed
            || node == Node::Malformed
            || node == Node::Authorized
            || node == Node::Allowed
            || node == Node::ValidContentHeader
            || node == Node::KnownContentType
            || node == Node::ValidEntityLength,
    ensures
        final(resp).status == old(resp).status,
        kept(r, node, *req, *old(resp), *final(resp), b),
        reads(node) ==> read(r, node, req, &*old(resp), b),
        !reads(node) ==> exists|m: &mut Response|
            *m == *old(resp) && *final(m) == *final(resp) && #[trigger] gave(r, node, req, m, b),
{
    match node {
        Node::ServiceAvailable => {
            let b = r.service_available(req, resp);
            proof {
                let m = choose|m: &mut Response|
                    *m == *old(resp) && *final(m) == *resp && #[trigger] call_ensures(
                        R::service_available,
                        (r, req, m),
                        b,
                    );
                assert(gave(r, node, req, m, b));
            }
            b
        },
        Node::KnownMethod => {
            let b = r.known_method(req, resp);
            proof {
                let m = choose|m: &mut Response|
                    *m == *old(resp) && *final(m) == *resp && #[trigger] call_ensures(
                        R::known_method,
                        (r, req, m),
                        b,
                    );
                assert(gave(r, node, req, m, b));
            }
            b
        },
        Node::UriTooLong => {
            let b = r.uri_too_long(req, resp);
            proof {
                let m = choose|m: &mut Response|
                    *m == *old(resp) && *final(m) == *resp && #[trigger] call_ensures(
                        R::uri_too_long,
                        (r, req, m),
                        b,
                    );
                assert(gave(r, node, req, m, b));
            }
            b
        },
        Node::MethodAllowed => {
            let b = r.method_allowed(req, resp);
            proof {
                let m = choose|m: &mut Response|
                    *m == *old(resp) && *final(m) == *resp && #[trigger] call_ensures(
                        R::method_allowed,
                        (r, req, m),
                        b,
                    );
                assert(gave(r, node, req, m, b));
            }
            b
        },
        Node::Malformed => {
            let b = r.malformed(req, resp);
            proof {
                let m = choose|m: &mut Response|
                    *m == *old(resp) && *final(m) == *resp && #[trigger] call_ensures(
                        R::malformed,
                        (r, req, m),
                        b,
                    );
                assert(gave(r, node, req, m, b));
            }
            b
        },
        Node::Authorized => {
            let b = r.authorized(req, resp);
            proof {
                let m = choose|m: &mut Response|
                    *m == *old(resp) && *final(m) == *resp && #[trigger] call_ensures(
                        R::authorized,
                        (r, req, m),
                        b,
                    );
                assert(gave(r, node, req, m, b));
            }
            b
        },
        Node::Allowed => {
            let b = r.allowed(req, resp);
            proof {
                let m = choose|m: &mut Response|
                    *m == *old(resp) && *final(m) == *resp && #[trigger] call_ensures(
                        R::allowed,
                        (r, req, m),
                        b,
                    );
                assert(gave(r, node, req, m, b));
            }
            b
        },
        Node::ValidContentHeader => {
            let b = r.valid_content_header(req, resp);
            proof {
                let m = choose|m: &mut Response|
                    *m == *old(resp) && *final(m) == *resp && #[trigger] call_ensures(
                        R::valid_content_header,
                        (r, req, m),
                        b,
                    );
                assert(gave(r, node, req, m, b));
            }
            b
        },
        Node::KnownContentType => {
            let b = r.known_content_type(req, resp);
            proof {
                let m = choose|m: &mut Response|
                    *m == *old(resp) && *final(m) == *resp && #[trigger] call_ensures(
                        R::known_content_type,
                        (r, req, m),
                        b,
                    );
                assert(gave(r, node, req, m, b));
            }
            b
        },
        Node::ValidEntityLength => {
            let b = r.valid_entity_length(req, resp);
            proof {
                let m = choose|m: &mut Response|
                    *m == *old(resp) && *final(m) == *resp && #[trigger] call_ensures(
                        R::valid_entity_length,
                        (r, req, m),
                        b,
                    );
                assert(gave(r, node, req, m, b));
            }
            b
        },
        _ => {
            proof {
                assert(false);
            }
            vstd::pervasive::unreached()
        },
    }
}

/// Asks the hook of a node about the entity: whether it is processable,
/// exists, existed, was moved or conflicts.
fn ask_entity<R: Resource>(node: Node, r: &R, req: &Request, resp: &mut Response) -> (b: bool)
    requires
        node == Node::Processable
            || node == Node::Exists
            || node == Node::Conflict
            || node == Node::PutToDifferentUrl
            || node == Node::CanPutToMissing
            || node == Node::Existed
            || node == Node::MovedPermanently
            || node == Node::MovedTemporarily,
    ensures
        final(resp).status == old(resp).status,
        kept(r, node, *req, *old(resp), *final(resp), b),
        reads(node) ==> read(r, node, req, &*old(resp), b),
        !reads(node) ==> exists|m: &mut Response|
            *m == *old(resp) && *final(m) == *final(resp) && #[trigger] gave(r, node, req, m, b),
{
    match node {
        Node::Processable => {
            let b = r.processable(req, resp);
            proof {
                let m = choose|m: &mut Response|
                    *m == *old(resp) && *final(m) == *resp && #[trigger] call_ensures(
                        R::processable,
                        (r, req, m),
                        b,
                    );
                assert(gave(r, node, req, m, b));
            }
            b
        },
        Node::Exists => {
            let b = r.resource_exists(req, resp);
            proof {
                let m = choose|m: &mut Response|
                    *m == *old(resp) && *final(m) == *resp && #[trigger] call_ensures(
                        R::resource_exists,
                        (r, req, m),
                        b,
                    );
                assert(gave(r, node, req, m, b));
            }
            b
        },
        Node::Conflict => {
            let b = r.conflict(req, resp);
            proof {
                let m = choose|m: &mut Response|
                    *m == *old(resp) && *final(m) == *resp && #[trigger] call_ensures(
                        R::conflict,
                        (r, req, m),
                        b,
                    );
                assert(gave(r, node, req, m, b));
            }
            b
        },
        Node::PutToDifferentUrl => {
            let b = r.put_to_different_url(req, resp);
            proof {
                let m = choose|m: &mut Response|
                    *m == *old(resp) && *final(m) == *resp && #[trigger] call_ensures(
                        R::put_to_different_url,
                        (r, req, m),
                        b,
                    );
                assert(gave(r, node, req, m, b));
            }
            b
        },
        Node::CanPutToMissing => {
            let b = r.can_put_to_missing(req, resp);
            proof {
                let m = choose|m: &mut Response|
                    *m == *old(resp) && *final(m) == *resp && #[trigger] call_ensures(
                        R::can_put_to_missing,
                        (r, req, m),
                        b,
                    );
                assert(gave(r, node, req, m, b));
            }
            b
        },
        Node::Existed => {
            let b = r.existed(req, resp);
            proof {
                let m = choose|m: &mut Response|
                    *m == *old(resp) && *final(m) == *resp && #[trigger] call_ensures(
                        R::existed,
                        (r, req, m),
                        b,
                    );
                assert(gave(r, node, req, m, b));
            }
            b
        },
        Node::MovedPermanently => {
            let b = r.moved_permanently(req, resp);
            proof {
                let m = choose|m: &mut Response|
                    *m == *old(resp) && *final(m) == *resp && #[trigger] call_ensures(
                        R::moved_permanently,
                        (r, req, m),
                        b,
                    );
                assert(gave(r, node, req, m, b));
            }
            b
        },
        Node::MovedTemporarily => {
            let b = r.moved_temporarily(req, resp);
            proof {
                let m = choose|m: &mut Response|
                    *m == *old(resp) && *final(m) == *resp && #[trigger] call_ensures(
                        R::moved_temporarily,
                        (r, req, m),
                        b,
                    );
                assert(gave(r, node, req, m, b));
            }
            b
        },
        _ => {
            proof {
                assert(false);
            }
            vstd::pervasive::unreached()
        },
    }
}

/// Asks the hook of a node behind an action, or on the way to one.
fn ask_outcome<R: Resource>(node: Node, r: &R, req: &Request, resp: &mut Response) -> (b: bool)
    requires
        node == Node::CanPostToGone
            || node == Node::CanPostToMissing
            || node == Node::PostRedirect
            || node == Node::New
            || node == Node::RespondWithEntity
            || node == Node::MultipleRepresentations
            || node == Node::DeleteEnacted,
    ensures
        final(resp).status == old(resp).status,
        kept(r, node, *req, *old(resp), *final(resp), b),
        reads(node) ==> read(r, node, req, &*old(resp), b),
        !reads(node) ==> exists|m: &mut Response|
            *m == *old(resp) && *final(m) == *final(resp) && #[trigger] gave(r, node, req, m, b),
{
    match node {
        Node::CanPostToGone => {
            let b = r.can_post_to_gone(req, resp);
            proof {
                let m = choose|m: &mut Response|
                    *m == *old(resp) && *final(m) == *resp && #[trigger] call_ensures(
                        R::can_post_to_gone,
                        (r, req, m),
                        b,
                    );
                assert(gave(r, node, req, m, b));
            }
            b
        },
        Node::CanPostToMissing => {
            let b = r.can_post_to_missing(req, resp);
            proof {
                let m = choose|m: &mut Response|
                    *m == *old(resp) && *final(m) == *resp && #[trigger] call_ensures(
                        R::can_post_to_missing,
                        (r, req, m),
                        b,
                    );
                assert(gave(r, node, req, m, b));
            }
            b
        },
        Node::PostRedirect => {
            let b = r.post_redirect(req, resp);
            proof {
                let m = choose|m: &mut Response|
                    *m == *old(resp) && *final(m) == *resp && #[trigger] call_ensures(
                        R::post_redirect,
                        (r, req, m),
                        b,
                    );
                assert(gave(r, node, req, m, b));
            }
            b
        },
        Node::New => {
            let b = r.new(req, resp);
            proof {
                let m = choose|m: &mut Response|
                    *m == *old(resp) && *final(m) == *resp && #[trigger] call_ensures(
                        R::new,
                        (r, req, m),
                        b,
                    );
                assert(gave(r, node, req, m, b));
            }
            b
        },
        Node::RespondWithEntity => {
            let b = r.respond_with_entity(req, resp);
            proof {
                let m = choose|m: &mut Response|
                    *m == *old(resp) && *final(m) == *resp && #[trigger] call_ensures(
                        R::respond_with_entity,
                        (r, req, m),
                        b,
                    );
                assert(gave(r, node, req, m, b));
            }
            b
        },
        Node::MultipleRepresentations => {
            let b = r.multiple_representations(req, resp);
            proof {
                let m = choose|m: &mut Response|
                    *m == *old(resp) && *final(m) == *resp && #[trigger] call_ensures(
                        R::multiple_representations,
                        (r, req, m),
                        b,
                    );
                assert(gave(r, node, req, m, b));
            }
            b
        },
        Node::DeleteEnacted => {
            let b = r.delete_enacted(req, resp);
            proof {
                let m = choose|m: &mut Response|
                    *m == *old(resp) && *final(m) == *resp && #[trigger] call_ensures(
                        R::delete_enacted,
                        (r, req, m),
                        b,
                    );
                assert(gave(r, node, req, m, b));
            }
            b
        },
        _ => {
            proof {
                assert(false);
            }
            vstd::pervasive::unreached()
        },
    }
}

/// Asks the derived predicate of a node.
fn ask_derived<R: Resource>(node: Node, r: &R, req: &Request, resp: &mut Response) -> (b: bool)
    requires
        node == Node::AcceptExists
            || node == Node::MediaTypeAvailable
            || node == Node::LanguageAvailable
            || node == Node::CharsetAvailable
            || node == Node::EncodingAvailable
            || node == Node::IfMatch
            || node == Node::IfNoneMatch
            || node == Node::IfUnmodifiedSince
            || node == Node::IfModifiedSince,
    ensures
        final(resp).status == old(resp).status,
        kept(r, node, *req, *old(resp), *final(resp), b),
        reads(node) ==> read(r, node, req, &*old(resp), b),
        !reads(node) ==> exists|m: &mut Response|
            *m == *old(resp) && *final(m) == *final(resp) && #[trigger] gave(r, node, req, m, b),
{
    match node {
        Node::AcceptExists => {
            let b = accept_exists(r, req, resp);
            proof {
                let m = choose|m: &mut Response|
                    *m == *old(resp) && *final(m) == *resp && #[trigger] call_ensures(
                        accept_exists::<R>,
                        (r, req, m),
                        b,
                    );
                assert(gave(r, node, req, m, b));
            }
            b
        },
        Node::MediaTypeAvailable => {
            let b = media_type_available(r, req, resp);
            proof {
                let m = choose|m: &mut Response|
                    *m == *old(resp) && *final(m) == *resp && #[trigger] call_ensures(
                        media_type_available::<R>,
                        (r, req, m),
                        b,
                    );
                assert(gave(r, node, req, m, b));
            }
            b
        },
        Node::LanguageAvailable => {
            let b = language_available(r, req, resp);
            proof {
                let m = choose|m: &mut Response|
                    *m == *old(resp) && *final(m) == *resp && #[trigger] call_ensures(
                        language_available::<R>,
                        (r, req, m),
                        b,
                    );
                assert(gave(r, node, req, m, b));
            }
            b
        },
        Node::CharsetAvailable => {
            let b = charset_available(r, req, resp);
            proof {
                let m = choose|m: &mut Response|
                    *m == *old(resp) && *final(m) == *resp && #[trigger] call_ensures(
                        charset_available::<R>,
                        (r, req, m),
                        b,
                    );
                assert(gave(r, node, req, m, b));
            }
            b
        },
        Node::EncodingAvailable => {
            let b = encoding_available(r, req, resp);
            proof {
                let m = choose|m: &mut Response|
                    *m == *old(resp) && *final(m) == *resp && #[trigger] call_ensures(
                        encoding_available::<R>,
                        (r, req, m),
                        b,
                    );
                assert(gave(r, node, req, m, b));
            }
            b
        },
        Node::IfMatch => {
            let b = if_match(r, req, resp);
            proof {
                let m = choose|m: &mut Response|
                    *m == *old(resp) && *final(m) == *resp && #[trigger] call_ensures(
                        if_match::<R>,
                        (r, req, m),
                        b,
                    );
                assert(gave(r, node, req, m, b));
            }
            b
        },
        Node::IfNoneMatch => {
            let b = if_none_match(r, req, resp);
            proof {
                let m = choose|m: &mut Response|
                    *m == *old(resp) && *final(m) == *resp && #[trigger] call_ensures(
                        if_none_match::<R>,
                        (r, req, m),
                        b,
                    );
                assert(gave(r, node, req, m, b));
            }
            b
        },
        Node::IfUnmodifiedSince => unmodified_since(r, req, resp),
        Node::IfModifiedSince => modified_since(r, req, resp),
        _ => {
            proof {
                assert(false);
            }
            vstd::pervasive::unreached()
        },
    }
}

/// Asks the resource what it answers at `node`, a decision that the request
/// does not settle: the answer is the one that the hook of the node, or its
/// derived predicate, gives for the request and the response.
fn ask<R: Resource>(node: Node, r: &R, req: &Request, resp: &mut Response) -> (b: bool)
    requires
        !acts(node),
        settled(node, *req) is None,
    ensures
        final(resp).status == old(resp).status,
        kept(r, node, *req, *old(resp), *final(resp), b),
        reads(node) ==> read(r, node, req, &*old(resp), b),
        !reads(node) ==> exists|m: &mut Response|
            *m == *old(resp) && *final(m) == *final(resp) && #[trigger] gave(r, node, req, m, b),
{
    match node {
        Node::ServiceAvailable
        | Node::KnownMethod
        | Node::UriTooLong
        | Node::MethodAllowed
        | Node::Malformed
        | Node::Authorized
        | Node::Allowed
        | Node::ValidContentHeader
        | Node::KnownContentType
        | Node::ValidEntityLength => ask_gate(node, r, req, resp),
        Node::Processable
        | Node::Exists
        | Node::Conflict
        | Node::PutToDifferentUrl
        | Node::CanPutToMissing
        | Node::Existed
        | Node::MovedPermanently
        | Node::MovedTemporarily => ask_entity(node, r, req, resp),
        Node::CanPostToGone
        | Node::CanPostToMissing
        | Node::PostRedirect
        | Node::New
        | Node::RespondWithEntity
        | Node::MultipleRepresentations
        | Node::DeleteEnacted => ask_outcome(node, r, req, resp),
        Node::AcceptExists
        | Node::MediaTypeAvailable
        | Node::LanguageAvailable
        | Node::CharsetAvailable
        | Node::EncodingAvailable
        | Node::IfMatch
        | Node::IfNoneMatch
        | Node::IfUnmodifiedSince
        | Node::IfModifiedSince => ask_derived(node, r, req, resp),
        _ => {
            proof {
                assert(false);
            }
            vstd::pervasive::unreached()
        },
    }
}

/// The answer of a decision, with the response as the decision left it.
#[derive(Debug, PartialEq, Eq)]
pub struct Answer {
    /// The answer.
    pub yes: bool,
    /// The response behind the decision.
    pub response: Response,
}

/// Answers the decision `node` for `req` on the response `resp`: from the
/// request where it settles the question, and then the response stays as it
/// is; else with what the hook of the node, or its derived predicate, gives.
/// An action is no decision and gets no answer.
pub fn decide<R: Resource>(node: Node, r: &R, req: &Request, resp: Response) -> (out: Option<
    Answer,
>)
    ensures
        out is None <==> acts(node),
        !acts(node) ==> out->0.response.status == resp.status,
        !acts(node) ==> (settled(node, *req) matches Some(answer) ==> out->0.yes == answer
            && out->0.response == resp),
        !acts(node) ==> kept(r, node, *req, resp, out->0.response, out->0.yes),
        !acts(node) && settled(node, *req) is None && reads(node) ==> read(
            r,
            node,
            req,
            &resp,
            out->0.yes,
        ),
        !acts(node) && settled(node, *req) is None && !reads(node) ==> exists|m: &mut Response|
            *m == resp && *final(m) == out->0.response && #[trigger] gave(
                r,
                node,
                req,
                m,
                out->0.yes,
            ),
{
    if is_action(node) {
        return None;
    }
    let mut held = resp;
    let b = match settle(node, req) {
        Some(answer) => answer,
        None => ask(node, r, req, &mut held),
    };
    let ghost after = held;
    assert(settled(node, *req) is None && !reads(node) ==> exists|m: &mut Response|
        *m == resp && *final(m) == after && #[trigger] gave(r, node, req, m, b));
    let out = Answer { yes: b, response: held };
    assert(out.response == after);
    assert(out.yes == b);
    Some(out)
}

/// `out` is what the action of `node` gives for `req` and `resp`: for the
/// node that retrieves, `head` where the method is HEAD and `get`
/// otherwise.
pub open spec fn performed<R: Resource>(
    r: &R,
    node: Node,
    req: &Request,
    resp: Response,
    out: ResourceResult,
) -> bool {
    match node {
        Node::PerformDelete => call_ensures(R::delete, (r, req, resp), out),
        Node::PerformPatch => call_ensures(R::patch, (r, req, resp), out),
        Node::PerformPost => call_ensures(R::post, (r, req, resp), out),
        Node::PerformPut => call_ensures(R::put, (r, req, resp), out),
        _ => if req.method is Head {
            call_ensures(R::head, (r, req, resp), out)
        } else {
            call_ensures(R::get, (r, req, resp), out)
        },
    }
}

/// The resource keeps the default of the action of `node` for a request of
/// the method `method`: it overrides neither the action nor, for `head`,
/// the `get` that `head` falls back on.
pub open spec fn runs_default<R: Resource>(r: &R, node: Node, method: Method) -> bool {
    match node {
        Node::PerformDelete => !r.overrides(Hook::Delete),
        Node::PerformPatch => !r.overrides(Hook::Patch),
        Node::PerformPost => !r.overrides(Hook::Post),
        Node::PerformPut => !r.overrides(Hook::Put),
        _ => !r.overrides(Hook::Get) && (method is Head ==> !r.overrides(Hook::Head)),
    }
}

/// Runs the action of `node`: for the node that retrieves, `head` where the
/// method is HEAD and `get` otherwise.  The result is the action's; an
/// action of which the resource keeps the default fails as not implemented.
fn perform<R: Resource>(node: Node, r: &R, req: &Request, resp: Response) -> (out: ResourceResult)
    requires
        acts(node),
    ensures
        performed(r, node, req, resp, out),
        runs_default(r, node, req.method) ==> not_implemented(out),
{
    match node {
        Node::PerformDelete => r.delete(req, resp),
        Node::PerformPatch => r.patch(req, resp),
        Node::PerformPost => r.post(req, resp),
        Node::PerformPut => r.put(req, resp),
        _ => match req.method {
            Method::Head => r.head(req, resp),
            _ => r.get(req, resp),
        },
    }
}

/// The hook that produces the response of `terminal`.
pub open spec fn handler_of(terminal: Terminal) -> Hook {
    match terminal {
        Terminal::ServiceUnavailable => Hook::HandleServiceUnavailable,
        Terminal::UnknownMethod => Hook::HandleUnknownMethod,
        Terminal::UriTooLong => Hook::HandleUriTooLong,
        Terminal::MethodNotAllowed => Hook::HandleMethodNotAllowed,
        Terminal::Malformed => Hook::HandleMalformed,
        Terminal::Unauthorized => Hook::HandleUnauthorized,
        Terminal::Forbidden => Hook::HandleForbidden,
        Terminal::NotImplemented => Hook::HandleNotImplemented,
        Terminal::UnsupportedMediaType => Hook::HandleUnsupportedMediaType,
        Terminal::PayloadTooLarge => Hook::HandlePayloadTooLarge,
        Terminal::NotAcceptable => Hook::HandleNotAcceptable,
        Terminal::UnprocessableEntity => Hook::HandleUnprocessableEntity,
        Terminal::Conflict => Hook::HandleConflict,
        Terminal::SeeOther => Hook::HandleSeeOther,
        Terminal::Created => Hook::HandleCreated,
        Terminal::PreconditionFailed => Hook::HandlePreconditionFailed,
        Terminal::NotModified => Hook::HandleNotModified,
        Terminal::MovedPermanently => Hook::HandleMovedPermanently,
        Terminal::MovedTemporarily => Hook::HandleMovedTemporarily,
        Terminal::Gone => Hook::HandleGone,
        Terminal::NotFound => Hook::HandleNotFound,
        Terminal::NoContent => Hook::HandleNoContent,
        Terminal::MultipleRepresentations => Hook::HandleMultipleRepresentations,
        Terminal::Options => Hook::HandleOptions,
    }
}

/// `out` is what the handler of `terminal` gives for `req` and `resp`.
pub open spec fn handled<R: Resource>(
    r: &R,
    terminal: Terminal,
    req: &Request,
    resp: Response,
    out: ResourceResult,
) -> bool {
    match terminal {
        Terminal::ServiceUnavailable => call_ensures(
            R::handle_service_unavailable,
            (r, req, resp),
            out,
        ),
        Terminal::UnknownMethod => call_ensures(R::handle_unknown_method, (r, req, resp), out),
        Terminal::UriTooLong => call_ensures(R::handle_uri_too_long, (r, req, resp), out),
        Terminal::MethodNotAllowed => call_ensures(
            R::handle_method_not_allowed,
            (r, req, resp),
            out,
        ),
        Terminal::Malformed => call_ensures(R::handle_malformed, (r, req, resp), out),
        Terminal::Unauthorized => call_ensures(R::handle_unauthorized, (r, req, resp), out),
        Terminal::Forbidden => call_ensures(R::handle_forbidden, (r, req, resp), out),
        Terminal::NotImplemented => call_ensures(R::handle_not_implemented, (r, req, resp), out),
        Terminal::UnsupportedMediaType => call_ensures(
            R::handle_unsupported_media_type,
            (r, req, resp),
            out,
        ),
        Terminal::PayloadTooLarge => call_ensures(R::handle_payload_too_large, (r, req, resp), out),
        Terminal::NotAcceptable => call_ensures(R::handle_not_acceptable, (r, req, resp), out),
        Terminal::UnprocessableEntity => call_ensures(
            R::handle_unprocessable_entity,
            (r, req, resp),
            out,
        ),
        Terminal::Conflict => call_ensures(R::handle_conflict, (r, req, resp), out),
        Terminal::SeeOther => call_ensures(R::handle_see_other, (r, req, resp), out),
        Terminal::Created => call_ensures(R::handle_created, (r, req, resp), out),
        Terminal::PreconditionFailed => call_ensures(
            R::handle_precondition_failed,
            (r, req, resp),
            out,
        ),
        Terminal::NotModified => call_ensures(R::handle_not_modified, (r, req, resp), out),
        Terminal::MovedPermanently => call_ensures(
            R::handle_moved_permanently,
            (r, req, resp),
            out,
        ),
        Terminal::MovedTemporarily => call_ensures(
            R::handle_moved_temporarily,
            (r, req, resp),
            out,
        ),
        Terminal::Gone => call_ensures(R::handle_gone, (r, req, resp), out),
        Terminal::NotFound => call_ensures(R::handle_not_found, (r, req, resp), out),
        Terminal::NoContent => call_ensures(R::handle_no_content, (r, req, resp), out),
        Terminal::MultipleRepresentations => call_ensures(
            R::handle_multiple_representations,
            (r, req, resp),
            out,
        ),
        Terminal::Options => call_ensures(R::handle_options, (r, req, resp), out),
    }
}

/// Lets the resource produce the response of `terminal`.  The result is the
/// handler's: a response of the terminal's status, or a failure; a handler
/// of which the resource keeps the default succeeds, with the response it
/// was given under the status and the short body of the terminal.
fn finish<R: Resource>(terminal: Terminal, r: &R, req: &Request, resp: Response) -> (out:
    ResourceResult)
    ensures
        handled(r, terminal, req, resp, out),
        out matches Ok(response) ==> response.status == Some(status_of(terminal)),
        !r.overrides(handler_of(terminal)) ==> finishes(terminal, resp, out),
{
    match terminal {
        Terminal::ServiceUnavailable => r.handle_service_unavailable(req, resp),
        Terminal::UnknownMethod => r.handle_unknown_method(req, resp),
        Terminal::UriTooLong => r.handle_uri_too_long(req, resp),
        Terminal::MethodNotAllowed => r.handle_method_not_allowed(req, resp),
        Terminal::Malformed => r.handle_malformed(req, resp),
        Terminal::Unauthorized => r.handle_unauthorized(req, resp),
        Terminal::Forbidden => r.handle_forbidden(req, resp),
        Terminal::NotImplemented => r.handle_not_implemented(req, resp),
        Terminal::UnsupportedMediaType => r.handle_unsupported_media_type(req, resp),
        Terminal::PayloadTooLarge => r.handle_payload_too_large(req, resp),
        Terminal::NotAcceptable => r.handle_not_acceptable(req, resp),
        Terminal::UnprocessableEntity => r.handle_unprocessable_entity(req, resp),
        Terminal::Conflict => r.handle_conflict(req, resp),
        Terminal::SeeOther => r.handle_see_other(req, resp),
        Terminal::Created => r.handle_created(req, resp),
        Terminal::PreconditionFailed => r.handle_precondition_failed(req, resp),
        Terminal::NotModified => r.handle_not_modified(req, resp),
        Terminal::MovedPermanently => r.handle_moved_permanently(req, resp),
        Terminal::MovedTemporarily => r.handle_moved_temporarily(req, resp),
        Terminal::Gone => r.handle_gone(req, resp),
        Terminal::NotFound => r.handle_not_found(req, resp),
        Terminal::NoContent => r.handle_no_content(req, resp),
        Terminal::MultipleRepresentations => r.handle_multiple_representations(req, resp),
        Terminal::Options => r.handle_options(req, resp),
    }
}

/// Every answer of the walk that the request settles is the one that the
/// request gives.
pub open spec fn obeys(visits: Seq<Visit>, req: Request) -> bool {
    respects(visits, situation_of(req))
}

/// A response that holds nothing yet: what [`Response::new`] gives.
pub open spec fn is_fresh(response: Response) -> bool {
    &&& response.status is None
    &&& response.content_type is None
    &&& response.content_language is None
    &&& response.charset is None
    &&& response.headers@.len() == 0
    &&& response.body@.len() == 0
}

/// One visit of the engine, which found the response `before` and left the
/// response `after`.
/// - At a decision the answer and `after` are what [`decide`] gives for the
///   node, the request and `before`: the status stays, a question that the
///   request settles has the request's answer and changes nothing, and a
///   kept default answers as [`kept`] says.
/// - An action that succeeded gave `after` for `before`.
/// - An action that failed gave its error for `before`, and `after` is
///   `before`.
pub open spec fn stepped<R: Resource>(
    r: &R,
    req: Request,
    visit: Visit,
    before: Response,
    after: Response,
) -> bool {
    if acts(visit.node) {
        if visit.outcome {
            performed(r, visit.node, &req, before, Ok(after))
        } else {
            after == before && exists|error: ResourceError| #[trigger]
                performed(r, visit.node, &req, before, Err(error))
        }
    } else {
        &&& call_ensures(
            decide::<R>,
            (visit.node, r, &req, before),
            Some(Answer { yes: visit.outcome, response: after }),
        )
        &&& after.status == before.status
        &&& (settled(visit.node, req) matches Some(answer) ==> visit.outcome == answer && after
            == before)
        &&& kept(r, visit.node, req, before, after, visit.outcome)
    }
}

/// Visit `k` of the walk found the response `states[k]` and left the
/// response `states[k + 1]`.
pub open spec fn step_at<R: Resource>(
    r: &R,
    req: Request,
    visits: Seq<Visit>,
    states: Seq<Response>,
    k: int,
) -> bool {
    stepped(r, req, visits[k], states[k], states[k + 1])
}

/// `result` is what the engine makes of what a handler returned: its
/// response, or its error with the response that reports it.
pub open spec fn concluded(out: ResourceResult, result: Result<Response, Failure>) -> bool {
    match out {
        Ok(response) => result == Ok::<Response, Failure>(response),
        Err(error) => match result {
            Err(failure) => failure.error == error && reports(failure),
            Ok(_) => false,
        },
    }
}

/// `result` is the failure of the action of `node`, which gave its error for
/// `req` and the response `before`; the response of the failure reports
/// that error, and the error of an action kept at its default is
/// `NotImplemented`.
pub open spec fn failed<R: Resource>(
    r: &R,
    node: Node,
    req: Request,
    before: Response,
    result: Result<Response, Failure>,
) -> bool {
    match result {
        Err(failure) => {
            &&& performed(r, node, &req, before, Err(failure.error))
            &&& reports(failure)
            &&& runs_default(r, node, req.method) ==> failure.error is NotImplemented
        },
        Ok(_) => false,
    }
}

/// `result` is what the handler of `terminal` made of the response `before`:
/// what it returned, as [`concluded`] has it.  If it is a response, its
/// status is the terminal's; a handler kept at its default succeeds, with
/// `before` under the status and the short body of the terminal.
pub open spec fn finished_by<R: Resource>(
    r: &R,
    terminal: Terminal,
    req: Request,
    before: Response,
    result: Result<Response, Failure>,
) -> bool {
    &&& exists|out: ResourceResult| #[trigger]
        handled(r, terminal, &req, before, out) && concluded(out, result)
    &&& match result {
        Ok(response) => response.status == Some(status_of(terminal)) && (!r.overrides(
            handler_of(terminal),
        ) ==> finished(terminal, before, response)),
        Err(failure) => r.overrides(handler_of(terminal)) && reports(failure),
    }
}

/// The walk `visits`, through the responses `states`, accounts for
/// `result`:
/// - it starts at the root of the graph on a fresh response, and each visit
///   finds the response that the visit before it left;
/// - each visit is a step of the engine, as [`stepped`] has it;
/// - its answers are those of `req` wherever the request settles them;
/// - it ends in a terminal, and `result` is what the handler of the terminal
///   made of the last response; or behind the action that retrieves, and
///   `result` is the response that action gave; or behind an action that
///   failed, and `result` is the failure with that action's error.
pub open spec fn accounts_for<R: Resource>(
    r: &R,
    visits: Seq<Visit>,
    states: Seq<Response>,
    req: Request,
    result: Result<Response, Failure>,
) -> bool {
    &&& states.len() == visits.len() + 1
    &&& is_fresh(states[0])
    &&& forall|k: int| 0 <= k < visits.len() ==> #[trigger] step_at(r, req, visits, states, k)
    &&& obeys(visits, req)
    &&& visits.len() <= LONGEST_WALK
    &&& match follow(Step::Visit(root()), visits) {
        Some(Step::Finish(terminal)) => finished_by(r, terminal, req, states.last(), result),
        Some(Step::Respond) => result == Ok::<Response, Failure>(states.last()),
        Some(Step::Fail) => failed(r, visits.last().node, req, states.last(), result),
        _ => false,
    }
}

/// The engine follows the graph: a walk that accounts for a result is the
/// one walk that its own answers determine, and it ends where the graph says.
pub proof fn the_engine_follows_the_graph<R: Resource>(
    r: &R,
    visits: Seq<Visit>,
    states: Seq<Response>,
    req: Request,
    result: Result<Response, Failure>,
    oracle: spec_fn(Node) -> bool,
)
    requires
        accounts_for(r, visits, states, req, result),
        answered_by(visits, oracle),
    ensures
        visits == route(root(), oracle),
        follow(Step::Visit(root()), visits) == Some(destination(root(), oracle)),
{
    let end = follow(Step::Visit(root()), visits)->0;
    the_walk_is_unique(root(), oracle, visits, end);
}

/// A request as the engine handled it: the nodes it visited with their
/// answers, in order, and what came of it.
#[derive(Debug, PartialEq, Eq)]
pub struct Traversal {
    /// The visits of the walk, from the root on.
    pub visits: Vec<Visit>,
    /// The response, or the failure of a hook.
    pub result: Result<Response, Failure>,
}

/// Turns what a hook returned into what the engine returns.
fn conclude(out: ResourceResult) -> (result: Result<Response, Failure>)
    ensures
        concluded(out, result),
{
    match out {
        Ok(response) => Ok(response),
        Err(error) => Err(failure_of(error)),
    }
}

/// One more step keeps the steps before it.
proof fn steps_stay<R: Resource>(
    r: &R,
    req: Request,
    visits: Seq<Visit>,
    states: Seq<Response>,
    visit: Visit,
    after: Response,
)
    requires
        states.len() == visits.len() + 1,
        forall|k: int| 0 <= k < visits.len() ==> #[trigger] step_at(r, req, visits, states, k),
        stepped(r, req, visit, states.last(), after),
    ensures
        forall|k: int|
            0 <= k < visits.len() + 1 ==> #[trigger] step_at(
                r,
                req,
                visits.push(visit),
                states.push(after),
                k,
            ),
{
    let longer = visits.push(visit);
    let further = states.push(after);
    assert forall|k: int| 0 <= k < visits.len() + 1 implies #[trigger] step_at(
        r,
        req,
        longer,
        further,
        k,
    ) by {
        if k < visits.len() {
            assert(step_at(r, req, visits, states, k));
            assert(longer[k] == visits[k]);
            assert(further[k] == states[k]);
            assert(further[k + 1] == states[k + 1]);
        } else {
            assert(longer[k] == visit);
            assert(further[k] == states.last());
            assert(further[k + 1] == after);
        }
    }
}

/// Walks the graph for one request: starts from a fresh response at the
/// root, answers each decision from the request or the resource, runs the
/// actions on the way, hands each hook the response as the hook before it
/// left it, and ends in a terminal or behind an action.
pub fn traverse<R: Resource>(r: &R, req: &Request) -> (t: Traversal)
    ensures
        exists|states: Seq<Response>| accounts_for(r, t.visits@, states, *req, t.result),
{
    let mut resp = Response::new();
    let mut visits: Vec<Visit> = Vec::new();
    let mut node = Node::ServiceAvailable;
    let ghost mut states: Seq<Response> = seq![resp];
    loop
        invariant
            follow(Step::Visit(root()), visits@) == Some(Step::Visit(node)),
            obeys(visits@, *req),
            states.len() == visits@.len() + 1,
            is_fresh(states[0]),
            states.last() == resp,
            forall|k: int|
                0 <= k < visits@.len() ==> #[trigger] step_at(r, *req, visits@, states, k),
        decreases rank(node),
    {
        let ghost walked = visits@;
        let ghost before = resp;
        let outcome;
        if is_action(node) {
            match perform(node, r, req, resp) {
                Ok(response) => {
                    resp = response;
                    outcome = true;
                },
                Err(error) => {
                    let visit = Visit { node, outcome: false };
                    visits.push(visit);
                    let failure = failure_of(error);
                    proof {
                        assert(performed(r, node, req, before, Err(error)));
                        steps_stay(r, *req, walked, states, visit, before);
                        states = states.push(before);
                        follow_push(Step::Visit(root()), walked, node, false);
                        ends_behind_actions(node, false);
                        walks_descend(root(), visits@);
                        assert(failed(r, node, *req, before, Err(failure)));
                    }
                    let t = Traversal { visits, result: Err(failure) };
                    assert(accounts_for(r, t.visits@, states, *req, t.result));
                    return t;
                },
            }
        } else {
            let answer = match decide(node, r, req, resp) {
                Some(answer) => answer,
                None => {
                    proof {
                        assert(false);
                    }
                    vstd::pervasive::unreached()
                },
            };
            let ghost given = answer;
            outcome = answer.yes;
            resp = answer.response;
            assert((Answer { yes: outcome, response: resp }) == given);
        }
        let visit = Visit { node, outcome };
        visits.push(visit);
        proof {
            assert(stepped(r, *req, visit, before, resp));
            steps_stay(r, *req, walked, states, visit, resp);
            states = states.push(resp);
            follow_push(Step::Visit(root()), walked, node, outcome);
            ends_behind_actions(node, outcome);
            walks_descend(root(), visits@);
        }
        match successor(node, outcome) {
            Step::Visit(then) => {
                node = then;
            },
            Step::Finish(terminal) => {
                let out = finish(terminal, r, req, resp);
                let result = conclude(out);
                let t = Traversal { visits, result };
                assert(finished_by(r, terminal, *req, states.last(), t.result));
                assert(accounts_for(r, t.visits@, states, *req, t.result));
                return t;
            },
            Step::Respond => {
                let t = Traversal { visits, result: Ok(resp) };
                assert(accounts_for(r, t.visits@, states, *req, t.result));
                return t;
            },
            Step::Fail => {
                proof {
                    assert(false);
                }
                vstd::pervasive::unreached()
            },
        }
    }
}

/// Whether `node` is an action rather than a decision.
pub fn is_action(node: Node) -> (b: bool)
    ensures
        b == acts(node),
{
    match node {
        Node::PerformDelete
        | Node::PerformPatch
        | Node::PerformPost
        | Node::PerformPut
        | Node::PerformGet => true,
        _ => false,
    }
}

/// Handles one request: runs the graph from its root on a fresh response and
/// returns what the walk ends with.  The walk that the engine took, through
/// the responses that it handed from hook to hook, accounts for the result.
pub fn resource_handle<R: Resource>(r: &R, req: &Request) -> (out: Result<Response, Failure>)
    ensures
        exists|visits: Seq<Visit>, states: Seq<Response>|
            accounts_for(r, visits, states, *req, out),
{
    let t = traverse(r, req);
    t.result
}

} // verus!
