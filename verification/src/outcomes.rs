//! What the contract of the engine comes to for whole requests: where a
//! walk ends and what the result then is, and what the engine does for a
//! resource that keeps its defaults.
use crate::content_neg::{coding_acceptable, stated, token_outcome};
use crate::graph::{
    acts, an_end_is_last, destination, edge, ends_behind_actions, follow, root, route,
    the_last_edge, the_walk_is_unique, Node, Step, Terminal, Visit,
};
use crate::message::{Request, Response};
use crate::paths::{a_node_is_visited_once, visits_follow_edges};
use crate::resource::{
    accounts_for, concluded, default_answer, default_charsets, default_encodings,
    default_languages, finished, finished_by, handler_of, hook_at, is_fresh, performed, settled,
    step_at, stepped, Failure, Hook, Resource, ResourceResult,
};
use vstd::prelude::*;

verus! {

/// A terminal ends the walk: a visit whose answer leads to `terminal` is the
/// last visit, and the result is what the handler of that terminal made of
/// the response that the visit left.
pub proof fn a_terminal_ends_the_walk<R: Resource>(
    r: &R,
    visits: Seq<Visit>,
    states: Seq<Response>,
    req: Request,
    result: Result<Response, Failure>,
    k: int,
    terminal: Terminal,
)
    requires
        accounts_for(r, visits, states, req, result),
        0 <= k < visits.len(),
        edge(visits[k].node, visits[k].outcome) == Step::Finish(terminal),
    ensures
        k == visits.len() - 1,
        finished_by(r, terminal, req, states[k + 1], result),
{
    an_end_is_last(Step::Visit(root()), visits, k);
    the_last_edge(Step::Visit(root()), visits);
}

/// A terminal whose handler the resource keeps gives its own response: the
/// walk ends there with the response that the visit left, under the status
/// and the short body of the terminal.
pub proof fn a_kept_terminal_gives_its_response<R: Resource>(
    r: &R,
    visits: Seq<Visit>,
    states: Seq<Response>,
    req: Request,
    result: Result<Response, Failure>,
    k: int,
    terminal: Terminal,
)
    requires
        accounts_for(r, visits, states, req, result),
        0 <= k < visits.len(),
        edge(visits[k].node, visits[k].outcome) == Step::Finish(terminal),
        !r.overrides(handler_of(terminal)),
    ensures
        k == visits.len() - 1,
        result matches Ok(response) && finished(terminal, states[k + 1], response),
{
    a_terminal_ends_the_walk(r, visits, states, req, result, k, terminal);
}

/// OPTIONS is answered before anything is negotiated: the visit that asks
/// for the method OPTIONS and finds it is the last, and with the handler
/// that the resource keeps the result is 200 with an empty body.
pub proof fn options_end_the_walk<R: Resource>(
    r: &R,
    visits: Seq<Visit>,
    states: Seq<Response>,
    req: Request,
    result: Result<Response, Failure>,
    k: int,
)
    requires
        accounts_for(r, visits, states, req, result),
        0 <= k < visits.len(),
        visits[k].node == Node::IsOptions,
        req.method is Options,
    ensures
        k == visits.len() - 1,
        finished_by(r, Terminal::Options, req, states[k + 1], result),
        !r.overrides(Hook::HandleOptions) ==> (result matches Ok(response) && response.status
            == Some(200u16) && response.body@ == ""@),
{
    assert(visits[k].outcome);
    a_terminal_ends_the_walk(r, visits, states, req, result, k, Terminal::Options);
}

/// The visit leaves the response as it found it for certain: the request
/// settles its question, or it asks a hook of which the resource keeps the
/// default.
pub open spec fn quiet<R: Resource>(r: &R, req: Request, visit: Visit) -> bool {
    !acts(visit.node) && (settled(visit.node, req) is Some || (hook_at(visit.node) is Some
        && !r.overrides(hook_at(visit.node)->0)) || match visit.node {
        Node::AcceptExists | Node::MediaTypeAvailable => !r.overrides(Hook::AvailableContentTypes),
        Node::EncodingAvailable => !r.overrides(Hook::AvailableEncodings),
        Node::IfMatch | Node::IfNoneMatch => !r.overrides(Hook::Etag),
        Node::IfUnmodifiedSince | Node::IfModifiedSince => true,
        _ => false,
    })
}

/// Quiet visits hand the response on: behind visits `i` to `j` that the
/// request settles, or whose hooks the resource keeps, the response is the
/// one that visit `i` found.
pub proof fn quiet_visits_keep_the_response<R: Resource>(
    r: &R,
    visits: Seq<Visit>,
    states: Seq<Response>,
    req: Request,
    result: Result<Response, Failure>,
    i: int,
    j: int,
)
    requires
        accounts_for(r, visits, states, req, result),
        0 <= i <= j <= visits.len(),
        forall|k: int| i <= k < j ==> quiet(r, req, #[trigger] visits[k]),
    ensures
        states[j] == states[i],
    decreases j - i,
{
    if i < j {
        quiet_visits_keep_the_response(r, visits, states, req, result, i, j - 1);
        assert(quiet(r, req, visits[j - 1]));
        assert(step_at(r, req, visits, states, j - 1));
    }
}

/// The result behind the retrieving action is that action's: a walk that
/// ends with the response of an action ends with a visit of the action that
/// retrieves, and the result is the response that `get`, or `head` for a
/// HEAD request, gave for the request and the response that the visit
/// found.
pub proof fn the_result_is_the_actions<R: Resource>(
    r: &R,
    visits: Seq<Visit>,
    states: Seq<Response>,
    req: Request,
    result: Result<Response, Failure>,
)
    requires
        accounts_for(r, visits, states, req, result),
        follow(Step::Visit(root()), visits) == Some(Step::Respond),
    ensures
        visits.len() > 0,
        visits.last() == (Visit { node: Node::PerformGet, outcome: true }),
        result matches Ok(response) && performed(
            r,
            Node::PerformGet,
            &req,
            states[visits.len() - 1],
            Ok(response),
        ),
{
    the_last_edge(Step::Visit(root()), visits);
    ends_behind_actions(visits.last().node, visits.last().outcome);
    assert(step_at(r, req, visits, states, visits.len() - 1));
}

/// The resource keeps the default of every hook that a decision asks or
/// consults; its actions and handlers may be its own.
pub open spec fn keeps_every_decision<R: Resource>(r: &R) -> bool {
    &&& forall|node: Node| hook_at(node) is Some ==> !r.overrides(#[trigger] hook_at(node)->0)
    &&& !r.overrides(Hook::AvailableContentTypes)
    &&& !r.overrides(Hook::AvailableLanguages)
    &&& !r.overrides(Hook::AvailableCharsets)
    &&& !r.overrides(Hook::AvailableEncodings)
    &&& !r.overrides(Hook::Etag)
    &&& !r.overrides(Hook::LastModified)
}

/// The answers along a walk of a resource that keeps every decision: at a
/// decision what the request and the defaults give, at an action whether
/// the walk found it to succeed.
pub open spec fn kept_oracle(visits: Seq<Visit>, req: Request) -> spec_fn(Node) -> bool {
    |node: Node|
        if acts(node) {
            visits.contains(Visit { node, outcome: true })
        } else {
            default_outcome(node, req)
        }
}

/// A resource that keeps every decision leaves the walk to the request and
/// to its actions.
pub proof fn kept_decisions_decide_the_walk<R: Resource>(
    r: &R,
    visits: Seq<Visit>,
    states: Seq<Response>,
    req: Request,
    result: Result<Response, Failure>,
)
    requires
        accounts_for(r, visits, states, req, result),
        keeps_every_decision(r),
    ensures
        visits == route(root(), kept_oracle(visits, req)),
        follow(Step::Visit(root()), visits) == Some(
            destination(root(), kept_oracle(visits, req)),
        ),
{
    let oracle = kept_oracle(visits, req);
    assert forall|k: int| 0 <= k < visits.len() implies (#[trigger] visits[k]).outcome == oracle(
        visits[k].node,
    ) by {
        assert(step_at(r, req, visits, states, k));
        let visit = visits[k];
        assert(stepped(r, req, visit, states[k], states[k + 1]));
        if acts(visit.node) {
            if visit.outcome {
                assert(visits[k] == (Visit { node: visit.node, outcome: true }));
            } else if visits.contains(Visit { node: visit.node, outcome: true }) {
                let j = choose|j: int|
                    0 <= j < visits.len() && visits[j] == (Visit {
                        node: visit.node,
                        outcome: true,
                    });
                a_node_is_visited_once(Step::Visit(root()), visits, k, j);
            }
        } else if hook_at(visit.node) is Some {
            assert(!r.overrides(hook_at(visit.node)->0));
        }
    }
    let end = follow(Step::Visit(root()), visits)->0;
    the_walk_is_unique(root(), oracle, visits, end);
}

/// The nodes on the way of a request to retrieve that carries none of the
/// headers that the engine reads, where the resource keeps every decision.
pub open spec fn on_the_bare_way(node: Node) -> bool {
    match node {
        Node::ServiceAvailable
        | Node::KnownMethod
        | Node::UriTooLong
        | Node::MethodAllowed
        | Node::Malformed
        | Node::Authorized
        | Node::Allowed
        | Node::ValidContentHeader
        | Node::KnownContentType
        | Node::ValidEntityLength
        | Node::IsOptions
        | Node::AcceptExists
        | Node::AcceptLanguageExists
        | Node::AcceptCharsetExists
        | Node::AcceptEncodingExists
        | Node::Processable
        | Node::Exists
        | Node::IfMatchExists
        | Node::IfUnmodifiedSinceExists
        | Node::IfNoneMatchExists
        | Node::IfModifiedSinceExists
        | Node::MethodDelete
        | Node::MethodPatch
        | Node::PostToExisting
        | Node::PutToExisting
        | Node::MultipleRepresentations
        | Node::PerformGet => true,
        _ => false,
    }
}

/// Such a request stays on its way.
proof fn a_bare_retrieval_stays_on_its_way<R: Resource>(
    r: &R,
    visits: Seq<Visit>,
    states: Seq<Response>,
    req: Request,
    result: Result<Response, Failure>,
    k: int,
)
    requires
        accounts_for(r, visits, states, req, result),
        keeps_every_decision(r),
        req.method.retrieves(),
        bare(req),
        0 <= k < visits.len(),
    ensures
        on_the_bare_way(visits[k].node),
        visits[k].node != Node::PerformGet ==> quiet(r, req, visits[k]) && visits[k].outcome
            == default_outcome(visits[k].node, req) && edge(visits[k].node, visits[k].outcome)
            is Visit,
    decreases k,
{
    visits_follow_edges(Step::Visit(root()), visits, k);
    if k > 0 {
        a_bare_retrieval_stays_on_its_way(r, visits, states, req, result, k - 1);
        visits_follow_edges(Step::Visit(root()), visits, k - 1);
        ends_behind_actions(visits[k - 1].node, visits[k - 1].outcome);
        assert(visits[k - 1].node != Node::PerformGet);
        assert(edge(visits[k - 1].node, default_outcome(visits[k - 1].node, req)) == Step::Visit(
            visits[k].node,
        ));
    }
    assert(on_the_bare_way(visits[k].node));
    assert(step_at(r, req, visits, states, k));
    if hook_at(visits[k].node) is Some {
        assert(!r.overrides(hook_at(visits[k].node)->0));
    }
}

/// A request to retrieve, without any of the headers that the engine reads,
/// comes to the action and to nothing else where the resource keeps every
/// decision: the result is what `get`, or `head` for HEAD, gave for the
/// request on a fresh response, a failure being reported with its error.
pub proof fn a_bare_retrieval_is_the_actions<R: Resource>(
    r: &R,
    visits: Seq<Visit>,
    states: Seq<Response>,
    req: Request,
    result: Result<Response, Failure>,
)
    requires
        accounts_for(r, visits, states, req, result),
        keeps_every_decision(r),
        req.method.retrieves(),
        bare(req),
    ensures
        is_fresh(states[0]),
        exists|out: ResourceResult| #[trigger]
            performed(r, Node::PerformGet, &req, states[0], out) && concluded(out, result),
{
    let n = visits.len() - 1;
    assert(visits.len() > 0);
    the_last_edge(Step::Visit(root()), visits);
    a_bare_retrieval_stays_on_its_way(r, visits, states, req, result, n);
    assert(visits[n].node == Node::PerformGet);
    assert forall|k: int| 0 <= k < n implies quiet(r, req, #[trigger] visits[k]) by {
        a_bare_retrieval_stays_on_its_way(r, visits, states, req, result, k);
        if visits[k].node == Node::PerformGet {
            ends_behind_actions(visits[k].node, visits[k].outcome);
            an_end_is_last(Step::Visit(root()), visits, k);
        }
    }
    quiet_visits_keep_the_response(r, visits, states, req, result, 0, n);
    assert(step_at(r, req, visits, states, n));
    ends_behind_actions(visits[n].node, visits[n].outcome);
    if visits[n].outcome {
        assert(performed(r, Node::PerformGet, &req, states[0], Ok(states[n + 1])));
        assert(concluded(Ok(states[n + 1]), result));
    } else {
        let failure = result->Err_0;
        assert(performed(r, Node::PerformGet, &req, states[0], Err(failure.error)));
        assert(concluded(Err(failure.error), result));
    }
}

/// The resource keeps the default of every hook.
pub open spec fn keeps_every_default<R: Resource>(r: &R) -> bool {
    forall|hook: Hook| !#[trigger] r.overrides(hook)
}

/// What a resource that keeps every default answers at `node` for `req`:
/// the request's answer where the request settles the question, the default
/// of the hook, the outcome of the negotiation over the default offers, no
/// match of tags or dates, and failure of every action.
pub open spec fn default_outcome(node: Node, req: Request) -> bool {
    match settled(node, req) {
        Some(answer) => answer,
        None => match node {
            Node::AcceptExists => stated(req.accept.deep_view()),
            Node::MediaTypeAvailable => !stated(req.accept.deep_view()),
            Node::LanguageAvailable => !(token_outcome(
                req.accept_language.deep_view(),
                default_languages(),
            ) is NotAcceptable),
            Node::CharsetAvailable => !(token_outcome(
                req.accept_charset.deep_view(),
                default_charsets(),
            ) is NotAcceptable),
            Node::EncodingAvailable => coding_acceptable(
                req.accept_encoding.deep_view(),
                default_encodings(),
            ),
            _ => hook_at(node) is Some && default_answer(node, req),
        },
    }
}

/// The answers of a resource that keeps every default, as a function of the
/// node.
pub open spec fn default_oracle(req: Request) -> spec_fn(Node) -> bool {
    |node: Node| default_outcome(node, req)
}

/// A resource that keeps every default leaves no choice: the walk of the
/// engine is the one that the request and the defaults determine.
pub proof fn defaults_decide_the_walk<R: Resource>(
    r: &R,
    visits: Seq<Visit>,
    states: Seq<Response>,
    req: Request,
    result: Result<Response, Failure>,
)
    requires
        accounts_for(r, visits, states, req, result),
        keeps_every_default(r),
    ensures
        visits == route(root(), default_oracle(req)),
        follow(Step::Visit(root()), visits) == Some(destination(root(), default_oracle(req))),
{
    let oracle = default_oracle(req);
    assert forall|k: int| 0 <= k < visits.len() implies (#[trigger] visits[k]).outcome == oracle(
        visits[k].node,
    ) by {
        assert(step_at(r, req, visits, states, k));
        let visit = visits[k];
        assert(stepped(r, req, visit, states[k], states[k + 1]));
        assert(!r.overrides(Hook::Get) && !r.overrides(Hook::Head) && !r.overrides(Hook::Delete)
            && !r.overrides(Hook::Patch) && !r.overrides(Hook::Post) && !r.overrides(Hook::Put));
        assert(!r.overrides(Hook::AvailableContentTypes) && !r.overrides(Hook::AvailableLanguages)
            && !r.overrides(Hook::AvailableCharsets) && !r.overrides(Hook::AvailableEncodings)
            && !r.overrides(Hook::Etag) && !r.overrides(Hook::LastModified));
        if hook_at(visit.node) is Some {
            assert(!r.overrides(hook_at(visit.node)->0));
        }
    }
    let end = follow(Step::Visit(root()), visits)->0;
    the_walk_is_unique(root(), oracle, visits, end);
}


/// The request carries none of the headers that the engine reads.
pub open spec fn bare(req: Request) -> bool {
    &&& req.accept is None
    &&& req.accept_language is None
    &&& req.accept_charset is None
    &&& req.accept_encoding is None
    &&& req.if_match is None
    &&& req.if_none_match is None
    &&& req.if_modified_since is None
    &&& req.if_unmodified_since is None
}

/// A resource that keeps every default allows GET and HEAD only: a request
/// of another known method ends in 405 Method Not Allowed.
pub proof fn defaults_allow_retrieval_only<R: Resource>(
    r: &R,
    visits: Seq<Visit>,
    states: Seq<Response>,
    req: Request,
    result: Result<Response, Failure>,
)
    requires
        accounts_for(r, visits, states, req, result),
        keeps_every_default(r),
        req.method.known(),
        !req.method.retrieves(),
    ensures
        result matches Ok(response) && response.status == Some(405u16) && response.body@
            == "Method not allowed"@,
{
    defaults_decide_the_walk(r, visits, states, req, result);
    reveal_with_fuel(destination, 5);
    assert(destination(root(), default_oracle(req)) == Step::Finish(Terminal::MethodNotAllowed));
    assert(!r.overrides(Hook::HandleMethodNotAllowed));
}

/// A resource that keeps every default has nothing to retrieve: a GET or
/// HEAD request without any of the headers that the engine reads ends behind
/// the default action, which is not implemented, with 501.
pub proof fn defaults_implement_nothing<R: Resource>(
    r: &R,
    visits: Seq<Visit>,
    states: Seq<Response>,
    req: Request,
    result: Result<Response, Failure>,
)
    requires
        accounts_for(r, visits, states, req, result),
        keeps_every_default(r),
        req.method.retrieves(),
        bare(req),
    ensures
        result matches Err(failure) && failure.error is NotImplemented && failure.response.status
            == Some(501u16) && failure.response.body@ == "Not implemented"@,
{
    defaults_decide_the_walk(r, visits, states, req, result);
    reveal_with_fuel(destination, 30);
    assert(destination(root(), default_oracle(req)) == Step::Fail);
    assert(!r.overrides(Hook::Get) && !r.overrides(Hook::Head));
}

} // verus!
