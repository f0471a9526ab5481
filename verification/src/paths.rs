//! Every walk of the graph can be taken: whatever edges a walk follows,
//! there are a method and a set of headers that give each of its nodes that
//! the request settles the answer that the walk takes there.  The answers of
//! the other nodes are the resource's to give.
use crate::graph::{
    an_end_is_last, edge, edges_descend, follow, rank, respects, root, settled_by, Node,
    Situation, Step, TagHeader, Visit,
};
use crate::message::Method;
use vstd::prelude::*;

verus! {

/// A walk starts at the node it is followed from, and each visit but the
/// last leads to the node of the next.
pub proof fn visits_follow_edges(from: Step, visits: Seq<Visit>, k: int)
    requires
        follow(from, visits) is Some,
        0 <= k < visits.len(),
    ensures
        from == Step::Visit(visits[0].node),
        k + 1 < visits.len() ==> edge(visits[k].node, visits[k].outcome) == Step::Visit(
            visits[k + 1].node,
        ),
    decreases visits.len(),
{
    match from {
        Step::Visit(node) => {
            let rest = visits.drop_first();
            let next = edge(node, visits[0].outcome);
            if rest.len() > 0 {
                visits_follow_edges(next, rest, 0);
                if k > 0 {
                    visits_follow_edges(next, rest, k - 1);
                    assert(rest[k - 1] == visits[k]);
                    if k + 1 < visits.len() {
                        assert(rest[k] == visits[k + 1]);
                    }
                } else {
                    assert(rest[0] == visits[1]);
                }
            }
        },
        _ => {},
    }
}

/// Every edge from a node of `set` leads to a node of `set`, or to an end.
pub open spec fn closed(set: spec_fn(Node) -> bool) -> bool {
    forall|node: Node, outcome: bool|
        set(node) ==> (#[trigger] edge(node, outcome) matches Step::Visit(then) ==> set(then))
}

/// A walk that has entered a closed set stays in it.
pub proof fn closed_sets_hold(
    from: Step,
    visits: Seq<Visit>,
    set: spec_fn(Node) -> bool,
    i: int,
    j: int,
)
    requires
        follow(from, visits) is Some,
        closed(set),
        0 <= i <= j < visits.len(),
        set(visits[i].node),
    ensures
        set(visits[j].node),
    decreases j - i,
{
    if i < j {
        closed_sets_hold(from, visits, set, i, j - 1);
        visits_follow_edges(from, visits, j - 1);
        assert(edge(visits[j - 1].node, visits[j - 1].outcome) == Step::Visit(visits[j].node));
    }
}

/// The nodes of rank below `bound`.
pub open spec fn below(bound: nat) -> spec_fn(Node) -> bool {
    |node: Node| rank(node) < bound
}

/// Ranks fall along a walk, so no node is visited twice.
pub proof fn a_node_is_visited_once(from: Step, visits: Seq<Visit>, i: int, j: int)
    requires
        follow(from, visits) is Some,
        0 <= i < visits.len(),
        0 <= j < visits.len(),
        visits[i].node == visits[j].node,
    ensures
        i == j,
{
    if i != j {
        let (a, b) = if i < j {
            (i, j)
        } else {
            (j, i)
        };
        let set = below(rank(visits[a].node));
        assert forall|node: Node, outcome: bool| set(node) implies (#[trigger] edge(
            node,
            outcome,
        ) matches Step::Visit(then) ==> set(then)) by {
            edges_descend(node, outcome);
        }
        visits_follow_edges(from, visits, a);
        edges_descend(visits[a].node, visits[a].outcome);
        closed_sets_hold(from, visits, set, a + 1, b);
    }
}

/// The nodes behind which the request is asked nothing more: the actions,
/// and the decisions that the resource alone answers on the way from them
/// to the end.
pub open spec fn past_the_request(node: Node) -> bool {
    match node {
        Node::PerformDelete
        | Node::DeleteEnacted
        | Node::PerformPatch
        | Node::PerformPost
        | Node::PostRedirect
        | Node::PerformPut
        | Node::New
        | Node::RespondWithEntity
        | Node::MultipleRepresentations
        | Node::PerformGet
        | Node::Conflict
        | Node::PutToDifferentUrl
        | Node::CanPutToMissing
        | Node::CanPostToGone
        | Node::CanPostToMissing => true,
        _ => false,
    }
}

/// The nodes that are visited only where the entity exists, before the
/// request is asked nothing more.
pub open spec fn where_it_exists(node: Node) -> bool {
    match node {
        Node::IfMatchExists
        | Node::IfMatchStar
        | Node::IfMatch
        | Node::IfUnmodifiedSinceExists
        | Node::IfUnmodifiedSince
        | Node::IfNoneMatchExists
        | Node::IfNoneMatchStar
        | Node::IfNoneMatch
        | Node::NoneMatchStatus
        | Node::IfModifiedSinceExists
        | Node::IfModifiedSince
        | Node::MethodDelete
        | Node::MethodPatch
        | Node::PostToExisting
        | Node::PutToExisting => true,
        _ => false,
    }
}

/// The nodes that are visited only where the entity existed and is gone.
pub open spec fn where_it_is_gone(node: Node) -> bool {
    node == Node::MovedPermanently || node == Node::MovedTemporarily || node == Node::PostToGone
}

/// The nodes that are visited only where the entity is missing, before the
/// request is asked nothing more.
pub open spec fn where_it_is_missing(node: Node) -> bool {
    where_it_is_gone(node) || node == Node::IfMatchStarExistsForMissing || node == Node::MethodPut
        || node == Node::Existed || node == Node::PostToMissing
}

/// The node asks for the method of the request.
pub open spec fn asks_the_method(node: Node) -> bool {
    match node {
        Node::IsOptions
        | Node::NoneMatchStatus
        | Node::MethodDelete
        | Node::MethodPatch
        | Node::PostToExisting
        | Node::PostToGone
        | Node::PostToMissing
        | Node::PutToExisting
        | Node::MethodPut => true,
        _ => false,
    }
}

/// A set of nodes as a function.
pub open spec fn or_past(set: spec_fn(Node) -> bool) -> spec_fn(Node) -> bool {
    |node: Node| set(node) || past_the_request(node)
}

/// The sets of nodes above, each with the nodes past the request, are
/// closed.
pub proof fn the_parts_are_closed()
    ensures
        closed(|node: Node| past_the_request(node)),
        closed(or_past(|node: Node| where_it_exists(node))),
        closed(or_past(|node: Node| where_it_is_missing(node))),
        closed(or_past(|node: Node| where_it_is_gone(node))),
        closed(or_past(|node: Node| node == Node::PostToMissing)),
{
    assert forall|node: Node, outcome: bool| past_the_request(node) implies (#[trigger] edge(
        node,
        outcome,
    ) matches Step::Visit(then) ==> past_the_request(then)) by {}
    let present = or_past(|node: Node| where_it_exists(node));
    assert forall|node: Node, outcome: bool| present(node) implies (#[trigger] edge(
        node,
        outcome,
    ) matches Step::Visit(then) ==> present(then)) by {}
    let missing = or_past(|node: Node| where_it_is_missing(node));
    assert forall|node: Node, outcome: bool| missing(node) implies (#[trigger] edge(
        node,
        outcome,
    ) matches Step::Visit(then) ==> missing(then)) by {}
    let gone = or_past(|node: Node| where_it_is_gone(node));
    assert forall|node: Node, outcome: bool| gone(node) implies (#[trigger] edge(
        node,
        outcome,
    ) matches Step::Visit(then) ==> gone(then)) by {}
    let never = or_past(|node: Node| node == Node::PostToMissing);
    assert forall|node: Node, outcome: bool| never(node) implies (#[trigger] edge(
        node,
        outcome,
    ) matches Step::Visit(then) ==> never(then)) by {}
}

/// The walk visits `node` and takes the answer yes there.
pub open spec fn took(visits: Seq<Visit>, node: Node) -> bool {
    visits.contains(Visit { node, outcome: true })
}

/// A method under which the walk can be taken: the one that a node of the
/// walk asks for and finds, or a method that no node asks for.
pub open spec fn fitting_method(visits: Seq<Visit>) -> Method {
    if took(visits, Node::IsOptions) {
        Method::Options
    } else if took(visits, Node::MethodDelete) {
        Method::Delete
    } else if took(visits, Node::MethodPatch) {
        Method::Patch
    } else if took(visits, Node::PostToExisting) || took(visits, Node::PostToGone) || took(
        visits,
        Node::PostToMissing,
    ) {
        Method::Post
    } else if took(visits, Node::PutToExisting) || took(visits, Node::MethodPut) {
        Method::Put
    } else if took(visits, Node::NoneMatchStatus) {
        Method::Get
    } else {
        Method::Other(arbitrary())
    }
}

/// The headers and the method under which the walk can be taken: each as
/// the node that asks for it finds it, and absent where no node asks.
pub open spec fn fitting(visits: Seq<Visit>) -> Situation {
    Situation {
        method: fitting_method(visits),
        language: took(visits, Node::AcceptLanguageExists),
        charset: took(visits, Node::AcceptCharsetExists),
        encoding: took(visits, Node::AcceptEncodingExists),
        if_match: if took(visits, Node::IfMatchStar) || took(
            visits,
            Node::IfMatchStarExistsForMissing,
        ) {
            TagHeader::Star
        } else if took(visits, Node::IfMatchExists) {
            TagHeader::Listed
        } else {
            TagHeader::Absent
        },
        if_unmodified_since: took(visits, Node::IfUnmodifiedSinceExists),
        if_none_match: if took(visits, Node::IfNoneMatchStar) {
            TagHeader::Star
        } else if took(visits, Node::IfNoneMatchExists) {
            TagHeader::Listed
        } else {
            TagHeader::Absent
        },
        if_modified_since: took(visits, Node::IfModifiedSinceExists),
    }
}

/// How two visits of one walk stand to each other.
pub open spec fn apart(visits: Seq<Visit>, k: int, j: int) -> bool {
    let here = visits[k];
    let there = visits[j];
    &&& here.node == there.node ==> j == k
    &&& asks_the_method(here.node) && asks_the_method(there.node) && there.outcome && j != k ==> k
        < j && !here.outcome
    &&& where_it_exists(here.node) ==> !where_it_is_missing(there.node)
    &&& where_it_is_missing(here.node) ==> !where_it_exists(there.node)
    &&& where_it_is_gone(here.node) ==> there.node != Node::PostToMissing
    &&& here.node == Node::PostToMissing ==> !where_it_is_gone(there.node)
    &&& here.node == Node::IfMatchExists && there.node == Node::IfMatchStar ==> here.outcome
    &&& here.node == Node::IfNoneMatchExists && there.node == Node::IfNoneMatchStar
        ==> here.outcome
}

/// A walk that has entered one part of the graph does not visit another.
proof fn parts_stay_apart(visits: Seq<Visit>, i: int, j: int)
    requires
        follow(Step::Visit(root()), visits) is Some,
        0 <= i < j < visits.len(),
    ensures
        past_the_request(visits[i].node) ==> past_the_request(visits[j].node),
        where_it_exists(visits[i].node) ==> !where_it_is_missing(visits[j].node),
        where_it_is_missing(visits[i].node) ==> !where_it_exists(visits[j].node),
        where_it_is_gone(visits[i].node) ==> visits[j].node != Node::PostToMissing,
        visits[i].node == Node::PostToMissing ==> !where_it_is_gone(visits[j].node),
{
    the_parts_are_closed();
    let from = Step::Visit(root());
    if past_the_request(visits[i].node) {
        closed_sets_hold(from, visits, |node: Node| past_the_request(node), i, j);
    }
    if where_it_exists(visits[i].node) {
        closed_sets_hold(from, visits, or_past(|node: Node| where_it_exists(node)), i, j);
    }
    if where_it_is_missing(visits[i].node) {
        closed_sets_hold(from, visits, or_past(|node: Node| where_it_is_missing(node)), i, j);
    }
    if where_it_is_gone(visits[i].node) {
        closed_sets_hold(from, visits, or_past(|node: Node| where_it_is_gone(node)), i, j);
    }
    if visits[i].node == Node::PostToMissing {
        closed_sets_hold(from, visits, or_past(|node: Node| node == Node::PostToMissing), i, j);
    }
}

/// Behind the method that a node asks for and finds, the request is asked
/// nothing more.
proof fn a_found_method_is_the_last(visits: Seq<Visit>, i: int, j: int)
    requires
        follow(Step::Visit(root()), visits) is Some,
        0 <= i < j < visits.len(),
        asks_the_method(visits[i].node),
        visits[i].outcome,
    ensures
        past_the_request(visits[j].node),
{
    let from = Step::Visit(root());
    visits_follow_edges(from, visits, i);
    assert(past_the_request(visits[i + 1].node));
    if i + 1 < j {
        parts_stay_apart(visits, i + 1, j);
    }
}

/// Any two visits of a walk stand apart.
proof fn visits_stand_apart(visits: Seq<Visit>, k: int, j: int)
    requires
        follow(Step::Visit(root()), visits) is Some,
        0 <= k < visits.len(),
        0 <= j < visits.len(),
    ensures
        apart(visits, k, j),
{
    let from = Step::Visit(root());
    if visits[k].node == visits[j].node {
        a_node_is_visited_once(from, visits, k, j);
    }
    if k < j {
        parts_stay_apart(visits, k, j);
        if asks_the_method(visits[k].node) && visits[k].outcome {
            a_found_method_is_the_last(visits, k, j);
        }
    }
    if j < k {
        parts_stay_apart(visits, j, k);
        if asks_the_method(visits[j].node) && visits[j].outcome {
            a_found_method_is_the_last(visits, j, k);
        }
    }
    if visits[j].node == Node::IfMatchStar || visits[j].node == Node::IfNoneMatchStar {
        visits_follow_edges(from, visits, j);
        if j > 0 {
            visits_follow_edges(from, visits, j - 1);
            if visits[k].node == visits[j - 1].node {
                a_node_is_visited_once(from, visits, k, j - 1);
            }
        }
    }
}

/// Under the headers and the method that fit the walk, the request gives
/// at visit `k` the answer that the walk takes.
proof fn the_fitting_request_answers(visits: Seq<Visit>, k: int)
    requires
        follow(Step::Visit(root()), visits) is Some,
        0 <= k < visits.len(),
    ensures
        settled_by(visits[k].node, fitting(visits)) matches Some(b) ==> visits[k].outcome == b,
{
    assert forall|j: int| 0 <= j < visits.len() implies #[trigger] apart(visits, k, j) by {
        visits_stand_apart(visits, k, j);
    }
    assert forall|node: Node| #[trigger] took(visits, node) implies exists|j: int|
        0 <= j < visits.len() && apart(visits, k, j) && visits[j] == (Visit {
            node,
            outcome: true,
        }) by {
        let j = choose|j: int|
            0 <= j < visits.len() && visits[j] == (Visit { node, outcome: true });
        assert(apart(visits, k, j));
    }
    if visits[k].outcome {
        assert(visits[k] == (Visit { node: visits[k].node, outcome: true }));
        assert(took(visits, visits[k].node));
    }
}

/// Every walk of the graph can be taken: for every sequence of visits that
/// follows the edges of the table from the root, there are a method and a
/// set of headers such that every node of the walk that the request settles
/// gets from the request the answer that the walk takes.  The answers at
/// the other nodes are hook return values.
pub proof fn every_walk_can_be_taken(visits: Seq<Visit>)
    requires
        follow(Step::Visit(root()), visits) is Some,
    ensures
        respects(visits, fitting(visits)),
        exists|s: Situation| respects(visits, s),
{
    assert forall|k: int| 0 <= k < visits.len() implies (settled_by(
        (#[trigger] visits[k]).node,
        fitting(visits),
    ) matches Some(b) ==> visits[k].outcome == b) by {
        the_fitting_request_answers(visits, k);
    }
    assert(respects(visits, fitting(visits)));
}

} // verus!
