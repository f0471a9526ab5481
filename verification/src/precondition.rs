//! Preconditions: comparing the entity tags and dates that a request names
//! in `If-Match`, `If-None-Match`, `If-Modified-Since` and
//! `If-Unmodified-Since` with what the resource reports.
use vstd::prelude::*;

verus! {

/// An entity tag: an opaque string and a flag that marks it as weak.
#[derive(Debug, PartialEq, Eq)]
pub struct EntityTag {
    /// Whether the tag is a weak validator.
    pub weak: bool,
    /// The opaque text between the quotes.
    pub tag: String,
}

/// What an [`EntityTag`] holds, with its text as a sequence.
pub struct EntityTagView {
    /// Whether the tag is a weak validator.
    pub weak: bool,
    /// The opaque text between the quotes.
    pub tag: Seq<char>,
}

impl DeepView for EntityTag {
    type V = EntityTagView;

    open spec fn deep_view(&self) -> EntityTagView {
        EntityTagView { weak: self.weak, tag: self.tag.deep_view() }
    }
}

impl EntityTag {
    /// An entity tag of the given weakness and text.
    pub fn new(weak: bool, tag: String) -> (r: Self)
        ensures
            r.weak == weak,
            r.tag == tag,
    {
        EntityTag { weak, tag }
    }

    /// A weak entity tag.
    pub fn weak(tag: String) -> (r: Self)
        ensures
            r.weak,
            r.tag == tag,
    {
        EntityTag { weak: true, tag }
    }

    /// A strong entity tag.
    pub fn strong(tag: String) -> (r: Self)
        ensures
            !r.weak,
            r.tag == tag,
    {
        EntityTag { weak: false, tag }
    }
}

impl Clone for EntityTag {
    fn clone(&self) -> (r: Self)
        ensures
            r.deep_view() == self.deep_view(),
    {
        EntityTag { weak: self.weak, tag: self.tag.clone() }
    }
}

/// The body of an `If-Match` or `If-None-Match` header: `*`, or a list of
/// entity tags.
#[derive(Debug, PartialEq, Eq)]
pub enum EntityTagMatch {
    /// The header named `*`: any entity.
    Any,
    /// The header listed these tags.
    Tags(Vec<EntityTag>),
}

/// What an [`EntityTagMatch`] holds.
pub enum EntityTagMatchView {
    Any,
    Tags(Seq<EntityTagView>),
}

impl DeepView for EntityTagMatch {
    type V = EntityTagMatchView;

    open spec fn deep_view(&self) -> EntityTagMatchView {
        match self {
            EntityTagMatch::Any => EntityTagMatchView::Any,
            EntityTagMatch::Tags(tags) => EntityTagMatchView::Tags(tags.deep_view()),
        }
    }
}

/// Strong comparison: both tags are strong and their texts are equal.
pub open spec fn strongly_equal(a: EntityTagView, b: EntityTagView) -> bool {
    !a.weak && !b.weak && a.tag == b.tag
}

/// Weak comparison: the texts are equal, whatever the flags.
pub open spec fn weakly_equal(a: EntityTagView, b: EntityTagView) -> bool {
    a.tag == b.tag
}

/// Some tag of `tags` compares strongly equal to `current`.
pub open spec fn some_strongly_equal(tags: Seq<EntityTagView>, current: EntityTagView) -> bool {
    exists|i: int| 0 <= i < tags.len() && strongly_equal(#[trigger] tags[i], current)
}

/// Some tag of `tags` compares weakly equal to `current`.
pub open spec fn some_weakly_equal(tags: Seq<EntityTagView>, current: EntityTagView) -> bool {
    exists|i: int| 0 <= i < tags.len() && weakly_equal(#[trigger] tags[i], current)
}

/// Strong comparison of the tag a client sent with the tag of the server.
pub fn strong_match(client_tag: &EntityTag, server_tag: &EntityTag) -> (b: bool)
    ensures
        b == strongly_equal(client_tag.deep_view(), server_tag.deep_view()),
{
    !client_tag.weak && !server_tag.weak && client_tag.tag == server_tag.tag
}

/// Weak comparison of the tag a client sent with the tag of the server.
pub fn weak_match(client_tag: &EntityTag, server_tag: &EntityTag) -> (b: bool)
    ensures
        b == weakly_equal(client_tag.deep_view(), server_tag.deep_view()),
{
    client_tag.tag == server_tag.tag
}

/// Strong comparison does not depend on the order of its arguments.
pub proof fn strong_match_is_symmetric(a: EntityTagView, b: EntityTagView)
    ensures
        strongly_equal(a, b) == strongly_equal(b, a),
{
}

/// Whether the server's tag compares strongly equal to one of the client's.
pub fn any_strong_match(tags: &Vec<EntityTag>, current: &EntityTag) -> (b: bool)
    ensures
        b == some_strongly_equal(tags.deep_view(), current.deep_view()),
{
    let mut i: usize = 0;
    while i < tags.len()
        invariant
            i <= tags.len(),
            forall|k: int|
                0 <= k < i ==> !strongly_equal(
                    #[trigger] tags.deep_view()[k],
                    current.deep_view(),
                ),
        decreases tags.len() - i,
    {
        if strong_match(&tags[i], current) {
            assert(strongly_equal(tags.deep_view()[i as int], current.deep_view()));
            return true;
        }
        i += 1;
    }
    false
}

/// Whether the server's tag compares weakly equal to one of the client's.
pub fn any_weak_match(tags: &Vec<EntityTag>, current: &EntityTag) -> (b: bool)
    ensures
        b == some_weakly_equal(tags.deep_view(), current.deep_view()),
{
    let mut i: usize = 0;
    while i < tags.len()
        invariant
            i <= tags.len(),
            forall|k: int|
                0 <= k < i ==> !weakly_equal(#[trigger] tags.deep_view()[k], current.deep_view()),
        decreases tags.len() - i,
    {
        if weak_match(&tags[i], current) {
            assert(weakly_equal(tags.deep_view()[i as int], current.deep_view()));
            return true;
        }
        i += 1;
    }
    false
}

/// What the `If-Match` test finds: the header lists tags, the resource
/// reports a tag, and one of the listed tags compares strongly equal to it.
pub open spec fn matches_strongly(
    header: Option<EntityTagMatchView>,
    current: Option<EntityTagView>,
) -> bool {
    header matches Some(EntityTagMatchView::Tags(tags)) && current matches Some(tag)
        && some_strongly_equal(tags, tag)
}

/// What the `If-None-Match` test finds: the header lists tags, the resource
/// reports a tag, and one of the listed tags compares weakly equal to it.
pub open spec fn matches_weakly(
    header: Option<EntityTagMatchView>,
    current: Option<EntityTagView>,
) -> bool {
    header matches Some(EntityTagMatchView::Tags(tags)) && current matches Some(tag)
        && some_weakly_equal(tags, tag)
}

/// Evaluates `If-Match` against the tag that the resource reports.  Without
/// a list of tags in the header, or without a tag of the resource, nothing
/// matches.
pub fn if_match_holds(header: &Option<EntityTagMatch>, current: &Option<EntityTag>) -> (b: bool)
    ensures
        b == matches_strongly(header.deep_view(), current.deep_view()),
{
    match header {
        Some(EntityTagMatch::Tags(tags)) => match current {
            Some(tag) => any_strong_match(tags, tag),
            None => false,
        },
        _ => false,
    }
}

/// Evaluates `If-None-Match` against the tag that the resource reports.
/// Without a list of tags in the header, or without a tag of the resource,
/// nothing matches.
pub fn if_none_match_holds(header: &Option<EntityTagMatch>, current: &Option<EntityTag>) -> (b:
    bool)
    ensures
        b == matches_weakly(header.deep_view(), current.deep_view()),
{
    match header {
        Some(EntityTagMatch::Tags(tags)) => match current {
            Some(tag) => any_weak_match(tags, tag),
            None => false,
        },
        _ => false,
    }
}

/// Whether the header is present and names `*`.
pub fn names_any(header: &Option<EntityTagMatch>) -> (b: bool)
    ensures
        b == (header.deep_view() == Some(EntityTagMatchView::Any)),
{
    match header {
        Some(EntityTagMatch::Any) => true,
        _ => false,
    }
}

/// A point in time: seconds since the epoch, and nanoseconds within the
/// second.
#[derive(Clone, Copy, Debug, PartialEq, Eq)]
pub struct Timestamp {
    /// Whole seconds since 1970-01-01T00:00:00Z.
    pub sec: i64,
    /// Nanoseconds after `sec`.
    pub nsec: i32,
}

/// `a` is strictly later than `b`.
pub open spec fn later(a: Timestamp, b: Timestamp) -> bool {
    a.sec > b.sec || (a.sec == b.sec && a.nsec > b.nsec)
}

impl Timestamp {
    /// The point `nsec` nanoseconds after second `sec`.
    pub fn new(sec: i64, nsec: i32) -> (r: Self)
        ensures
            r.sec == sec,
            r.nsec == nsec,
    {
        Timestamp { sec, nsec }
    }

    /// Whether `self` is strictly later than `other`.
    pub fn is_later_than(&self, other: &Timestamp) -> (b: bool)
        ensures
            b == later(*self, *other),
    {
        self.sec > other.sec || (self.sec == other.sec && self.nsec > other.nsec)
    }
}

/// What the `If-Modified-Since` test finds: both dates are known and the
/// resource changed after the client's date.
pub open spec fn changed_since(client: Option<Timestamp>, server: Option<Timestamp>) -> bool {
    client matches Some(c) && server matches Some(s) && later(s, c)
}

/// What the `If-Unmodified-Since` test finds: both dates are known and the
/// resource did not change after the client's date.
pub open spec fn unchanged_since(client: Option<Timestamp>, server: Option<Timestamp>) -> bool {
    client matches Some(c) && server matches Some(s) && !later(s, c)
}

/// Whether the resource, last modified at `server`, changed after the date
/// `client` of the request.  Without either date the answer is no.
pub fn is_modified_since(client: &Option<Timestamp>, server: &Option<Timestamp>) -> (b: bool)
    ensures
        b == changed_since(*client, *server),
{
    match (client, server) {
        (Some(c), Some(s)) => s.is_later_than(c),
        _ => false,
    }
}

/// Whether the resource, last modified at `server`, is unchanged since the
/// date `client` of the request.  Without either date the answer is no.
pub fn is_unmodified_since(client: &Option<Timestamp>, server: &Option<Timestamp>) -> (b: bool)
    ensures
        b == unchanged_since(*client, *server),
{
    match (client, server) {
        (Some(c), Some(s)) => !s.is_later_than(c),
        _ => false,
    }
}

} // verus!
