//! Content negotiation: which of the server's representations best answers
//! the client's `Accept`, `Accept-Language`, `Accept-Charset` and
//! `Accept-Encoding` preferences.
use crate::hyper_headers::AcceptCharset;
use crate::preference::{
    acceptable, answers, is_first_answer, is_preferred, lead_of, leads, negotiated, negotiated_is,
    only, scan_settles, scan_step, QualityItem,
};
use vstd::prelude::*;

verus! {

/// A media type or media range: two levels, each a concrete token or the
/// wildcard `*`, and an ordered list of parameters.
#[derive(Debug, PartialEq, Eq)]
pub struct MediaType {
    /// The top level, such as `text`, or `*`.
    pub top_level: String,
    /// The sub level, such as `plain`, or `*`.
    pub sub_level: String,
    /// The parameters as (name, value) pairs, in order.
    pub parameters: Vec<(String, String)>,
}

/// What a [`MediaType`] holds, as mathematical sequences.
#[verifier::ext_equal]
pub struct MediaTypeView {
    /// The top level.
    pub top_level: Seq<char>,
    /// The sub level.
    pub sub_level: Seq<char>,
    /// The parameters as (name, value) pairs, in order.
    pub parameters: Seq<(Seq<char>, Seq<char>)>,
}

impl DeepView for MediaType {
    type V = MediaTypeView;

    open spec fn deep_view(&self) -> MediaTypeView {
        MediaTypeView {
            top_level: self.top_level.deep_view(),
            sub_level: self.sub_level.deep_view(),
            parameters: self.parameters.deep_view(),
        }
    }
}

/// A content coding.  Codings are opaque tokens: the named variants and
/// `EncodingExt` never equal one another, whatever text the latter holds.
#[derive(Debug, PartialEq, Eq)]
pub enum Encoding {
    /// The `chunked` coding.
    Chunked,
    /// The `gzip` coding.
    Gzip,
    /// The `deflate` coding.
    Deflate,
    /// The `compress` coding.
    Compress,
    /// The `identity` coding.
    Identity,
    /// Any other coding, by its token.
    EncodingExt(String),
}

/// What an [`Encoding`] holds, with the token of an extension as a sequence.
pub enum EncodingView {
    Chunked,
    Gzip,
    Deflate,
    Compress,
    Identity,
    EncodingExt(Seq<char>),
}

impl DeepView for Encoding {
    type V = EncodingView;

    open spec fn deep_view(&self) -> EncodingView {
        match self {
            Encoding::Chunked => EncodingView::Chunked,
            Encoding::Gzip => EncodingView::Gzip,
            Encoding::Deflate => EncodingView::Deflate,
            Encoding::Compress => EncodingView::Compress,
            Encoding::Identity => EncodingView::Identity,
            Encoding::EncodingExt(s) => EncodingView::EncodingExt(s.deep_view()),
        }
    }
}

/// The wildcard token `*`.
pub open spec fn wildcard() -> Seq<char> {
    seq!['*']
}

/// The media range `x` of a client covers the media type `y` of the server:
/// `*` at the top level covers everything, `*` at the sub level covers every
/// type of the same top level, and anything else only its exact equal,
/// parameters included.
pub open spec fn media_type_covers(x: MediaTypeView, y: MediaTypeView) -> bool {
    if x.top_level == wildcard() {
        true
    } else if x.sub_level == wildcard() {
        x.top_level == y.top_level
    } else {
        x == y
    }
}

/// The language or charset `x` of a client covers `y` of the server: `*`
/// covers everything, and anything else only its exact equal.
pub open spec fn token_covers(x: Seq<char>, y: Seq<char>) -> bool {
    x == wildcard() || x == y
}

/// The matching rule for media types, as a value.
pub open spec fn media_type_rule() -> spec_fn(MediaTypeView, MediaTypeView) -> bool {
    |x: MediaTypeView, y: MediaTypeView| media_type_covers(x, y)
}

/// The matching rule for languages and for charsets, as a value.
pub open spec fn token_rule() -> spec_fn(Seq<char>, Seq<char>) -> bool {
    |x: Seq<char>, y: Seq<char>| token_covers(x, y)
}

/// The matching rule for content codings, as a value: strict equality.
pub open spec fn encoding_rule() -> spec_fn(EncodingView, EncodingView) -> bool {
    |x: EncodingView, y: EncodingView| x == y
}

/// Whether `s` is the wildcard token.
pub fn is_wildcard(s: &String) -> (b: bool)
    ensures
        b == (s.deep_view() == wildcard()),
{
    let star = "*".to_owned();
    proof {
        reveal_strlit("*");
        assert(star@ =~= wildcard());
    }
    *s == star
}

/// Whether two parameter lists hold the same names and values in the same
/// order.
fn same_parameters(x: &Vec<(String, String)>, y: &Vec<(String, String)>) -> (b: bool)
    ensures
        b == (x.deep_view() == y.deep_view()),
{
    if x.len() != y.len() {
        assert(x.deep_view().len() != y.deep_view().len());
        return false;
    }
    let mut i: usize = 0;
    while i < x.len()
        invariant
            i <= x.len(),
            x.len() == y.len(),
            forall|k: int| 0 <= k < i ==> x@[k].deep_view() == y@[k].deep_view(),
        decreases x.len() - i,
    {
        if !(x[i].0 == y[i].0 && x[i].1 == y[i].1) {
            assert(x.deep_view()[i as int] != y.deep_view()[i as int]);
            return false;
        }
        i += 1;
    }
    assert(x.deep_view() =~= y.deep_view());
    true
}

impl MediaType {
    /// A media type of the given levels and parameters.
    pub fn new(top_level: String, sub_level: String, parameters: Vec<(String, String)>) -> (r:
        Self)
        ensures
            r.top_level == top_level,
            r.sub_level == sub_level,
            r.parameters == parameters,
    {
        MediaType { top_level, sub_level, parameters }
    }

    /// Whether `self` and `other` hold the same levels and parameters.
    pub fn same_as(&self, other: &MediaType) -> (b: bool)
        ensures
            b == (self.deep_view() == other.deep_view()),
    {
        let b = self.top_level == other.top_level && self.sub_level == other.sub_level
            && same_parameters(&self.parameters, &other.parameters);
        proof {
            if b {
                assert(self.deep_view() =~= other.deep_view());
            }
        }
        b
    }
}

impl Clone for MediaType {
    fn clone(&self) -> (r: Self)
        ensures
            r.deep_view() == self.deep_view(),
    {
        let mut parameters: Vec<(String, String)> = Vec::new();
        let mut i: usize = 0;
        while i < self.parameters.len()
            invariant
                i <= self.parameters.len(),
                parameters.len() == i,
                forall|k: int|
                    0 <= k < i ==> parameters@[k].deep_view() == self.parameters@[k].deep_view(),
            decreases self.parameters.len() - i,
        {
            let name = self.parameters[i].0.clone();
            let value = self.parameters[i].1.clone();
            parameters.push((name, value));
            i += 1;
        }
        let r = MediaType {
            top_level: self.top_level.clone(),
            sub_level: self.sub_level.clone(),
            parameters,
        };
        proof {
            assert(r.parameters.deep_view() =~= self.parameters.deep_view());
            assert(r.deep_view() =~= self.deep_view());
        }
        r
    }
}

impl Encoding {
    /// Whether `self` and `other` are the same coding.
    pub fn same_as(&self, other: &Encoding) -> (b: bool)
        ensures
            b == (self.deep_view() == other.deep_view()),
    {
        match (self, other) {
            (Encoding::Chunked, Encoding::Chunked) => true,
            (Encoding::Gzip, Encoding::Gzip) => true,
            (Encoding::Deflate, Encoding::Deflate) => true,
            (Encoding::Compress, Encoding::Compress) => true,
            (Encoding::Identity, Encoding::Identity) => true,
            (Encoding::EncodingExt(a), Encoding::EncodingExt(b)) => *a == *b,
            _ => false,
        }
    }
}

impl Clone for Encoding {
    fn clone(&self) -> (r: Self)
        ensures
            r.deep_view() == self.deep_view(),
    {
        match self {
            Encoding::Chunked => Encoding::Chunked,
            Encoding::Gzip => Encoding::Gzip,
            Encoding::Deflate => Encoding::Deflate,
            Encoding::Compress => Encoding::Compress,
            Encoding::Identity => Encoding::Identity,
            Encoding::EncodingExt(s) => Encoding::EncodingExt(s.clone()),
        }
    }
}

/// Compares the media range `x` that a client asks for, wildcards allowed,
/// with the media type `y` that the server offers.
pub fn mime_match(x: &MediaType, y: &MediaType) -> (b: bool)
    ensures
        b == media_type_covers(x.deep_view(), y.deep_view()),
{
    if is_wildcard(&x.top_level) {
        true
    } else if is_wildcard(&x.sub_level) {
        x.top_level == y.top_level
    } else {
        x.same_as(y)
    }
}

/// Compares the language `x` that a client asks for, `*` allowed, with the
/// language `y` that the server offers.
pub fn language_match(x: &String, y: &String) -> (b: bool)
    ensures
        b == token_covers(x.deep_view(), y.deep_view()),
{
    if is_wildcard(x) {
        return true;
    }
    *x == *y
}

/// Compares the charset `x` that a client asks for, `*` allowed, with the
/// charset `y` that the server offers.
pub fn charset_match(x: &String, y: &String) -> (b: bool)
    ensures
        b == token_covers(x.deep_view(), y.deep_view()),
{
    if is_wildcard(x) {
        return true;
    }
    *x == *y
}

/// Compares the coding `x` that a client asks for with the coding `y` that
/// the server offers: they match only when equal.
pub fn encoding_match(x: &Encoding, y: &Encoding) -> (b: bool)
    ensures
        b == (x.deep_view() == y.deep_view()),
{
    x.same_as(y)
}

/// The negotiated media type, over the views of both lists.
pub open spec fn best_media_type(
    accept: Seq<QualityItem<MediaTypeView>>,
    available: Seq<MediaTypeView>,
) -> Option<MediaTypeView> {
    negotiated(media_type_rule(), accept, available)
}

/// The negotiated language or charset, over the views of both lists.
pub open spec fn best_token(accept: Seq<QualityItem<Seq<char>>>, available: Seq<Seq<char>>)
    -> Option<Seq<char>> {
    negotiated(token_rule(), accept, available)
}

/// The negotiated content coding, over the views of both lists.
pub open spec fn best_coding(accept: Seq<QualityItem<EncodingView>>, available: Seq<EncodingView>)
    -> Option<EncodingView> {
    negotiated(encoding_rule(), accept, available)
}

/// The position of the first media type in `available` that `wanted` covers.
fn first_media_type(wanted: &MediaType, available: &Vec<MediaType>) -> (hit: Option<usize>)
    ensures
        (match hit {
            Some(j) => is_first_answer(
                media_type_rule(),
                wanted.deep_view(),
                available.deep_view(),
                j as int,
            ),
            None => !acceptable(media_type_rule(), wanted.deep_view(), available.deep_view()),
        }),
{
    let mut j: usize = 0;
    while j < available.len()
        invariant
            j <= available.len(),
            forall|k: int|
                0 <= k < j ==> !answers(
                    media_type_rule(),
                    wanted.deep_view(),
                    available.deep_view(),
                    k,
                ),
        decreases available.len() - j,
    {
        if mime_match(wanted, &available[j]) {
            return Some(j);
        }
        j += 1;
    }
    None
}

/// The position of the first token in `available` that `wanted` covers.
fn first_token(wanted: &String, available: &Vec<String>) -> (hit: Option<usize>)
    ensures
        (match hit {
            Some(j) => is_first_answer(
                token_rule(),
                wanted.deep_view(),
                available.deep_view(),
                j as int,
            ),
            None => !acceptable(token_rule(), wanted.deep_view(), available.deep_view()),
        }),
{
    let mut j: usize = 0;
    while j < available.len()
        invariant
            j <= available.len(),
            forall|k: int|
                0 <= k < j ==> !answers(token_rule(), wanted.deep_view(), available.deep_view(), k),
        decreases available.len() - j,
    {
        if language_match(wanted, &available[j]) {
            return Some(j);
        }
        j += 1;
    }
    None
}

/// The position of the first coding in `available` that equals `wanted`.
fn first_coding(wanted: &Encoding, available: &Vec<Encoding>) -> (hit: Option<usize>)
    ensures
        (match hit {
            Some(j) => is_first_answer(
                encoding_rule(),
                wanted.deep_view(),
                available.deep_view(),
                j as int,
            ),
            None => !acceptable(encoding_rule(), wanted.deep_view(), available.deep_view()),
        }),
{
    let mut j: usize = 0;
    while j < available.len()
        invariant
            j <= available.len(),
            forall|k: int|
                0 <= k < j ==> !answers(
                    encoding_rule(),
                    wanted.deep_view(),
                    available.deep_view(),
                    k,
                ),
        decreases available.len() - j,
    {
        if encoding_match(wanted, &available[j]) {
            return Some(j);
        }
        j += 1;
    }
    None
}

/// Whether entry `n` of a client's list, being acceptable, takes the lead
/// from `held`: it does from nothing, and from an entry of lower quality.
fn takes_lead<T>(accept: &Vec<QualityItem<T>>, n: usize, held: Option<(usize, usize)>) -> (b: bool)
    requires
        n < accept.len(),
        held matches Some((i, _)) ==> i < accept.len(),
    ensures
        b == (match held {
            Some((i, _)) => accept[i as int].quality < accept[n as int].quality,
            None => true,
        }),
{
    match held {
        Some((i, _)) => accept[i].quality < accept[n].quality,
        None => true,
    }
}

/// Returns the best media type for the request: the first type in `avail`
/// that is covered by the most preferred entry of `accept` covering any.
/// Entries are preferred by descending quality and, at equal quality, in the
/// order given; entries of quality 0 take part like any other.
pub fn best_content_type(accept: &Vec<QualityItem<MediaType>>, avail: &Vec<MediaType>) -> (r:
    Option<MediaType>)
    ensures
        r.deep_view() == best_media_type(accept.deep_view(), avail.deep_view()),
{
    let mut held: Option<(usize, usize)> = None;
    let mut n: usize = 0;
    while n < accept.len()
        invariant
            n <= accept.len(),
            held matches Some((i, j)) ==> i < accept.len() && j < avail.len(),
            leads(
                media_type_rule(),
                accept.deep_view(),
                avail.deep_view(),
                n as int,
                lead_of(held),
            ),
        decreases accept.len() - n,
    {
        let hit = first_media_type(&accept[n].item, avail);
        proof {
            let h = match hit {
                Some(j) => Some(j as int),
                None => None,
            };
            scan_step(
                media_type_rule(),
                accept.deep_view(),
                avail.deep_view(),
                n as int,
                lead_of(held),
                h,
            );
        }
        if let Some(j) = hit {
            if takes_lead(accept, n, held) {
                held = Some((n, j));
            }
        }
        n += 1;
    }
    proof {
        scan_settles(media_type_rule(), accept.deep_view(), avail.deep_view(), lead_of(held));
    }
    match held {
        Some((_, j)) => Some(avail[j].clone()),
        None => None,
    }
}

/// Returns the best language for the request, chosen as
/// [`best_content_type`] chooses a media type.
pub fn best_language(accept: Vec<QualityItem<String>>, avail: &Vec<String>) -> (r: Option<String>)
    ensures
        r.deep_view() == best_token(accept.deep_view(), avail.deep_view()),
{
    best_of_tokens(&accept, avail)
}

/// Returns the best charset for the request, chosen as
/// [`best_content_type`] chooses a media type.
pub fn best_charset(acceptv: &Vec<QualityItem<String>>, avail: &Vec<String>) -> (r: Option<String>)
    ensures
        r.deep_view() == best_token(acceptv.deep_view(), avail.deep_view()),
{
    best_of_tokens(acceptv, avail)
}

/// The scan shared by languages and charsets, which match alike.
fn best_of_tokens(accept: &Vec<QualityItem<String>>, avail: &Vec<String>) -> (r: Option<String>)
    ensures
        r.deep_view() == best_token(accept.deep_view(), avail.deep_view()),
{
    let mut held: Option<(usize, usize)> = None;
    let mut n: usize = 0;
    while n < accept.len()
        invariant
            n <= accept.len(),
            held matches Some((i, j)) ==> i < accept.len() && j < avail.len(),
            leads(token_rule(), accept.deep_view(), avail.deep_view(), n as int, lead_of(held)),
        decreases accept.len() - n,
    {
        let hit = first_token(&accept[n].item, avail);
        proof {
            let h = match hit {
                Some(j) => Some(j as int),
                None => None,
            };
            scan_step(
                token_rule(),
                accept.deep_view(),
                avail.deep_view(),
                n as int,
                lead_of(held),
                h,
            );
        }
        if let Some(j) = hit {
            if takes_lead(accept, n, held) {
                held = Some((n, j));
            }
        }
        n += 1;
    }
    proof {
        scan_settles(token_rule(), accept.deep_view(), avail.deep_view(), lead_of(held));
    }
    match held {
        Some((_, j)) => Some(avail[j].clone()),
        None => None,
    }
}

/// Returns the best content coding for the request, chosen as
/// [`best_content_type`] chooses a media type.
pub fn best_encoding(accept: &Vec<QualityItem<Encoding>>, avail: &Vec<Encoding>) -> (r: Option<
    Encoding,
>)
    ensures
        r.deep_view() == best_coding(accept.deep_view(), avail.deep_view()),
{
    let mut held: Option<(usize, usize)> = None;
    let mut n: usize = 0;
    while n < accept.len()
        invariant
            n <= accept.len(),
            held matches Some((i, j)) ==> i < accept.len() && j < avail.len(),
            leads(encoding_rule(), accept.deep_view(), avail.deep_view(), n as int, lead_of(held)),
        decreases accept.len() - n,
    {
        let hit = first_coding(&accept[n].item, avail);
        proof {
            let h = match hit {
                Some(j) => Some(j as int),
                None => None,
            };
            scan_step(
                encoding_rule(),
                accept.deep_view(),
                avail.deep_view(),
                n as int,
                lead_of(held),
                h,
            );
        }
        if let Some(j) = hit {
            if takes_lead(accept, n, held) {
                held = Some((n, j));
            }
        }
        n += 1;
    }
    proof {
        scan_settles(encoding_rule(), accept.deep_view(), avail.deep_view(), lead_of(held));
    }
    match held {
        Some((_, j)) => Some(avail[j].clone()),
        None => None,
    }
}

/// The media range covering everything.
pub open spec fn any_media_type() -> MediaTypeView {
    MediaTypeView { top_level: wildcard(), sub_level: wildcard(), parameters: Seq::empty() }
}

/// The media range covering every type under the top level `top_level`.
pub open spec fn any_media_type_under(top_level: Seq<char>) -> MediaTypeView {
    MediaTypeView { top_level, sub_level: wildcard(), parameters: Seq::empty() }
}

/// Where one entry of the client's list covers the one media type on offer,
/// that media type is negotiated.
pub proof fn lone_offer_is_chosen(wanted: MediaTypeView, quality: u16, offer: MediaTypeView)
    requires
        media_type_covers(wanted, offer),
    ensures
        best_media_type(only(wanted, quality), seq![offer]) == Some(offer),
{
    let accept = only(wanted, quality);
    let available = seq![offer];
    assert(answers(media_type_rule(), accept[0].item, available, 0));
    assert(is_first_answer(media_type_rule(), accept[0].item, available, 0));
    assert(is_preferred(media_type_rule(), accept, available, 0));
    negotiated_is(media_type_rule(), accept, available, 0, 0);
}

/// Wildcards subsume: against a client that accepts `*/*`, or `*` under the
/// top level of `offer`, a server offering only `offer` negotiates `offer`,
/// whatever the quality, and in particular for a media type without
/// parameters.
pub proof fn wildcard_subsumes(offer: MediaTypeView, quality: u16)
    ensures
        best_media_type(only(any_media_type(), quality), seq![offer]) == Some(offer),
        best_media_type(only(any_media_type_under(offer.top_level), quality), seq![offer]) == Some(
            offer,
        ),
{
    lone_offer_is_chosen(any_media_type(), quality, offer);
    lone_offer_is_chosen(any_media_type_under(offer.top_level), quality, offer);
}

/// How one axis of negotiation ends.
#[derive(Debug, PartialEq, Eq)]
pub enum Negotiation<T> {
    /// The client stated a preference and nothing on offer answers it.
    NotAcceptable,
    /// Nothing was chosen and nothing stands in the way: the response keeps
    /// what it has.
    Unchanged,
    /// This value was chosen for the response.
    Chosen(T),
}

impl<T: DeepView> DeepView for Negotiation<T> {
    type V = Negotiation<T::V>;

    open spec fn deep_view(&self) -> Negotiation<T::V> {
        match self {
            Negotiation::NotAcceptable => Negotiation::NotAcceptable,
            Negotiation::Unchanged => Negotiation::Unchanged,
            Negotiation::Chosen(v) => Negotiation::Chosen(v.deep_view()),
        }
    }
}

/// The client stated a preference: the header is present and lists
/// something.  A header that is present and empty counts as absent.
pub open spec fn stated<A>(accept: Option<Seq<A>>) -> bool {
    accept matches Some(list) && list.len() > 0
}

/// Whether the header is present and lists something.
pub fn is_stated<T>(accept: &Option<Vec<T>>) -> (b: bool)
    ensures
        b == (accept matches Some(list) && list@.len() > 0),
{
    match accept {
        Some(list) => list.len() > 0,
        None => false,
    }
}

/// What a request without a stated media type preference implies: the first
/// media type on offer, which is what the preference `*/*` would negotiate.
pub open spec fn implied_media_type(available: Seq<MediaTypeView>) -> Negotiation<MediaTypeView> {
    if available.len() > 0 {
        Negotiation::Chosen(available[0])
    } else {
        Negotiation::Unchanged
    }
}

/// How the negotiation of the media type ends.  A stated preference is
/// negotiated; without one the first media type on offer is taken, and
/// nothing where nothing is on offer.
pub open spec fn media_type_outcome(
    accept: Option<Seq<QualityItem<MediaTypeView>>>,
    available: Seq<MediaTypeView>,
) -> Negotiation<MediaTypeView> {
    if stated(accept) {
        match best_media_type(accept->0, available) {
            Some(m) => Negotiation::Chosen(m),
            None => Negotiation::NotAcceptable,
        }
    } else {
        implied_media_type(available)
    }
}

/// How the negotiation of a language or of a charset ends.  A stated
/// preference is negotiated; without one nothing is chosen.
pub open spec fn token_outcome(
    accept: Option<Seq<QualityItem<Seq<char>>>>,
    available: Seq<Seq<char>>,
) -> Negotiation<Seq<char>> {
    if stated(accept) {
        match best_token(accept->0, available) {
            Some(t) => Negotiation::Chosen(t),
            None => Negotiation::NotAcceptable,
        }
    } else {
        Negotiation::Unchanged
    }
}

/// Whether the negotiation of the content coding succeeds: a stated
/// preference must be answered by a coding on offer.
pub open spec fn coding_acceptable(
    accept: Option<Seq<QualityItem<EncodingView>>>,
    available: Seq<EncodingView>,
) -> bool {
    stated(accept) ==> best_coding(accept->0, available) is Some
}

/// The media type that a request without a stated preference implies.
pub fn imply_media_type(available: &Vec<MediaType>) -> (o: Negotiation<MediaType>)
    ensures
        o.deep_view() == implied_media_type(available.deep_view()),
{
    if available.len() > 0 {
        Negotiation::Chosen(available[0].clone())
    } else {
        Negotiation::Unchanged
    }
}

/// Negotiates the media type of the response from the `Accept` header of
/// the request and the media types that the resource offers.
pub fn negotiate_media_type(
    accept: &Option<Vec<QualityItem<MediaType>>>,
    available: &Vec<MediaType>,
) -> (o: Negotiation<MediaType>)
    ensures
        o.deep_view() == media_type_outcome(accept.deep_view(), available.deep_view()),
{
    match accept {
        Some(list) if list.len() > 0 => match best_content_type(list, available) {
            Some(m) => Negotiation::Chosen(m),
            None => Negotiation::NotAcceptable,
        },
        _ => imply_media_type(available),
    }
}

/// Negotiates the language of the response from the `Accept-Language`
/// header of the request and the languages that the resource offers.
pub fn negotiate_language(accept: &Option<Vec<QualityItem<String>>>, available: &Vec<String>) -> (o:
    Negotiation<String>)
    ensures
        o.deep_view() == token_outcome(accept.deep_view(), available.deep_view()),
{
    match accept {
        Some(list) if list.len() > 0 => match best_of_tokens(list, available) {
            Some(t) => Negotiation::Chosen(t),
            None => Negotiation::NotAcceptable,
        },
        _ => Negotiation::Unchanged,
    }
}

/// Negotiates the charset of the response from the `Accept-Charset` header
/// of the request and the charsets that the resource offers.
pub fn negotiate_charset(accept: &Option<AcceptCharset>, available: &Vec<String>) -> (o:
    Negotiation<String>)
    ensures
        o.deep_view() == token_outcome(accept.deep_view(), available.deep_view()),
{
    match accept {
        Some(header) if header.0.len() > 0 => match best_charset(&header.0, available) {
            Some(t) => Negotiation::Chosen(t),
            None => Negotiation::NotAcceptable,
        },
        _ => Negotiation::Unchanged,
    }
}

/// Whether the `Accept-Encoding` header of the request can be honoured with
/// the content codings that the resource offers.
pub fn negotiate_encoding(
    accept: &Option<Vec<QualityItem<Encoding>>>,
    available: &Vec<Encoding>,
) -> (b: bool)
    ensures
        b == coding_acceptable(accept.deep_view(), available.deep_view()),
{
    match accept {
        Some(list) if list.len() > 0 => best_encoding(list, available).is_some(),
        _ => true,
    }
}

} // verus!
