//! Best-match selection over quality-weighted preferences, stated once for
//! every negotiated axis.
//!
//! A client lists what it would accept, each entry weighted by a quality; a
//! server lists what it can offer.  The chosen value is the first offer that
//! answers the most preferred acceptable entry, where "most preferred" means
//! the highest quality and, among equal qualities, the earliest entry.  This
//! is exactly what scanning a stable, descending sort of the client's list
//! would find.
use vstd::prelude::*;

verus! {

/// A value together with the client's preference for it, in thousandths:
/// `1000` stands for a quality of 1.0 and `0` for 0.0.
#[derive(Clone, Debug, PartialEq, Eq)]
pub struct QualityItem<T> {
    /// The preferred value.
    pub item: T,
    /// The weight of the preference, in thousandths.
    pub quality: u16,
}

impl<T: DeepView> DeepView for QualityItem<T> {
    type V = QualityItem<T::V>;

    open spec fn deep_view(&self) -> QualityItem<T::V> {
        QualityItem { item: self.item.deep_view(), quality: self.quality }
    }
}

impl<T> QualityItem<T> {
    /// Pairs `item` with `quality`.
    pub fn new(item: T, quality: u16) -> (r: Self)
        ensures
            r.item == item,
            r.quality == quality,
    {
        QualityItem { item, quality }
    }
}

/// The list of a client that names one value only.
pub open spec fn only<A>(item: A, quality: u16) -> Seq<QualityItem<A>> {
    seq![QualityItem { item, quality }]
}

/// Offer `j` answers `wanted` under the axis rule `rule`.
pub open spec fn answers<A>(
    rule: spec_fn(A, A) -> bool,
    wanted: A,
    available: Seq<A>,
    j: int,
) -> bool {
    0 <= j < available.len() && rule(wanted, available[j])
}

/// Some offer answers `wanted`.
pub open spec fn acceptable<A>(rule: spec_fn(A, A) -> bool, wanted: A, available: Seq<A>) -> bool {
    exists|j: int| answers(rule, wanted, available, j)
}

/// Offer `j` is the earliest one that answers `wanted`.
pub open spec fn is_first_answer<A>(
    rule: spec_fn(A, A) -> bool,
    wanted: A,
    available: Seq<A>,
    j: int,
) -> bool {
    &&& answers(rule, wanted, available, j)
    &&& forall|k: int| 0 <= k < j ==> !answers(rule, wanted, available, k)
}

/// Entry `i` comes no later than entry `k` in a stable, descending sort by
/// quality.
pub open spec fn ranks_before<A>(accept: Seq<QualityItem<A>>, i: int, k: int) -> bool {
    accept[k].quality < accept[i].quality || (accept[k].quality == accept[i].quality && i <= k)
}

/// Entry `i` is acceptable, and no acceptable entry is sorted ahead of it.
pub open spec fn is_preferred<A>(
    rule: spec_fn(A, A) -> bool,
    accept: Seq<QualityItem<A>>,
    available: Seq<A>,
    i: int,
) -> bool {
    &&& 0 <= i < accept.len()
    &&& acceptable(rule, accept[i].item, available)
    &&& forall|k: int|
        0 <= k < accept.len() && #[trigger] acceptable(rule, accept[k].item, available)
            ==> ranks_before(accept, i, k)
}

/// The negotiated value: the earliest offer answering the preferred entry, or
/// nothing where no entry is acceptable.
pub open spec fn negotiated<A>(
    rule: spec_fn(A, A) -> bool,
    accept: Seq<QualityItem<A>>,
    available: Seq<A>,
) -> Option<A> {
    if exists|i: int| is_preferred(rule, accept, available, i) {
        let i = choose|i: int| is_preferred(rule, accept, available, i);
        let j = choose|j: int| is_first_answer(rule, accept[i].item, available, j);
        Some(available[j])
    } else {
        None
    }
}

/// What a scan of the first `n` entries knows: `lead` holds the preferred
/// entry among them with its earliest answering offer, or nothing if none of
/// them is acceptable.
pub open spec fn leads<A>(
    rule: spec_fn(A, A) -> bool,
    accept: Seq<QualityItem<A>>,
    available: Seq<A>,
    n: int,
    lead: Option<(int, int)>,
) -> bool {
    match lead {
        None => forall|k: int|
            0 <= k < n ==> !#[trigger] acceptable(rule, accept[k].item, available),
        Some((i, j)) => {
            &&& 0 <= i < n
            &&& is_first_answer(rule, accept[i].item, available, j)
            &&& forall|k: int|
                0 <= k < n && #[trigger] acceptable(rule, accept[k].item, available)
                    ==> ranks_before(accept, i, k)
        },
    }
}

/// Taking entry `n` into account: where it is acceptable, with first answer
/// `hit`, it takes the lead only from an entry of strictly lower quality.
pub open spec fn advance<A>(
    accept: Seq<QualityItem<A>>,
    n: int,
    lead: Option<(int, int)>,
    hit: Option<int>,
) -> Option<(int, int)> {
    match hit {
        None => lead,
        Some(j) => match lead {
            None => Some((n, j)),
            Some((i, _)) => if accept[i].quality < accept[n].quality {
                Some((n, j))
            } else {
                lead
            },
        },
    }
}

/// The positions held by a scan in machine integers, as mathematical ones.
pub open spec fn lead_of(held: Option<(usize, usize)>) -> Option<(int, int)> {
    match held {
        Some((i, j)) => Some((i as int, j as int)),
        None => None,
    }
}

/// At most one offer is the first answer.
pub proof fn first_answer_is_unique<A>(
    rule: spec_fn(A, A) -> bool,
    wanted: A,
    available: Seq<A>,
    j1: int,
    j2: int,
)
    requires
        is_first_answer(rule, wanted, available, j1),
        is_first_answer(rule, wanted, available, j2),
    ensures
        j1 == j2,
{
    if j1 < j2 {
        assert(answers(rule, wanted, available, j1));
    } else if j2 < j1 {
        assert(answers(rule, wanted, available, j2));
    }
}

/// Where offer `w` answers, some offer is the first to do so.
pub proof fn first_answer_exists<A>(
    rule: spec_fn(A, A) -> bool,
    wanted: A,
    available: Seq<A>,
    w: int,
) -> (j: int)
    requires
        answers(rule, wanted, available, w),
    ensures
        is_first_answer(rule, wanted, available, j),
        j <= w,
    decreases w,
{
    if exists|k: int| 0 <= k < w && answers(rule, wanted, available, k) {
        let k = choose|k: int| 0 <= k < w && answers(rule, wanted, available, k);
        first_answer_exists(rule, wanted, available, k)
    } else {
        w
    }
}

/// At most one entry is preferred.
pub proof fn preferred_is_unique<A>(
    rule: spec_fn(A, A) -> bool,
    accept: Seq<QualityItem<A>>,
    available: Seq<A>,
    i1: int,
    i2: int,
)
    requires
        is_preferred(rule, accept, available, i1),
        is_preferred(rule, accept, available, i2),
    ensures
        i1 == i2,
{
    assert(ranks_before(accept, i1, i2));
    assert(ranks_before(accept, i2, i1));
}

/// Once entry `i` is known to be preferred and offer `j` to be its first
/// answer, the negotiated value is offer `j`.
pub proof fn negotiated_is<A>(
    rule: spec_fn(A, A) -> bool,
    accept: Seq<QualityItem<A>>,
    available: Seq<A>,
    i: int,
    j: int,
)
    requires
        is_preferred(rule, accept, available, i),
        is_first_answer(rule, accept[i].item, available, j),
    ensures
        negotiated(rule, accept, available) == Some(available[j]),
{
    let ci = choose|i: int| is_preferred(rule, accept, available, i);
    preferred_is_unique(rule, accept, available, i, ci);
    let cj = choose|j: int| is_first_answer(rule, accept[i].item, available, j);
    first_answer_is_unique(rule, accept[i].item, available, j, cj);
}

/// One more entry scanned keeps the scan's knowledge exact.
pub proof fn scan_step<A>(
    rule: spec_fn(A, A) -> bool,
    accept: Seq<QualityItem<A>>,
    available: Seq<A>,
    n: int,
    lead: Option<(int, int)>,
    hit: Option<int>,
)
    requires
        0 <= n < accept.len(),
        leads(rule, accept, available, n, lead),
        (match hit {
            Some(j) => is_first_answer(rule, accept[n].item, available, j),
            None => !acceptable(rule, accept[n].item, available),
        }),
    ensures
        leads(rule, accept, available, n + 1, advance(accept, n, lead, hit)),
{
    let next = advance(accept, n, lead, hit);
    match next {
        None => {},
        Some((i, j)) => {
            assert forall|k: int|
                0 <= k < n + 1 && #[trigger] acceptable(
                    rule,
                    accept[k].item,
                    available,
                ) implies ranks_before(accept, i, k) by {
                if k < n {
                    match lead {
                        Some((li, _)) => {
                            assert(ranks_before(accept, li, k));
                        },
                        None => {},
                    }
                }
            }
        },
    }
}

/// A finished scan determines the negotiated value.
pub proof fn scan_settles<A>(
    rule: spec_fn(A, A) -> bool,
    accept: Seq<QualityItem<A>>,
    available: Seq<A>,
    lead: Option<(int, int)>,
)
    requires
        leads(rule, accept, available, accept.len() as int, lead),
    ensures
        negotiated(rule, accept, available) == (match lead {
            Some((_, j)) => Some(available[j]),
            None => None,
        }),
{
    match lead {
        Some((i, j)) => {
            assert(answers(rule, accept[i].item, available, j));
            negotiated_is(rule, accept, available, i, j);
        },
        None => {
            assert forall|i: int| !is_preferred(rule, accept, available, i) by {
                if 0 <= i < accept.len() {
                    assert(!acceptable(rule, accept[i].item, available));
                }
            }
        },
    }
}

/// Some lead describes the first `n` entries exactly.
pub proof fn prefix_has_lead<A>(
    rule: spec_fn(A, A) -> bool,
    accept: Seq<QualityItem<A>>,
    available: Seq<A>,
    n: int,
) -> (lead: Option<(int, int)>)
    requires
        0 <= n <= accept.len(),
    ensures
        leads(rule, accept, available, n, lead),
    decreases n,
{
    if n == 0 {
        None
    } else {
        let m = n - 1;
        let prev = prefix_has_lead(rule, accept, available, m);
        let wanted = accept[m].item;
        let hit = if acceptable(rule, wanted, available) {
            let w = choose|j: int| answers(rule, wanted, available, j);
            Some(first_answer_exists(rule, wanted, available, w))
        } else {
            None
        };
        scan_step(rule, accept, available, m, prev, hit);
        advance(accept, m, prev, hit)
    }
}

/// Something is negotiated exactly when some entry is acceptable.
pub proof fn negotiated_iff_acceptable<A>(
    rule: spec_fn(A, A) -> bool,
    accept: Seq<QualityItem<A>>,
    available: Seq<A>,
)
    ensures
        negotiated(rule, accept, available) is Some <==> exists|i: int|
            0 <= i < accept.len() && #[trigger] acceptable(rule, accept[i].item, available),
{
    let lead = prefix_has_lead(rule, accept, available, accept.len() as int);
    scan_settles(rule, accept, available, lead);
    match lead {
        Some((i, j)) => {
            assert(answers(rule, accept[i].item, available, j));
            assert(acceptable(rule, accept[i].item, available));
        },
        None => {},
    }
}

/// The negotiated value is one of the offers, and it answers an entry of the
/// client's list.
pub proof fn negotiated_is_an_offer<A>(
    rule: spec_fn(A, A) -> bool,
    accept: Seq<QualityItem<A>>,
    available: Seq<A>,
)
    ensures
        negotiated(rule, accept, available) matches Some(v) ==> exists|i: int, j: int|
            0 <= i < accept.len() && #[trigger] answers(rule, accept[i].item, available, j)
                && available[j] == v,
{
    let lead = prefix_has_lead(rule, accept, available, accept.len() as int);
    scan_settles(rule, accept, available, lead);
    match lead {
        Some((i, j)) => {
            assert(answers(rule, accept[i].item, available, j));
        },
        None => {},
    }
}

/// `order` lists the positions of `accept` as a stable sort by descending
/// quality would: every position once, higher qualities first, and positions
/// of equal quality in their order in `accept`.
pub open spec fn is_stable_order<A>(accept: Seq<QualityItem<A>>, order: Seq<int>) -> bool {
    &&& order.len() == accept.len()
    &&& forall|k: int| 0 <= k < order.len() ==> 0 <= #[trigger] order[k] < accept.len()
    &&& forall|i: int| 0 <= i < accept.len() ==> #[trigger] order.contains(i)
    &&& forall|k1: int, k2: int|
        0 <= k1 < k2 < order.len() ==> ranks_before(
            accept,
            #[trigger] order[k1],
            #[trigger] order[k2],
        )
}

/// Sorting and scanning finds the negotiated value: where `order` is a
/// stable sort of the client's list by descending quality, and `k` is the
/// first place in it whose entry is acceptable, the negotiated value is the
/// first offer that answers that entry; and where no place holds an
/// acceptable entry, nothing is negotiated.
pub proof fn scanning_the_sorted_list<A>(
    rule: spec_fn(A, A) -> bool,
    accept: Seq<QualityItem<A>>,
    available: Seq<A>,
    order: Seq<int>,
    k: int,
)
    requires
        is_stable_order(accept, order),
        0 <= k <= order.len(),
        forall|n: int|
            0 <= n < k ==> !acceptable(rule, accept[#[trigger] order[n]].item, available),
        k < order.len() ==> acceptable(rule, accept[order[k]].item, available),
    ensures
        k < order.len() ==> is_preferred(rule, accept, available, order[k]),
        k < order.len() ==> negotiated(rule, accept, available) is Some,
        k == order.len() ==> negotiated(rule, accept, available) is None,
{
    if k < order.len() {
        let i = order[k];
        assert forall|i2: int|
            0 <= i2 < accept.len() && #[trigger] acceptable(
                rule,
                accept[i2].item,
                available,
            ) implies ranks_before(accept, i, i2) by {
            assert(order.contains(i2));
            let k2 = choose|k2: int| 0 <= k2 < order.len() && order[k2] == i2;
            if k2 < k {
                assert(!acceptable(rule, accept[order[k2]].item, available));
            } else if k2 > k {
                assert(ranks_before(accept, order[k], order[k2]));
            }
        }
        let w = choose|j: int| answers(rule, accept[i].item, available, j);
        let j = first_answer_exists(rule, accept[i].item, available, w);
        negotiated_is(rule, accept, available, i, j);
    } else {
        assert forall|i: int| !is_preferred(rule, accept, available, i) by {
            if 0 <= i < accept.len() {
                assert(order.contains(i));
                let n = choose|n: int| 0 <= n < order.len() && order[n] == i;
                assert(!acceptable(rule, accept[order[n]].item, available));
            }
        }
    }
}

/// Negotiation is a function of the two lists: lists that hold the same
/// entries in the same order, and the same offers in the same order,
/// negotiate the same value, however often they are run.
pub proof fn same_lists_same_choice<A>(
    rule: spec_fn(A, A) -> bool,
    accept: Seq<QualityItem<A>>,
    available: Seq<A>,
    accept_again: Seq<QualityItem<A>>,
    available_again: Seq<A>,
)
    requires
        accept.len() == accept_again.len(),
        forall|i: int| 0 <= i < accept.len() ==> accept[i] == accept_again[i],
        available.len() == available_again.len(),
        forall|j: int| 0 <= j < available.len() ==> available[j] == available_again[j],
    ensures
        negotiated(rule, accept, available) == negotiated(rule, accept_again, available_again),
{
    assert(accept =~= accept_again);
    assert(available =~= available_again);
}

/// The result does not depend on how entries of different quality are
/// interleaved.  Let `b` list the entries of `a` in another order, entry `k`
/// of `b` being entry `from[k]` of `a`; if entries of equal quality keep
/// their relative order, both lists negotiate the same value.
pub proof fn stable_reordering_keeps_choice<A>(
    rule: spec_fn(A, A) -> bool,
    a: Seq<QualityItem<A>>,
    b: Seq<QualityItem<A>>,
    from: Seq<int>,
    available: Seq<A>,
)
    requires
        b.len() == a.len(),
        from.len() == a.len(),
        forall|k: int|
            0 <= k < b.len() ==> 0 <= #[trigger] from[k] < a.len() && b[k] == a[from[k]],
        forall|i: int| 0 <= i < a.len() ==> #[trigger] from.contains(i),
        forall|k1: int, k2: int|
            0 <= k1 < k2 < b.len() && b[k1].quality == b[k2].quality ==> #[trigger] from[k1]
                < #[trigger] from[k2],
    ensures
        negotiated(rule, a, available) == negotiated(rule, b, available),
{
    let lead = prefix_has_lead(rule, b, available, b.len() as int);
    scan_settles(rule, b, available, lead);
    match lead {
        Some((k, j)) => {
            let i = from[k];
            assert(b[k] == a[i]);
            assert(answers(rule, b[k].item, available, j));
            assert forall|i2: int|
                0 <= i2 < a.len() && #[trigger] acceptable(
                    rule,
                    a[i2].item,
                    available,
                ) implies ranks_before(a, i, i2) by {
                assert(from.contains(i2));
                let k2 = choose|k2: int| 0 <= k2 < from.len() && from[k2] == i2;
                assert(b[k2] == a[i2]);
                assert(acceptable(rule, b[k2].item, available));
                assert(ranks_before(b, k, k2));
                if b[k2].quality == b[k].quality && k < k2 {
                    assert(from[k] < from[k2]);
                }
            }
            negotiated_is(rule, a, available, i, j);
        },
        None => {
            assert forall|i: int| !is_preferred(rule, a, available, i) by {
                if 0 <= i < a.len() {
                    assert(from.contains(i));
                    let k = choose|k: int| 0 <= k < from.len() && from[k] == i;
                    assert(b[k] == a[i]);
                    assert(!acceptable(rule, b[k].item, available));
                }
            }
        },
    }
}

} // verus!
