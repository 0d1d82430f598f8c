//! The result cache: full results by request identifier, written when a
//! stream has closed and read by later lookups.

use vstd::prelude::*;
use vstd::hash_map::StringHashMap;
use crate::evaluation::{matches_shape, EvaluationError, EvaluationResult, EvaluationView};
use crate::evaluator::{delivery_view, owed_to_cache};

verus! {

/// The full results that have arrived, each under its request identifier.
pub struct ResultCache {
    entries: StringHashMap<EvaluationResult>,
}

impl View for ResultCache {
    type V = Map<Seq<char>, EvaluationView>;

    closed spec fn view(&self) -> Map<Seq<char>, EvaluationView> {
        self.entries@.map_values(|full: EvaluationResult| full@)
    }
}

/// What a lookup under `id` gives in a cache that holds `entries`.
pub open spec fn lookup(entries: Map<Seq<char>, EvaluationView>, id: Seq<char>) -> Result<
    EvaluationView,
    EvaluationError,
> {
    if entries.contains_key(id) {
        Ok(entries[id])
    } else {
        Err(EvaluationError::CacheMiss)
    }
}

/// What a cache that held `entries` holds once a delivery has been settled:
/// the result under its identifier where there is one, else what it held.
pub open spec fn settled(
    entries: Map<Seq<char>, EvaluationView>,
    delivery: Result<(Seq<char>, EvaluationView), EvaluationError>,
) -> Map<Seq<char>, EvaluationView> {
    match delivery {
        Ok((id, full)) => entries.insert(id, full),
        Err(_) => entries,
    }
}

impl ResultCache {
    /// A cache that holds nothing.
    pub fn new() -> (result: Self)
        ensures
            result@ == Map::<Seq<char>, EvaluationView>::empty(),
    {
        let cache = ResultCache { entries: StringHashMap::new() };
        assert(cache@ =~= Map::<Seq<char>, EvaluationView>::empty());
        cache
    }

    /// Stores `full` under `request_id`, in place of what was there.
    pub fn put(&mut self, request_id: String, full: EvaluationResult)
        ensures
            final(self)@ == old(self)@.insert(request_id@, full@),
    {
        self.entries.insert(request_id, full);
        assert(self@ =~= old(self)@.insert(request_id@, full@));
    }

    /// The result stored under `request_id`, or `None` where nothing was
    /// stored under it yet. Never waits, and never makes a result up.
    pub fn get(&self, request_id: &str) -> (result: Option<EvaluationResult>)
        ensures
            match result {
                Some(full) => lookup(self@, request_id@) == Ok::<EvaluationView, EvaluationError>(
                    full@,
                ),
                None => !self@.contains_key(request_id@),
            },
    {
        match self.entries.get(request_id) {
            Some(full) => Some(full.clone()),
            None => None,
        }
    }

    /// The answer to a request for the complete evaluation of `request_id`:
    /// the stored result, or `CacheMiss` where there is none.
    pub fn complete(&self, request_id: &str) -> (result: Result<EvaluationResult, EvaluationError>)
        ensures
            match result {
                Ok(full) => lookup(self@, request_id@) == Ok::<EvaluationView, EvaluationError>(
                    full@,
                ),
                Err(e) => lookup(self@, request_id@) == Err::<EvaluationView, EvaluationError>(e),
            },
    {
        match self.get(request_id) {
            Some(full) => Ok(full),
            None => Err(EvaluationError::CacheMiss),
        }
    }

    /// Settles what a closed stream owes the cache: a full result is stored
    /// under its request identifier, a failure leaves the cache as it was.
    pub fn settle(&mut self, delivery: Result<(String, EvaluationResult), EvaluationError>)
        ensures
            final(self)@ == settled(old(self)@, delivery_view(delivery)),
    {
        match delivery {
            Ok((request_id, full)) => {
                self.put(request_id, full);
            },
            Err(_) => {},
        }
    }
}

/// A write under one identifier is read back under it, and changes nothing
/// under any other: each identifier has one entry, the last one written.
pub proof fn law_write_touches_one_entry(
    entries: Map<Seq<char>, EvaluationView>,
    id: Seq<char>,
    full: EvaluationView,
    other: Seq<char>,
)
    requires
        other != id,
    ensures
        lookup(entries.insert(id, full), id) == Ok::<EvaluationView, EvaluationError>(full),
        lookup(entries.insert(id, full), other) == lookup(entries, other),
{
}

/// Until a full result is delivered for an identifier, a lookup under it
/// misses: neither a failed delivery nor a delivery for another identifier
/// puts anything there.
pub proof fn law_miss_until_delivered(
    entries: Map<Seq<char>, EvaluationView>,
    id: Seq<char>,
    delivery: Result<(Seq<char>, EvaluationView), EvaluationError>,
)
    requires
        !entries.contains_key(id),
        delivery is Ok ==> delivery->Ok_0.0 != id,
    ensures
        lookup(Map::<Seq<char>, EvaluationView>::empty(), id) == Err::<
            EvaluationView,
            EvaluationError,
        >(EvaluationError::CacheMiss),
        lookup(settled(entries, delivery), id) == Err::<EvaluationView, EvaluationError>(
            EvaluationError::CacheMiss,
        ),
{
}

/// What a closed stream leaves in the cache: where its text matches the
/// full result's shape, a lookup under its request identifier gives the
/// decoded result; where it does not, the cache is as it was.
pub proof fn law_closed_stream_is_cached(
    entries: Map<Seq<char>, EvaluationView>,
    id: Seq<char>,
    decoded: Option<EvaluationResult>,
)
    ensures
        matches_shape(decoded) ==> lookup(settled(entries, owed_to_cache(id, decoded)), id) == Ok::<
            EvaluationView,
            EvaluationError,
        >(decoded->0@),
        !matches_shape(decoded) ==> settled(entries, owed_to_cache(id, decoded)) == entries,
{
}

/// A delivery that carries a failure leaves the cache as it was.
pub proof fn law_failed_delivery_stores_nothing(
    entries: Map<Seq<char>, EvaluationView>,
    error: EvaluationError,
)
    ensures
        settled(entries, Err(error)) == entries,
{
}

/// What a cache that held `entries` holds once these deliveries have been
/// settled one after the other, the first one first.
pub open spec fn settled_in_turn(
    entries: Map<Seq<char>, EvaluationView>,
    deliveries: Seq<Result<(Seq<char>, EvaluationView), EvaluationError>>,
) -> Map<Seq<char>, EvaluationView>
    decreases deliveries.len(),
{
    if deliveries.len() == 0 {
        entries
    } else {
        settled(settled_in_turn(entries, deliveries.drop_last()), deliveries.last())
    }
}

/// Whether no two of the deliveries that carry a result carry it for the
/// same request identifier.
pub open spec fn distinct_requests(
    deliveries: Seq<Result<(Seq<char>, EvaluationView), EvaluationError>>,
) -> bool {
    forall|i: int, j: int|
        0 <= i < j < deliveries.len() && (#[trigger] deliveries[i]) is Ok && (
        #[trigger] deliveries[j]) is Ok ==> deliveries[i]->Ok_0.0 != deliveries[j]->Ok_0.0
}

/// Whether one of the deliveries carries a result for `id`.
pub open spec fn delivers_for(
    deliveries: Seq<Result<(Seq<char>, EvaluationView), EvaluationError>>,
    id: Seq<char>,
) -> bool {
    exists|k: int|
        0 <= k < deliveries.len() && (#[trigger] deliveries[k]) is Ok && deliveries[k]->Ok_0.0
            == id
}

/// Any number of deliveries for different requests, settled in whatever
/// order they arrive: each result that was delivered is found under its own
/// identifier, every other identifier holds what it held before, and the
/// cache has gained exactly the delivered identifiers.
pub proof fn law_each_request_keeps_its_entry(
    entries: Map<Seq<char>, EvaluationView>,
    deliveries: Seq<Result<(Seq<char>, EvaluationView), EvaluationError>>,
)
    requires
        distinct_requests(deliveries),
    ensures
        forall|k: int|
            0 <= k < deliveries.len() && (#[trigger] deliveries[k]) is Ok ==> lookup(
                settled_in_turn(entries, deliveries),
                deliveries[k]->Ok_0.0,
            ) == Ok::<EvaluationView, EvaluationError>(deliveries[k]->Ok_0.1),
        forall|id: Seq<char>|
            !delivers_for(deliveries, id) ==> #[trigger] lookup(
                settled_in_turn(entries, deliveries),
                id,
            ) == lookup(entries, id),
        forall|id: Seq<char>| #[trigger]
            settled_in_turn(entries, deliveries).contains_key(id) <==> entries.contains_key(id)
                || delivers_for(deliveries, id),
    decreases deliveries.len(),
{
    if deliveries.len() > 0 {
        let front = deliveries.drop_last();
        let last = deliveries.last();
        let n = deliveries.len() - 1;
        assert forall|i: int| 0 <= i < front.len() implies front[i] == deliveries[i] by {}
        assert(distinct_requests(front)) by {
            assert forall|i: int, j: int|
                0 <= i < j < front.len() && (#[trigger] front[i]) is Ok && (
                #[trigger] front[j]) is Ok implies front[i]->Ok_0.0 != front[j]->Ok_0.0 by {
                assert(deliveries[i] is Ok && deliveries[j] is Ok);
            }
        }
        law_each_request_keeps_its_entry(entries, front);
        let before = settled_in_turn(entries, front);
        let after = settled_in_turn(entries, deliveries);
        assert(after == settled(before, last));
        assert forall|id: Seq<char>|
            (delivers_for(deliveries, id) <==> delivers_for(front, id) || (last is Ok
                && last->Ok_0.0 == id)) by {
            if delivers_for(front, id) {
                let k = choose|k: int|
                    0 <= k < front.len() && (#[trigger] front[k]) is Ok && front[k]->Ok_0.0 == id;
                assert(deliveries[k] is Ok && deliveries[k]->Ok_0.0 == id);
            }
            if last is Ok && last->Ok_0.0 == id {
                assert(deliveries[n] is Ok && deliveries[n]->Ok_0.0 == id);
            }
            if delivers_for(deliveries, id) {
                let k = choose|k: int|
                    0 <= k < deliveries.len() && (#[trigger] deliveries[k]) is Ok
                        && deliveries[k]->Ok_0.0 == id;
                if k < n {
                    assert(front[k] is Ok && front[k]->Ok_0.0 == id);
                }
            }
        }
        assert forall|k: int|
            0 <= k < deliveries.len() && (#[trigger] deliveries[k]) is Ok implies lookup(
            after,
            deliveries[k]->Ok_0.0,
        ) == Ok::<EvaluationView, EvaluationError>(deliveries[k]->Ok_0.1) by {
            if k < n {
                assert(front[k] is Ok);
                if last is Ok {
                    assert(deliveries[n] is Ok);
                    assert(deliveries[k]->Ok_0.0 != deliveries[n]->Ok_0.0);
                }
            }
        }
        assert forall|id: Seq<char>| !delivers_for(deliveries, id) implies #[trigger] lookup(
            after,
            id,
        ) == lookup(entries, id) by {
            assert(!delivers_for(front, id));
            assert(lookup(before, id) == lookup(entries, id));
        }
        assert forall|id: Seq<char>| #[trigger]
            after.contains_key(id) <==> entries.contains_key(id) || delivers_for(
                deliveries,
                id,
            ) by {
            assert(before.contains_key(id) <==> entries.contains_key(id) || delivers_for(
                front,
                id,
            ));
        }
    }
}

/// A request that one run delivers for is delivered for by every run that
/// holds all its deliveries.
proof fn lemma_same_deliveries(
    one: Seq<Result<(Seq<char>, EvaluationView), EvaluationError>>,
    other: Seq<Result<(Seq<char>, EvaluationView), EvaluationError>>,
    id: Seq<char>,
)
    requires
        forall|i: int| 0 <= i < one.len() ==> other.contains(#[trigger] one[i]),
    ensures
        delivers_for(one, id) ==> delivers_for(other, id),
{
    if delivers_for(one, id) {
        let k = choose|k: int|
            0 <= k < one.len() && (#[trigger] one[k]) is Ok && one[k]->Ok_0.0 == id;
        assert(other.contains(one[k]));
        let j = choose|j: int| 0 <= j < other.len() && other[j] == one[k];
        assert(other[j] is Ok && other[j]->Ok_0.0 == id);
    }
}

/// The order in which deliveries for different requests are settled does
/// not matter: two runs that settle the same deliveries, each in its own
/// order, leave the same cache.
pub proof fn law_order_of_deliveries_is_immaterial(
    entries: Map<Seq<char>, EvaluationView>,
    one: Seq<Result<(Seq<char>, EvaluationView), EvaluationError>>,
    other: Seq<Result<(Seq<char>, EvaluationView), EvaluationError>>,
)
    requires
        distinct_requests(one),
        distinct_requests(other),
        forall|i: int| 0 <= i < one.len() ==> other.contains(#[trigger] one[i]),
        forall|j: int| 0 <= j < other.len() ==> one.contains(#[trigger] other[j]),
    ensures
        settled_in_turn(entries, one) == settled_in_turn(entries, other),
{
    law_each_request_keeps_its_entry(entries, one);
    law_each_request_keeps_its_entry(entries, other);
    let a = settled_in_turn(entries, one);
    let b = settled_in_turn(entries, other);
    assert forall|id: Seq<char>| lookup(a, id) == lookup(b, id) by {
        lemma_same_deliveries(one, other, id);
        lemma_same_deliveries(other, one, id);
        if delivers_for(one, id) {
            let k = choose|k: int|
                0 <= k < one.len() && (#[trigger] one[k]) is Ok && one[k]->Ok_0.0 == id;
            assert(other.contains(one[k]));
            let j = choose|j: int| 0 <= j < other.len() && other[j] == one[k];
            assert(other[j] is Ok);
            assert(lookup(a, one[k]->Ok_0.0) == Ok::<EvaluationView, EvaluationError>(
                one[k]->Ok_0.1,
            ));
            assert(lookup(b, other[j]->Ok_0.0) == Ok::<EvaluationView, EvaluationError>(
                other[j]->Ok_0.1,
            ));
        } else {
            assert(!delivers_for(other, id));
            assert(lookup(a, id) == lookup(entries, id));
            assert(lookup(b, id) == lookup(entries, id));
        }
    }
    assert forall|id: Seq<char>| a.contains_key(id) == b.contains_key(id) by {
        assert(lookup(a, id) == lookup(b, id));
    }
    assert forall|id: Seq<char>| a.contains_key(id) implies a[id] == b[id] by {
        assert(lookup(a, id) == lookup(b, id));
    }
    assert(a =~= b);
}

} // verus!
