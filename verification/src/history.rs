//! Histories: what holds of a store after any sequence of additions and
//! deletions.

use crate::model::{
    can_add, ids_unique, lemma_max_id_bounds, lemma_max_id_push, lemma_max_id_without,
    lemma_with_added_unique, lemma_without_unique, max_id, next_id, with_added, without_id,
};
use crate::record::FeedingRecordView;
use crate::store::Snapshot;
use vstd::prelude::*;

verus! {

/// One change to the collection.
pub ghost enum Mutation {
    /// A record is added; it gets the next identifier.
    Add(FeedingRecordView),
    /// The records with this identifier are deleted.
    Delete(u64),
}

/// The collection after one change.
pub open spec fn apply(s: Seq<FeedingRecordView>, change: Mutation) -> Seq<FeedingRecordView> {
    match change {
        Mutation::Add(candidate) => with_added(s, candidate),
        Mutation::Delete(id) => without_id(s, id),
    }
}

/// The collection after the changes of `history`, made in order on `s`.
pub open spec fn replay(s: Seq<FeedingRecordView>, history: Seq<Mutation>) -> Seq<
    FeedingRecordView,
>
    decreases history.len(),
{
    if history.len() == 0 {
        s
    } else {
        apply(replay(s, history.drop_last()), history.last())
    }
}

/// The collection as the change at position `k` of `history` finds it.
pub open spec fn before(s: Seq<FeedingRecordView>, history: Seq<Mutation>, k: int) -> Seq<
    FeedingRecordView,
> {
    replay(s, history.take(k))
}

/// Every addition of `history` finds an identifier left to hand out.
pub open spec fn admissible(s: Seq<FeedingRecordView>, history: Seq<Mutation>) -> bool {
    forall|k: int|
        0 <= k < history.len() && #[trigger] history[k] is Add ==> can_add(before(s, history, k))
}

/// The identifier that the addition at position `k` of `history` hands
/// out.
pub open spec fn issued(s: Seq<FeedingRecordView>, history: Seq<Mutation>, k: int) -> u64 {
    next_id(before(s, history, k))
}

/// No deletion that stands between two additions takes out the largest
/// identifier present. After an addition the largest identifier is the
/// one handed out last, so this says that the newest record is not
/// deleted before the next one is added.
pub open spec fn spares_newest(s: Seq<FeedingRecordView>, history: Seq<Mutation>) -> bool {
    forall|i: int, d: int, j: int|
        0 <= i < d < j < history.len() && #[trigger] history[i] is Add && #[trigger] history[d]
            is Delete && #[trigger] history[j] is Add ==> history[d]->Delete_0 != max_id(
            before(s, history, d),
        )
}

/// The collection after the change at position `k` is the collection
/// before it with that change applied.
pub proof fn lemma_before_next(s: Seq<FeedingRecordView>, history: Seq<Mutation>, k: int)
    requires
        0 <= k < history.len(),
    ensures
        before(s, history, k + 1) == apply(before(s, history, k), history[k]),
{
    assert(history.take(k + 1).drop_last() =~= history.take(k));
}

/// From an addition on, the largest identifier present is at least the
/// one that the addition handed out, as long as the newest record is
/// spared.
proof fn lemma_largest_stays_above(
    s: Seq<FeedingRecordView>,
    history: Seq<Mutation>,
    i: int,
    k: int,
    j: int,
)
    requires
        admissible(s, history),
        spares_newest(s, history),
        0 <= i < k <= j < history.len(),
        history[i] is Add,
        history[j] is Add,
    ensures
        issued(s, history, i) <= max_id(before(s, history, k)),
    decreases k,
{
    let found = before(s, history, k - 1);
    lemma_before_next(s, history, k - 1);
    lemma_max_id_bounds(found);
    match history[k - 1] {
        Mutation::Add(candidate) => {
            assert(can_add(found));
            lemma_max_id_push(found, candidate.with_id(next_id(found)));
            if k - 1 > i {
                lemma_largest_stays_above(s, history, i, k - 1, j);
            }
        },
        Mutation::Delete(id) => {
            lemma_largest_stays_above(s, history, i, k - 1, j);
            lemma_max_id_without(found, id);
        },
    }
}

/// Identifiers only go up: in a history that spares the newest record,
/// each addition hands out an identifier above the one of every earlier
/// addition. A history of additions alone always does.
pub proof fn lemma_issued_ids_increase(
    s: Seq<FeedingRecordView>,
    history: Seq<Mutation>,
    i: int,
    j: int,
)
    requires
        admissible(s, history),
        spares_newest(s, history),
        0 <= i < j < history.len(),
        history[i] is Add,
        history[j] is Add,
    ensures
        issued(s, history, i) < issued(s, history, j),
{
    lemma_largest_stays_above(s, history, i, j, j);
    assert(can_add(before(s, history, j)));
}

/// An addition hands out an identifier above every identifier that it
/// finds in the collection.
pub proof fn lemma_issued_id_is_fresh(
    s: Seq<FeedingRecordView>,
    history: Seq<Mutation>,
    k: int,
    n: int,
)
    requires
        admissible(s, history),
        0 <= k < history.len(),
        history[k] is Add,
        0 <= n < before(s, history, k).len(),
    ensures
        before(s, history, k)[n].id < issued(s, history, k),
{
    lemma_max_id_bounds(before(s, history, k));
}

/// Identifiers stay distinct: a collection in which no two records share
/// an identifier is still one after any history.
pub proof fn lemma_replay_keeps_ids_unique(s: Seq<FeedingRecordView>, history: Seq<Mutation>)
    requires
        ids_unique(s),
        admissible(s, history),
    ensures
        ids_unique(replay(s, history)),
    decreases history.len(),
{
    if history.len() > 0 {
        let earlier = history.drop_last();
        let k = history.len() - 1;
        assert(history.take(k) =~= earlier);
        assert forall|n: int| 0 <= n < earlier.len() && #[trigger] earlier[n] is Add implies can_add(
            before(s, earlier, n),
        ) by {
            assert(history[n] is Add);
            assert(earlier.take(n) =~= history.take(n));
        }
        lemma_replay_keeps_ids_unique(s, earlier);
        match history.last() {
            Mutation::Add(candidate) => {
                assert(history[k] is Add);
                lemma_with_added_unique(replay(s, earlier), candidate);
            },
            Mutation::Delete(id) => {
                lemma_without_unique(replay(s, earlier), id);
            },
        }
    }
}

/// Every state that a store can reach has distinct identifiers, if the
/// file that it was opened on had: the store starts with the records of
/// the file, or with none, and no history brings two records under one
/// identifier.
pub proof fn lemma_reachable_ids_unique(snapshot: Snapshot, history: Seq<Mutation>)
    requires
        snapshot is Records ==> ids_unique(snapshot.contents()),
        admissible(snapshot.contents(), history),
    ensures
        ids_unique(replay(snapshot.contents(), history)),
{
    lemma_replay_keeps_ids_unique(snapshot.contents(), history);
}

} // verus!
