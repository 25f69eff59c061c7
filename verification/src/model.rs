//! The mathematical model of the collection: a sequence of record views,
//! the identifier that the next record gets, and what adding and deleting
//! do to the sequence.

use crate::record::FeedingRecordView;
use vstd::prelude::*;

verus! {

/// The largest identifier among `s`, or 0 where `s` is empty.
pub open spec fn max_id(s: Seq<FeedingRecordView>) -> nat
    decreases s.len(),
{
    if s.len() == 0 {
        0
    } else {
        let rest = max_id(s.drop_last());
        if s.last().id > rest {
            s.last().id as nat
        } else {
            rest
        }
    }
}

/// Some record of `s` has the identifier `id`.
pub open spec fn has_id(s: Seq<FeedingRecordView>, id: u64) -> bool {
    exists|i: int| 0 <= i < s.len() && #[trigger] s[i].id == id
}

/// No two records of `s` share an identifier.
pub open spec fn ids_unique(s: Seq<FeedingRecordView>) -> bool {
    forall|i: int, j: int| 0 <= i < j < s.len() ==> #[trigger] s[i].id != #[trigger] s[j].id
}

/// There is an identifier left above the largest one of `s`.
pub open spec fn can_add(s: Seq<FeedingRecordView>) -> bool {
    max_id(s) < u64::MAX
}

/// The identifier that the next record added to `s` gets: one above the
/// largest present, so 1 in an empty collection.
pub open spec fn next_id(s: Seq<FeedingRecordView>) -> u64
    recommends
        can_add(s),
{
    (max_id(s) + 1) as u64
}

/// `s` after `candidate` was added: the candidate comes last, under the
/// next identifier, whatever identifier it came with.
pub open spec fn with_added(
    s: Seq<FeedingRecordView>,
    candidate: FeedingRecordView,
) -> Seq<FeedingRecordView>
    recommends
        can_add(s),
{
    s.push(candidate.with_id(next_id(s)))
}

/// The test that a record passes when its identifier is not `id`.
pub open spec fn other_than(id: u64) -> spec_fn(FeedingRecordView) -> bool {
    |r: FeedingRecordView| r.id != id
}

/// `s` after `id` was deleted: the records with another identifier, in
/// their order.
pub open spec fn without_id(s: Seq<FeedingRecordView>, id: u64) -> Seq<FeedingRecordView> {
    s.filter(other_than(id))
}

/// No identifier of `s` is above `max_id(s)`, which fits in a `u64`.
pub proof fn lemma_max_id_bounds(s: Seq<FeedingRecordView>)
    ensures
        max_id(s) <= u64::MAX,
        forall|i: int| 0 <= i < s.len() ==> #[trigger] s[i].id <= max_id(s),
    decreases s.len(),
{
    if s.len() > 0 {
        let rest = s.drop_last();
        lemma_max_id_bounds(rest);
        assert forall|i: int| 0 <= i < s.len() implies #[trigger] s[i].id <= max_id(s) by {
            if i < s.len() - 1 {
                assert(rest[i] == s[i]);
            }
        }
    }
}

/// In a collection that is not empty, some record has the identifier
/// `max_id(s)`.
pub proof fn lemma_max_id_attained(s: Seq<FeedingRecordView>)
    requires
        s.len() > 0,
    ensures
        exists|i: int| 0 <= i < s.len() && #[trigger] s[i].id == max_id(s),
    decreases s.len(),
{
    let rest = s.drop_last();
    if s.last().id > max_id(rest) || rest.len() == 0 {
        assert(s[s.len() - 1].id == max_id(s));
    } else {
        lemma_max_id_attained(rest);
        let i = choose|i: int| 0 <= i < rest.len() && #[trigger] rest[i].id == max_id(rest);
        assert(s[i].id == max_id(s));
    }
}

/// The largest identifier after one more record came last.
pub proof fn lemma_max_id_push(s: Seq<FeedingRecordView>, r: FeedingRecordView)
    ensures
        max_id(s.push(r)) == if r.id > max_id(s) {
            r.id as nat
        } else {
            max_id(s)
        },
{
    assert(s.push(r).drop_last() =~= s);
}

/// Deleting an identifier that no record has changes nothing.
pub proof fn lemma_without_absent(s: Seq<FeedingRecordView>, id: u64)
    requires
        !has_id(s, id),
    ensures
        without_id(s, id) == s,
    decreases s.len(),
{
    reveal(Seq::filter);
    if s.len() > 0 {
        let rest = s.drop_last();
        assert forall|i: int| 0 <= i < rest.len() implies #[trigger] rest[i].id != id by {
            assert(s[i].id != id);
        }
        lemma_without_absent(rest, id);
        assert(s[s.len() - 1].id != id);
        assert(rest.push(s.last()) =~= s);
    }
}

/// Taking out one record that has the identifier `id` does not change
/// what deleting `id` leaves.
pub proof fn lemma_without_remove(s: Seq<FeedingRecordView>, id: u64, i: int)
    requires
        0 <= i < s.len(),
        s[i].id == id,
    ensures
        without_id(s.remove(i), id) == without_id(s, id),
{
    let keep = other_than(id);
    let head = s.take(i);
    let tail = s.skip(i + 1);
    assert(s =~= head.push(s[i]) + tail);
    assert(s.remove(i) =~= head + tail);
    Seq::filter_distributes_over_add(head.push(s[i]), tail, keep);
    Seq::filter_distributes_over_add(head, tail, keep);
    head.lemma_filter_push(s[i], keep);
}

/// The identifiers that deleting `id` leaves are those of `s` other than
/// `id`.
pub proof fn lemma_without_has_id(s: Seq<FeedingRecordView>, id: u64, other: u64)
    ensures
        has_id(without_id(s, id), other) <==> other != id && has_id(s, other),
    decreases s.len(),
{
    reveal(Seq::filter);
    if s.len() > 0 {
        let rest = s.drop_last();
        let last = s.last();
        lemma_without_has_id(rest, id, other);
        let left = without_id(rest, id);
        let all = without_id(s, id);
        if has_id(all, other) {
            let k = choose|k: int| 0 <= k < all.len() && #[trigger] all[k].id == other;
            if k < left.len() {
                assert(left[k].id == other);
                let i = choose|i: int| 0 <= i < rest.len() && #[trigger] rest[i].id == other;
                assert(s[i].id == other);
            } else {
                assert(s[s.len() - 1].id == other);
            }
        }
        if other != id && has_id(s, other) {
            let i = choose|i: int| 0 <= i < s.len() && #[trigger] s[i].id == other;
            if i < rest.len() {
                assert(rest[i].id == other);
                let k = choose|k: int| 0 <= k < left.len() && #[trigger] left[k].id == other;
                assert(all[k].id == other);
            } else {
                assert(all[all.len() - 1].id == other);
            }
        }
    }
}

/// Deleting the same identifier a second time changes nothing more.
pub proof fn lemma_without_twice(s: Seq<FeedingRecordView>, id: u64)
    ensures
        without_id(without_id(s, id), id) == without_id(s, id),
{
    lemma_without_has_id(s, id, id);
    lemma_without_absent(without_id(s, id), id);
}

/// Adding a record keeps the identifiers distinct.
pub proof fn lemma_with_added_unique(s: Seq<FeedingRecordView>, candidate: FeedingRecordView)
    requires
        ids_unique(s),
        can_add(s),
    ensures
        ids_unique(with_added(s, candidate)),
{
    lemma_max_id_bounds(s);
}

/// Deleting an identifier keeps the identifiers distinct.
pub proof fn lemma_without_unique(s: Seq<FeedingRecordView>, id: u64)
    requires
        ids_unique(s),
    ensures
        ids_unique(without_id(s, id)),
    decreases s.len(),
{
    reveal(Seq::filter);
    if s.len() > 0 {
        let rest = s.drop_last();
        let last = s.last();
        let left = without_id(rest, id);
        assert forall|i: int, j: int| 0 <= i < j < rest.len() implies #[trigger] rest[i].id
            != #[trigger] rest[j].id by {
            assert(s[i].id != s[j].id);
        }
        lemma_without_unique(rest, id);
        if last.id != id {
            assert forall|k: int| 0 <= k < left.len() implies #[trigger] left[k].id != last.id by {
                if left[k].id == last.id {
                    lemma_without_has_id(rest, id, last.id);
                    let i = choose|i: int| 0 <= i < rest.len() && #[trigger] rest[i].id == last.id;
                    assert(s[i].id != s[s.len() - 1].id);
                }
            }
        }
    }
}

/// Deleting never raises the largest identifier, and leaves it as it is
/// unless the identifier deleted is the largest.
pub proof fn lemma_max_id_without(s: Seq<FeedingRecordView>, id: u64)
    ensures
        max_id(without_id(s, id)) <= max_id(s),
        id != max_id(s) ==> max_id(without_id(s, id)) == max_id(s),
{
    let left = without_id(s, id);
    lemma_max_id_bounds(s);
    lemma_max_id_bounds(left);
    s.lemma_filter_len(other_than(id));
    if left.len() > 0 {
        lemma_max_id_attained(left);
        let k = choose|k: int| 0 <= k < left.len() && #[trigger] left[k].id == max_id(left);
        lemma_without_has_id(s, id, left[k].id);
        let i = choose|i: int| 0 <= i < s.len() && #[trigger] s[i].id == left[k].id;
        assert(s[i].id <= max_id(s));
    }
    if id != max_id(s) && s.len() > 0 {
        lemma_max_id_attained(s);
        let i = choose|i: int| 0 <= i < s.len() && #[trigger] s[i].id == max_id(s);
        lemma_without_has_id(s, id, s[i].id);
        let k = choose|k: int| 0 <= k < left.len() && #[trigger] left[k].id == s[i].id;
        assert(left[k].id <= max_id(left));
    }
}

/// Deleting the record that was added last gives back the collection as
/// it was before the addition, so the same identifier is handed out next.
pub proof fn lemma_without_newest(s: Seq<FeedingRecordView>, candidate: FeedingRecordView)
    requires
        can_add(s),
    ensures
        without_id(with_added(s, candidate), next_id(s)) == s,
{
    let id = next_id(s);
    lemma_max_id_bounds(s);
    s.lemma_filter_push(candidate.with_id(id), other_than(id));
    lemma_without_absent(s, id);
}

} // verus!
