//! The store: the records in insertion order and the path of the file
//! that backs them.

use crate::model::{
    can_add, has_id, ids_unique, lemma_max_id_bounds, lemma_max_id_push, lemma_without_absent,
    lemma_without_remove, lemma_without_unique, max_id, next_id, with_added, without_id,
};
use crate::record::{views, FeedingRecord, FeedingRecordView};
use std::path::PathBuf;
use vstd::prelude::*;

verus! {

/// `std::path::PathBuf`, carried through the store without being looked
/// into.
#[verifier::external_type_specification]
#[verifier::external_body]
pub struct ExPathBuf(std::path::PathBuf);

/// What was found at the backing path when the store was opened.
pub enum Snapshot {
    /// There is no file at the path.
    Missing,
    /// There is a file, and it could not be read.
    Unreadable,
    /// The file was read, and its text does not decode to a sequence of
    /// records.
    Malformed,
    /// The records that the file holds, in the file's order.
    Records(Vec<FeedingRecord>),
}

impl Snapshot {
    /// The records that a store opened on this snapshot starts with: those
    /// of the file where it was decoded, none otherwise.
    pub open spec fn contents(self) -> Seq<FeedingRecordView> {
        match self {
            Snapshot::Records(records) => views(records@),
            _ => Seq::empty(),
        }
    }
}

/// The in-memory collection of records and the path of its backing file.
pub struct AppState {
    records: Vec<FeedingRecord>,
    data_file: PathBuf,
}

impl View for AppState {
    type V = Seq<FeedingRecordView>;

    closed spec fn view(&self) -> Seq<FeedingRecordView> {
        views(self.records@)
    }
}

impl AppState {
    /// The path of the backing file.
    pub closed spec fn path(&self) -> PathBuf {
        self.data_file
    }

    /// Opens a store on `data_file` with what was found there. Nothing
    /// found, or nothing usable, gives an empty store; this never fails.
    pub fn new(data_file: PathBuf, snapshot: Snapshot) -> (state: AppState)
        ensures
            state@ == snapshot.contents(),
            !(snapshot is Records) ==> state@ == Seq::<FeedingRecordView>::empty(),
            state.path() == data_file,
    {
        let records = match snapshot {
            Snapshot::Records(records) => records,
            _ => Vec::new(),
        };
        proof {
            assert(views(records@) =~= snapshot.contents());
        }
        AppState { records, data_file }
    }

    /// The path of the backing file, fixed when the store was opened.
    pub fn data_file(&self) -> (path: &PathBuf)
        ensures
            *path == self.path(),
    {
        &self.data_file
    }

    /// The largest identifier in the store, or 0 where the store is empty.
    pub fn largest_id(&self) -> (largest: u64)
        ensures
            largest == max_id(self@),
    {
        let ghost all = views(self.records@);
        let mut largest: u64 = 0;
        let mut i: usize = 0;
        while i < self.records.len()
            invariant
                i <= self.records.len(),
                all == views(self.records@),
                largest == max_id(all.take(i as int)),
            decreases self.records.len() - i,
        {
            proof {
                assert(all.take(i + 1) =~= all.take(i as int).push(all[i as int]));
                lemma_max_id_push(all.take(i as int), all[i as int]);
            }
            if self.records[i].id > largest {
                largest = self.records[i].id;
            }
            i += 1;
        }
        proof {
            assert(all.take(i as int) =~= all);
        }
        largest
    }
}

/// Adds `record` to the store and returns it as it was stored: last in
/// the collection, under the identifier one above the largest present.
/// The identifier that `record` came with is not looked at.
pub fn add_feeding_record(state: &mut AppState, record: FeedingRecord) -> (added: FeedingRecord)
    requires
        can_add(old(state)@),
    ensures
        added@ == record@.with_id(next_id(old(state)@)),
        final(state)@ == with_added(old(state)@, record@),
        final(state).path() == old(state).path(),
        forall|i: int| 0 <= i < old(state)@.len() ==> old(state)@[i].id < added.id,
        ids_unique(old(state)@) ==> ids_unique(final(state)@),
{
    let new_id = state.largest_id() + 1;
    let new_record = FeedingRecord { id: new_id, ..record };
    proof {
        lemma_max_id_bounds(state@);
        assert(views(state.records@.push(new_record)) =~= views(state.records@).push(
            new_record@,
        ));
    }
    state.records.push(new_record.clone());
    new_record
}

/// A copy of all the records, in the order in which they were added.
pub fn get_feeding_records(state: &AppState) -> (records: Vec<FeedingRecord>)
    ensures
        views(records@) == state@,
        records@.len() == state@.len(),
        forall|i: int| 0 <= i < records@.len() ==> (#[trigger] records@[i])@ == state@[i],
{
    let records = state.records.clone();
    proof {
        assert(records@ =~= state.records@);
    }
    records
}

/// Deletes every record whose identifier is `id`. Where there is none,
/// the store stays as it is.
pub fn delete_feeding_record(state: &mut AppState, id: u64)
    ensures
        final(state)@ == without_id(old(state)@, id),
        final(state).path() == old(state).path(),
        !has_id(old(state)@, id) ==> final(state)@ == old(state)@,
        ids_unique(old(state)@) ==> ids_unique(final(state)@),
{
    let mut i: usize = 0;
    while i < state.records.len()
        invariant
            i <= state.records.len(),
            state.data_file == old(state).data_file,
            without_id(state@, id) == without_id(old(state)@, id),
            forall|j: int| 0 <= j < i ==> #[trigger] state@[j].id != id,
        decreases state.records.len() - i,
    {
        if state.records[i].id == id {
            proof {
                lemma_without_remove(state@, id, i as int);
                assert(views(state.records@.remove(i as int)) =~= state@.remove(i as int));
            }
            state.records.remove(i);
        } else {
            i += 1;
        }
    }
    proof {
        lemma_without_absent(state@, id);
        if !has_id(old(state)@, id) {
            lemma_without_absent(old(state)@, id);
        }
        if ids_unique(old(state)@) {
            lemma_without_unique(old(state)@, id);
        }
    }
}

/// Reopening keeps what was listed: a store opened on the records that
/// another store lists holds the same records in the same order.
pub proof fn lemma_reopened_on_listing(state: AppState, listing: Vec<FeedingRecord>)
    requires
        views(listing@) == state@,
    ensures
        Snapshot::Records(listing).contents() == state@,
{
}

} // verus!
