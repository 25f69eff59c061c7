//! The feeding record and its mathematical view.

use vstd::prelude::*;

verus! {

/// One feeding event.
///
/// The `id` is assigned by the store; the other fields are taken from the
/// caller as they are and are not validated.
#[derive(Debug, PartialEq, Eq)]
pub struct FeedingRecord {
    pub id: u64,
    pub feeding_type: String,
    pub amount: u32,
    pub duration: u32,
    pub feeding_time: String,
    pub notes: String,
}

/// What a [`FeedingRecord`] stands for in contracts: the same fields, with
/// each text as its sequence of characters.
pub ghost struct FeedingRecordView {
    pub id: u64,
    pub feeding_type: Seq<char>,
    pub amount: u32,
    pub duration: u32,
    pub feeding_time: Seq<char>,
    pub notes: Seq<char>,
}

impl FeedingRecordView {
    /// The same record under another identifier.
    pub open spec fn with_id(self, id: u64) -> FeedingRecordView {
        FeedingRecordView { id, ..self }
    }
}

impl View for FeedingRecord {
    type V = FeedingRecordView;

    open spec fn view(&self) -> FeedingRecordView {
        FeedingRecordView {
            id: self.id,
            feeding_type: self.feeding_type@,
            amount: self.amount,
            duration: self.duration,
            feeding_time: self.feeding_time@,
            notes: self.notes@,
        }
    }
}

impl Clone for FeedingRecord {
    fn clone(&self) -> (copy: Self)
        ensures
            copy == *self,
    {
        FeedingRecord {
            id: self.id,
            feeding_type: self.feeding_type.clone(),
            amount: self.amount,
            duration: self.duration,
            feeding_time: self.feeding_time.clone(),
            notes: self.notes.clone(),
        }
    }
}

/// The views of a sequence of records, in the same order.
pub open spec fn views(records: Seq<FeedingRecord>) -> Seq<FeedingRecordView> {
    records.map_values(|r: FeedingRecord| r@)
}

} // verus!
