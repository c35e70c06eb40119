//! The listing pass: one display record per enumerated entry, in
//! enumeration order, with the soft-failure policy for entries whose
//! metadata could not be read and the fatal error for a directory that
//! could not be opened at all.

use crate::calendar::MAX_TIMESTAMP_SECS;
use crate::record::{spec_record, DisplayRecord, EntryMeta, EntryModel, RecordModel};
use vstd::prelude::*;

verus! {

/// The one fatal error: the directory itself could not be opened for
/// enumeration. Per-entry metadata failures are not errors; they yield
/// placeholder records instead.
#[derive(Clone, Copy, Debug, PartialEq, Eq, Structural)]
pub enum ListError {
    FatalIo,
}

/// The model of one enumeration step: the entry's metadata, or `None`
/// where reading the metadata failed.
pub open spec fn entry_model(e: Option<EntryMeta>) -> Option<EntryModel> {
    match e {
        Some(m) => Some(m@),
        None => None,
    }
}

/// Every read entry's timestamp is within the supported range.
pub open spec fn all_secs_in_range(es: Seq<Option<EntryMeta>>) -> bool {
    forall|i: int|
        0 <= i < es.len() ==> (#[trigger] es[i] matches Some(m) ==> m.secs <= MAX_TIMESTAMP_SECS)
}

/// Builds the listing. `dir` is `None` where the directory could not be
/// opened: that is fatal and yields no records at all. Otherwise every
/// enumerated entry — readable or not — yields exactly one record, in
/// enumeration order.
pub fn list(dir: Option<Vec<Option<EntryMeta>>>) -> (r: Result<Vec<DisplayRecord>, ListError>)
    requires
        dir matches Some(es) ==> all_secs_in_range(es@),
    ensures
        r is Ok <==> dir is Some,
        r is Err ==> r == Err::<Vec<DisplayRecord>, ListError>(ListError::FatalIo),
        dir matches Some(es) ==> (r matches Ok(recs) && recs@.len() == es@.len() && (forall|i: int|
            0 <= i < es@.len() ==> #[trigger] recs@[i]@ == spec_record(entry_model(es@[i])))),
{
    let entries = match dir {
        Some(es) => es,
        None => {
            return Err(ListError::FatalIo);
        },
    };
    let mut recs: Vec<DisplayRecord> = Vec::new();
    let mut i: usize = 0;
    while i < entries.len()
        invariant
            i <= entries.len(),
            all_secs_in_range(entries@),
            recs@.len() == i,
            forall|j: int|
                0 <= j < i ==> #[trigger] recs@[j]@ == spec_record(entry_model(entries@[j])),
        decreases entries.len() - i,
    {
        match &entries[i] {
            Some(meta) => {
                recs.push(DisplayRecord::from_entry(meta));
            },
            None => {
                recs.push(DisplayRecord::placeholder());
            },
        }
        i += 1;
    }
    Ok(recs)
}

/// The rendered date and time of a record are a function of the entry's
/// timestamp alone: entries that agree on the timestamp get identical
/// date and time fields, whatever their other fields and whatever the
/// machine's timezone or locale.
pub proof fn lemma_timestamp_rendering_deterministic(a: EntryModel, b: EntryModel)
    requires
        a.secs == b.secs,
    ensures
        spec_record(Some(a)).date == spec_record(Some(b)).date,
        spec_record(Some(a)).time == spec_record(Some(b)).time,
{
}

/// Listing an unmodified directory twice yields the same records both
/// times: any two record sequences that satisfy `list`'s contract for
/// the same entries are equal.
pub proof fn lemma_list_idempotent(
    es: Seq<Option<EntryMeta>>,
    r1: Seq<RecordModel>,
    r2: Seq<RecordModel>,
)
    requires
        r1.len() == es.len(),
        forall|i: int| 0 <= i < es.len() ==> #[trigger] r1[i] == spec_record(entry_model(es[i])),
        r2.len() == es.len(),
        forall|i: int| 0 <= i < es.len() ==> #[trigger] r2[i] == spec_record(entry_model(es[i])),
    ensures
        r1 =~= r2,
{
}

} // verus!
