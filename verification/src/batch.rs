//! The batch pass over a set of loaded documents. Reading files, parsing
//! them and writing results is I/O and stays with the caller; each file
//! arrives here as its name and either a parsed collection or the error its
//! loading produced. A failed file keeps its error and never stops the rest
//! of the batch from being normalized.

use vstd::prelude::*;

use crate::geometry::FeatureCollection;
use crate::geometry::collection_normalized;
use crate::normalize::normalize_collection;

verus! {

/// One file of a batch: its name, and the outcome of loading it — the parsed
/// collection, or the message of the load failure.
#[derive(Debug, PartialEq)]
pub struct BatchEntry {
    pub name: String,
    pub document: Result<FeatureCollection, String>,
}

/// What the batch pass does to one entry: the name stays; a loaded document
/// is normalized; a failed one keeps its error untouched.
pub open spec fn entry_processed(before: BatchEntry, after: BatchEntry) -> bool {
    &&& after.name == before.name
    &&& match before.document {
        Ok(doc) => after.document matches Ok(out) && collection_normalized(doc, out),
        Err(e) => after.document == Result::<FeatureCollection, String>::Err(e),
    }
}

/// Normalizes every successfully loaded document of the batch in place, in
/// order. Entry count, order and names are unchanged; a failed entry passes
/// through with its error, and its presence never affects the entries around
/// it.
pub fn process_batch(entries: &mut Vec<BatchEntry>)
    ensures
        final(entries)@.len() == old(entries)@.len(),
        forall|i: int|
            0 <= i < old(entries)@.len() ==> #[trigger] entry_processed(
                old(entries)@[i],
                final(entries)@[i],
            ),
{
    let n = entries.len();
    let mut i: usize = 0;
    while i < n
        invariant
            0 <= i <= n,
            n == entries@.len(),
            entries@.len() == old(entries)@.len(),
            forall|j: int|
                0 <= j < i ==> #[trigger] entry_processed(old(entries)@[j], entries@[j]),
            forall|j: int| i <= j < n ==> entries@[j] == old(entries)@[j],
        decreases n - i,
    {
        let entry = &mut entries[i];
        match &mut entry.document {
            Ok(doc) => {
                normalize_collection(doc);
            },
            Err(_) => {},
        }
        i += 1;
    }
}

} // verus!
