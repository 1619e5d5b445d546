//! The pluggable locale-data backend.
//!
//! A backend answers one kind of question: for a request key, either a
//! payload or an error.  What a backend holds is its own business; the
//! trait only demands that each implementation answer according to its
//! declared contents, so that the loader's contracts can say exactly what
//! ends up in a container.

use vstd::prelude::*;
use crate::data::{DataKey, DataKeyModel, DataPayload, DataPayloadModel};
use crate::errors::DataError;

verus! {

/// The model of a fetch result: the payload by its model.
pub open spec fn fetch_view(r: Result<DataPayload, DataError>) -> Result<
    DataPayloadModel,
    DataError,
> {
    match r {
        Ok(p) => Ok(p@),
        Err(e) => Err(e),
    }
}

/// A fallible source of locale data payloads.
///
/// `spec_fetch` declares what the backend holds; `fetch` must answer
/// accordingly.  Two fetches of the same key therefore agree, which is
/// what lets a formatter cache each payload exactly once.
pub trait DataBackend {
    /// What this backend answers for each key.
    spec fn spec_fetch(&self, key: DataKeyModel) -> Result<DataPayloadModel, DataError>;

    /// Fetches the payload under the key, or says why it cannot.
    fn fetch(&self, key: &DataKey) -> (r: Result<DataPayload, DataError>)
        ensures
            fetch_view(r) == self.spec_fetch(key@),
    ;
}

/// A backend that holds nothing: every fetch reports that the payload is
/// not found.  Useful to exercise the engine's degraded paths.
#[derive(Debug, Copy, Clone)]
pub struct EmptyDataProvider;

impl DataBackend for EmptyDataProvider {
    open spec fn spec_fetch(&self, key: DataKeyModel) -> Result<DataPayloadModel, DataError> {
        Err(DataError::MarkerNotFound)
    }

    fn fetch(&self, key: &DataKey) -> (r: Result<DataPayload, DataError>)
        ensures
            fetch_view(r) == self.spec_fetch(key@),
    {
        Err(DataError::MarkerNotFound)
    }
}

/// One stored key-and-payload pair of a [`MemoryDataProvider`].
#[derive(Debug, Clone)]
pub struct MemoryEntry {
    pub key: DataKey,
    pub payload: DataPayload,
}

/// The model of a [`MemoryEntry`].
pub struct MemoryEntryModel {
    pub key: DataKeyModel,
    pub payload: DataPayloadModel,
}

impl View for MemoryEntry {
    type V = MemoryEntryModel;

    open spec fn view(&self) -> MemoryEntryModel {
        MemoryEntryModel { key: self.key@, payload: self.payload@ }
    }
}

/// An in-memory backend: a list of key-and-payload pairs, answered front
/// to back.  The usual way to hand concrete tables to a formatter.
#[derive(Debug)]
pub struct MemoryDataProvider {
    pub entries: Vec<MemoryEntry>,
}

/// What a list of stored entries answers for a key: the payload of the
/// first entry stored under that key, or not-found.
pub open spec fn memory_lookup(entries: Seq<MemoryEntryModel>, key: DataKeyModel) -> Result<
    DataPayloadModel,
    DataError,
>
    decreases entries.len(),
{
    if entries.len() == 0 {
        Err(DataError::MarkerNotFound)
    } else if entries[0].key == key {
        Ok(entries[0].payload)
    } else {
        memory_lookup(entries.drop_first(), key)
    }
}

/// Equality of two request keys.
fn key_eq(a: &DataKey, b: &DataKey) -> (r: bool)
    ensures
        r == (a@ == b@),
{
    let category_eq = a.category == b.category;
    let attribute_eq = match (&a.attribute, &b.attribute) {
        (Some(x), Some(y)) => *x == *y,
        (None, None) => true,
        _ => false,
    };
    let locale_eq = a.locale == b.locale;
    let r = category_eq && attribute_eq && locale_eq;
    proof {
        if r {
            assert(a@ == b@);
        } else {
            assert(a@ != b@);
        }
    }
    r
}

impl MemoryDataProvider {
    /// A provider with no entries yet.
    pub fn new() -> (r: Self)
        ensures
            r.entries@.len() == 0,
    {
        MemoryDataProvider { entries: Vec::new() }
    }

    /// Stores a payload under a key, behind any earlier entry for the key.
    pub fn insert(&mut self, key: DataKey, payload: DataPayload)
        ensures
            final(self).entries@.len() == old(self).entries@.len() + 1,
            final(self).entries@ =~= old(self).entries@.push(
                final(self).entries@[old(self).entries@.len() as int],
            ),
            final(self).entries@[old(self).entries@.len() as int]@ == (MemoryEntryModel {
                key: key@,
                payload: payload@,
            }),
    {
        self.entries.push(MemoryEntry { key, payload });
    }
}

impl DataBackend for MemoryDataProvider {
    open spec fn spec_fetch(&self, key: DataKeyModel) -> Result<DataPayloadModel, DataError> {
        memory_lookup(self.entries@.map(|i: int, e: MemoryEntry| e@), key)
    }

    fn fetch(&self, key: &DataKey) -> (r: Result<DataPayload, DataError>)
        ensures
            fetch_view(r) == self.spec_fetch(key@),
    {
        let ghost all = self.entries@.map(|i: int, e: MemoryEntry| e@);
        let mut i: usize = 0;
        proof {
            assert(all.skip(0) =~= all);
        }
        while i < self.entries.len()
            invariant
                i <= self.entries.len(),
                all == self.entries@.map(|i: int, e: MemoryEntry| e@),
                memory_lookup(all.skip(i as int), key@) == memory_lookup(all, key@),
            decreases self.entries.len() - i,
        {
            let entry = &self.entries[i];
            if key_eq(&entry.key, key) {
                proof {
                    assert(all.skip(i as int)[0] == all[i as int]);
                }
                return Ok(entry.payload.clone());
            }
            proof {
                assert(all.skip(i as int).drop_first() =~= all.skip(i as int + 1));
                assert(all.skip(i as int)[0] == all[i as int]);
            }
            i += 1;
        }
        proof {
            assert(all.skip(i as int).len() == 0);
        }
        Err(DataError::MarkerNotFound)
    }
}

} // verus!
