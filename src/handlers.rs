use vstd::prelude::*;
use crate::model::{
    Entry, EntryModel, Timestamp, NIL_ID, active_status, default_status, models, ts_le, ts_lt,
};
use crate::system::{new_id, now};

verus! {

broadcast use vstd::seq_lib::group_to_multiset_ensures;

/// The store: the authoritative collection of entries, in the order in which
/// they were added, and the path of the file that mirrors it.
pub struct AppState {
    pub entries: Vec<Entry>,
    pub file_path: String,
}

/// Why an operation on the store did not take place.
#[derive(Debug, PartialEq, Eq, Structural)]
pub enum StoreError {
    NotFound,
}

impl AppState {
    /// A store mirrored to `file_path`, holding what was read from that file:
    /// `loaded` is `None` when the file was absent or did not parse, and the
    /// store then starts empty.
    pub fn new(file_path: &str, loaded: Option<Vec<Entry>>) -> (r: AppState)
        ensures
            r.file_path@ == file_path@,
            models(r.entries@) == loaded_entries(opt_models(loaded)),
    {
        let entries = match loaded {
            Some(v) => v,
            None => Vec::new(),
        };
        proof {
            if loaded is None {
                assert(models(entries@) =~= Seq::<EntryModel>::empty());
            }
        }
        AppState { entries, file_path: String::from_str(file_path) }
    }

    /// The whole collection, in stored order, as it is to be written to the
    /// backing file after a mutation.
    pub fn save(&self) -> (r: Vec<Entry>)
        ensures
            models(r@) == models(self.entries@),
    {
        let mut r: Vec<Entry> = Vec::new();
        let mut k: usize = 0;
        while k < self.entries.len()
            invariant
                k <= self.entries@.len(),
                r@.len() == k,
                forall|j: int| 0 <= j < k ==> (#[trigger] r@[j])@ == self.entries@[j]@,
            decreases self.entries@.len() - k,
        {
            r.push(self.entries[k].clone());
            k += 1;
        }
        assert(models(r@) =~= models(self.entries@));
        r
    }
}

/// Entries ordered by creation time, most recent first.
pub open spec fn newest_first(s: Seq<EntryModel>) -> bool {
    forall|i: int, j: int| 0 <= i < j < s.len() ==> ts_le(#[trigger] s[j].created_at, #[trigger] s[i].created_at)
}

/// The collection a store starts with, given what was read from its file
/// (`None` when the file was absent or did not parse).
pub open spec fn loaded_entries(loaded: Option<Seq<EntryModel>>) -> Seq<EntryModel> {
    match loaded {
        Some(s) => s,
        None => Seq::empty(),
    }
}

pub open spec fn opt_models(loaded: Option<Vec<Entry>>) -> Option<Seq<EntryModel>> {
    match loaded {
        Some(v) => Some(models(v@)),
        None => None,
    }
}

/// Every entry of the store, most recently created first. Entries created at
/// the same instant keep the order in which they were added.
pub fn list_entries(state: &AppState) -> (r: Vec<Entry>)
    ensures
        r@.len() == state.entries@.len(),
        models(r@).to_multiset() == models(state.entries@).to_multiset(),
        newest_first(models(r@)),
{
    let mut r: Vec<Entry> = Vec::new();
    let mut k: usize = 0;
    while k < state.entries.len()
        invariant
            k <= state.entries@.len(),
            r@.len() == k,
            models(r@).to_multiset() == models(state.entries@.subrange(0, k as int)).to_multiset(),
            newest_first(models(r@)),
        decreases state.entries@.len() - k,
    {
        let e = state.entries[k].clone();
        let mut p: usize = 0;
        while p < r.len() && !r[p].created_at.is_before(&e.created_at)
            invariant
                p <= r@.len(),
                forall|i: int| 0 <= i < p ==> ts_le(e.created_at, #[trigger] r@[i].created_at),
            decreases r@.len() - p,
        {
            p += 1;
        }
        let ghost before = r@;
        r.insert(p, e);
        proof {
            let mb = models(before);
            let ghost ev = state.entries@[k as int]@;
            assert(models(r@) =~= mb.insert(p as int, ev));
            vstd::seq_lib::to_multiset_insert(mb, p as int, ev);
            assert(state.entries@.subrange(0, k + 1) =~= state.entries@.subrange(0, k as int).push(
                state.entries@[k as int],
            ));
            assert(models(state.entries@.subrange(0, k + 1)) =~= models(
                state.entries@.subrange(0, k as int),
            ).push(ev));
            assert forall|i: int, j: int| 0 <= i < j < models(r@).len() implies ts_le(
                #[trigger] models(r@)[j].created_at,
                #[trigger] models(r@)[i].created_at,
            ) by {
                if p < before.len() {
                    assert(ts_lt(before[p as int].created_at, ev.created_at));
                }
                if i < p && j > p {
                    assert(ts_le(mb[j - 1].created_at, mb[i].created_at));
                } else if i == p && j > p {
                    assert(ts_le(mb[j - 1].created_at, mb[p as int].created_at));
                } else if i > p {
                    assert(ts_le(mb[j - 1].created_at, mb[i - 1].created_at));
                }
            }
        }
        k += 1;
    }
    assert(state.entries@.subrange(0, k as int) =~= state.entries@);
    r
}

/// Some entry of `s` carries `id`.
pub open spec fn has_id(s: Seq<EntryModel>, id: u128) -> bool {
    exists|i: int| 0 <= i < s.len() && #[trigger] s[i].id == id
}

/// `i` is the first position of `s` whose entry carries `id`.
pub open spec fn first_with_id(s: Seq<EntryModel>, id: u128, i: int) -> bool {
    &&& 0 <= i < s.len()
    &&& s[i].id == id
    &&& forall|j: int| 0 <= j < i ==> #[trigger] s[j].id != id
}

/// The entry that a create stores: the payload with its identifier assigned
/// (`fresh_id` when the payload's is nil), created at `now`, and active.
pub open spec fn created_model(p: EntryModel, fresh_id: u128, now: Timestamp) -> EntryModel {
    EntryModel {
        id: if p.id == NIL_ID { fresh_id } else { p.id },
        status: active_status(),
        created_at: now,
        ..p
    }
}

/// The entry `e` after an update with payload `p` at time `now`: the
/// editable fields come from `p`, the rest stays, and `updated_at` is `now`.
pub open spec fn merged_model(e: EntryModel, p: EntryModel, now: Timestamp) -> EntryModel {
    EntryModel {
        title: p.title,
        description: p.description,
        tags: p.tags,
        frequency: p.frequency,
        details: p.details,
        event_date: p.event_date,
        updated_at: Some(now),
        ..e
    }
}

/// Keeps the entries that do not carry `id`.
pub open spec fn other_than(id: u128) -> spec_fn(EntryModel) -> bool {
    |e: EntryModel| e.id != id
}

/// The collection with every entry that carries `id` removed.
pub open spec fn without_id(s: Seq<EntryModel>, id: u128) -> Seq<EntryModel> {
    s.filter(other_than(id))
}

/// Stores `payload` as a new entry, taking `fresh_id` as its identifier when
/// the payload's is nil and `now` as its creation time, and returns it.
pub fn create_entry_at(state: &mut AppState, payload: Entry, fresh_id: u128, now: Timestamp) -> (r: Entry)
    ensures
        r@ == created_model(payload@, fresh_id, now),
        models(final(state).entries@) == models(old(state).entries@).push(r@),
        final(state).file_path == old(state).file_path,
{
    let mut entry = payload;
    if entry.id == NIL_ID {
        entry.id = fresh_id;
    }
    entry.created_at = now;
    entry.status = default_status();
    let stored = entry.clone();
    state.entries.push(stored);
    assert(models(state.entries@) =~= models(old(state).entries@).push(entry@));
    entry
}

/// Stores `payload` as a new entry created now. A nil identifier is replaced
/// by a freshly generated one; any other is kept as given.
pub fn create_entry(state: &mut AppState, payload: Entry) -> (r: Entry)
    ensures
        r.id != NIL_ID,
        payload.id != NIL_ID ==> r.id == payload.id,
        r@ == created_model(payload@, r.id, r.created_at),
        models(final(state).entries@) == models(old(state).entries@).push(r@),
        final(state).file_path == old(state).file_path,
{
    let fresh = if payload.id == NIL_ID {
        new_id()
    } else {
        payload.id
    };
    let t = now();
    create_entry_at(state, payload, fresh, t)
}

/// Applies `payload` to the first entry that carries `id`, stamping it as
/// updated at `now`; reports `NotFound`, changing nothing, when none does.
pub fn update_entry_at(state: &mut AppState, id: u128, payload: Entry, now: Timestamp) -> (r: Result<(), StoreError>)
    ensures
        r is Ok <==> has_id(models(old(state).entries@), id),
        r is Ok ==> exists|i: int|
            first_with_id(models(old(state).entries@), id, i)
                && models(final(state).entries@) == models(old(state).entries@).update(
                i,
                merged_model(models(old(state).entries@)[i], payload@, now),
            ),
        r is Err ==> models(final(state).entries@) == models(old(state).entries@),
        final(state).file_path == old(state).file_path,
{
    let mut i: usize = 0;
    while i < state.entries.len() && state.entries[i].id != id
        invariant
            i <= state.entries@.len(),
            forall|j: int| 0 <= j < i ==> #[trigger] state.entries@[j].id != id,
        decreases state.entries@.len() - i,
    {
        i += 1;
    }
    if i == state.entries.len() {
        assert(!has_id(models(state.entries@), id)) by {
            assert forall|j: int| 0 <= j < models(state.entries@).len() implies #[trigger] models(
                state.entries@,
            )[j].id != id by {
                assert(state.entries@[j].id != id);
            }
        }
        return Err(StoreError::NotFound);
    }
    let ghost before = models(state.entries@);
    let current = &state.entries[i];
    let updated = Entry {
        id: current.id,
        template_type: current.template_type.clone(),
        title: payload.title,
        description: payload.description,
        tags: payload.tags,
        frequency: payload.frequency,
        status: current.status.clone(),
        event_date: payload.event_date,
        details: payload.details,
        created_at: current.created_at,
        updated_at: Some(now),
    };
    state.entries.set(i, updated);
    proof {
        assert(first_with_id(before, id, i as int)) by {
            assert forall|j: int| 0 <= j < i implies #[trigger] before[j].id != id by {
                assert(old(state).entries@[j].id != id);
            }
        }
        assert(models(state.entries@) =~= before.update(
            i as int,
            merged_model(before[i as int], payload@, now),
        ));
    }
    Ok(())
}

/// Applies `payload` to the first entry that carries `id`, stamping it as
/// updated now; reports `NotFound`, changing nothing, when none does.
pub fn update_entry(state: &mut AppState, id: u128, payload: Entry) -> (r: Result<(), StoreError>)
    ensures
        r is Ok <==> has_id(models(old(state).entries@), id),
        r is Ok ==> exists|i: int, t: Timestamp|
            first_with_id(models(old(state).entries@), id, i)
                && models(final(state).entries@) == models(old(state).entries@).update(
                i,
                merged_model(models(old(state).entries@)[i], payload@, t),
            ),
        r is Err ==> models(final(state).entries@) == models(old(state).entries@),
        final(state).file_path == old(state).file_path,
{
    let t = now();
    update_entry_at(state, id, payload, t)
}

/// Removes every entry that carries `id`. An unknown `id` leaves the
/// collection as it was.
pub fn delete_entry(state: &mut AppState, id: u128)
    ensures
        models(final(state).entries@) == without_id(models(old(state).entries@), id),
        final(state).file_path == old(state).file_path,
{
    let mut kept: Vec<Entry> = Vec::new();
    let mut k: usize = 0;
    while k < state.entries.len()
        invariant
            k <= state.entries@.len(),
            models(kept@) == without_id(models(state.entries@.subrange(0, k as int)), id),
        decreases state.entries@.len() - k,
    {
        let ghost ms = models(state.entries@.subrange(0, k as int));
        let ghost ev = state.entries@[k as int]@;
        proof {
            assert(models(state.entries@.subrange(0, k + 1)) =~= ms.push(ev));
            ms.lemma_filter_push(ev, other_than(id));
        }
        if state.entries[k].id != id {
            let e = state.entries[k].clone();
            kept.push(e);
            assert(models(kept@) =~= without_id(ms, id).push(ev));
        }
        k += 1;
    }
    assert(state.entries@.subrange(0, k as int) =~= state.entries@);
    state.entries = kept;
}

} // verus!
