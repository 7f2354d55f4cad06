use vstd::prelude::*;
use crate::model::{Entry, EntryModel, Timestamp, NIL_ID, models, ts_le};
use crate::handlers::{
    created_model, has_id, loaded_entries, merged_model, opt_models, other_than, without_id,
};

verus! {

/// One create request: the payload, the identifier generated for it, and the
/// time of the call.
pub type CreateCall = (EntryModel, u128, Timestamp);

/// The identifier a create call gives its entry.
pub open spec fn assigned_id(c: CreateCall) -> u128 {
    if c.0.id == NIL_ID {
        c.1
    } else {
        c.0.id
    }
}

/// The collection after the create calls `calls`, in order, on `s`.
pub open spec fn apply_creates(s: Seq<EntryModel>, calls: Seq<CreateCall>) -> Seq<EntryModel>
    decreases calls.len(),
{
    if calls.len() == 0 {
        s
    } else {
        let c = calls.last();
        apply_creates(s, calls.drop_last()).push(created_model(c.0, c.1, c.2))
    }
}

/// Creates on an empty store leave one entry per create, in order, each with
/// a non-nil identifier; when the identifiers the calls assign are distinct,
/// so are those of the entries.
pub proof fn creates_fill_store(calls: Seq<CreateCall>)
    requires
        forall|k: int| 0 <= k < calls.len() ==> (#[trigger] calls[k]).1 != NIL_ID,
    ensures
        apply_creates(Seq::empty(), calls).len() == calls.len(),
        forall|i: int|
            0 <= i < calls.len() ==> {
                let e = #[trigger] apply_creates(Seq::empty(), calls)[i];
                e == created_model(calls[i].0, calls[i].1, calls[i].2) && e.id == assigned_id(
                    calls[i],
                ) && e.id != NIL_ID
            },
        (forall|i: int, j: int|
            0 <= i < j < calls.len() ==> assigned_id(#[trigger] calls[i]) != assigned_id(
                #[trigger] calls[j],
            )) ==> forall|i: int, j: int|
            0 <= i < j < calls.len() ==> (#[trigger] apply_creates(Seq::empty(), calls)[i]).id
                != (#[trigger] apply_creates(Seq::empty(), calls)[j]).id,
    decreases calls.len(),
{
    if calls.len() > 0 {
        let prefix = calls.drop_last();
        assert forall|k: int| 0 <= k < prefix.len() implies (#[trigger] prefix[k]).1 != NIL_ID by {
            assert(prefix[k] == calls[k]);
        }
        creates_fill_store(prefix);
        let r = apply_creates(Seq::empty(), calls);
        assert forall|i: int| 0 <= i < prefix.len() implies r[i] == apply_creates(
            Seq::empty(),
            prefix,
        )[i] && calls[i] == #[trigger] prefix[i] by {}
    }
}

/// An update changes exactly the title, description, tags, frequency,
/// details and event date, keeps the identifier, template type, status and
/// creation time, and stamps the entry as updated at the time of the call,
/// which is no earlier than any previous update when the clock has not gone
/// back.
pub proof fn update_changes_only_editable(e: EntryModel, p: EntryModel, now: Timestamp)
    requires
        e.updated_at is Some ==> ts_le(e.updated_at->0, now),
    ensures
        ({
            let m = merged_model(e, p, now);
            &&& m.title == p.title
            &&& m.description == p.description
            &&& m.tags == p.tags
            &&& m.frequency == p.frequency
            &&& m.details == p.details
            &&& m.event_date == p.event_date
            &&& m.id == e.id
            &&& m.template_type == e.template_type
            &&& m.status == e.status
            &&& m.created_at == e.created_at
            &&& m.updated_at == Some(now)
            &&& e.updated_at is Some ==> ts_le(e.updated_at->0, m.updated_at->0)
        }),
{
}

/// Deleting an identifier that no entry carries leaves the collection as it
/// was.
pub proof fn delete_unknown_is_noop(s: Seq<EntryModel>, id: u128)
    requires
        !has_id(s, id),
    ensures
        without_id(s, id) == s,
    decreases s.len(),
{
    if s.len() > 0 {
        let init = s.drop_last();
        assert(!has_id(init, id)) by {
            if has_id(init, id) {
                let i = choose|i: int| 0 <= i < init.len() && #[trigger] init[i].id == id;
                assert(s[i].id == id);
            }
        }
        delete_unknown_is_noop(init, id);
        assert(s.last().id != id);
        assert(init.push(s.last()) =~= s);
        init.lemma_filter_push(s.last(), other_than(id));
    }
}

/// A store built from the snapshot that `save` handed out holds the same
/// entries, with the same field values and in the same order, as the store
/// that was saved.
pub proof fn reload_after_save(current: Vec<Entry>, snapshot: Vec<Entry>)
    requires
        models(snapshot@) == models(current@),
    ensures
        loaded_entries(opt_models(Some(snapshot))) == models(current@),
{
}

} // verus!
