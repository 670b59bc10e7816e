//! The guarantees the store and handlers give across calls, each stated and
//! proved over the map view that the handlers' contracts use.

use vstd::prelude::*;

use crate::store::{completed_count, lemma_completed_count_le_len, lemma_map_of_len, TaskStore};
use crate::task::{apply_update, TaskUpdateView, TaskView};

verus! {

/// Law: a record just inserted under its own identifier — as the create
/// endpoint inserts it — is live afterwards, and a lookup by that
/// identifier returns it unchanged: same title, description, completion
/// flag and timestamps.
pub proof fn law_create_then_get(m: Map<Seq<char>, TaskView>, t: TaskView)
    ensures
        m.insert(t.id, t).contains_key(t.id),
        m.insert(t.id, t)[t.id] == t,
{
}

/// Law: an update changes only the fields present in the request. Absent
/// fields keep their values, the identifier and creation time never
/// change, and `updated_at` becomes the clock reading of the update.
pub proof fn law_update_partial_fields(t: TaskView, up: TaskUpdateView, now: int)
    ensures
        up.title is None ==> apply_update(t, up, now).title == t.title,
        up.description is None ==> apply_update(t, up, now).description == t.description,
        up.completed is None ==> apply_update(t, up, now).completed == t.completed,
        apply_update(t, up, now).id == t.id,
        apply_update(t, up, now).created_at == t.created_at,
        apply_update(t, up, now).updated_at == now,
{
}

/// Law: when the clock has not moved backwards since the record was last
/// stamped, an update leaves `updated_at` at least as large as before.
pub proof fn law_update_refreshes_timestamp(t: TaskView, up: TaskUpdateView, now: int)
    requires
        now >= t.updated_at,
    ensures
        apply_update(t, up, now).updated_at >= t.updated_at,
{
}

/// Law: once a record is removed — as the delete endpoint removes it — no
/// record is live under its identifier, so a subsequent get, update or
/// delete on that identifier reports not-found.
pub proof fn law_delete_then_not_found(m: Map<Seq<char>, TaskView>, id: Seq<char>)
    ensures
        !m.remove(id).contains_key(id),
{
}

/// Law: the total that the list and metrics endpoints report is the number
/// of live records, and at least the number of completed ones; with
/// pending their difference, total equals completed plus pending.
pub proof fn law_totals_agree(store: TaskStore)
    requires
        store.wf(),
    ensures
        store@.len() == store.views().len(),
        completed_count(store.views()) <= store@.len(),
{
    lemma_map_of_len(store.views());
    lemma_completed_count_le_len(store.views());
}

/// Law: two creations under distinct identifiers are independent — after
/// both inserts, each identifier is live and yields its own record.
pub proof fn law_distinct_creates_independent(
    m: Map<Seq<char>, TaskView>,
    t1: TaskView,
    t2: TaskView,
)
    requires
        t1.id != t2.id,
    ensures
        m.insert(t1.id, t1).insert(t2.id, t2).contains_key(t1.id),
        m.insert(t1.id, t1).insert(t2.id, t2).contains_key(t2.id),
        m.insert(t1.id, t1).insert(t2.id, t2)[t1.id] == t1,
        m.insert(t1.id, t1).insert(t2.id, t2)[t2.id] == t2,
{
}

} // verus!
