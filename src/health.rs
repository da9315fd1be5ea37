use crate::snapshot::SnapshotView;
use crate::store::{content_before, is_store_history, SnapshotStore, StoreCall};
use vstd::prelude::*;

verus! {

/// The answer to a liveness probe.
pub struct HealthReport {
    pub status: String,
    pub updated_at: String,
}

/// Reports the service as up, with the timestamp of the snapshot the store
/// holds now.
pub fn health(store: &SnapshotStore) -> (r: HealthReport)
    ensures
        r.status@ == "ok"@,
        r.updated_at@ == store@.updated_at,
{
    let current = store.read();
    HealthReport { status: String::from_str("ok"), updated_at: current.updated_at().clone() }
}

proof fn lemma_content_is_last_install(init: SnapshotView, h: Seq<StoreCall>, j: int, k: int)
    requires
        0 <= j < k <= h.len(),
        h[j] is Replace,
        forall|l: int| j < l < k ==> (#[trigger] h[l]) is Read,
    ensures
        content_before(init, h, k) == h[j]->next,
    decreases k,
{
    if k - 1 > j {
        lemma_content_is_last_install(init, h, j, k - 1);
    }
}

proof fn lemma_content_is_initial(init: SnapshotView, h: Seq<StoreCall>, k: int)
    requires
        0 <= k <= h.len(),
        forall|l: int| 0 <= l < k ==> (#[trigger] h[l]) is Read,
    ensures
        content_before(init, h, k) == init,
    decreases k,
{
    if k > 0 {
        lemma_content_is_initial(init, h, k - 1);
    }
}

/// Health reflects the store: a read made at any point of a store's history
/// (which is what `health` reports from) carries the timestamp of the snapshot
/// most recently installed before it, or of the initial one if none was.
pub proof fn lemma_health_reflects_store(init: SnapshotView, h: Seq<StoreCall>, k: int)
    requires
        is_store_history(init, h),
        0 <= k < h.len(),
        h[k] is Read,
    ensures
        forall|j: int|
            0 <= j < k && (#[trigger] h[j]) is Replace && (forall|l: int|
                j < l < k ==> (#[trigger] h[l]) is Read) ==> h[k]->seen.updated_at
                == h[j]->next.updated_at,
        (forall|l: int| 0 <= l < k ==> (#[trigger] h[l]) is Read) ==> h[k]->seen.updated_at
            == init.updated_at,
{
    assert forall|j: int|
        0 <= j < k && (#[trigger] h[j]) is Replace && (forall|l: int|
            j < l < k ==> (#[trigger] h[l]) is Read) implies h[k]->seen.updated_at
        == h[j]->next.updated_at by {
        lemma_content_is_last_install(init, h, j, k);
    }
    if forall|l: int| 0 <= l < k ==> (#[trigger] h[l]) is Read {
        lemma_content_is_initial(init, h, k);
    }
}

} // verus!
