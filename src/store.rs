use crate::snapshot::{Snapshot, SnapshotView};
use std::sync::Arc;
use vstd::prelude::*;

verus! {

/// Relies on `Arc::clone`: a second handle to the same allocation, so the
/// value behind it is the same.
#[verifier::external_body]
fn share(s: &Arc<Snapshot>) -> (r: Arc<Snapshot>)
    ensures
        r == *s,
{
    Arc::clone(s)
}

/// The cell that holds the current snapshot. Records and timestamp sit in one
/// value, so a replacement installs both at once and a read hands out both
/// from the same generation. A reader gets a shared handle and reads it
/// without holding the cell; a replacement hands back the handle it displaced.
///
/// The store also keeps, as ghost state, the snapshot it started with and
/// the replacements made on it, and always holds what the last of them
/// installed.
pub struct SnapshotStore {
    current: Arc<Snapshot>,
    init: Ghost<SnapshotView>,
    calls: Ghost<Seq<StoreCall>>,
}

impl View for SnapshotStore {
    type V = SnapshotView;

    closed spec fn view(&self) -> SnapshotView {
        self.current@
    }
}

impl SnapshotStore {
    #[verifier::type_invariant]
    spec fn holds_last_install(&self) -> bool {
        self.current@ == content_before(self.init@, self.calls@, self.calls@.len() as int)
    }

    /// The snapshot the store started with.
    pub closed spec fn initial(&self) -> SnapshotView {
        self.init@
    }

    /// The replacements made on the store, in order.
    pub closed spec fn calls(&self) -> Seq<StoreCall> {
        self.calls@
    }

    /// A store that holds `initial`.
    pub fn new(initial: Snapshot) -> (s: SnapshotStore)
        ensures
            s@ == initial@,
            s.initial() == initial@,
            s.calls() == Seq::<StoreCall>::empty(),
    {
        let ghost init = initial@;
        SnapshotStore { current: Arc::new(initial), init: Ghost(init), calls: Ghost(Seq::empty()) }
    }

    /// A handle to the snapshot that the store holds now: the one that the
    /// last replacement installed, or the initial one.
    pub fn read(&self) -> (r: Arc<Snapshot>)
        ensures
            r@ == self@,
            r@ == content_before(self.initial(), self.calls(), self.calls().len() as int),
    {
        proof {
            use_type_invariant(self);
        }
        share(&self.current)
    }

    /// Installs `next` in place of the current snapshot, records and timestamp
    /// together, and returns the snapshot it displaced.
    pub fn replace(&mut self, next: Snapshot) -> (prev: Arc<Snapshot>)
        ensures
            final(self)@ == next@,
            prev@ == old(self)@,
            final(self).initial() == old(self).initial(),
            final(self).calls() == old(self).calls().push(StoreCall::Replace { next: next@ }),
    {
        proof {
            use_type_invariant(&*self);
        }
        let prev = share(&self.current);
        let ghost init = self.init@;
        let ghost calls = self.calls@.push(StoreCall::Replace { next: next@ });
        *self = SnapshotStore { current: Arc::new(next), init: Ghost(init), calls: Ghost(calls) };
        prev
    }
}

/// One call on a store, in the order the calls took effect: a replacement
/// with the snapshot it installed, or a read with the snapshot it returned.
pub ghost enum StoreCall {
    Replace { next: SnapshotView },
    Read { seen: SnapshotView },
}

/// What a store that started with `init` holds just before call `i` of `h`:
/// what the last replacement before it installed, or `init` if there was none.
pub open spec fn content_before(init: SnapshotView, h: Seq<StoreCall>, i: int) -> SnapshotView
    decreases i,
{
    if i <= 0 {
        init
    } else {
        match h[i - 1] {
            StoreCall::Replace { next } => next,
            StoreCall::Read { .. } => content_before(init, h, i - 1),
        }
    }
}

/// `h` is a sequence of calls on a store that started with `init`, in the
/// order they took effect: each read returns what the store held at that
/// point. The contracts of `replace` (which appends to `calls()`) and `read`
/// (which returns `content_before` at the end of `calls()`) make every such
/// sequence one.
pub open spec fn is_store_history(init: SnapshotView, h: Seq<StoreCall>) -> bool {
    forall|i: int|
        0 <= i < h.len() && (#[trigger] h[i]) is Read ==> h[i]->seen == content_before(init, h, i)
}

proof fn lemma_content_was_installed(init: SnapshotView, h: Seq<StoreCall>, i: int)
    requires
        0 <= i <= h.len(),
    ensures
        content_before(init, h, i) == init || exists|j: int|
            0 <= j < i && #[trigger] h[j] == (StoreCall::Replace { next: content_before(init, h, i) }),
    decreases i,
{
    if i > 0 {
        match h[i - 1] {
            StoreCall::Replace { next } => {},
            StoreCall::Read { .. } => {
                lemma_content_was_installed(init, h, i - 1);
            },
        }
    }
}

/// Snapshot atomicity: whatever order reads and replacements take effect in,
/// every read returns, records and timestamp alike, the one snapshot that a
/// single replacement installed (or the initial one), never parts of two.
pub proof fn lemma_reads_see_one_install(init: SnapshotView, h: Seq<StoreCall>, i: int)
    requires
        is_store_history(init, h),
        0 <= i < h.len(),
        h[i] is Read,
    ensures
        h[i]->seen == init || exists|j: int|
            0 <= j < i && #[trigger] h[j] == (StoreCall::Replace { next: h[i]->seen }),
{
    lemma_content_was_installed(init, h, i);
}

proof fn lemma_content_after_install(init: SnapshotView, h: Seq<StoreCall>, j: int, k: int)
    requires
        0 <= j < k <= h.len(),
        h[j] is Replace,
    ensures
        content_before(init, h, k) == h[j]->next || exists|l: int|
            j < l < k && #[trigger] h[l] == (StoreCall::Replace {
                next: content_before(init, h, k),
            }),
    decreases k,
{
    if k - 1 > j {
        match h[k - 1] {
            StoreCall::Replace { next } => {},
            StoreCall::Read { .. } => {
                lemma_content_after_install(init, h, j, k - 1);
            },
        }
    }
}

/// Monotonic freshness: once a replacement has installed a snapshot different
/// from an earlier one, no later read returns the earlier one, unless a later
/// replacement installs it again.
pub proof fn lemma_no_read_of_superseded(
    init: SnapshotView,
    h: Seq<StoreCall>,
    i: int,
    j: int,
    k: int,
)
    requires
        is_store_history(init, h),
        0 <= i < j < k < h.len(),
        h[i] is Replace,
        h[j] is Replace,
        h[j]->next != h[i]->next,
        h[k] is Read,
        forall|l: int| j < l < k && (#[trigger] h[l]) is Replace ==> h[l]->next != h[i]->next,
    ensures
        h[k]->seen != h[i]->next,
{
    lemma_content_after_install(init, h, j, k);
}

} // verus!
