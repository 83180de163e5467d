//! The laws of the orchestrator, stated over its mathematical model and
//! proved once and for all: which definitions a batch targets, that a batch
//! processes them strictly in order, that a failure halts it, that a drained
//! batch clears its in-flight marker, and that the single-item path matches
//! the first step of a batch.

use vstd::prelude::*;

use crate::model::Definition;
use crate::model::InventoryItem;
use crate::orchestrator::OrchState;
use crate::orchestrator::eligible_definitions;
use crate::orchestrator::eligible_for_mounting;
use crate::orchestrator::eligible_for_unmounting;
use crate::orchestrator::mount_batch_started;
use crate::orchestrator::mount_halted;
use crate::orchestrator::mount_success_state;
use crate::orchestrator::mount_success_target;
use crate::orchestrator::single_mount_started;
use crate::orchestrator::single_unmount_started;
use crate::orchestrator::unmount_batch_started;
use crate::orchestrator::unmount_halted;
use crate::orchestrator::unmount_success_state;
use crate::orchestrator::unmount_success_target;
use crate::search::contains_text;
use crate::search::matching_entries;

verus! {

/// The definitions of `inv` whose mounted state equals `want_mounted` and
/// whose identifier contains `search_text`, in their inventory order.
pub open spec fn eligible_and_matching(
    inv: Seq<InventoryItem>,
    search_text: Seq<char>,
    want_mounted: bool,
) -> Seq<Definition>
    decreases inv.len(),
{
    if inv.len() == 0 {
        Seq::empty()
    } else {
        let rest = eligible_and_matching(inv.drop_first(), search_text, want_mounted);
        if inv.first().mounted == want_mounted && contains_text(
            inv.first().definition.id@,
            search_text,
        ) {
            seq![inv.first().definition] + rest
        } else {
            rest
        }
    }
}

/// Eligibility filter: over a search-filtered inventory, a batch targets
/// exactly the definitions whose mounted state makes them eligible ("mount
/// all": not mounted; "unmount all": mounted) and whose identifier matches
/// the active search — in inventory order.
pub proof fn lemma_batch_eligibility(
    inv: Seq<InventoryItem>,
    search_text: Seq<char>,
    want_mounted: bool,
)
    ensures
        eligible_definitions(matching_entries(inv, search_text), want_mounted)
            == eligible_and_matching(inv, search_text, want_mounted),
    decreases inv.len(),
{
    if inv.len() == 0 {
        assert(matching_entries(inv, search_text) =~= Seq::<InventoryItem>::empty());
    } else {
        lemma_batch_eligibility(inv.drop_first(), search_text, want_mounted);
        let m = matching_entries(inv.drop_first(), search_text);
        if contains_text(inv.first().definition.id@, search_text) {
            assert((seq![inv.first()] + m).drop_first() =~= m);
            assert((seq![inv.first()] + m).first() == inv.first());
        }
    }
}

/// Empty-eligible no-op, tied to the control bar: a batch finds no eligible
/// definition exactly when every inventory entry already has the wanted
/// mounted state — the same condition under which the corresponding
/// control-bar button is disabled.
pub proof fn lemma_no_eligible_iff_all_settled(inv: Seq<InventoryItem>, want_mounted: bool)
    ensures
        eligible_definitions(inv, want_mounted).len() == 0 <==> (forall|i: int|
            0 <= i < inv.len() ==> inv[i].mounted != want_mounted),
    decreases inv.len(),
{
    if inv.len() > 0 {
        lemma_no_eligible_iff_all_settled(inv.drop_first(), want_mounted);
        let rest = inv.drop_first();
        if eligible_definitions(inv, want_mounted).len() == 0 {
            assert(inv.first().mounted != want_mounted);
            assert forall|i: int| 0 <= i < inv.len() implies inv[i].mounted != want_mounted by {
                if i > 0 {
                    assert(rest[i - 1] == inv[i]);
                }
            }
        }
        if forall|i: int| 0 <= i < inv.len() ==> inv[i].mounted != want_mounted {
            assert(inv[0].mounted != want_mounted);
            assert forall|i: int| 0 <= i < rest.len() implies rest[i].mounted != want_mounted by {
                assert(rest[i] == inv[i + 1]);
            }
            assert(eligible_definitions(rest, want_mounted).len() == 0);
        }
    }
}

/// The state after `k` further successful completions within a mount batch.
pub open spec fn after_mount_successes(s: OrchState, k: nat) -> OrchState
    decreases k,
{
    if k == 0 {
        s
    } else {
        mount_success_state(after_mount_successes(s, (k - 1) as nat))
    }
}

/// The state after `k` further successful completions within an unmount
/// batch.
pub open spec fn after_unmount_successes(s: OrchState, k: nat) -> OrchState
    decreases k,
{
    if k == 0 {
        s
    } else {
        unmount_success_state(after_unmount_successes(s, (k - 1) as nat))
    }
}

/// Sequential order preservation and clean drain for a mount batch over the
/// eligible definitions `e` of `inv`: right after the batch starts, `e[0]`
/// is in flight; after `k` further successes, `e[k]` is in flight and the
/// queue holds exactly `e` from position `k + 1` on; each success hands out
/// the next definition in order (`e[k + 1]` after the `k`-th), never
/// reordered; after the last success the in-flight marker is cleared, the
/// queue is empty and nothing further is handed out. The unmounting side is
/// never touched.
pub proof fn lemma_mount_batch_order(s: OrchState, inv: Seq<InventoryItem>, k: int)
    requires
        0 <= k < eligible_for_mounting(inv).len(),
    ensures
        ({
            let e = eligible_for_mounting(inv);
            let sk = after_mount_successes(mount_batch_started(s, inv), k as nat);
            &&& sk.mounting_in_progress == Option::Some(e[k].id@)
            &&& sk.mounting_queue == e.skip(k + 1)
            &&& sk.unmounting_in_progress == s.unmounting_in_progress
            &&& sk.unmounting_queue == s.unmounting_queue
            &&& k < e.len() - 1 ==> mount_success_target(sk) == Option::Some(e[k + 1])
            &&& k == e.len() - 1 ==> mount_success_target(sk) == Option::<Definition>::None
                && mount_success_state(sk).mounting_in_progress == Option::<Seq<char>>::None
                && mount_success_state(sk).mounting_queue.len() == 0
        }),
    decreases k,
{
    let e = eligible_for_mounting(inv);
    if k == 0 {
        let s0 = mount_batch_started(s, inv);
        assert(s0.mounting_queue == e.skip(1));
        if k < e.len() - 1 {
            assert(e.skip(1)[0] == e[1]);
        }
    } else {
        lemma_mount_batch_order(s, inv, k - 1);
        let prev = after_mount_successes(mount_batch_started(s, inv), (k - 1) as nat);
        assert(prev.mounting_queue == e.skip(k));
        assert(e.skip(k).len() == e.len() - k);
        assert(e.skip(k)[0] == e[k]);
        assert(e.skip(k).skip(1) =~= e.skip(k + 1));
        if k < e.len() - 1 {
            assert(e.skip(k + 1)[0] == e[k + 1]);
        }
    }
}

/// Sequential order preservation and clean drain for an unmount batch,
/// symmetric to the mount side; the mounting side is never touched.
pub proof fn lemma_unmount_batch_order(s: OrchState, inv: Seq<InventoryItem>, k: int)
    requires
        0 <= k < eligible_for_unmounting(inv).len(),
    ensures
        ({
            let e = eligible_for_unmounting(inv);
            let sk = after_unmount_successes(unmount_batch_started(s, inv), k as nat);
            &&& sk.unmounting_in_progress == Option::Some(e[k].id@)
            &&& sk.unmounting_queue == e.skip(k + 1)
            &&& sk.mounting_in_progress == s.mounting_in_progress
            &&& sk.mounting_queue == s.mounting_queue
            &&& k < e.len() - 1 ==> unmount_success_target(sk) == Option::Some(e[k + 1])
            &&& k == e.len() - 1 ==> unmount_success_target(sk) == Option::<Definition>::None
                && unmount_success_state(sk).unmounting_in_progress == Option::<Seq<char>>::None
                && unmount_success_state(sk).unmounting_queue.len() == 0
        }),
    decreases k,
{
    let e = eligible_for_unmounting(inv);
    if k == 0 {
        let s0 = unmount_batch_started(s, inv);
        assert(s0.unmounting_queue == e.skip(1));
        if k < e.len() - 1 {
            assert(e.skip(1)[0] == e[1]);
        }
    } else {
        lemma_unmount_batch_order(s, inv, k - 1);
        let prev = after_unmount_successes(unmount_batch_started(s, inv), (k - 1) as nat);
        assert(prev.unmounting_queue == e.skip(k));
        assert(e.skip(k).len() == e.len() - k);
        assert(e.skip(k)[0] == e[k]);
        assert(e.skip(k).skip(1) =~= e.skip(k + 1));
        if k < e.len() - 1 {
            assert(e.skip(k + 1)[0] == e[k + 1]);
        }
    }
}

/// Halt on failure: when, after `k` successes in a mount batch, the next
/// completion reports an error, the in-flight marker clears, the remaining
/// queue (`e` from position `k + 1` on) is left as it is, and no further
/// mount is handed out — the later eligible definitions are never mounted by
/// this batch.
pub proof fn lemma_mount_halt_on_failure(s: OrchState, inv: Seq<InventoryItem>, k: int)
    requires
        0 <= k < eligible_for_mounting(inv).len(),
    ensures
        ({
            let e = eligible_for_mounting(inv);
            let halted = mount_halted(after_mount_successes(mount_batch_started(s, inv), k as nat));
            &&& halted.mounting_in_progress == Option::<Seq<char>>::None
            &&& halted.mounting_queue == e.skip(k + 1)
            &&& halted.unmounting_in_progress == s.unmounting_in_progress
            &&& halted.unmounting_queue == s.unmounting_queue
        }),
{
    lemma_mount_batch_order(s, inv, k);
}

/// Halt on failure for an unmount batch, symmetric to the mount side.
pub proof fn lemma_unmount_halt_on_failure(s: OrchState, inv: Seq<InventoryItem>, k: int)
    requires
        0 <= k < eligible_for_unmounting(inv).len(),
    ensures
        ({
            let e = eligible_for_unmounting(inv);
            let halted = unmount_halted(
                after_unmount_successes(unmount_batch_started(s, inv), k as nat),
            );
            &&& halted.unmounting_in_progress == Option::<Seq<char>>::None
            &&& halted.unmounting_queue == e.skip(k + 1)
            &&& halted.mounting_in_progress == s.mounting_in_progress
            &&& halted.mounting_queue == s.mounting_queue
        }),
{
    lemma_unmount_batch_order(s, inv, k);
}

/// Single-item path: issuing a mount of one definition touches neither
/// queue (in particular not the unmounting side), and, outside of any batch
/// (the mounting queue empty), leaves the orchestrator in exactly the state
/// a "mount all" batch over that one definition would: same in-flight
/// marker, same (empty) queue, same first target.
pub proof fn lemma_single_mount_matches_batch(s: OrchState, d: Definition)
    ensures
        single_mount_started(s, d).mounting_queue == s.mounting_queue,
        single_mount_started(s, d).unmounting_in_progress == s.unmounting_in_progress,
        single_mount_started(s, d).unmounting_queue == s.unmounting_queue,
        eligible_for_mounting(seq![(InventoryItem { definition: d, mounted: false })]) == seq![d],
        s.mounting_queue.len() == 0 ==> single_mount_started(s, d) == mount_batch_started(
            s,
            seq![(InventoryItem { definition: d, mounted: false })],
        ),
{
    let item = InventoryItem { definition: d, mounted: false };
    let inv = seq![item];
    assert(inv.drop_first() =~= Seq::<InventoryItem>::empty());
    assert(eligible_definitions(inv.drop_first(), false) =~= Seq::<Definition>::empty());
    assert(eligible_for_mounting(inv) =~= seq![d]);
    if s.mounting_queue.len() == 0 {
        assert(eligible_for_mounting(inv).skip(1) =~= Seq::<Definition>::empty());
        assert(single_mount_started(s, d) =~= mount_batch_started(s, inv));
    }
}

/// Single-item path for an unmount, symmetric to the mount side.
pub proof fn lemma_single_unmount_matches_batch(s: OrchState, d: Definition)
    ensures
        single_unmount_started(s, d).unmounting_queue == s.unmounting_queue,
        single_unmount_started(s, d).mounting_in_progress == s.mounting_in_progress,
        single_unmount_started(s, d).mounting_queue == s.mounting_queue,
        eligible_for_unmounting(seq![(InventoryItem { definition: d, mounted: true })]) == seq![d],
        s.unmounting_queue.len() == 0 ==> single_unmount_started(s, d) == unmount_batch_started(
            s,
            seq![(InventoryItem { definition: d, mounted: true })],
        ),
{
    let item = InventoryItem { definition: d, mounted: true };
    let inv = seq![item];
    assert(inv.drop_first() =~= Seq::<InventoryItem>::empty());
    assert(eligible_definitions(inv.drop_first(), true) =~= Seq::<Definition>::empty());
    assert(eligible_for_unmounting(inv) =~= seq![d]);
    if s.unmounting_queue.len() == 0 {
        assert(eligible_for_unmounting(inv).skip(1) =~= Seq::<Definition>::empty());
        assert(single_unmount_started(s, d) =~= unmount_batch_started(s, inv));
    }
}

} // verus!
