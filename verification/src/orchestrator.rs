//! The batch mount/unmount orchestrator: a user-requested "mount all" or
//! "unmount all" runs as a strictly sequential chain of single-item
//! operations, one in flight at a time, advancing on success and halting
//! with an alert on the first failure.
//!
//! The host drives the loop: it hands each returned `Action` to the mount
//! manager (or the dialog presenter) and reports each completion back
//! through `mount_result` / `unmount_result`.

use vstd::prelude::*;
use vstd::string::StringExecFns;

use crate::alerts::AlertRequest;
use crate::alerts::is_mount_failure_alert;
use crate::alerts::is_unmount_failure_alert;
use crate::alerts::mount_failure_alert;
use crate::alerts::unmount_failure_alert;
use crate::model::Definition;
use crate::model::InventoryItem;
use crate::text::opt_text;

verus! {

/// The definitions of `inv` whose mounted state equals `want_mounted`, in
/// their inventory order.
pub open spec fn eligible_definitions(inv: Seq<InventoryItem>, want_mounted: bool) -> Seq<
    Definition,
>
    decreases inv.len(),
{
    if inv.len() == 0 {
        Seq::empty()
    } else {
        let rest = eligible_definitions(inv.drop_first(), want_mounted);
        if inv.first().mounted == want_mounted {
            seq![inv.first().definition] + rest
        } else {
            rest
        }
    }
}

/// The definitions a "mount all" over `inv` targets: exactly those not
/// currently mounted.
pub open spec fn eligible_for_mounting(inv: Seq<InventoryItem>) -> Seq<Definition> {
    eligible_definitions(inv, false)
}

/// The definitions an "unmount all" over `inv` targets: exactly those
/// currently mounted.
pub open spec fn eligible_for_unmounting(inv: Seq<InventoryItem>) -> Seq<Definition> {
    eligible_definitions(inv, true)
}

/// The orchestrator state, mathematically: the identifier in flight and the
/// queued definitions, per operation kind.
#[verifier::ext_equal]
pub struct OrchState {
    pub mounting_in_progress: Option<Seq<char>>,
    pub mounting_queue: Seq<Definition>,
    pub unmounting_in_progress: Option<Seq<char>>,
    pub unmounting_queue: Seq<Definition>,
}

/// The state the orchestrator is created in: nothing in flight, both queues
/// empty.
pub open spec fn idle_state() -> OrchState {
    OrchState {
        mounting_in_progress: Option::None,
        mounting_queue: Seq::empty(),
        unmounting_in_progress: Option::None,
        unmounting_queue: Seq::empty(),
    }
}

/// The state after a "mount all" batch starts over inventory `inv` (only
/// meaningful where at least one definition is eligible): the first eligible
/// definition goes in flight and the rest replace the mounting queue.
pub open spec fn mount_batch_started(s: OrchState, inv: Seq<InventoryItem>) -> OrchState {
    let e = eligible_for_mounting(inv);
    OrchState {
        mounting_in_progress: Option::Some(e[0].id@),
        mounting_queue: e.skip(1),
        ..s
    }
}

/// The state after an "unmount all" batch starts over inventory `inv`.
pub open spec fn unmount_batch_started(s: OrchState, inv: Seq<InventoryItem>) -> OrchState {
    let e = eligible_for_unmounting(inv);
    OrchState {
        unmounting_in_progress: Option::Some(e[0].id@),
        unmounting_queue: e.skip(1),
        ..s
    }
}

/// The state after a single-item mount of `d` is issued: only the in-flight
/// marker changes.
pub open spec fn single_mount_started(s: OrchState, d: Definition) -> OrchState {
    OrchState { mounting_in_progress: Option::Some(d.id@), ..s }
}

/// The state after a single-item unmount of `d` is issued.
pub open spec fn single_unmount_started(s: OrchState, d: Definition) -> OrchState {
    OrchState { unmounting_in_progress: Option::Some(d.id@), ..s }
}

/// The state after a mount completes successfully: the in-flight marker
/// clears, and the head of the queue (if any) goes in flight in its place.
pub open spec fn mount_success_state(s: OrchState) -> OrchState {
    if s.mounting_queue.len() == 0 {
        OrchState { mounting_in_progress: Option::None, ..s }
    } else {
        OrchState {
            mounting_in_progress: Option::Some(s.mounting_queue[0].id@),
            mounting_queue: s.mounting_queue.skip(1),
            ..s
        }
    }
}

/// The definition a successful mount hands to the manager next: the head of
/// the queue, or nothing when the batch is drained.
pub open spec fn mount_success_target(s: OrchState) -> Option<Definition> {
    if s.mounting_queue.len() == 0 {
        Option::None
    } else {
        Option::Some(s.mounting_queue[0])
    }
}

/// The state after an unmount completes successfully.
pub open spec fn unmount_success_state(s: OrchState) -> OrchState {
    if s.unmounting_queue.len() == 0 {
        OrchState { unmounting_in_progress: Option::None, ..s }
    } else {
        OrchState {
            unmounting_in_progress: Option::Some(s.unmounting_queue[0].id@),
            unmounting_queue: s.unmounting_queue.skip(1),
            ..s
        }
    }
}

/// The definition a successful unmount hands to the manager next.
pub open spec fn unmount_success_target(s: OrchState) -> Option<Definition> {
    if s.unmounting_queue.len() == 0 {
        Option::None
    } else {
        Option::Some(s.unmounting_queue[0])
    }
}

/// The state after a mount fails: the in-flight marker clears; the queue is
/// left as it is (the batch is abandoned, not resumed).
pub open spec fn mount_halted(s: OrchState) -> OrchState {
    OrchState { mounting_in_progress: Option::None, ..s }
}

/// The state after an unmount fails.
pub open spec fn unmount_halted(s: OrchState) -> OrchState {
    OrchState { unmounting_in_progress: Option::None, ..s }
}

/// What the host must do after an orchestrator step: nothing, invoke the
/// manager's mount or unmount for one definition (reporting the outcome back
/// through `mount_result` / `unmount_result`), or show a modal alert.
pub enum Action {
    Nothing,
    DoMount(Definition),
    DoUnmount(Definition),
    ShowAlert(AlertRequest),
}

/// The batch mount/unmount orchestrator state, as held by the home page:
/// one in-flight identifier and one FIFO queue per operation kind.
pub struct Orchestrator {
    /// The identifier of the definition currently being mounted, if any.
    pub mounting_in_progress_id: Option<String>,
    /// The definitions still waiting to be mounted in the current batch.
    pub mounting_queue: Vec<Definition>,
    /// The identifier of the definition currently being unmounted, if any.
    pub unmounting_in_progress_id: Option<String>,
    /// The definitions still waiting to be unmounted in the current batch.
    pub unmounting_queue: Vec<Definition>,
}

impl View for Orchestrator {
    type V = OrchState;

    open spec fn view(&self) -> OrchState {
        OrchState {
            mounting_in_progress: opt_text(self.mounting_in_progress_id),
            mounting_queue: self.mounting_queue@,
            unmounting_in_progress: opt_text(self.unmounting_in_progress_id),
            unmounting_queue: self.unmounting_queue@,
        }
    }
}

/// Keeps the definitions of `inventory` whose mounted state equals
/// `want_mounted`, in their existing order.
pub fn eligible_items(inventory: Vec<InventoryItem>, want_mounted: bool) -> (r: Vec<Definition>)
    ensures
        r@ == eligible_definitions(inventory@, want_mounted),
{
    let ghost orig = inventory@;
    let mut remaining = inventory;
    let mut out: Vec<Definition> = Vec::new();
    while remaining.len() > 0
        invariant
            eligible_definitions(orig, want_mounted) == out@ + eligible_definitions(
                remaining@,
                want_mounted,
            ),
        decreases remaining.len(),
    {
        let ghost old_remaining = remaining@;
        let ghost old_out = out@;
        let item = remaining.remove(0);
        let ghost item_g = item;
        let keep = item.mounted == want_mounted;
        if keep {
            out.push(item.definition);
        }
        proof {
            assert(old_remaining.drop_first() =~= remaining@);
            assert(old_remaining.first() == item_g);
            if keep {
                assert(old_out + (seq![item_g.definition] + eligible_definitions(
                    remaining@,
                    want_mounted,
                )) =~= out@ + eligible_definitions(remaining@, want_mounted));
            }
        }
    }
    proof {
        assert(eligible_definitions(remaining@, want_mounted) =~= Seq::<Definition>::empty());
        assert(out@ + eligible_definitions(remaining@, want_mounted) =~= out@);
    }
    out
}

impl Orchestrator {
    /// A freshly created orchestrator: idle, with empty queues.
    pub fn new() -> (r: Orchestrator)
        ensures
            r@ == idle_state(),
    {
        let r = Orchestrator {
            mounting_in_progress_id: Option::None,
            mounting_queue: Vec::new(),
            unmounting_in_progress_id: Option::None,
            unmounting_queue: Vec::new(),
        };
        proof {
            assert(r@ =~= idle_state());
        }
        r
    }

    /// Starts a "mount all" batch over the given inventory snapshot. When no
    /// definition is eligible (none is unmounted), nothing happens and the
    /// state is unchanged. Otherwise the first eligible definition is handed
    /// out for mounting, and the remaining eligible definitions replace the
    /// mounting queue, in their inventory order.
    pub fn request_mount_all(&mut self, inventory: Vec<InventoryItem>) -> (r: Action)
        ensures
            eligible_for_mounting(inventory@).len() == 0 ==> *final(self) == *old(self) && r
                == Action::Nothing,
            eligible_for_mounting(inventory@).len() > 0 ==> final(self)@ == mount_batch_started(
                old(self)@,
                inventory@,
            ) && r == Action::DoMount(eligible_for_mounting(inventory@)[0]),
    {
        let mut eligible = eligible_items(inventory, false);
        if eligible.len() == 0 {
            return Action::Nothing;
        }
        let first = eligible.remove(0);
        self.mounting_in_progress_id = Option::Some(first.id.clone());
        self.mounting_queue = eligible;
        proof {
            assert(eligible_for_mounting(inventory@).remove(0) =~= eligible_for_mounting(
                inventory@,
            ).skip(1));
            assert(self@ =~= mount_batch_started(old(self)@, inventory@));
        }
        Action::DoMount(first)
    }

    /// Starts an "unmount all" batch over the given inventory snapshot,
    /// symmetric to `request_mount_all`: it targets exactly the definitions
    /// that are currently mounted.
    pub fn request_unmount_all(&mut self, inventory: Vec<InventoryItem>) -> (r: Action)
        ensures
            eligible_for_unmounting(inventory@).len() == 0 ==> *final(self) == *old(self) && r
                == Action::Nothing,
            eligible_for_unmounting(inventory@).len() > 0 ==> final(self)@ == unmount_batch_started(
                old(self)@,
                inventory@,
            ) && r == Action::DoUnmount(eligible_for_unmounting(inventory@)[0]),
    {
        let mut eligible = eligible_items(inventory, true);
        if eligible.len() == 0 {
            return Action::Nothing;
        }
        let first = eligible.remove(0);
        self.unmounting_in_progress_id = Option::Some(first.id.clone());
        self.unmounting_queue = eligible;
        proof {
            assert(eligible_for_unmounting(inventory@).remove(0) =~= eligible_for_unmounting(
                inventory@,
            ).skip(1));
            assert(self@ =~= unmount_batch_started(old(self)@, inventory@));
        }
        Action::DoUnmount(first)
    }

    /// Issues a single-item mount of `definition`: marks it in flight and
    /// hands it out for mounting. Neither queue is touched, so the single-item
    /// path behaves the same within and outside a batch.
    pub fn mount(&mut self, definition: Definition) -> (r: Action)
        ensures
            final(self)@ == single_mount_started(old(self)@, definition),
            r == Action::DoMount(definition),
    {
        self.mounting_in_progress_id = Option::Some(definition.id.clone());
        proof {
            assert(self@ =~= single_mount_started(old(self)@, definition));
        }
        Action::DoMount(definition)
    }

    /// Issues a single-item unmount of `definition`.
    pub fn unmount(&mut self, definition: Definition) -> (r: Action)
        ensures
            final(self)@ == single_unmount_started(old(self)@, definition),
            r == Action::DoUnmount(definition),
    {
        self.unmounting_in_progress_id = Option::Some(definition.id.clone());
        proof {
            assert(self@ =~= single_unmount_started(old(self)@, definition));
        }
        Action::DoUnmount(definition)
    }

    /// Handles the completion of a mount of `definition`. On success the
    /// in-flight marker clears and the head of the mounting queue (if any) is
    /// handed out next. On failure the batch halts: the queue is left as it
    /// is, nothing further is mounted, and an alert for `definition` is
    /// requested instead.
    pub fn mount_result(&mut self, definition: Definition, error: Option<(String, String)>) -> (r:
        Action)
        ensures
            match error {
                Option::None => final(self)@ == mount_success_state(old(self)@) && r == (
                match mount_success_target(old(self)@) {
                    Option::Some(d) => Action::DoMount(d),
                    Option::None => Action::Nothing,
                }),
                Option::Some((error_human, error_debug)) => final(self)@ == mount_halted(
                    old(self)@,
                ) && (r matches Action::ShowAlert(a) && is_mount_failure_alert(
                    a,
                    definition.id@,
                    error_human@,
                    error_debug@,
                )),
            },
    {
        self.mounting_in_progress_id = Option::None;
        match error {
            Option::None => {
                if self.mounting_queue.len() == 0 {
                    proof {
                        assert(self@ =~= mount_success_state(old(self)@));
                    }
                    Action::Nothing
                } else {
                    let next = self.mounting_queue.remove(0);
                    self.mounting_in_progress_id = Option::Some(next.id.clone());
                    proof {
                        assert(old(self)@.mounting_queue.remove(0) =~= old(
                            self,
                        )@.mounting_queue.skip(1));
                        assert(self@ =~= mount_success_state(old(self)@));
                    }
                    Action::DoMount(next)
                }
            },
            Option::Some((error_human, error_debug)) => {
                let alert = mount_failure_alert(
                    &definition,
                    error_human.as_str(),
                    error_debug.as_str(),
                );
                proof {
                    assert(self@ =~= mount_halted(old(self)@));
                }
                Action::ShowAlert(alert)
            },
        }
    }

    /// Handles the completion of an unmount of `definition`, symmetric to
    /// `mount_result`.
    pub fn unmount_result(&mut self, definition: Definition, error: Option<(String, String)>) -> (r:
        Action)
        ensures
            match error {
                Option::None => final(self)@ == unmount_success_state(old(self)@) && r == (
                match unmount_success_target(old(self)@) {
                    Option::Some(d) => Action::DoUnmount(d),
                    Option::None => Action::Nothing,
                }),
                Option::Some((error_human, error_debug)) => final(self)@ == unmount_halted(
                    old(self)@,
                ) && (r matches Action::ShowAlert(a) && is_unmount_failure_alert(
                    a,
                    definition.id@,
                    error_human@,
                    error_debug@,
                )),
            },
    {
        self.unmounting_in_progress_id = Option::None;
        match error {
            Option::None => {
                if self.unmounting_queue.len() == 0 {
                    proof {
                        assert(self@ =~= unmount_success_state(old(self)@));
                    }
                    Action::Nothing
                } else {
                    let next = self.unmounting_queue.remove(0);
                    self.unmounting_in_progress_id = Option::Some(next.id.clone());
                    proof {
                        assert(old(self)@.unmounting_queue.remove(0) =~= old(
                            self,
                        )@.unmounting_queue.skip(1));
                        assert(self@ =~= unmount_success_state(old(self)@));
                    }
                    Action::DoUnmount(next)
                }
            },
            Option::Some((error_human, error_debug)) => {
                let alert = unmount_failure_alert(
                    &definition,
                    error_human.as_str(),
                    error_debug.as_str(),
                );
                proof {
                    assert(self@ =~= unmount_halted(old(self)@));
                }
                Action::ShowAlert(alert)
            },
        }
    }
}

} // verus!
