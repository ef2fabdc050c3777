//! Bring-up of the cores: the flag that says the primary core is done with
//! initialization, and the table through which it tells each secondary core
//! where its guest starts.
//!
//! The table is written by the primary core alone. A slot whose entry address
//! is zero is not published; a nonzero entry address publishes the slot, and
//! a published slot is never written again.

use vstd::prelude::*;

use crate::addr::GuestPhysAddr;

verus! {

/// What the primary core left for one secondary core.
#[derive(Clone, Copy, Debug, PartialEq, Eq, Structural)]
pub struct BootSlot {
    /// Where the guest of that core starts; zero while nothing is published.
    pub entry: GuestPhysAddr,
    /// The context word handed to the guest in `x0`.
    pub context: usize,
}

/// What a secondary core needs to start its virtual CPU.
#[derive(Clone, Copy, Debug, PartialEq, Eq, Structural)]
pub struct BootRequest {
    /// Where the guest starts. Never zero.
    pub entry: GuestPhysAddr,
    /// The context word handed to the guest in `x0`.
    pub context: usize,
}

/// One attempt to publish `entry` and `context` for the core `cpu_id`.
pub struct PublishAttempt {
    pub cpu_id: usize,
    pub entry: GuestPhysAddr,
    pub context: usize,
}

/// Whether publishing `entry` for `cpu_id` is accepted: the core exists, the
/// entry address is not zero, and nothing was published for the core before.
pub open spec fn accepts(slots: Seq<BootSlot>, cpu_id: usize, entry: GuestPhysAddr) -> bool {
    cpu_id < slots.len() && entry != 0 && slots[cpu_id as int].entry == 0
}

/// The table after an attempt to publish: the slot of `cpu_id` holds `entry`
/// and `context` where the attempt is accepted, and nothing changed where it
/// is not.
pub open spec fn published(
    slots: Seq<BootSlot>,
    cpu_id: usize,
    entry: GuestPhysAddr,
    context: usize,
) -> Seq<BootSlot> {
    if accepts(slots, cpu_id, entry) {
        slots.update(cpu_id as int, BootSlot { entry, context })
    } else {
        slots
    }
}

/// The table after the attempts of `attempts`, first to last.
pub open spec fn published_all(
    slots: Seq<BootSlot>,
    attempts: Seq<PublishAttempt>,
) -> Seq<BootSlot>
    decreases attempts.len(),
{
    if attempts.len() == 0 {
        slots
    } else {
        let last = attempts.last();
        published(
            published_all(slots, attempts.drop_last()),
            last.cpu_id,
            last.entry,
            last.context,
        )
    }
}

/// What a core that finds `entry` and `context` in its slot does: it starts
/// its guest where the entry address is not zero, and goes on waiting where
/// it is.
pub open spec fn slot_request(entry: GuestPhysAddr, context: usize) -> Option<BootRequest> {
    if entry != 0 {
        Some(BootRequest { entry, context })
    } else {
        None
    }
}

/// What the core `cpu_id` finds in the table. A core that the table does not
/// know finds nothing.
pub open spec fn observed(slots: Seq<BootSlot>, cpu_id: usize) -> Option<BootRequest> {
    if cpu_id < slots.len() {
        slot_request(slots[cpu_id as int].entry, slots[cpu_id as int].context)
    } else {
        None
    }
}

/// The table with `n` slots and nothing published.
pub open spec fn unpublished(n: nat) -> Seq<BootSlot> {
    Seq::new(n, |i: int| BootSlot { entry: 0, context: 0 })
}

/// Bring-up state, owned by the primary core.
#[derive(Debug)]
pub struct BootState {
    init_ok: bool,
    slots: Vec<BootSlot>,
}

/// What a [`BootState`] stands for.
pub struct BootView {
    /// Whether the primary core has finished initialization.
    pub init_ok: bool,
    /// The slot of each core, by core id.
    pub slots: Seq<BootSlot>,
}

impl View for BootState {
    type V = BootView;

    closed spec fn view(&self) -> BootView {
        BootView { init_ok: self.init_ok, slots: self.slots@ }
    }
}

impl BootState {
    /// The state at power-on of a machine with `num_cpus` cores:
    /// initialization is not done and nothing is published.
    pub fn new(num_cpus: usize) -> (state: Self)
        ensures
            !state@.init_ok,
            state@.slots == unpublished(num_cpus as nat),
    {
        let mut slots: Vec<BootSlot> = Vec::new();
        let mut i: usize = 0;
        while i < num_cpus
            invariant
                i <= num_cpus,
                slots@ == unpublished(i as nat),
            decreases num_cpus - i,
        {
            slots.push(BootSlot { entry: 0, context: 0 });
            i += 1;
            assert(slots@ =~= unpublished(i as nat));
        }
        BootState { init_ok: false, slots }
    }

    /// Number of cores that the table has a slot for.
    pub fn num_cpus(&self) -> (n: usize)
        ensures
            n == self@.slots.len(),
    {
        self.slots.len()
    }

    /// Records that the primary core has finished initialization.
    pub fn mark_init_ok(&mut self)
        ensures
            final(self)@.init_ok,
            final(self)@.slots == old(self)@.slots,
    {
        self.init_ok = true;
    }

    /// Publishes, for the core `cpu_id`, the address `entry` at which its
    /// guest starts and the context word for it.
    ///
    /// The attempt is accepted, and the result `true`, where the core exists,
    /// `entry` is not zero and nothing was published for the core before.
    /// Otherwise nothing changes and the result is `false`.
    pub fn publish(
        &mut self,
        cpu_id: usize,
        entry: GuestPhysAddr,
        context: usize,
    ) -> (accepted: bool)
        ensures
            accepted == accepts(old(self)@.slots, cpu_id, entry),
            final(self)@.slots == published(old(self)@.slots, cpu_id, entry, context),
            final(self)@.init_ok == old(self)@.init_ok,
    {
        if cpu_id < self.slots.len() && entry != 0 && self.slots[cpu_id].entry == 0 {
            self.slots.set(cpu_id, BootSlot { entry, context });
            true
        } else {
            false
        }
    }

    /// One look of the core `cpu_id` at its slot: the request to start its
    /// guest where the slot is published, `None` where the core has to go on
    /// waiting.
    pub fn secondary_entry(&self, cpu_id: usize) -> (request: Option<BootRequest>)
        ensures
            request == observed(self@.slots, cpu_id),
    {
        if cpu_id < self.slots.len() {
            let slot = self.slots[cpu_id];
            poll_slot(slot.entry, slot.context)
        } else {
            None
        }
    }
}

/// Whether the primary core has finished initialization.
pub fn init_ok(state: &BootState) -> (ok: bool)
    ensures
        ok == state@.init_ok,
{
    state.init_ok
}

/// What a secondary core does with the `entry` and `context` that it read
/// from its slot: the request to start its guest where `entry` is not zero,
/// `None` where it has to read again.
pub fn poll_slot(entry: GuestPhysAddr, context: usize) -> (request: Option<BootRequest>)
    ensures
        request == slot_request(entry, context),
{
    if entry != 0 {
        Some(BootRequest { entry, context })
    } else {
        None
    }
}

/// A core finds what was published for it: once an attempt to publish `entry`
/// and `context` for `cpu_id` was accepted, the core finds exactly them.
pub proof fn lemma_publish_then_observe(
    slots: Seq<BootSlot>,
    cpu_id: usize,
    entry: GuestPhysAddr,
    context: usize,
)
    requires
        accepts(slots, cpu_id, entry),
    ensures
        observed(published(slots, cpu_id, entry, context), cpu_id) == Some(
            BootRequest { entry, context },
        ),
{
}

/// A published slot is final: whatever is attempted afterwards, for this core
/// or another, the slot of a core for which something was published holds
/// what it held, and the core finds what it found.
pub proof fn lemma_published_slot_is_final(
    slots: Seq<BootSlot>,
    cpu_id: usize,
    attempts: Seq<PublishAttempt>,
)
    requires
        cpu_id < slots.len(),
        slots[cpu_id as int].entry != 0,
    ensures
        published_all(slots, attempts).len() == slots.len(),
        published_all(slots, attempts)[cpu_id as int] == slots[cpu_id as int],
        observed(published_all(slots, attempts), cpu_id) == observed(slots, cpu_id),
    decreases attempts.len(),
{
    if attempts.len() > 0 {
        lemma_published_slot_is_final(slots, cpu_id, attempts.drop_last());
    }
}

} // verus!
