//! Coalescing of "events are available" notifications to JavaScript.

use vstd::prelude::*;

verus! {

/// Lets at most one notification be outstanding: a new one is scheduled
/// only after the previous one was acknowledged.
pub struct NotificationGate {
    scheduled: bool,
}

impl View for NotificationGate {
    type V = bool;

    /// Whether a notification is outstanding.
    closed spec fn view(&self) -> bool {
        self.scheduled
    }
}

impl NotificationGate {
    /// A gate with no outstanding notification.
    pub fn new() -> (r: Self)
        ensures
            !r@,
    {
        NotificationGate { scheduled: false }
    }

    /// Schedules a notification unless one is outstanding; returns whether
    /// it did.
    pub fn schedule(&mut self) -> (r: bool)
        ensures
            r == schedule_granted(old(self)@),
            final(self)@ == after_schedule(old(self)@),
    {
        if self.scheduled {
            false
        } else {
            self.scheduled = true;
            true
        }
    }

    /// Marks the outstanding notification as delivered.
    pub fn acknowledge(&mut self)
        ensures
            final(self)@ == after_acknowledge(old(self)@),
    {
        self.scheduled = false;
    }
}

impl Default for NotificationGate {
    fn default() -> (r: Self)
        ensures
            !r@,
    {
        NotificationGate::new()
    }
}

/// What a schedule answers on a gate whose outstanding state is `outstanding`.
pub open spec fn schedule_granted(outstanding: bool) -> bool {
    !outstanding
}

/// The outstanding state after a schedule: a notification is outstanding,
/// whether this schedule was granted or coalesced into an earlier one.
pub open spec fn after_schedule(outstanding: bool) -> bool {
    true
}

/// The outstanding state after an acknowledgement: nothing is outstanding.
pub open spec fn after_acknowledge(outstanding: bool) -> bool {
    false
}

/// Whatever is outstanding, a schedule that directly follows another one
/// is refused, and a schedule that directly follows an acknowledgement is
/// granted.
pub proof fn lemma_schedules_wait_for_acknowledgement(outstanding: bool)
    ensures
        !schedule_granted(after_schedule(outstanding)),
        schedule_granted(after_acknowledge(outstanding)),
{
}

} // verus!
