//! The single-slot cell through which a click reaches the renderer.
//!
//! The slot holds at most one click. Publishing overwrites whatever was
//! pending, so fast typing restarts the click instead of queueing voices, and
//! neither side ever waits on the other for more than the swap of one value.

use vstd::prelude::*;

verus! {

/// How long a click stays audible after it starts: a tenth of a second, in
/// nanoseconds.
pub const AUDIBLE_WINDOW: u64 = 100_000_000;

/// A request to render one click, with the synthesis parameters that were in
/// force when it was made.
#[derive(Clone, Copy, Debug, PartialEq, Eq, Structural)]
pub struct ClickTrigger {
    /// When the click starts, in nanoseconds on the caller's clock.
    pub start_timestamp: u64,
    /// Fundamental, in thousandths of a hertz.
    pub frequency: u32,
    /// Decay rate, in thousandths per second.
    pub decay: u32,
    /// Output level, in thousandths of full scale.
    pub volume: u32,
}

impl ClickTrigger {
    /// A click is audible as long as no more than the window has passed since
    /// it started. A click stamped later than `now` has not run out.
    pub open spec fn active_at(self, now: u64) -> bool {
        now - self.start_timestamp <= AUDIBLE_WINDOW
    }

    /// Time since the click started; zero for a click stamped later than `now`.
    pub open spec fn elapsed_at(self, now: u64) -> u64 {
        if now >= self.start_timestamp {
            (now - self.start_timestamp) as u64
        } else {
            0
        }
    }

    /// Whether the click is still audible at `now`.
    pub fn is_active(&self, now: u64) -> (active: bool)
        ensures
            active == self.active_at(now),
    {
        now <= self.start_timestamp || now - self.start_timestamp <= AUDIBLE_WINDOW
    }

    /// Time since the click started, in nanoseconds.
    pub fn elapsed(&self, now: u64) -> (elapsed: u64)
        ensures
            elapsed == self.elapsed_at(now),
    {
        if now >= self.start_timestamp {
            now - self.start_timestamp
        } else {
            0
        }
    }
}

/// What `take_active` leaves in the slot and hands out: a pending click that
/// is still audible stays and is returned; anything else empties the slot.
pub open spec fn take_active_spec(pending: Option<ClickTrigger>, now: u64) -> (
    Option<ClickTrigger>,
    Option<ClickTrigger>,
) {
    match pending {
        Some(trigger) if trigger.active_at(now) => (pending, pending),
        _ => (None, None),
    }
}

/// A published click is handed out for exactly as long as it is audible: a
/// renderer that asks within the window gets it and leaves it in place, one
/// that asks later gets nothing and finds the slot emptied.
pub proof fn law_click_lives_for_the_window(trigger: ClickTrigger, now: u64)
    ensures
        now - trigger.start_timestamp <= AUDIBLE_WINDOW ==> take_active_spec(Some(trigger), now)
            == (Some(trigger), Some(trigger)),
        now - trigger.start_timestamp > AUDIBLE_WINDOW ==> take_active_spec(Some(trigger), now)
            == (None::<ClickTrigger>, None::<ClickTrigger>),
{
}

/// The cell that holds the pending click, if any.
#[derive(Clone, Copy, Debug)]
pub struct TriggerSlot {
    pending: Option<ClickTrigger>,
}

impl View for TriggerSlot {
    type V = Option<ClickTrigger>;

    closed spec fn view(&self) -> Option<ClickTrigger> {
        self.pending
    }
}

impl TriggerSlot {
    /// An empty slot.
    pub fn new() -> (slot: Self)
        ensures
            slot@.is_none(),
    {
        TriggerSlot { pending: None }
    }

    /// Makes `trigger` the pending click, replacing any earlier one.
    pub fn publish(&mut self, trigger: ClickTrigger)
        ensures
            final(self)@ == Some(trigger),
    {
        self.pending = Some(trigger);
    }

    /// The pending click, if there is one.
    pub fn pending(&self) -> (pending: Option<ClickTrigger>)
        ensures
            pending == self@,
    {
        self.pending
    }

    /// Empties the slot.
    pub fn clear(&mut self)
        ensures
            final(self)@.is_none(),
    {
        self.pending = None;
    }

    /// Hands out the pending click if it is still audible at `now`; a click
    /// that has run out is dropped from the slot and nothing is handed out.
    ///
    /// The click is returned as a copy, so the slot can be emptied while the
    /// click is still being rendered.
    pub fn take_active(&mut self, now: u64) -> (active: Option<ClickTrigger>)
        ensures
            (final(self)@, active) == take_active_spec(old(self)@, now),
    {
        match self.pending {
            Some(trigger) => {
                if trigger.is_active(now) {
                    Some(trigger)
                } else {
                    self.pending = None;
                    None
                }
            },
            None => None,
        }
    }
}

} // verus!
