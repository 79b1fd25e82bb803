//! Event flags: the signals that the radio's event context raises and the
//! worker tasks wait for.

use vstd::prelude::*;

verus! {

/// The link is up and an address has been acquired.
pub const CONNECTED: u32 = 1;

/// The provisioning exchange has sent its acknowledgment.
pub const PROVISIONING_DONE: u32 = 2;

/// Whether a wait for `mask` is over when the flags are `bits`: every flag of
/// the mask is set, or, without `wait_for_all`, at least one of them.
pub open spec fn wait_satisfied(bits: u32, mask: u32, wait_for_all: bool) -> bool {
    if wait_for_all {
        bits & mask == mask
    } else {
        bits & mask != 0
    }
}

/// The flags that remain once a satisfied wait for `mask` returns.
pub open spec fn after_wait(bits: u32, mask: u32, clear_on_exit: bool) -> u32 {
    if clear_on_exit {
        bits & !mask
    } else {
        bits
    }
}

/// What one look at the flags tells a waiting task.
#[derive(Clone, Copy, Debug, PartialEq, Eq, Structural)]
pub enum WaitStep {
    /// The wait is over; the value holds the flags of the mask that were set.
    Ready(u32),
    /// Nothing the task waits for is set yet: suspend until the next `set`.
    Blocked,
    /// The time allowed has passed without the wait being satisfied.
    TimedOut,
}

/// The outcome of a look at `bits` by a task that waits for `mask`.
pub open spec fn wait_step(bits: u32, mask: u32, wait_for_all: bool, expired: bool) -> WaitStep {
    if wait_satisfied(bits, mask, wait_for_all) {
        WaitStep::Ready(bits & mask)
    } else if expired {
        WaitStep::TimedOut
    } else {
        WaitStep::Blocked
    }
}

/// A set of independent boolean signals, one per bit.
#[derive(Clone, Copy, Debug, PartialEq, Eq, Structural)]
pub struct EventFlags {
    bits: u32,
}

impl View for EventFlags {
    type V = u32;

    closed spec fn view(&self) -> u32 {
        self.bits
    }
}

impl EventFlags {
    /// No flag set.
    pub fn new() -> (flags: EventFlags)
        ensures
            flags@ == 0,
    {
        EventFlags { bits: 0 }
    }

    /// The flags that are set, one per bit.
    pub fn bits(&self) -> (bits: u32)
        ensures
            bits == self@,
    {
        self.bits
    }

    /// Whether every flag of `flags` is set.
    pub fn contains(&self, flags: u32) -> (held: bool)
        ensures
            held == (self@ & flags == flags),
    {
        self.bits & flags == flags
    }

    /// Raises `flags`; flags already set stay set.
    pub fn set(&mut self, flags: u32)
        ensures
            final(self)@ == old(self)@ | flags,
    {
        self.bits = self.bits | flags;
    }

    /// Lowers `flags`; the others are left as they are.
    pub fn clear(&mut self, flags: u32)
        ensures
            final(self)@ == old(self)@ & !flags,
    {
        self.bits = self.bits & !flags;
    }

    /// One look at the flags on behalf of a waiting task.
    ///
    /// A satisfied wait returns the flags of `mask` that are set and, with
    /// `clear_on_exit`, lowers them in the same step. An unsatisfied wait
    /// changes nothing and tells the task to suspend, or to give up when
    /// its time has `expired`.
    pub fn wait(
        &mut self,
        mask: u32,
        clear_on_exit: bool,
        wait_for_all: bool,
        expired: bool,
    ) -> (step: WaitStep)
        ensures
            step == wait_step(old(self)@, mask, wait_for_all, expired),
            final(self)@ == if wait_satisfied(old(self)@, mask, wait_for_all) {
                after_wait(old(self)@, mask, clear_on_exit)
            } else {
                old(self)@
            },
    {
        let seen: u32 = self.bits & mask;
        let satisfied = if wait_for_all {
            seen == mask
        } else {
            seen != 0
        };
        if satisfied {
            if clear_on_exit {
                self.bits = self.bits & !mask;
            }
            WaitStep::Ready(seen)
        } else if expired {
            WaitStep::TimedOut
        } else {
            WaitStep::Blocked
        }
    }
}

/// Raising flags lowers none: what was set stays set, the new flags are
/// set, and nothing else is. Only `clear`, and a wait that clears on exit,
/// lower a flag, and only the flags they name.
pub proof fn lemma_set_only_raises(bits: u32, flags: u32)
    ensures
        (bits | flags) & bits == bits,
        (bits | flags) & flags == flags,
        (bits | flags) & (!bits & !flags) == 0,
        (bits & !flags) & flags == 0,
        (bits & !flags) & !flags == bits & !flags,
{
    assert((bits | flags) & bits == bits) by (bit_vector);
    assert((bits | flags) & flags == flags) by (bit_vector);
    assert((bits | flags) & (!bits & !flags) == 0) by (bit_vector);
    assert((bits & !flags) & flags == 0) by (bit_vector);
    assert((bits & !flags) & !flags == bits & !flags) by (bit_vector);
}

/// A flag raised before a task looks is seen by that look: once `flags` has
/// been set, a wait for any one flag of a mask that shares a flag with
/// `flags` is over at once, whatever was set before and however long the
/// task is willing to wait, and what it returns holds every shared flag.
pub proof fn lemma_set_is_observed(bits: u32, flags: u32, mask: u32, expired: bool)
    requires
        flags & mask != 0,
    ensures
        wait_step(bits | flags, mask, false, expired) == WaitStep::Ready((bits | flags) & mask),
        ((bits | flags) & mask) & (flags & mask) == flags & mask,
{
    assert((bits | flags) & mask != 0) by (bit_vector)
        requires
            flags & mask != 0,
    ;
    assert(((bits | flags) & mask) & (flags & mask) == flags & mask) by (bit_vector);
}

/// A wait for any one flag of a mask is over at once as soon as one flag of
/// the mask is set: it neither suspends nor times out.
pub proof fn lemma_any_flag_ends_wait(bits: u32, flag: u32, mask: u32, expired: bool)
    requires
        flag != 0,
        flag & mask == flag,
        bits & flag == flag,
    ensures
        wait_step(bits, mask, false, expired) == WaitStep::Ready(bits & mask),
{
    assert(bits & mask != 0) by (bit_vector)
        requires
            flag != 0,
            flag & mask == flag,
            bits & flag == flag,
    ;
}

/// A wait for all flags of a mask is over at once when each of them has been
/// raised before the task looks.
pub proof fn lemma_set_all_is_observed(bits: u32, flags: u32, mask: u32, expired: bool)
    requires
        flags & mask == mask,
    ensures
        wait_step(bits | flags, mask, true, expired) == WaitStep::Ready(mask),
{
    assert((bits | flags) & mask == mask) by (bit_vector)
        requires
            flags & mask == mask,
    ;
}

/// A satisfied wait with `clear_on_exit` leaves none of the mask's flags
/// set and touches no other flag.
pub proof fn lemma_clear_on_exit(bits: u32, mask: u32)
    ensures
        after_wait(bits, mask, true) & mask == 0,
        after_wait(bits, mask, true) & !mask == bits & !mask,
        after_wait(bits, mask, false) == bits,
{
    assert((bits & !mask) & mask == 0) by (bit_vector);
    assert((bits & !mask) & !mask == bits & !mask) by (bit_vector);
}

} // verus!
