//! SCPI-99 status registers (chapter 9): condition, event, enable and
//! transition filter registers.

use vstd::prelude::*;

verus! {

/// A SCPI status register: condition, event, enable and transition filters.
#[derive(PartialEq, Eq, Copy, Clone)]
pub struct EventRegister {
    pub condition: u16,
    pub event: u16,
    pub enable: u16,
    pub ntr_filter: u16,
    pub ptr_filter: u16,
}

/// The event bits recorded when the condition goes from `old` to `new`:
/// bits that rose and pass the positive filter, and bits that fell and pass
/// the negative filter.
pub open spec fn transitions(old: u16, new: u16, ptr: u16, ntr: u16) -> u16 {
    (old ^ new) & ((new & ptr) | (!new & ntr))
}

impl Default for EventRegister {
    fn default() -> (r: Self)
        ensures
            r == (EventRegister { condition: 0, event: 0, enable: 0, ntr_filter: 0, ptr_filter: 0xffff }),
    {
        EventRegister { condition: 0, event: 0, enable: 0, ntr_filter: 0, ptr_filter: 0xffff }
    }
}

impl EventRegister {
    /// A cleared register that records rising condition bits.
    pub fn new() -> (r: Self)
        ensures
            r == (EventRegister { condition: 0, event: 0, enable: 0, ntr_filter: 0, ptr_filter: 0xffff }),
    {
        EventRegister::default()
    }

    /// Preset enable, condition and filters; the event register is kept.
    pub fn preset(&mut self)
        ensures
            *final(self) == (EventRegister { condition: 0, enable: 0, ptr_filter: 0xffff, ntr_filter: 0, ..*old(self) }),
    {
        self.enable = 0u16;
        self.condition = 0u16;
        self.ptr_filter = 0xffffu16;
        self.ntr_filter = 0u16;
    }

    /// Clear the event register.
    pub fn clear_event(&mut self)
        ensures
            *final(self) == (EventRegister { event: 0, ..*old(self) }),
    {
        self.event = 0;
    }

    /// The summary bit: whether an enabled condition bit (other than bit 15)
    /// is set.
    pub fn get_summary(&self) -> (b: bool)
        ensures
            b == ((self.condition & self.enable) & 0x7fffu16 != 0u16),
    {
        (self.condition & self.enable) & 0x7fffu16 != 0u16
    }

    /// Whether any condition bit of `bitmask` is set.
    pub fn get_condition_bit(&self, bitmask: u16) -> (b: bool)
        ensures
            b == (self.condition & bitmask != 0),
    {
        self.condition & bitmask != 0
    }

    /// Set a new condition, recording its filtered transitions in the event
    /// register.
    pub fn set_condition(&mut self, condition: u16)
        ensures
            *final(self) == (EventRegister {
                condition,
                event: old(self).event | transitions(old(self).condition, condition, old(self).ptr_filter, old(self).ntr_filter),
                ..*old(self)
            }),
    {
        let transitions = self.condition ^ condition;
        // Record pos-/negative-transitions to event register
        self.event = self.event | (transitions & ((condition & self.ptr_filter) | (!condition & self.ntr_filter)));
        //Save new condition
        self.condition = condition;
    }

    /// Set the condition bits of `bitmask`.
    pub fn set_condition_bits(&mut self, bitmask: u16)
        ensures
            *final(self) == (EventRegister {
                condition: old(self).condition | bitmask,
                event: old(self).event | transitions(old(self).condition, old(self).condition | bitmask, old(self).ptr_filter, old(self).ntr_filter),
                ..*old(self)
            }),
    {
        let c = self.condition | bitmask;
        self.set_condition(c)
    }

    /// Clear the condition bits of `bitmask`.
    pub fn clear_condition_bits(&mut self, bitmask: u16)
        ensures
            *final(self) == (EventRegister {
                condition: old(self).condition & !bitmask,
                event: old(self).event | transitions(old(self).condition, old(self).condition & !bitmask, old(self).ptr_filter, old(self).ntr_filter),
                ..*old(self)
            }),
    {
        let c = self.condition & !bitmask;
        self.set_condition(c)
    }
}

/// Setting the condition it already has records nothing.
pub proof fn lemma_same_condition_records_nothing(old: u16, ptr: u16, ntr: u16)
    ensures
        transitions(old, old, ptr, ntr) == 0,
{
    assert(transitions(old, old, ptr, ntr) == 0) by (bit_vector);
}

/// With the preset filters, the event register records exactly the
/// condition bits that rose.
pub proof fn lemma_preset_filters_record_rising(old: u16, new: u16)
    ensures
        transitions(old, new, 0xffff, 0) == new & !old,
{
    assert(transitions(old, new, 0xffff, 0) == new & !old) by (bit_vector);
}

/// A recorded event bit is a bit whose condition changed.
pub proof fn lemma_events_are_changes(old: u16, new: u16, ptr: u16, ntr: u16)
    ensures
        transitions(old, new, ptr, ntr) & !(old ^ new) == 0,
{
    assert(transitions(old, new, ptr, ntr) & !(old ^ new) == 0) by (bit_vector);
}

/// Events accumulate: every event bit set before a condition change is
/// still set after it.
pub proof fn lemma_events_accumulate(event: u16, old: u16, new: u16, ptr: u16, ntr: u16)
    ensures
        (event | transitions(old, new, ptr, ntr)) & event == event,
{
    assert((event | transitions(old, new, ptr, ntr)) & event == event) by (bit_vector);
}

/// Setting condition bits and clearing them again records, with the preset
/// filters, exactly the bits of the mask that were clear before.
pub proof fn lemma_set_then_clear(cond: u16, mask: u16)
    requires
        cond & mask == 0,
    ensures
        transitions(cond, cond | mask, 0xffff, 0) == mask,
        transitions(cond | mask, (cond | mask) & !mask, 0xffff, 0) == 0,
        (cond | mask) & !mask == cond,
{
    assert(transitions(cond, cond | mask, 0xffff, 0) == mask) by (bit_vector)
        requires cond & mask == 0;
    assert(transitions(cond | mask, (cond | mask) & !mask, 0xffff, 0) == 0) by (bit_vector)
        requires cond & mask == 0;
    assert((cond | mask) & !mask == cond) by (bit_vector)
        requires cond & mask == 0;
}

/// Names a status register; its bits are described by `BitFlags`.
pub trait EventRegisterName {
    type BitFlags;
}

/// A device that holds the status register named `X`.
pub trait GetEventRegister<X> where X: EventRegisterName {
    /// The register's current value.
    open spec fn event_register(&self) -> EventRegister {
        vstd::pervasive::arbitrary()
    }
    fn register(&self) -> (r: &EventRegister)
        ensures
            *r == self.event_register(),
    ;

    fn register_mut(&mut self) -> (r: &mut EventRegister)
        ensures
            *r == old(self).event_register(),
            final(self).event_register() == *final(r),
    ;
}

/// Bits of a status register.
pub trait BitFlags<T> {
    fn get_mask(self) -> T;

    fn get_pos(self) -> T;
}

} // verus!
