//! Capacitive touch pads: the pads in use, and the table through which the
//! touch interrupt hands each channel's notification to its consumer.
use vstd::prelude::*;

use crate::button::Value;

verus! {

/// The number of touch channels of the peripheral.
pub const NUM_TOUCH_PINS: usize = 10;

/// A configuration error, caught before the event loops start.
#[derive(Clone, Copy, Debug, PartialEq, Eq, Structural)]
pub enum TouchError {
    /// The channel is not one of the peripheral's.
    InvalidChannel(u32),
    /// The channel was configured or subscribed before.
    DuplicateChannel(u32),
}

/// The pads configured so far, by channel.
pub struct TouchControllerBuilder {
    touch_pins: Vec<bool>,
}

impl View for TouchControllerBuilder {
    type V = Seq<bool>;

    closed spec fn view(&self) -> Seq<bool> {
        self.touch_pins@
    }
}

pub struct TouchPinView {
    pub channel: u32,
    pub pin_number: i32,
    pub threshold: u16,
}

/// One configured touch pad.
#[derive(Clone, Copy, Debug, PartialEq, Eq, Structural)]
pub struct TouchPin {
    channel: u32,
    pin_number: i32,
    threshold: u16,
}

impl View for TouchPin {
    type V = TouchPinView;

    closed spec fn view(&self) -> TouchPinView {
        TouchPinView { channel: self.channel, pin_number: self.pin_number, threshold: self.threshold }
    }
}

fn all_false() -> (r: Vec<bool>)
    ensures
        r@ == Seq::new(10, |i: int| false),
{
    let mut r: Vec<bool> = Vec::new();
    let mut i: usize = 0;
    while i < NUM_TOUCH_PINS
        invariant
            i <= NUM_TOUCH_PINS,
            r@ == Seq::new(i as nat, |j: int| false),
        decreases NUM_TOUCH_PINS - i,
    {
        r.push(false);
        i = i + 1;
        assert(r@ =~= Seq::new(i as nat, |j: int| false));
    }
    r
}

impl TouchControllerBuilder {
    pub open spec fn wf(&self) -> bool {
        self@.len() == 10
    }

    /// A builder with no pad configured.
    pub fn new() -> (r: TouchControllerBuilder)
        ensures
            r.wf(),
            r@ == Seq::new(10, |i: int| false),
    {
        TouchControllerBuilder { touch_pins: all_false() }
    }

    /// Configure the pad on `channel`, read as touched above `threshold`.
    pub fn add_pin(&mut self, channel: u32, pin_number: i32, threshold: u16) -> (r: Result<
        TouchPin,
        TouchError,
    >)
        requires
            old(self).wf(),
        ensures
            final(self).wf(),
            channel >= 10 ==> r == Err::<TouchPin, TouchError>(TouchError::InvalidChannel(channel))
                && final(self)@ == old(self)@,
            channel < 10 && old(self)@[channel as int] ==> r == Err::<TouchPin, TouchError>(
                TouchError::DuplicateChannel(channel),
            ) && final(self)@ == old(self)@,
            channel < 10 && !old(self)@[channel as int] ==> r is Ok && r->Ok_0@ == (TouchPinView {
                channel,
                pin_number,
                threshold,
            }) && final(self)@ == old(self)@.update(channel as int, true),
    {
        if channel as usize >= NUM_TOUCH_PINS {
            return Err(TouchError::InvalidChannel(channel));
        }
        if self.touch_pins[channel as usize] {
            return Err(TouchError::DuplicateChannel(channel));
        }
        self.touch_pins.set(channel as usize, true);
        Ok(TouchPin { channel, pin_number, threshold })
    }

    pub fn has_pin(&self, channel: u32) -> (r: bool)
        requires
            self.wf(),
        ensures
            r == (channel < 10 && self@[channel as int]),
    {
        channel < 10 && self.touch_pins[channel as usize]
    }
}

impl TouchPin {
    pub fn channel(&self) -> (r: u32)
        ensures
            r == self@.channel,
    {
        self.channel
    }

    pub fn pin_number(&self) -> (r: i32)
        ensures
            r == self@.pin_number,
    {
        self.pin_number
    }

    pub fn threshold(&self) -> (r: u16)
        ensures
            r == self@.threshold,
    {
        self.threshold
    }

    /// Whether a filtered reading of the pad counts as active.
    pub fn is_high_reading(&self, reading: u16) -> (r: bool)
        ensures
            r == (reading > self@.threshold),
    {
        reading > self.threshold
    }

    pub fn is_low_reading(&self, reading: u16) -> (r: bool)
        ensures
            r == (reading <= self@.threshold),
    {
        !self.is_high_reading(reading)
    }
}

/// Bit `channel` of the peripheral's interrupt status.
pub open spec fn status_bit(status: u32, channel: u32) -> bool {
    (status >> channel) & 1u32 == 1u32
}

pub struct NotifyView {
    /// The hardware filter and interrupt have been armed.
    pub initialized: bool,
    /// The channels with a live subscription.
    pub subscribed: Seq<bool>,
    /// The channels whose notification waits for its consumer: at most one
    /// each, a later one taking the place of an earlier.
    pub pending: Seq<bool>,
}

/// The table, indexed by channel, between the touch interrupt and the
/// threads that wait on each channel. All of its storage is made when the
/// table is; posting from the interrupt writes flags in place.
pub struct NotifyTable {
    initialized: bool,
    subscribed: Vec<bool>,
    pending: Vec<bool>,
}

impl View for NotifyTable {
    type V = NotifyView;

    closed spec fn view(&self) -> NotifyView {
        NotifyView {
            initialized: self.initialized,
            subscribed: self.subscribed@,
            pending: self.pending@,
        }
    }
}

/// The pending flags after one interrupt; nothing is posted where the status
/// could not be cleared.
pub open spec fn posted(v: NotifyView, status: u32, cleared: bool) -> Seq<bool> {
    if cleared {
        Seq::new(10, |c: int| v.pending[c] || (v.subscribed[c] && status_bit(status, c as u32)))
    } else {
        v.pending
    }
}

/// The level that a consumer is handed for a notification's value.
pub open spec fn level_of(v: u32) -> Value {
    if v != 0 {
        Value::High
    } else {
        Value::Low
    }
}

pub fn notification_level(v: u32) -> (r: Value)
    ensures
        r == level_of(v),
{
    if v != 0 {
        Value::High
    } else {
        Value::Low
    }
}

impl NotifyTable {
    pub open spec fn wf(&self) -> bool {
        self@.subscribed.len() == 10 && self@.pending.len() == 10
    }

    /// A table with no subscription, before the hardware is armed.
    pub fn new() -> (r: NotifyTable)
        ensures
            r.wf(),
            !r@.initialized,
            r@.subscribed == Seq::new(10, |i: int| false),
            r@.pending == Seq::new(10, |i: int| false),
    {
        NotifyTable { initialized: false, subscribed: all_false(), pending: all_false() }
    }

    /// Register the consumer of `channel`. `Ok(true)` says that the hardware
    /// must be armed now: this is the first subscription; later ones find it
    /// armed and get `Ok(false)`.
    pub fn subscribe(&mut self, channel: u32) -> (r: Result<bool, TouchError>)
        requires
            old(self).wf(),
        ensures
            final(self).wf(),
            channel >= 10 ==> r == Err::<bool, TouchError>(TouchError::InvalidChannel(channel))
                && final(self)@ == old(self)@,
            channel < 10 && old(self)@.subscribed[channel as int] ==> r == Err::<bool, TouchError>(
                TouchError::DuplicateChannel(channel),
            ) && final(self)@ == old(self)@,
            channel < 10 && !old(self)@.subscribed[channel as int] ==> r == Ok::<bool, TouchError>(
                !old(self)@.initialized,
            ) && final(self)@ == (NotifyView {
                initialized: true,
                subscribed: old(self)@.subscribed.update(channel as int, true),
                pending: old(self)@.pending,
            }),
    {
        if channel as usize >= NUM_TOUCH_PINS {
            return Err(TouchError::InvalidChannel(channel));
        }
        if self.subscribed[channel as usize] {
            return Err(TouchError::DuplicateChannel(channel));
        }
        let first = !self.initialized;
        self.initialized = true;
        self.subscribed.set(channel as usize, true);
        Ok(first)
    }

    /// Drop the consumer of `channel`, and any notification that waits for it.
    pub fn unsubscribe(&mut self, channel: u32)
        requires
            old(self).wf(),
        ensures
            final(self).wf(),
            channel >= 10 ==> final(self)@ == old(self)@,
            channel < 10 ==> final(self)@ == (NotifyView {
                initialized: old(self)@.initialized,
                subscribed: old(self)@.subscribed.update(channel as int, false),
                pending: old(self)@.pending.update(channel as int, false),
            }),
    {
        if (channel as usize) < NUM_TOUCH_PINS {
            self.subscribed.set(channel as usize, false);
            self.pending.set(channel as usize, false);
        }
    }

    /// The interrupt's work: `status` is the interrupt status that was read,
    /// `cleared` whether clearing it succeeded. Each subscribed channel whose
    /// bit is set gets its notification; where the status could not be
    /// cleared the cycle is dropped. The loop runs once per channel, however
    /// many are pending, and allocates nothing.
    pub fn post_from_interrupt(&mut self, status: u32, cleared: bool)
        requires
            old(self).wf(),
        ensures
            final(self).wf(),
            final(self)@ == (NotifyView { pending: posted(old(self)@, status, cleared), ..old(self)@ }),
    {
        if !cleared {
            return;
        }
        let ghost before = self.pending@;
        let mut c: usize = 0;
        while c < NUM_TOUCH_PINS
            invariant
                c <= NUM_TOUCH_PINS,
                self.wf(),
                self.initialized == old(self).initialized,
                self.subscribed@ == old(self).subscribed@,
                before == old(self).pending@,
                forall|i: int|
                    0 <= i < 10 ==> #[trigger] self.pending@[i] == if i < c {
                        before[i] || (self.subscribed@[i] && status_bit(status, i as u32))
                    } else {
                        before[i]
                    },
            decreases NUM_TOUCH_PINS - c,
        {
            if self.subscribed[c] && (status >> (c as u32)) & 1u32 == 1u32 {
                self.pending.set(c, true);
            }
            c = c + 1;
        }
        assert(self.pending@ =~= posted(old(self)@, status, cleared));
    }

    /// The consumer of `channel` takes its notification, if one waits.
    pub fn take_notification(&mut self, channel: u32) -> (r: bool)
        requires
            old(self).wf(),
        ensures
            final(self).wf(),
            r == (channel < 10 && old(self)@.pending[channel as int]),
            channel >= 10 ==> final(self)@ == old(self)@,
            channel < 10 ==> final(self)@ == (NotifyView {
                pending: old(self)@.pending.update(channel as int, false),
                ..old(self)@
            }),
    {
        if channel as usize >= NUM_TOUCH_PINS {
            return false;
        }
        let r = self.pending[channel as usize];
        self.pending.set(channel as usize, false);
        r
    }
}

/// Notifications do not queue: each channel holds at most one, so posting
/// the same status twice leaves what posting it once left, and the table
/// keeps one flag per channel whatever was posted.
pub proof fn lemma_post_latest_wins(v: NotifyView, status: u32, cleared: bool)
    requires
        v.subscribed.len() == 10,
        v.pending.len() == 10,
    ensures
        posted(v, status, cleared).len() == 10,
        posted(NotifyView { pending: posted(v, status, cleared), ..v }, status, cleared) == posted(
            v,
            status,
            cleared,
        ),
{
    assert(posted(NotifyView { pending: posted(v, status, cleared), ..v }, status, cleared) =~= posted(
        v,
        status,
        cleared,
    ));
}

} // verus!
