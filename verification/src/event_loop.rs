//! The decisions of the event loop.
//!
//! One pass of the loop samples both buttons, sends at most one key per
//! button to the window, has the window redrawn and then clears the
//! buttons' events. Sampling the pins, reading the clock, sending the keys
//! and redrawing are the caller's part. What is decided here is what the
//! buttons make of the samples and which keys follow from it.

use crate::button::{Button, ButtonConfig, ButtonModel};
use crate::instant::{time_at, Clock, Instant};
use vstd::prelude::*;

verus! {

/// A key that the window understands.
#[derive(Clone, Copy, Debug, PartialEq, Eq, Structural)]
pub enum Key {
    UpArrow,
    DownArrow,
    LeftArrow,
    RightArrow,
}

/// The key presses that one pass sends to the window: first the one of the
/// up button, then the one of the down button.
#[derive(Clone, Copy, Debug, PartialEq, Eq, Structural)]
pub struct KeyEvents {
    pub up: Option<Key>,
    pub down: Option<Key>,
}

/// The key that a button's events stand for: `on_click` where a click was
/// completed, else `on_hold` where exactly one hold event has come in, else
/// none.
pub open spec fn gesture_key(button: ButtonModel, on_click: Key, on_hold: Key) -> Option<Key> {
    if button.clicked {
        Some(on_click)
    } else if button.holds == 1 {
        Some(on_hold)
    } else {
        None
    }
}

/// The key that the events of `button` stand for.
pub fn key_for(button: &Button, on_click: Key, on_hold: Key) -> (key: Option<Key>)
    ensures
        key == gesture_key(button@, on_click, on_hold),
{
    if button.is_clicked() {
        Some(on_click)
    } else if button.holds() == 1 {
        Some(on_hold)
    } else {
        None
    }
}

/// The key of a pass loses no event. A sample of a button whose events were
/// consumed before it never brings both a click and a hold, and never more
/// than one hold event: so the key is `on_click` where the sample completed
/// a click, `on_hold` where it brought a hold event, and none where it
/// brought nothing.
pub proof fn lemma_key_names_the_event(
    m: ButtonModel,
    high: bool,
    now: nat,
    on_click: Key,
    on_hold: Key,
)
    requires
        !m.clicked,
        m.holds == 0,
    ensures
        !(m.tick(high, now).clicked && m.tick(high, now).holds > 0),
        gesture_key(m.tick(high, now), on_click, on_hold) == if m.tick(high, now).clicked {
            Some(on_click)
        } else if m.tick(high, now).holds > 0 {
            Some(on_hold)
        } else {
            None
        },
{
}

/// The clock and the two buttons as the contracts see them.
pub struct EventLoopView {
    /// The time of the latest pass, in microseconds.
    pub now: nat,
    pub up: ButtonModel,
    pub down: ButtonModel,
}

impl EventLoopView {
    /// Neither button has seen a sample that is later than the clock's
    /// latest.
    pub open spec fn wf(self) -> bool {
        self.up.last <= self.now && self.down.last <= self.now
    }

    /// The keys of a pass, from the buttons as their samples left them. A
    /// click of the up button is the up arrow and its hold the right arrow,
    /// a click of the down button is the down arrow and its hold the left
    /// arrow. Without a window no key is sent.
    pub open spec fn keys(self, window_present: bool) -> KeyEvents {
        if window_present {
            KeyEvents {
                up: gesture_key(self.up, Key::UpArrow, Key::RightArrow),
                down: gesture_key(self.down, Key::DownArrow, Key::LeftArrow),
            }
        } else {
            KeyEvents { up: None, down: None }
        }
    }
}

/// The state that the event loop carries from pass to pass: its clock and
/// its two buttons.
#[derive(Debug)]
pub struct EventLoop {
    clock: Clock,
    up: Button,
    down: Button,
}

impl View for EventLoop {
    type V = EventLoopView;

    closed spec fn view(&self) -> EventLoopView {
        EventLoopView { now: self.clock@, up: self.up@, down: self.down@ }
    }
}

impl EventLoop {
    /// An event loop whose two buttons share one configuration and have
    /// seen no sample yet.
    pub fn new(config: ButtonConfig) -> (event_loop: EventLoop)
        ensures
            event_loop@.wf(),
            event_loop@.now == 0,
            event_loop@.up == ButtonModel::new(config),
            event_loop@.down == ButtonModel::new(config),
    {
        EventLoop { clock: Clock::new(), up: Button::new(config), down: Button::new(config) }
    }

    /// The time of the latest pass.
    pub fn now(&self) -> (t: Instant)
        ensures
            t@ == self@.now,
    {
        self.clock.latest()
    }

    /// The up button.
    pub fn up(&self) -> (button: &Button)
        ensures
            button@ == self@.up,
    {
        &self.up
    }

    /// The down button.
    pub fn down(&self) -> (button: &Button)
        ensures
            button@ == self@.down,
    {
        &self.down
    }

    /// The first half of a pass. The clock takes its sample from `ticks`,
    /// the reading of the hardware counter. Both buttons take in theirs, the
    /// levels `up_high` and `down_high` of their pins, dated by the clock.
    /// The result holds the keys to send to the window, if there is one.
    pub fn poll(&mut self, up_high: bool, down_high: bool, ticks: u64, window_present: bool) -> (keys:
        KeyEvents)
        requires
            old(self)@.wf(),
        ensures
            final(self)@.wf(),
            final(self)@.now == time_at(old(self)@.now, ticks),
            final(self)@.up == old(self)@.up.tick(up_high, final(self)@.now),
            final(self)@.down == old(self)@.down.tick(down_high, final(self)@.now),
            keys == final(self)@.keys(window_present),
    {
        let now = self.clock.sample(ticks);
        self.up.tick(up_high, now);
        self.down.tick(down_high, now);
        if window_present {
            KeyEvents {
                up: key_for(&self.up, Key::UpArrow, Key::RightArrow),
                down: key_for(&self.down, Key::DownArrow, Key::LeftArrow),
            }
        } else {
            KeyEvents { up: None, down: None }
        }
    }

    /// The end of a pass, after the keys were sent and the window was
    /// redrawn: the events of both buttons are consumed.
    pub fn finish(&mut self)
        requires
            old(self)@.wf(),
        ensures
            final(self)@.wf(),
            final(self)@.now == old(self)@.now,
            final(self)@.up == old(self)@.up.reset(),
            final(self)@.down == old(self)@.down.reset(),
    {
        self.up.reset();
        self.down.reset();
    }
}

} // verus!
