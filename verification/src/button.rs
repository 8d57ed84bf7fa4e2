//! The gesture engine of one push button.
//!
//! The engine is fed one raw pin level and one timestamp per pass of the
//! event loop. It filters contact bounce, and tells a short press (a click)
//! from a press that lasts (a hold). A hold is reported in the pass in which
//! the press crosses the hold threshold and, where the configuration names a
//! repeat interval, again each time that interval has gone by while the
//! button stays down. The engine reads neither pin nor clock itself.

use crate::instant::Instant;
use vstd::prelude::*;

verus! {

/// How the button is wired, which decides the pin level that means "down".
#[derive(Clone, Copy, Debug, PartialEq, Eq, Structural)]
pub enum Mode {
    /// The pin is pulled up and the button pulls it low: low is active.
    PullUp,
    /// The pin is pulled down and the button pulls it high: high is active.
    PullDown,
}

impl Mode {
    /// Whether a pin at level `high` means that the button is down.
    pub open spec fn active(self, high: bool) -> bool {
        match self {
            Mode::PullUp => !high,
            Mode::PullDown => high,
        }
    }

    /// Whether the button is active at logic zero.
    pub fn is_pullup(&self) -> (b: bool)
        ensures
            b == (*self == Mode::PullUp),
    {
        match self {
            Mode::PullUp => true,
            Mode::PullDown => false,
        }
    }

    /// Whether the button is active at logic one.
    pub fn is_pulldown(&self) -> (b: bool)
        ensures
            b == (*self == Mode::PullDown),
    {
        !self.is_pullup()
    }

    /// Whether a pin at level `high` means that the button is down.
    pub fn is_active(&self, high: bool) -> (a: bool)
        ensures
            a == self.active(high),
    {
        high != self.is_pullup()
    }
}

impl Default for Mode {
    fn default() -> (mode: Mode)
        ensures
            mode == Mode::PullUp,
    {
        Mode::PullUp
    }
}

/// The debounce interval of [`ButtonConfig::default`], in microseconds.
pub const DEFAULT_DEBOUNCE: u64 = 900;

/// The hold threshold of [`ButtonConfig::default`], in microseconds.
pub const DEFAULT_HOLD: u64 = 500_000;

/// The parameters of one button. All intervals are in microseconds.
#[derive(Clone, Copy, Debug, PartialEq, Eq, Structural)]
pub struct ButtonConfig {
    /// How long a changed pin level has to last before it counts.
    pub debounce: u64,
    /// How long a press has to last to be a hold and no longer a click.
    pub hold: u64,
    /// The interval after which a button that is held reports its hold once
    /// more, or `None` for a hold that is reported once only.
    pub repeat: Option<u64>,
    /// The wiring of the button.
    pub mode: Mode,
}

impl ButtonConfig {
    /// A configuration whose holds are reported once.
    pub fn new(debounce: u64, hold: u64, mode: Mode) -> (config: ButtonConfig)
        ensures
            config == (ButtonConfig { debounce, hold, repeat: None, mode }),
    {
        ButtonConfig { debounce, hold, repeat: None, mode }
    }

    /// The same configuration, with holds that are reported again every
    /// `interval` while the button stays down.
    pub fn with_repeat(self, interval: u64) -> (config: ButtonConfig)
        ensures
            config == (ButtonConfig { repeat: Some(interval), ..self }),
    {
        ButtonConfig {
            debounce: self.debounce,
            hold: self.hold,
            repeat: Some(interval),
            mode: self.mode,
        }
    }
}

impl Default for ButtonConfig {
    fn default() -> (config: ButtonConfig)
        ensures
            config == (ButtonConfig {
                debounce: DEFAULT_DEBOUNCE,
                hold: DEFAULT_HOLD,
                repeat: None,
                mode: Mode::PullUp,
            }),
    {
        ButtonConfig {
            debounce: DEFAULT_DEBOUNCE,
            hold: DEFAULT_HOLD,
            repeat: None,
            mode: Mode::PullUp,
        }
    }
}

/// The debounced state of a button.
#[derive(Clone, Copy, Debug, PartialEq, Eq, Structural)]
pub enum Phase {
    /// The button is up.
    Idle,
    /// The button is down, for less than the hold threshold so far.
    Pressed,
    /// The button is down and the hold threshold has been crossed.
    Held,
}

/// The button as the contracts see it. All times are microseconds.
pub struct ButtonModel {
    pub config: ButtonConfig,
    /// The debounced state.
    pub phase: Phase,
    /// When the raw level first took the value that the debounced level now
    /// has.
    pub since: nat,
    /// When the raw level began to differ from the debounced level, while
    /// that change is not yet old enough to count.
    pub pending: Option<nat>,
    /// The time of the latest sample.
    pub last: nat,
    /// A click was completed and not yet consumed.
    pub clicked: bool,
    /// The hold events that were not yet consumed.
    pub holds: nat,
    /// When the latest hold event came in.
    pub last_hold: nat,
    /// When the latest click was completed.
    pub last_click: Option<nat>,
}

impl ButtonModel {
    /// A button that has seen no sample yet.
    pub open spec fn new(config: ButtonConfig) -> ButtonModel {
        ButtonModel {
            config,
            phase: Phase::Idle,
            since: 0,
            pending: None,
            last: 0,
            clicked: false,
            holds: 0,
            last_hold: 0,
            last_click: None,
        }
    }

    /// No recorded time lies after the latest sample, a change that waits
    /// began after the level it wants to replace, and the hold counter has
    /// not passed its ceiling.
    pub open spec fn wf(self) -> bool {
        &&& self.since <= self.last
        &&& (self.pending matches Some(t) ==> self.since <= t <= self.last)
        &&& self.last_hold <= self.last
        &&& (self.last_click matches Some(t) ==> t <= self.last)
        &&& self.holds <= u32::MAX
    }

    /// The debounced level: whether the button counts as down.
    pub open spec fn pressed(self) -> bool {
        self.phase != Phase::Idle
    }

    /// When the raw level that a sample at `now` shows began to differ from
    /// the debounced level, given that it does differ.
    pub open spec fn change_began(self, now: nat) -> nat {
        match self.pending {
            Some(t) => t,
            None => now,
        }
    }

    /// The debounce stage of a sample. A raw level that agrees with the
    /// debounced one drops any change that was waiting. One that differs is
    /// honoured once it has lasted for the debounce interval, and waits
    /// until then. A release that is honoured while the button is
    /// `Pressed` completes a click.
    pub open spec fn settle(self, active: bool, now: nat) -> ButtonModel {
        let began = self.change_began(now);
        if active == self.pressed() {
            ButtonModel { pending: None, last: now, ..self }
        } else if now - began < self.config.debounce {
            ButtonModel { pending: Some(began), last: now, ..self }
        } else if active {
            ButtonModel { phase: Phase::Pressed, since: began, pending: None, last: now, ..self }
        } else {
            ButtonModel {
                phase: Phase::Idle,
                since: began,
                pending: None,
                last: now,
                clicked: self.clicked || self.phase == Phase::Pressed,
                last_click: if self.phase == Phase::Pressed {
                    Some(now)
                } else {
                    self.last_click
                },
                ..self
            }
        }
    }

    /// The hold counter after one more hold event: it stops at its ceiling.
    pub open spec fn one_more_hold(self) -> nat {
        if self.holds < u32::MAX {
            self.holds + 1
        } else {
            self.holds
        }
    }

    /// Whether a sample at `now` that shows the pin active brings a hold
    /// event. A `Pressed` button has one when the press has lasted for the
    /// hold threshold. A `Held` button has one when a repeat interval is
    /// configured and has gone by since its latest hold event.
    pub open spec fn hold_due(self, now: nat) -> bool {
        match self.phase {
            Phase::Idle => false,
            Phase::Pressed => now - self.since >= self.config.hold,
            Phase::Held => self.config.repeat matches Some(interval) && now - self.last_hold
                >= interval,
        }
    }

    /// The hold stage of a sample, after the debounce stage: where the pin
    /// is active and a hold event is due, the button is `Held` and counts
    /// one more hold event, dated `now`. A sample brings one hold event at
    /// most.
    pub open spec fn ripen(self, active: bool, now: nat) -> ButtonModel {
        if active && self.hold_due(now) {
            ButtonModel {
                phase: Phase::Held,
                holds: self.one_more_hold(),
                last_hold: now,
                ..self
            }
        } else {
            self
        }
    }

    /// The button after a sample of the pin, `high`, taken at `now`.
    pub open spec fn tick(self, high: bool, now: nat) -> ButtonModel {
        let active = self.config.mode.active(high);
        self.settle(active, now).ripen(active, now)
    }

    /// The button after its click and hold events were consumed. The
    /// debounced state and all times stay.
    pub open spec fn reset(self) -> ButtonModel {
        ButtonModel { clicked: false, holds: 0, ..self }
    }
}

/// One push button: its configuration, its debounced state and the events
/// that the event loop has not consumed yet.
#[derive(Debug)]
pub struct Button {
    config: ButtonConfig,
    phase: Phase,
    since: Instant,
    pending: Option<Instant>,
    last: Instant,
    clicked: bool,
    holds: u32,
    last_hold: Instant,
    last_click: Option<Instant>,
}

impl View for Button {
    type V = ButtonModel;

    closed spec fn view(&self) -> ButtonModel {
        ButtonModel {
            config: self.config,
            phase: self.phase,
            since: self.since@,
            pending: match self.pending {
                Some(t) => Some(t@),
                None => None,
            },
            last: self.last@,
            clicked: self.clicked,
            holds: self.holds as nat,
            last_hold: self.last_hold@,
            last_click: match self.last_click {
                Some(t) => Some(t@),
                None => None,
            },
        }
    }
}

impl Button {
    /// What holds of every button at all times.
    #[verifier::type_invariant]
    pub open spec fn inv(self) -> bool {
        self@.wf()
    }

    /// A button that is up and has seen no sample yet.
    pub fn new(config: ButtonConfig) -> (button: Button)
        ensures
            button@ == ButtonModel::new(config),
    {
        Button {
            config,
            phase: Phase::Idle,
            since: Instant::start(),
            pending: None,
            last: Instant::start(),
            clicked: false,
            holds: 0,
            last_hold: Instant::start(),
            last_click: None,
        }
    }

    /// The parameters that the button was made with.
    pub fn config(&self) -> (config: ButtonConfig)
        ensures
            config == self@.config,
    {
        self.config
    }

    /// The debounced state.
    pub fn phase(&self) -> (phase: Phase)
        ensures
            phase == self@.phase,
    {
        self.phase
    }

    /// The debounced level: whether the button counts as down.
    pub fn is_pressed(&self) -> (down: bool)
        ensures
            down == self@.pressed(),
    {
        match self.phase {
            Phase::Idle => false,
            Phase::Pressed => true,
            Phase::Held => true,
        }
    }

    /// When the raw level first took the value that the debounced level now
    /// has.
    pub fn since(&self) -> (t: Instant)
        ensures
            t@ == self@.since,
    {
        self.since
    }

    /// The time of the latest sample, before which no further sample may be
    /// dated.
    pub fn last_sample(&self) -> (t: Instant)
        ensures
            t@ == self@.last,
    {
        self.last
    }

    /// When the latest hold event came in. Before the first one this is the
    /// start of the clock.
    pub fn last_hold(&self) -> (t: Instant)
        ensures
            t@ == self@.last_hold,
    {
        self.last_hold
    }

    /// When the latest click was completed, if there was one.
    pub fn last_click(&self) -> (t: Option<Instant>)
        ensures
            t.is_some() == self@.last_click.is_some(),
            t matches Some(at) ==> self@.last_click == Some(at@),
    {
        self.last_click
    }

    /// Whether a click was completed since the events were last consumed.
    pub fn is_clicked(&self) -> (clicked: bool)
        ensures
            clicked == self@.clicked,
    {
        self.clicked
    }

    /// The hold events since the events were last consumed.
    pub fn holds(&self) -> (holds: u32)
        ensures
            holds == self@.holds,
    {
        self.holds
    }

    /// Consumes the click and hold events. The debounced state and its
    /// timers stay as they are.
    pub fn reset(&mut self)
        ensures
            final(self)@ == old(self)@.reset(),
    {
        proof {
            use_type_invariant(&*self);
        }
        *self = Button {
            config: self.config,
            phase: self.phase,
            since: self.since,
            pending: self.pending,
            last: self.last,
            clicked: false,
            holds: 0,
            last_hold: self.last_hold,
            last_click: self.last_click,
        };
    }

    /// Takes in one sample: the pin was at level `high` at time `now`.
    /// Samples come in the order of their times.
    pub fn tick(&mut self, high: bool, now: Instant)
        requires
            old(self)@.last <= now@,
        ensures
            final(self)@ == old(self)@.tick(high, now@),
    {
        proof {
            use_type_invariant(&*self);
        }
        let active = self.config.mode.is_active(high);
        let mut phase = self.phase;
        let mut since = self.since;
        let mut pending = self.pending;
        let mut clicked = self.clicked;
        let mut holds = self.holds;
        let mut last_hold = self.last_hold;
        let mut last_click = self.last_click;
        if active == self.is_pressed() {
            pending = None;
        } else {
            let began = match self.pending {
                Some(t) => t,
                None => now,
            };
            if now - began < self.config.debounce {
                pending = Some(began);
            } else {
                if active {
                    phase = Phase::Pressed;
                } else {
                    if phase == Phase::Pressed {
                        clicked = true;
                        last_click = Some(now);
                    }
                    phase = Phase::Idle;
                }
                since = began;
                pending = None;
            }
        }
        let due = match phase {
            Phase::Idle => false,
            Phase::Pressed => now - since >= self.config.hold,
            Phase::Held => match self.config.repeat {
                Some(interval) => now - last_hold >= interval,
                None => false,
            },
        };
        if active && due {
            phase = Phase::Held;
            holds = holds.saturating_add(1);
            last_hold = now;
        }
        *self = Button {
            config: self.config,
            phase,
            since,
            pending,
            last: now,
            clicked,
            holds,
            last_hold,
            last_click,
        };
    }
}

} // verus!
