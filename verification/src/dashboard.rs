//! The state of the dashboard and the messages that change it.

use crate::speedometer::{speedometer, Speedometer};
use crate::theme::Theme;
use vstd::prelude::*;

verus! {

/// The high end of the dashboard's dial.
pub const MAX_SPEED: u32 = 200;

/// The low end of the dashboard's dial.
pub const MIN_SPEED: u32 = 0;

/// The time after which a free-running dashboard gains one unit of speed,
/// in microseconds.
pub const SPEED_STEP_INTERVAL: u64 = 1_000_000;

/// What can happen to the dashboard.
#[derive(Debug, Clone, Copy, PartialEq, Eq, Structural)]
pub enum Message {
    /// Nothing happened.
    Nothing,
    /// The speed to show has changed.
    SpeedChanged(u32),
}

/// What a dashboard holds.
pub struct DashboardView {
    pub speed: u32,
    pub theme: Theme,
}

/// The dashboard: the speed to show and the theme to show it in.
#[derive(Debug)]
pub struct Dashboard {
    speed: u32,
    theme: Theme,
}

impl View for Dashboard {
    type V = DashboardView;

    closed spec fn view(&self) -> DashboardView {
        DashboardView { speed: self.speed, theme: self.theme }
    }
}

impl Default for Dashboard {
    fn default() -> (dashboard: Dashboard)
        ensures
            dashboard@ == (DashboardView { speed: 0, theme: Theme::Dark }),
    {
        Dashboard { speed: 0, theme: Theme::Dark }
    }
}

impl Dashboard {
    /// The speed to show.
    pub fn speed(&self) -> (speed: u32)
        ensures
            speed == self@.speed,
    {
        self.speed
    }

    /// The theme to show it in.
    pub fn theme(&self) -> (theme: Theme)
        ensures
            theme == self@.theme,
    {
        self.theme
    }

    /// Applies a message: a changed speed replaces the speed, and nothing
    /// else changes anything.
    pub fn update(&mut self, message: Message)
        ensures
            final(self)@.theme == old(self)@.theme,
            final(self)@.speed == match message {
                Message::SpeedChanged(value) => value,
                Message::Nothing => old(self)@.speed,
            },
    {
        match message {
            Message::SpeedChanged(value) => {
                self.speed = value;
            },
            Message::Nothing => {},
        }
    }

    /// Lets a free-running dashboard gain speed: once more than
    /// `SPEED_STEP_INTERVAL` has elapsed since the speed last changed, it
    /// goes up by one, unless it is at the top of its range already. The
    /// result says whether it did, and so whether the interval starts anew.
    pub fn advance(&mut self, elapsed: u64) -> (stepped: bool)
        ensures
            stepped == (elapsed > SPEED_STEP_INTERVAL && old(self)@.speed < u32::MAX),
            final(self)@.theme == old(self)@.theme,
            final(self)@.speed == if stepped {
                (old(self)@.speed + 1) as u32
            } else {
                old(self)@.speed
            },
    {
        if elapsed > SPEED_STEP_INTERVAL && self.speed < u32::MAX {
            self.speed = self.speed + 1;
            true
        } else {
            false
        }
    }

    /// The gauge that the dashboard shows: a dial from `MIN_SPEED` to
    /// `MAX_SPEED` with the needle at the dashboard's speed, or at the end of
    /// the dial where the speed is beyond it.
    pub fn gauge(&self) -> (gauge: Speedometer)
        ensures
            gauge@.min_speed == MIN_SPEED,
            gauge@.max_speed == MAX_SPEED,
            gauge@.speed == if self@.speed <= MAX_SPEED { self@.speed } else { MAX_SPEED },
    {
        speedometer(MIN_SPEED, MAX_SPEED, self.speed)
    }
}

} // verus!
