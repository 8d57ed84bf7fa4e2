//! Verified core of a small speedometer dashboard for a micro-controller with
//! an SPI display and two push buttons.
//!
//! - [`instant`]: a monotonic timestamp and the clock that hands timestamps
//!   out in order.
//! - [`button`]: the gesture engine of one push button, which filters contact
//!   bounce and tells clicks from holds.
//! - [`gestures`]: what the engine makes of whole runs of samples, proved.
//! - [`line_buffer`]: the scan-line buffer that hands pixel rows to the
//!   display.
//! - [`event_loop`]: the decisions of one pass of the event loop.
//! - [`speedometer`], [`dashboard`], [`theme`]: the plain data of the
//!   dashboard itself.
//!
//! The library reads no pin and no clock and writes to no bus: its callers
//! do, and hand it plain values.

pub mod button;
pub mod dashboard;
pub mod event_loop;
pub mod gestures;
pub mod instant;
pub mod line_buffer;
pub mod speedometer;
pub mod theme;

pub use button::{Button, ButtonConfig, Mode, Phase};
pub use dashboard::{Dashboard, Message};
pub use event_loop::{EventLoop, Key, KeyEvents};
pub use instant::{Clock, Instant};
pub use line_buffer::{DrawBuffer, LineWrite};
pub use speedometer::{Speedometer, Tick};
pub use theme::Theme;
