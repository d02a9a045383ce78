//! Polling-rate measurement for input devices.
//!
//! Every motion or key event of a device is stamped with a monotonic time in
//! microseconds. From two successive stamps the library derives an
//! instantaneous rate in hertz, keeps the most recent plausible rates of each
//! device in a bounded window and reports their integer mean.
//!
//! The library neither reads a clock nor prints: the caller hands in the time
//! of each event and shows the lines that come back.
//!
//! - [`rate`]: the arithmetic of samples and windows.
//! - [`stats`]: the record of one device and its estimator.
//! - [`theory`]: what holds of the estimator for every sequence of events.
//! - [`session`]: the devices of one run, and its closing report.
//! - [`text`]: the lines a run shows.
//! - [`cli`]: the command line.
//! - [`evdev_source`], [`poll_source`], [`tap_source`]: which happenings of
//!   each event source count as an event of which device.

pub mod cli;
pub mod evdev_source;
pub mod poll_source;
pub mod rate;
pub mod session;
pub mod stats;
pub mod tap_source;
pub mod text;
pub mod theory;
