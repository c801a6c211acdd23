//! Input pipeline of a small battery-powered button controller.
//!
//! The crate turns noisy pin samples into debounced key events, turns the
//! events of one scan into a HID keyboard report, and decides what the
//! wireless link and the status LED have to do next. It performs no I/O:
//! callers sample pins, read the clock, sleep and talk to the radio, and hand
//! plain values in and out.

pub mod ble;
pub mod hid;
pub mod input;
pub mod key;
pub mod kontroller;
pub mod layout;
pub mod led;
pub mod proto;
pub mod registry;
pub mod timing;
