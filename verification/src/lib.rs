//! Decision logic of a Wi-Fi connected e-paper badge (RP2040 "Badger W").
//!
//! The crate decides how the Wi-Fi, NTP and MQTT tasks react to what the network
//! does and what they ask of it, how an instant becomes the date and time on the
//! panel and in the real-time clock, and which rectangles, labels and refreshes
//! the display gets. Drivers, sockets and timers stay outside: a task performs the
//! action it is told to perform and reports what came of it. So do two things that
//! work on floating point numbers: decoding the temperature in a message, and the
//! text of a temperature, which may take ten bytes.

pub mod badger;
pub mod calendar;
pub mod clock;
pub mod draw;
pub mod mqtt;
pub mod ntp;
pub mod reading;
pub mod text;
pub mod time_util;
pub mod wifi;
