//! The verified core of a desktop system monitor: the stored preference, the
//! settings page's draft, the text of the home page, and the controller that
//! routes ticks, navigation and settings messages between them.
//!
//! Nothing here touches the disk, the screen or the host's counters. The
//! program around this library reads and writes files, samples the host and
//! draws widgets; it hands plain values in and carries out what comes back.

pub mod config;
pub mod decimal;
pub mod document;
pub mod laws;
pub mod views;
pub mod window;
