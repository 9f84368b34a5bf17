//! Control of a Linux force-feedback (rumble) input device.
//!
//! The library holds the verified core of a small rumble utility: locating a
//! device node that advertises rumble support, building the effect descriptor
//! and play-request records exchanged with the kernel driver, the wire layout
//! of those records, and the upload / play / wait / remove protocol. All
//! device I/O (opening nodes, ioctls, writes, sleeping) is performed by an
//! unverified driver loop that asks the library for each next step.

pub mod controller;
pub mod effect;
pub mod locator;
pub mod wire;

use vstd::prelude::*;

verus! {

/// Validated command-line inputs for one rumble session.
pub struct Cli {
    /// Duration of each vibration in milliseconds.
    pub length: u16,
    /// Time between vibrations in milliseconds.
    pub interval: u16,
    /// Number of vibrations.
    pub count: u16,
    /// Explicit force-feedback device path, if one was given.
    pub device_path: Option<String>,
}

} // verus!
