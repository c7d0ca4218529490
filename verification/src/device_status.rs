//! The stages of device initialisation that a driver reports through the
//! device status field, in the order in which the driver typically sets them.

use vstd::prelude::*;

verus! {

pub const INIT: u32 = 0;

pub const ACKNOWLEDGE: u32 = 1;

pub const DRIVER: u32 = 2;

pub const FAILED: u32 = 128;

pub const FEATURES_OK: u32 = 8;

pub const DRIVER_OK: u32 = 4;

pub const DEVICE_NEEDS_RESET: u32 = 64;

} // verus!
