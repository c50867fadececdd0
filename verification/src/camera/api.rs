//! The plain values that the capture device reports.

use vstd::prelude::*;

verus! {

/// The number of the device slot that every call addresses.
pub const MAIN_DEV: i32 = 0;

/// A frame rate, as a fraction of `num` frames in `den` seconds.
#[derive(Clone, Copy, Debug, PartialEq, Eq, Structural)]
pub struct CFpsInfo {
    pub den: u32,
    pub num: u32,
}

/// The range of one control of a device, with its default, its step and its
/// flags.
#[derive(Clone, Copy, Debug, PartialEq, Eq, Structural)]
pub struct CVideoCtrl {
    pub min: i32,
    pub max: i32,
    pub deft: i32,
    pub step: i32,
    pub flag: u32,
}

} // verus!
