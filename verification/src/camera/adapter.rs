//! What a device offers: its formats, their resolutions and their frame rates.

use super::api::{CFpsInfo, CVideoCtrl};
use vstd::prelude::*;
use vstd::std_specs::convert::FromSpecImpl;

verus! {

pub type FpsInfo = CFpsInfo;

/// One resolution of a format, with the frame rates it can run at.
#[derive(Debug, Clone, PartialEq, Eq)]
pub struct ResInfo {
    pub w: u32,
    pub h: u32,
    pub fps_list: Vec<FpsInfo>,
}

/// One pixel format of a device, with the resolutions it comes in.
#[derive(Debug, Clone, PartialEq, Eq)]
pub struct FmtInfo {
    pub desc: String,
    pub pixfmt: u32,
    pub res_list: Vec<ResInfo>,
}

/// One device. `device` is the name under which it is opened.
#[derive(Debug, Clone, PartialEq, Eq)]
pub struct DevInfo {
    pub device: String,
    pub name: String,
    pub manufacture: String,
    pub product: String,
    pub serial: String,
    pub vid: i32,
    pub pid: i32,
    pub fmt_list: Vec<FmtInfo>,
}

/// The range of one control of a device.
#[derive(Clone, Copy, Debug, PartialEq, Eq, Structural)]
pub struct VideoCtrl {
    pub min: i32,
    pub max: i32,
    pub deft: i32,
    pub step: i32,
    pub flag: u32,
}

impl DevInfo {
    /// Whether the device offers the format `fmt_index`, in it the resolution
    /// `res_index`, and in that the frame rate `fps_index`.
    pub open spec fn offers(&self, fmt_index: usize, res_index: usize, fps_index: usize) -> bool {
        &&& fmt_index < self.fmt_list@.len()
        &&& res_index < self.fmt_list@[fmt_index as int].res_list@.len()
        &&& fps_index < self.fmt_list@[fmt_index as int].res_list@[res_index as int].fps_list@.len()
    }

    /// The resolution `res_index` of the format `fmt_index`.
    pub open spec fn resolution(&self, fmt_index: usize, res_index: usize) -> ResInfo
        recommends
            fmt_index < self.fmt_list@.len(),
            res_index < self.fmt_list@[fmt_index as int].res_list@.len(),
    {
        self.fmt_list@[fmt_index as int].res_list@[res_index as int]
    }

    /// The bytes of one frame at that resolution: two for each pixel.
    pub open spec fn frame_bytes(&self, fmt_index: usize, res_index: usize) -> int
        recommends
            fmt_index < self.fmt_list@.len(),
            res_index < self.fmt_list@[fmt_index as int].res_list@.len(),
    {
        self.resolution(fmt_index, res_index).w * self.resolution(fmt_index, res_index).h * 2
    }
}

impl From<CVideoCtrl> for VideoCtrl {
    fn from(c_ctrl: CVideoCtrl) -> (ctrl: VideoCtrl) {
        VideoCtrl {
            min: c_ctrl.min,
            max: c_ctrl.max,
            deft: c_ctrl.deft,
            step: c_ctrl.step,
            flag: c_ctrl.flag,
        }
    }
}

impl FromSpecImpl<CVideoCtrl> for VideoCtrl {
    open spec fn obeys_from_spec() -> bool {
        true
    }

    open spec fn from_spec(c_ctrl: CVideoCtrl) -> VideoCtrl {
        VideoCtrl {
            min: c_ctrl.min,
            max: c_ctrl.max,
            deft: c_ctrl.deft,
            step: c_ctrl.step,
            flag: c_ctrl.flag,
        }
    }
}

} // verus!
