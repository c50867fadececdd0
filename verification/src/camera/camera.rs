//! The states of one camera: closed, opened, playing. Each step consumes the
//! camera in one state and yields it in the next, or fails with the code that
//! the device gave.

use super::adapter::DevInfo;
use super::api::MAIN_DEV;
use vstd::prelude::*;

verus! {

/// Why a step of a camera failed.
#[derive(Debug, Clone, PartialEq, Eq)]
pub enum Error {
    /// The list named first, whose length is the second field, has no entry at
    /// the index in the third.
    IndexOutOfBounds(String, usize, usize),
    /// The device refused to open the camera of this name, with this code.
    OpenCameraFailed(String, i32),
    /// The device refused to start the stream, with this code.
    PlayCameraFailed(i32),
    /// The device refused to stop the stream, with this code.
    StopCameraFailed(i32),
    /// The device gave no frame, but this code.
    GrabFrameFailed(i32),
}

/// An error with its texts as sequences of characters.
pub enum ErrorView {
    IndexOutOfBounds(Seq<char>, usize, usize),
    OpenCameraFailed(Seq<char>, i32),
    PlayCameraFailed(i32),
    StopCameraFailed(i32),
    GrabFrameFailed(i32),
}

impl View for Error {
    type V = ErrorView;

    open spec fn view(&self) -> ErrorView {
        match *self {
            Error::IndexOutOfBounds(list, len, index) => ErrorView::IndexOutOfBounds(
                list@,
                len,
                index,
            ),
            Error::OpenCameraFailed(device, code) => ErrorView::OpenCameraFailed(device@, code),
            Error::PlayCameraFailed(code) => ErrorView::PlayCameraFailed(code),
            Error::StopCameraFailed(code) => ErrorView::StopCameraFailed(code),
            Error::GrabFrameFailed(code) => ErrorView::GrabFrameFailed(code),
        }
    }
}

/// What the device is asked when a camera is opened.
#[derive(Debug, Clone, PartialEq, Eq)]
pub struct OpenRequest {
    pub dev: i32,
    pub dev_name: String,
    pub pix_fmt: u32,
    pub w: u32,
    pub h: u32,
    pub fps_den: u32,
    pub fps_num: u32,
}

/// A camera that is not open.
#[derive(Debug, Clone, PartialEq, Eq)]
pub struct ClosedCamera {
    pub info: DevInfo,
}

/// A camera that is open and does not stream.
#[derive(Debug, Clone, PartialEq, Eq)]
pub struct OpenedCamera {
    pub info: DevInfo,
    video_size: u32,
}

/// A camera that streams.
#[derive(Debug, Clone, PartialEq, Eq)]
pub struct PlayingCamera {
    pub info: DevInfo,
    video_size: u32,
}

/// What an open camera is made of: the device, and the bytes of one frame.
pub struct OpenView {
    pub info: DevInfo,
    pub video_size: u32,
}

impl View for OpenedCamera {
    type V = OpenView;

    closed spec fn view(&self) -> OpenView {
        OpenView { info: self.info, video_size: self.video_size }
    }
}

impl View for PlayingCamera {
    type V = OpenView;

    closed spec fn view(&self) -> OpenView {
        OpenView { info: self.info, video_size: self.video_size }
    }
}

/// The first of the three indices that is out of bounds in `info`, as the error
/// that reports it; `None` if the device offers this mode.
pub open spec fn index_error(
    info: DevInfo,
    fmt_index: usize,
    res_index: usize,
    fps_index: usize,
) -> Option<ErrorView> {
    if fmt_index >= info.fmt_list@.len() {
        Some(ErrorView::IndexOutOfBounds("fmt_list"@, info.fmt_list@.len() as usize, fmt_index))
    } else if res_index >= info.fmt_list@[fmt_index as int].res_list@.len() {
        Some(
            ErrorView::IndexOutOfBounds(
                "res_list"@,
                info.fmt_list@[fmt_index as int].res_list@.len() as usize,
                res_index,
            ),
        )
    } else if fps_index >= info.resolution(fmt_index, res_index).fps_list@.len() {
        Some(
            ErrorView::IndexOutOfBounds(
                "fps_list"@,
                info.resolution(fmt_index, res_index).fps_list@.len() as usize,
                fps_index,
            ),
        )
    } else {
        None
    }
}

/// Whether `request` asks the device for this mode of `info`.
pub open spec fn asks_for(
    request: OpenRequest,
    info: DevInfo,
    fmt_index: usize,
    res_index: usize,
    fps_index: usize,
) -> bool {
    &&& request.dev == MAIN_DEV
    &&& request.dev_name@ == info.device@
    &&& request.pix_fmt == info.fmt_list@[fmt_index as int].pixfmt
    &&& request.w == info.resolution(fmt_index, res_index).w
    &&& request.h == info.resolution(fmt_index, res_index).h
    &&& request.fps_den == info.resolution(fmt_index, res_index).fps_list@[fps_index as int].den
    &&& request.fps_num == info.resolution(fmt_index, res_index).fps_list@[fps_index as int].num
}

/// The frame as the device left it: the first `len` bytes of the buffer, with
/// zeros behind them where the buffer is shorter.
pub open spec fn grabbed(buffer: Seq<u8>, len: usize) -> Seq<u8> {
    Seq::new(
        len as nat,
        |i: int|
            if i < buffer.len() {
                buffer[i]
            } else {
                0u8
            },
    )
}

impl ClosedCamera {
    /// What to ask the device in order to open this camera in the given mode.
    /// Fails with the first index that the device does not offer.
    pub fn open_request(&self, fmt_index: usize, res_index: usize, fps_index: usize) -> (request:
        Result<OpenRequest, Error>)
        ensures
            match index_error(self.info, fmt_index, res_index, fps_index) {
                Some(error) => request matches Err(e) && e@ == error,
                None => request matches Ok(r) && asks_for(
                    r,
                    self.info,
                    fmt_index,
                    res_index,
                    fps_index,
                ),
            },
    {
        if fmt_index >= self.info.fmt_list.len() {
            return Err(
                Error::IndexOutOfBounds(
                    "fmt_list".to_owned(),
                    self.info.fmt_list.len(),
                    fmt_index,
                ),
            );
        }
        let fmt_info = &self.info.fmt_list[fmt_index];
        if res_index >= fmt_info.res_list.len() {
            return Err(
                Error::IndexOutOfBounds("res_list".to_owned(), fmt_info.res_list.len(), res_index),
            );
        }
        let res_info = &fmt_info.res_list[res_index];
        if fps_index >= res_info.fps_list.len() {
            return Err(
                Error::IndexOutOfBounds("fps_list".to_owned(), res_info.fps_list.len(), fps_index),
            );
        }
        let fps_info = &res_info.fps_list[fps_index];
        Ok(
            OpenRequest {
                dev: MAIN_DEV,
                dev_name: self.info.device.clone(),
                pix_fmt: fmt_info.pixfmt,
                w: res_info.w,
                h: res_info.h,
                fps_den: fps_info.den,
                fps_num: fps_info.num,
            },
        )
    }

    /// Opens the camera in the given mode, `code` being what the device
    /// answered to the request of `open_request`. A mode that the device does
    /// not offer fails as in `open_request`, whatever the code; a negative code
    /// fails the opening. The opened camera keeps room for one frame of two
    /// bytes a pixel, which has to fit 32 bits.
    pub fn open(self, fmt_index: usize, res_index: usize, fps_index: usize, code: i32) -> (opened:
        Result<OpenedCamera, Error>)
        requires
            self.info.offers(fmt_index, res_index, fps_index) ==> self.info.frame_bytes(
                fmt_index,
                res_index,
            ) <= u32::MAX,
        ensures
            match index_error(self.info, fmt_index, res_index, fps_index) {
                Some(error) => opened matches Err(e) && e@ == error,
                None => if code < 0 {
                    opened matches Err(e) && e@ == ErrorView::OpenCameraFailed(
                        self.info.device@,
                        code,
                    )
                } else {
                    opened matches Ok(camera) && camera@.info == self.info && camera@.video_size
                        == self.info.frame_bytes(fmt_index, res_index)
                },
            },
    {
        let request = match self.open_request(fmt_index, res_index, fps_index) {
            Ok(request) => request,
            Err(error) => {
                return Err(error);
            },
        };
        if code < 0 {
            return Err(Error::OpenCameraFailed(request.dev_name, code));
        }
        assert(request.w * request.h <= u32::MAX && request.w * request.h * 2 <= u32::MAX)
            by (nonlinear_arith)
            requires
                request.w * request.h * 2 <= u32::MAX,
                0 <= request.w,
                0 <= request.h,
        ;
        Ok(OpenedCamera { info: self.info, video_size: request.w * request.h * 2 })
    }
}

impl OpenedCamera {
    /// The name of the device.
    pub fn device_name(&self) -> (name: &String)
        ensures
            name@ == self@.info.device@,
    {
        &self.info.device
    }

    /// The bytes of one frame.
    pub fn video_size(&self) -> (bytes: u32)
        ensures
            bytes == self@.video_size,
    {
        self.video_size
    }

    /// Closes the camera. The device is not asked: closing cannot fail.
    pub fn close(self) -> (closed: ClosedCamera)
        ensures
            closed.info == self@.info,
    {
        ClosedCamera { info: self.info }
    }

    /// Starts the stream, `code` being what the device answered. A negative
    /// code fails the start.
    pub fn play(self, code: i32) -> (playing: Result<PlayingCamera, Error>)
        ensures
            code < 0 ==> (playing matches Err(e) && e@ == ErrorView::PlayCameraFailed(code)),
            code >= 0 ==> (playing matches Ok(camera) && camera@ == self@),
    {
        if code < 0 {
            return Err(Error::PlayCameraFailed(code));
        }
        Ok(PlayingCamera { info: self.info, video_size: self.video_size })
    }
}

impl PlayingCamera {
    /// The bytes of one frame.
    pub fn video_size(&self) -> (bytes: u32)
        ensures
            bytes == self@.video_size,
    {
        self.video_size
    }

    /// Stops the stream, `code` being what the device answered. A negative code
    /// fails the stop.
    pub fn stop(self, code: i32) -> (stopped: Result<OpenedCamera, Error>)
        ensures
            code < 0 ==> (stopped matches Err(e) && e@ == ErrorView::StopCameraFailed(code)),
            code >= 0 ==> (stopped matches Ok(camera) && camera@ == self@),
    {
        if code < 0 {
            return Err(Error::StopCameraFailed(code));
        }
        Ok(OpenedCamera { info: self.info, video_size: self.video_size })
    }

    /// Stops the stream and closes the camera, `code` being what the device
    /// answered to the stop.
    pub fn close(self, code: i32) -> (closed: Result<ClosedCamera, Error>)
        ensures
            code < 0 ==> (closed matches Err(e) && e@ == ErrorView::StopCameraFailed(code)),
            code >= 0 ==> (closed matches Ok(camera) && camera.info == self@.info),
    {
        match self.stop(code) {
            Ok(opened) => Ok(opened.close()),
            Err(error) => Err(error),
        }
    }

    /// A buffer of zeros with room for one frame, for the device to fill.
    pub fn frame_buffer(&self) -> (buffer: Vec<u8>)
        ensures
            buffer@ == Seq::new(self@.video_size as nat, |i: int| 0u8),
    {
        let buffer = vec![0u8; self.video_size as usize];
        assert(buffer@ =~= Seq::new(self@.video_size as nat, |i: int| 0u8));
        buffer
    }

    /// The frame that the device put into `buffer`: `code` is what the device
    /// answered and `len` the length it reported. A negative code fails the
    /// grab; otherwise the buffer is cut or filled with zeros to `len` bytes.
    pub fn grab_frame(&self, code: i32, buffer: Vec<u8>, len: usize) -> (frame: Result<
        Vec<u8>,
        Error,
    >)
        ensures
            code < 0 ==> (frame matches Err(e) && e@ == ErrorView::GrabFrameFailed(code)),
            code >= 0 ==> (frame matches Ok(bytes) && bytes@ == grabbed(buffer@, len)),
    {
        if code < 0 {
            return Err(Error::GrabFrameFailed(code));
        }
        let mut frame = buffer;
        frame.resize(len, 0);
        assert(frame@ =~= grabbed(buffer@, len));
        Ok(frame)
    }
}

} // verus!
