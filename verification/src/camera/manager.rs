//! The cameras of one machine, each under the name of its device: those that
//! are closed and those that are open. No name occurs twice.

use super::adapter::DevInfo;
use super::camera::{
    asks_for, grabbed, index_error, ClosedCamera, OpenRequest, OpenView, OpenedCamera,
};
use vstd::prelude::*;
use vstd::std_specs::convert::FromSpecImpl;

verus! {

/// Why the manager could not do what it was asked.
#[derive(Debug, Clone, PartialEq, Eq)]
pub enum Error {
    /// No camera of this name is in the state that the operation needs.
    ClosedCameraNotFound(String),
    /// The camera was found and its step failed.
    CameraError(super::camera::Error),
}

/// An error with its texts as sequences of characters.
pub enum ErrorView {
    ClosedCameraNotFound(Seq<char>),
    CameraError(super::camera::ErrorView),
}

impl View for Error {
    type V = ErrorView;

    open spec fn view(&self) -> ErrorView {
        match *self {
            Error::ClosedCameraNotFound(name) => ErrorView::ClosedCameraNotFound(name@),
            Error::CameraError(error) => ErrorView::CameraError(error@),
        }
    }
}

impl From<super::camera::Error> for Error {
    fn from(error: super::camera::Error) -> (wrapped: Error) {
        Error::CameraError(error)
    }
}

impl FromSpecImpl<super::camera::Error> for Error {
    open spec fn obeys_from_spec() -> bool {
        true
    }

    open spec fn from_spec(error: super::camera::Error) -> Error {
        Error::CameraError(error)
    }
}

/// Where taking one frame from an open camera stands: what the device is
/// asked next, or the frame.
#[derive(Debug, Clone, PartialEq, Eq)]
pub enum GrabStep {
    /// Start the stream. `room` is the size of one frame in bytes.
    Play { room: u32 },
    /// Fill `buffer` with one frame.
    Grab { buffer: Vec<u8> },
    /// Stop the stream. The frame is in hand.
    Stop { frame: Vec<u8> },
    /// Nothing more: this is the frame.
    Done { frame: Vec<u8> },
}

/// What the device answered: its code, and after a grab the buffer that it
/// filled with the length that it reported. After any other step the buffer
/// and the length are not read.
#[derive(Debug, Clone, PartialEq, Eq)]
pub struct DeviceReply {
    pub code: i32,
    pub buffer: Vec<u8>,
    pub len: usize,
}

/// The cameras of a manager: the devices of the closed ones, and the open ones.
pub struct ManagerView {
    pub closed: Seq<DevInfo>,
    pub opened: Seq<OpenView>,
}

impl ManagerView {
    /// The names of the closed cameras, in their order.
    pub open spec fn closed_names(self) -> Seq<Seq<char>> {
        Seq::new(self.closed.len(), |i: int| self.closed[i].device@)
    }

    /// The names of the open cameras, in their order.
    pub open spec fn opened_names(self) -> Seq<Seq<char>> {
        Seq::new(self.opened.len(), |i: int| self.opened[i].info.device@)
    }

    /// The names of all cameras: the closed ones, then the open ones.
    pub open spec fn names(self) -> Seq<Seq<char>> {
        self.closed_names() + self.opened_names()
    }

    /// No name occurs twice.
    pub open spec fn wf(self) -> bool {
        self.names().no_duplicates()
    }

    /// Where the closed camera of this name stands, if there is one.
    pub open spec fn closed_at(self, name: Seq<char>) -> Option<int> {
        self.closed_names().index_of_first(name)
    }

    /// Where the open camera of this name stands, if there is one.
    pub open spec fn opened_at(self, name: Seq<char>) -> Option<int> {
        self.opened_names().index_of_first(name)
    }
}

/// The closed cameras that a list of devices gives: each device in its turn
/// takes the place of an earlier device of the same name, or joins at the end.
pub open spec fn enumerated(devices: Seq<DevInfo>) -> Seq<DevInfo>
    decreases devices.len(),
{
    if devices.len() == 0 {
        Seq::empty()
    } else {
        let before = enumerated(devices.drop_last());
        let view = ManagerView { closed: before, opened: Seq::empty() };
        match view.closed_at(devices.last().device@) {
            Some(i) => before.update(i, devices.last()),
            None => before.push(devices.last()),
        }
    }
}

/// The cameras of one machine.
pub struct CameraManager {
    closed_cameras: Vec<ClosedCamera>,
    opened_cameras: Vec<OpenedCamera>,
}

impl View for CameraManager {
    type V = ManagerView;

    closed spec fn view(&self) -> ManagerView {
        ManagerView {
            closed: Seq::new(self.closed_cameras@.len(), |i: int| self.closed_cameras@[i].info),
            opened: Seq::new(self.opened_cameras@.len(), |i: int| self.opened_cameras@[i]@),
        }
    }
}

/// Distinct names stay distinct when one of them leaves or moves to the end.
proof fn lemma_move_keeps_distinct(names: Seq<Seq<char>>, i: int)
    requires
        names.no_duplicates(),
        0 <= i < names.len(),
    ensures
        names.remove(i).no_duplicates(),
        names.remove(i).push(names[i]).no_duplicates(),
        !names.remove(i).contains(names[i]),
{
    let rest = names.remove(i);
    assert forall|j: int| 0 <= j < rest.len() implies rest[j] == names[if j < i {
        j
    } else {
        j + 1
    }] by {}
    assert forall|j: int, k: int| 0 <= j < rest.len() && 0 <= k < rest.len() && j != k implies rest[j]
        != rest[k] by {
        let from_j = if j < i {
            j
        } else {
            j + 1
        };
        let from_k = if k < i {
            k
        } else {
            k + 1
        };
        assert(rest[j] == names[from_j]);
        assert(rest[k] == names[from_k]);
    }
    assert forall|j: int| 0 <= j < rest.len() implies rest[j] != names[i] by {
        let from_j = if j < i {
            j
        } else {
            j + 1
        };
        assert(rest[j] == names[from_j]);
    }
    let moved = rest.push(names[i]);
    assert forall|j: int, k: int| 0 <= j < moved.len() && 0 <= k < moved.len() && j
        != k implies moved[j] != moved[k] by {
        if j < rest.len() {
            assert(moved[j] == rest[j]);
        }
        if k < rest.len() {
            assert(moved[k] == rest[k]);
        }
    }
}

impl CameraManager {
    /// The index of the closed camera of this name.
    fn find_closed(&self, name: &String) -> (at: Option<usize>)
        ensures
            match at {
                Some(i) => i < self@.closed.len() && self@.closed_at(name@) == Some(i as int),
                None => self@.closed_at(name@) is None,
            },
    {
        let mut i: usize = 0;
        while i < self.closed_cameras.len()
            invariant
                i <= self.closed_cameras.len(),
                forall|j: int| 0 <= j < i ==> self@.closed_names()[j] != name@,
            decreases self.closed_cameras.len() - i,
        {
            if self.closed_cameras[i].info.device == *name {
                proof {
                    assert(self@.closed_names()[i as int] == name@);
                    self@.closed_names().index_of_first_ensures(name@);
                }
                return Some(i);
            }
            assert(self@.closed_names()[i as int] != name@);
            i += 1;
        }
        proof {
            self@.closed_names().index_of_first_ensures(name@);
        }
        None
    }

    /// The index of the open camera of this name.
    fn find_opened(&self, name: &String) -> (at: Option<usize>)
        ensures
            match at {
                Some(i) => i < self@.opened.len() && self@.opened_at(name@) == Some(i as int),
                None => self@.opened_at(name@) is None,
            },
    {
        let mut i: usize = 0;
        while i < self.opened_cameras.len()
            invariant
                i <= self.opened_cameras.len(),
                forall|j: int| 0 <= j < i ==> self@.opened_names()[j] != name@,
            decreases self.opened_cameras.len() - i,
        {
            if *self.opened_cameras[i].device_name() == *name {
                proof {
                    assert(self@.opened_names()[i as int] == name@);
                    self@.opened_names().index_of_first_ensures(name@);
                }
                return Some(i);
            }
            assert(self@.opened_names()[i as int] != name@);
            i += 1;
        }
        proof {
            self@.opened_names().index_of_first_ensures(name@);
        }
        None
    }

    /// The manager of these devices, all of them closed. Of two devices with
    /// one name the later one counts.
    pub fn new(devices: Vec<DevInfo>) -> (manager: CameraManager)
        ensures
            manager@.closed == enumerated(devices@),
            manager@.opened.len() == 0,
            manager@.wf(),
    {
        let mut manager = CameraManager { closed_cameras: Vec::new(), opened_cameras: Vec::new() };
        let mut rest = devices;
        let ghost mut done: Seq<DevInfo> = Seq::empty();
        assert(manager@.closed =~= enumerated(done));
        assert(manager@.names() =~= Seq::<Seq<char>>::empty());
        while rest.len() > 0
            invariant
                done + rest@ == devices@,
                manager@.closed == enumerated(done),
                manager@.opened.len() == 0,
                manager@.wf(),
            decreases rest.len(),
        {
            let ghost before = manager@;
            let device = rest.remove(0);
            proof {
                assert(done.push(device) + rest@ =~= devices@);
                assert(done.push(device).drop_last() =~= done);
                assert((ManagerView { closed: before.closed, opened: Seq::empty() }).closed_names()
                    =~= before.closed_names());
                before.closed_names().index_of_first_ensures(device.device@);
                done = done.push(device);
            }
            match manager.find_closed(&device.device) {
                Some(i) => {
                    manager.closed_cameras.set(i, ClosedCamera { info: device });
                    proof {
                        assert(manager@.closed =~= before.closed.update(i as int, device));
                        assert(manager@.names() =~= before.names());
                    }
                },
                None => {
                    manager.closed_cameras.push(ClosedCamera { info: device });
                    proof {
                        assert(manager@.closed =~= before.closed.push(device));
                        assert(before.opened_names() =~= Seq::<Seq<char>>::empty());
                        assert(before.names() =~= before.closed_names());
                        assert(manager@.names() =~= before.closed_names().push(device.device@));
                        assert(!before.closed_names().contains(device.device@));
                    }
                },
            }
        }
        assert(done =~= devices@);
        manager
    }

    /// The names of all cameras: the closed ones, then the open ones.
    pub fn get_camera_list(&self) -> (list: Vec<String>)
        ensures
            list@.len() == self@.names().len(),
            forall|i: int| 0 <= i < list@.len() ==> (#[trigger] list@[i])@ == self@.names()[i],
    {
        let mut list: Vec<String> = Vec::new();
        let mut i: usize = 0;
        while i < self.closed_cameras.len()
            invariant
                i <= self.closed_cameras.len(),
                list@.len() == i,
                forall|j: int| 0 <= j < i ==> (#[trigger] list@[j])@ == self@.closed_names()[j],
            decreases self.closed_cameras.len() - i,
        {
            list.push(self.closed_cameras[i].info.device.clone());
            i += 1;
        }
        let mut k: usize = 0;
        while k < self.opened_cameras.len()
            invariant
                k <= self.opened_cameras.len(),
                list@.len() == self.closed_cameras.len() + k,
                forall|j: int|
                    0 <= j < self.closed_cameras.len() ==> (#[trigger] list@[j])@
                        == self@.closed_names()[j],
                forall|j: int|
                    0 <= j < k ==> (#[trigger] list@[self.closed_cameras.len() + j])@
                        == self@.opened_names()[j],
            decreases self.opened_cameras.len() - k,
        {
            list.push(self.opened_cameras[k].device_name().clone());
            k += 1;
        }
        assert forall|j: int| 0 <= j < list@.len() implies (#[trigger] list@[j])@
            == self@.names()[j] by {
            if j >= self.closed_cameras.len() {
                let shifted = j - self.closed_cameras.len();
                assert(list@[self.closed_cameras.len() + shifted]@ == self@.opened_names()[shifted]);
            }
        }
        list
    }

    /// What to ask the device in order to open the closed camera of this name
    /// in the given mode.
    pub fn open_request(
        &self,
        dev_name: &str,
        fmt_index: usize,
        res_index: usize,
        fps_index: usize,
    ) -> (request: Result<OpenRequest, Error>)
        ensures
            match self@.closed_at(dev_name@) {
                None => request matches Err(e) && e@ == ErrorView::ClosedCameraNotFound(dev_name@),
                Some(i) => match index_error(self@.closed[i], fmt_index, res_index, fps_index) {
                    Some(error) => request matches Err(e) && e@ == ErrorView::CameraError(error),
                    None => request matches Ok(r) && asks_for(
                        r,
                        self@.closed[i],
                        fmt_index,
                        res_index,
                        fps_index,
                    ),
                },
            },
    {
        let name = dev_name.to_owned();
        match self.find_closed(&name) {
            None => Err(Error::ClosedCameraNotFound(name)),
            Some(i) => match self.closed_cameras[i].open_request(fmt_index, res_index, fps_index) {
                Ok(request) => Ok(request),
                Err(error) => Err(Error::CameraError(error)),
            },
        }
    }

    /// Opens the closed camera of this name in the given mode, `code` being
    /// what the device answered to the request of `open_request`. The camera
    /// leaves the closed ones in any case; it joins the open ones if the
    /// opening succeeded, and is given up if it failed.
    pub fn open_camera(
        &mut self,
        dev_name: &str,
        fmt_index: usize,
        res_index: usize,
        fps_index: usize,
        code: i32,
    ) -> (done: Result<(), Error>)
        requires
            old(self)@.wf(),
            old(self)@.closed_at(dev_name@) matches Some(i) ==> (old(self)@.closed[i].offers(
                fmt_index,
                res_index,
                fps_index,
            ) ==> old(self)@.closed[i].frame_bytes(fmt_index, res_index) <= u32::MAX),
        ensures
            final(self)@.wf(),
            match old(self)@.closed_at(dev_name@) {
                None => {
                    &&& done matches Err(e)
                    &&& e@ == ErrorView::ClosedCameraNotFound(dev_name@)
                    &&& final(self)@ == old(self)@
                },
                Some(i) => {
                    &&& final(self)@.closed == old(self)@.closed.remove(i)
                    &&& match index_error(old(self)@.closed[i], fmt_index, res_index, fps_index) {
                        Some(error) => {
                            &&& done matches Err(e)
                            &&& e@ == ErrorView::CameraError(error)
                            &&& final(self)@.opened == old(self)@.opened
                        },
                        None => if code < 0 {
                            &&& done matches Err(e)
                            &&& e@ == ErrorView::CameraError(
                                super::camera::ErrorView::OpenCameraFailed(dev_name@, code),
                            )
                            &&& final(self)@.opened == old(self)@.opened
                        } else {
                            &&& done is Ok
                            &&& final(self)@.opened == old(self)@.opened.push(
                                OpenView {
                                    info: old(self)@.closed[i],
                                    video_size: old(self)@.closed[i].frame_bytes(
                                        fmt_index,
                                        res_index,
                                    ) as u32,
                                },
                            )
                        },
                    }
                },
            },
    {
        let name = dev_name.to_owned();
        let ghost before = self@;
        match self.find_closed(&name) {
            None => {
                assert(self@ == before);
                Err(Error::ClosedCameraNotFound(name))
            },
            Some(i) => {
                proof {
                    before.closed_names().index_of_first_ensures(name@);
                }
                let camera = self.closed_cameras.remove(i);
                proof {
                    assert(self@.closed =~= before.closed.remove(i as int));
                    assert(self@.opened =~= before.opened);
                    assert(self@.closed_names() =~= before.closed_names().remove(i as int));
                    assert(before.names().remove(i as int) =~= self@.names());
                    assert(before.names()[i as int] == name@);
                    lemma_move_keeps_distinct(before.names(), i as int);
                }
                match camera.open(fmt_index, res_index, fps_index, code) {
                    Ok(opened) => {
                        self.opened_cameras.push(opened);
                        proof {
                            assert(self@.closed =~= before.closed.remove(i as int));
                            assert(self@.opened =~= before.opened.push(opened@));
                            assert(self@.names() =~= before.names().remove(i as int).push(name@));
                        }
                        Ok(())
                    },
                    Err(error) => Err(Error::CameraError(error)),
                }
            },
        }
    }

    /// Begins to take one frame from the open camera of this name: the device
    /// is to start the stream. Fails if no camera of this name is open.
    pub fn grab_frame(&self, dev_name: &str) -> (step: Result<GrabStep, Error>)
        ensures
            match self@.opened_at(dev_name@) {
                None => step matches Err(e) && e@ == ErrorView::ClosedCameraNotFound(dev_name@),
                Some(i) => step matches Ok(GrabStep::Play { room }) && room
                    == self@.opened[i].video_size,
            },
    {
        let name = dev_name.to_owned();
        match self.find_opened(&name) {
            None => Err(Error::ClosedCameraNotFound(name)),
            Some(i) => Ok(GrabStep::Play { room: self.opened_cameras[i].video_size() }),
        }
    }
}

impl GrabStep {
    /// The step that follows this one, `reply` being what the device answered
    /// to it. A negative code fails the step and ends the taking of the frame;
    /// otherwise the stream is started, then the buffer filled and cut or
    /// filled up to the reported length, then the stream stopped.
    pub fn next(self, reply: DeviceReply) -> (step: Result<GrabStep, Error>)
        ensures
            match self {
                GrabStep::Play { room } => if reply.code < 0 {
                    step matches Err(e) && e@ == ErrorView::CameraError(
                        super::camera::ErrorView::PlayCameraFailed(reply.code),
                    )
                } else {
                    step matches Ok(GrabStep::Grab { buffer }) && buffer@ == Seq::new(
                        room as nat,
                        |k: int| 0u8,
                    )
                },
                GrabStep::Grab { .. } => if reply.code < 0 {
                    step matches Err(e) && e@ == ErrorView::CameraError(
                        super::camera::ErrorView::GrabFrameFailed(reply.code),
                    )
                } else {
                    step matches Ok(GrabStep::Stop { frame }) && frame@ == grabbed(
                        reply.buffer@,
                        reply.len,
                    )
                },
                GrabStep::Stop { frame } => if reply.code < 0 {
                    step matches Err(e) && e@ == ErrorView::CameraError(
                        super::camera::ErrorView::StopCameraFailed(reply.code),
                    )
                } else {
                    step matches Ok(GrabStep::Done { frame: taken }) && taken == frame
                },
                GrabStep::Done { frame } => step matches Ok(GrabStep::Done { frame: taken })
                    && taken == frame,
            },
    {
        match self {
            GrabStep::Play { room } => {
                if reply.code < 0 {
                    return Err(
                        Error::CameraError(super::camera::Error::PlayCameraFailed(reply.code)),
                    );
                }
                let buffer = vec![0u8; room as usize];
                assert(buffer@ =~= Seq::new(room as nat, |k: int| 0u8));
                Ok(GrabStep::Grab { buffer })
            },
            GrabStep::Grab { buffer: _ } => {
                if reply.code < 0 {
                    return Err(
                        Error::CameraError(super::camera::Error::GrabFrameFailed(reply.code)),
                    );
                }
                let mut frame = reply.buffer;
                frame.resize(reply.len, 0);
                assert(frame@ =~= grabbed(reply.buffer@, reply.len));
                Ok(GrabStep::Stop { frame })
            },
            GrabStep::Stop { frame } => {
                if reply.code < 0 {
                    return Err(
                        Error::CameraError(super::camera::Error::StopCameraFailed(reply.code)),
                    );
                }
                Ok(GrabStep::Done { frame })
            },
            GrabStep::Done { frame } => Ok(GrabStep::Done { frame }),
        }
    }
}

} // verus!
