//! One worker connection: its life cycle, its heartbeat and what it does with
//! the frames that arrive.

use crate::api::{waited, AppState, Config};
use crate::correlation::{resolves, without, Entries};
use crate::messages::{ImageMessage, ImageRequest};
use crate::pool::{PoolView, WorkerHandle};
use vstd::prelude::*;

verus! {

/// A request on its way to one worker: the request identifier and the payload.
#[derive(Debug, Clone, PartialEq, Eq)]
pub struct ProcessImageForWs(pub u128, pub Vec<u8>);

/// Where a connection stands in its life.
#[derive(Clone, Copy, Debug, PartialEq, Eq, Structural)]
pub enum ConnectionState {
    /// The handshake is under way; the worker is not in the pool yet.
    Connecting,
    /// The worker is in the pool and the heartbeat runs.
    Active,
    /// The connection is going down; its worker is still to be deregistered.
    Closing,
    /// The end: the worker is out of the pool and the handle is spent.
    Closed,
}

/// What arrived on a connection.
#[derive(Debug, PartialEq, Eq)]
pub enum Frame {
    /// A liveness probe of the peer, with the bytes to echo.
    Ping(Vec<u8>),
    /// The peer's acknowledgment of a probe.
    Pong,
    /// A text frame: the message it holds, or `None` if it holds none.
    Text(Option<ImageMessage>),
    /// A binary frame, which no worker should send.
    Binary,
    /// The peer closes the connection.
    Close,
    /// Any other frame.
    Other,
    /// No frame: the transport failed.
    Broken,
}

/// What the caller has to do after a frame was handled.
#[derive(Debug, PartialEq, Eq)]
pub enum Reaction {
    /// Acknowledge the peer's probe with these bytes.
    Pong(Vec<u8>),
    /// Nothing to send: the reply went to the call that waited for this request.
    Delivered(u128),
    /// Nothing to send: no call waits for this request any more, and the reply
    /// was dropped.
    Unclaimed(u128),
    /// Nothing to send: the worker broke the protocol, and the frame was dropped.
    Violation,
    /// Nothing to send: the text held no message, and the frame was dropped.
    Malformed,
    /// Stop the connection.
    Stop,
    /// Nothing at all.
    Nothing,
}

/// What the caller has to do after a heartbeat tick.
#[derive(Clone, Copy, Debug, PartialEq, Eq, Structural)]
pub enum Beat {
    /// Send a liveness probe.
    Probe,
    /// Stop the connection: the worker has been silent for too long.
    Stop,
    /// Nothing: the connection is not active.
    Nothing,
}

/// One connection to a worker.
#[derive(Clone, Copy, Debug, PartialEq, Eq, Structural)]
pub struct DataProcessorWs {
    /// When the worker was last heard of, in milliseconds.
    pub hb: u64,
    /// The handle under which the worker is registered, once it is.
    pub self_addr: Option<WorkerHandle>,
    pub state: ConnectionState,
}

/// Whether a frame of this kind counts as a sign of life. Every frame does; a
/// failure of the transport is no frame.
pub open spec fn is_activity(frame: Frame) -> bool {
    !(frame is Broken)
}

/// Whether this arrival ends the connection.
pub open spec fn ends_connection(frame: Frame) -> bool {
    frame is Close || frame is Broken
}

/// What an active connection answers to `frame`, with `entries` pending.
pub open spec fn reaction_to(frame: Frame, entries: Entries) -> Reaction {
    match frame {
        Frame::Ping(bytes) => Reaction::Pong(bytes),
        Frame::Pong => Reaction::Nothing,
        Frame::Text(Some(ImageMessage::Response(response))) => if resolves(
            entries,
            response.request_id,
        ) {
            Reaction::Delivered(response.request_id)
        } else {
            Reaction::Unclaimed(response.request_id)
        },
        Frame::Text(Some(ImageMessage::Request(_))) => Reaction::Violation,
        Frame::Text(None) => Reaction::Malformed,
        Frame::Binary => Reaction::Violation,
        Frame::Close => Reaction::Stop,
        Frame::Other => Reaction::Nothing,
        Frame::Broken => Reaction::Stop,
    }
}

/// The pending requests after an active connection handled `frame`: a response
/// takes the entry of its request away, and nothing else changes anything.
pub open spec fn entries_after(frame: Frame, entries: Entries) -> Entries {
    match frame {
        Frame::Text(Some(ImageMessage::Response(response))) => without(
            entries,
            response.request_id,
        ),
        _ => entries,
    }
}

impl DataProcessorWs {
    /// The connection as it is accepted at `now`.
    pub open spec fn accepted(now: u64) -> DataProcessorWs {
        DataProcessorWs { hb: now, self_addr: None, state: ConnectionState::Connecting }
    }

    /// The connection after its handshake succeeded at `now` and it was given
    /// `handle`. Only a connecting connection becomes active.
    pub open spec fn after_started(self, handle: WorkerHandle, now: u64) -> DataProcessorWs {
        if self.state is Connecting {
            DataProcessorWs { hb: now, self_addr: Some(handle), state: ConnectionState::Active }
        } else {
            self
        }
    }

    /// The handle that stopping this connection takes out of the pool, if any.
    pub open spec fn leaving(self) -> Option<WorkerHandle> {
        if self.state is Closed {
            None
        } else {
            self.self_addr
        }
    }

    /// The connection after it stopped.
    pub open spec fn after_stopping(self) -> DataProcessorWs {
        DataProcessorWs { hb: self.hb, self_addr: self.self_addr, state: ConnectionState::Closed }
    }

    /// The connection after `frame` arrived at `now`. A connection that is not
    /// active takes no notice.
    pub open spec fn after_frame(self, frame: Frame, now: u64) -> DataProcessorWs {
        if self.state is Active {
            DataProcessorWs {
                hb: if is_activity(frame) {
                    now
                } else {
                    self.hb
                },
                self_addr: self.self_addr,
                state: if ends_connection(frame) {
                    ConnectionState::Closing
                } else {
                    ConnectionState::Active
                },
            }
        } else {
            self
        }
    }

    /// Whether the worker has been silent for longer than the timeout at `now`.
    pub open spec fn timed_out(self, config: Config, now: u64) -> bool {
        waited(self.hb, now) > config.heartbeat_timeout_ms
    }

    /// What a heartbeat tick at `now` asks for.
    pub open spec fn beat(self, config: Config, now: u64) -> Beat {
        if !(self.state is Active) {
            Beat::Nothing
        } else if self.timed_out(config, now) {
            Beat::Stop
        } else {
            Beat::Probe
        }
    }

    /// The connection after a heartbeat tick at `now`.
    pub open spec fn after_heartbeat(self, config: Config, now: u64) -> DataProcessorWs {
        if self.state is Active && self.timed_out(config, now) {
            DataProcessorWs { hb: self.hb, self_addr: self.self_addr, state: ConnectionState::Closing }
        } else {
            self
        }
    }

    /// The connection after it was told to shut down.
    pub open spec fn after_shutdown(self) -> DataProcessorWs {
        if self.state is Active {
            DataProcessorWs { hb: self.hb, self_addr: self.self_addr, state: ConnectionState::Closing }
        } else {
            self
        }
    }

    /// A connection that was accepted at `now` and whose handshake is under way.
    pub fn new(now: u64) -> (connection: DataProcessorWs)
        ensures
            connection == DataProcessorWs::accepted(now),
    {
        DataProcessorWs { hb: now, self_addr: None, state: ConnectionState::Connecting }
    }

    /// The handshake succeeded: the connection becomes active and registers
    /// `handle` in the pool. Tells whether it did; a connection that is not
    /// connecting stays as it is and registers nothing.
    pub fn started(&mut self, handle: WorkerHandle, app_state: &mut AppState, now: u64) -> (activated:
        bool)
        ensures
            activated == (old(self).state is Connecting),
            *final(self) == old(self).after_started(handle, now),
            final(app_state).data_processors@ == if activated {
                old(app_state).data_processors@.register(handle)
            } else {
                old(app_state).data_processors@
            },
            final(app_state).pending_requests@ == old(app_state).pending_requests@,
            final(app_state).config == old(app_state).config,
    {
        match self.state {
            ConnectionState::Connecting => {
                app_state.data_processors.register(handle);
                self.self_addr = Some(handle);
                self.hb = now;
                self.state = ConnectionState::Active;
                true
            },
            _ => false,
        }
    }

    /// The connection ends: its worker is deregistered, once, and the
    /// connection is closed. Stopping a closed connection does nothing.
    pub fn stopping(&mut self, app_state: &mut AppState)
        ensures
            *final(self) == old(self).after_stopping(),
            final(app_state).data_processors@ == match old(self).leaving() {
                Some(handle) => old(app_state).data_processors@.deregister(handle),
                None => old(app_state).data_processors@,
            },
            final(app_state).pending_requests@ == old(app_state).pending_requests@,
            final(app_state).config == old(app_state).config,
    {
        match self.state {
            ConnectionState::Closed => {},
            _ => {
                match self.self_addr {
                    Some(handle) => {
                        app_state.data_processors.deregister(handle);
                    },
                    None => {},
                }
                self.state = ConnectionState::Closed;
            },
        }
    }

    /// Handles what arrived at `now`. Every frame counts as a sign of life. A
    /// response goes to the call that waits for it; a close frame or a broken
    /// transport ends the connection; everything else is answered or dropped,
    /// and the connection stays.
    pub fn handle(&mut self, frame: Frame, app_state: &mut AppState, now: u64) -> (reaction: Reaction)
        ensures
            *final(self) == old(self).after_frame(frame, now),
            reaction == if old(self).state is Active {
                reaction_to(frame, old(app_state).pending_requests@)
            } else {
                Reaction::Nothing
            },
            final(app_state).pending_requests@ == if old(self).state is Active {
                entries_after(frame, old(app_state).pending_requests@)
            } else {
                old(app_state).pending_requests@
            },
            final(app_state).data_processors@ == old(app_state).data_processors@,
            final(app_state).config == old(app_state).config,
    {
        match self.state {
            ConnectionState::Active => {},
            _ => {
                return Reaction::Nothing;
            },
        }
        match frame {
            Frame::Broken => {
                self.state = ConnectionState::Closing;
                return Reaction::Stop;
            },
            _ => {},
        }
        self.hb = now;
        match frame {
            Frame::Ping(bytes) => Reaction::Pong(bytes),
            Frame::Text(Some(ImageMessage::Response(response))) => {
                let request_id = response.request_id;
                match app_state.pending_requests.resolve(request_id, response.processed_image_data) {
                    Ok(_) => Reaction::Delivered(request_id),
                    Err(_) => Reaction::Unclaimed(request_id),
                }
            },
            Frame::Text(Some(ImageMessage::Request(_))) => Reaction::Violation,
            Frame::Text(None) => Reaction::Malformed,
            Frame::Binary => Reaction::Violation,
            Frame::Close => {
                self.state = ConnectionState::Closing;
                Reaction::Stop
            },
            _ => Reaction::Nothing,
        }
    }

    /// A heartbeat tick at `now`: a worker that has been silent for longer than
    /// the timeout loses its connection, any other active worker is probed.
    pub fn heartbeat(&mut self, config: &Config, now: u64) -> (beat: Beat)
        ensures
            beat == old(self).beat(*config, now),
            *final(self) == old(self).after_heartbeat(*config, now),
    {
        match self.state {
            ConnectionState::Active => {},
            _ => {
                return Beat::Nothing;
            },
        }
        let silent_ms: u64 = if now >= self.hb {
            now - self.hb
        } else {
            0
        };
        if silent_ms > config.heartbeat_timeout_ms {
            self.state = ConnectionState::Closing;
            Beat::Stop
        } else {
            Beat::Probe
        }
    }

    /// Tells an active connection to go down. Tells whether it was active.
    pub fn shutdown(&mut self) -> (was_active: bool)
        ensures
            was_active == (old(self).state is Active),
            *final(self) == old(self).after_shutdown(),
    {
        match self.state {
            ConnectionState::Active => {
                self.state = ConnectionState::Closing;
                true
            },
            _ => false,
        }
    }

    /// The message that carries `request` to the worker, if the connection is
    /// active. A connection that is not active takes no requests.
    pub fn forward(&self, request: ProcessImageForWs) -> (message: Option<ImageMessage>)
        ensures
            message == if self.state is Active {
                Some(
                    ImageMessage::Request(
                        ImageRequest { request_id: request.0, image_data: request.1 },
                    ),
                )
            } else {
                None
            },
    {
        match self.state {
            ConnectionState::Active => Some(
                ImageMessage::Request(ImageRequest { request_id: request.0, image_data: request.1 }),
            ),
            _ => None,
        }
    }
}

/// A worker that stays silent for longer than the heartbeat timeout loses its
/// connection without any read error: the next heartbeat tick asks for the
/// stop, the stop closes the connection and deregisters its handle, and a
/// handle that was registered once is then in the pool no more.
pub proof fn law_silent_worker_is_evicted(
    connection: DataProcessorWs,
    pool: PoolView,
    config: Config,
    now: u64,
)
    requires
        connection.state is Active,
        connection.self_addr is Some,
        connection.timed_out(config, now),
    ensures
        connection.beat(config, now) == Beat::Stop,
        connection.after_heartbeat(config, now).state == ConnectionState::Closing,
        connection.after_heartbeat(config, now).leaving() == connection.self_addr,
        connection.after_heartbeat(config, now).after_stopping().state == ConnectionState::Closed,
        pool.workers.no_duplicates() ==> !pool.deregister(
            connection.self_addr->Some_0,
        ).workers.contains(connection.self_addr->Some_0),
{
    let handle = connection.self_addr->Some_0;
    if pool.workers.no_duplicates() {
        crate::pool::lemma_deregister_removes(pool, handle);
    }
}

/// Closed is the end. Whatever state a connection is in, stopping it closes it,
/// and a second stop finds no handle to deregister; and nothing that happens
/// to a closed connection changes it or asks anything of the caller.
pub proof fn law_closed_is_final(
    connection: DataProcessorWs,
    frame: Frame,
    handle: WorkerHandle,
    config: Config,
    now: u64,
)
    ensures
        connection.after_stopping().state == ConnectionState::Closed,
        connection.after_stopping().leaving() is None,
        connection.state is Closed ==> {
            &&& connection.after_stopping() == connection
            &&& connection.after_started(handle, now) == connection
            &&& connection.after_frame(frame, now) == connection
            &&& connection.after_heartbeat(config, now) == connection
            &&& connection.after_shutdown() == connection
            &&& connection.beat(config, now) == Beat::Nothing
        },
{
}

} // verus!
