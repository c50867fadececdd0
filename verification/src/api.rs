//! The shared state of the gateway and the life of one client call, from the
//! moment it arrives to the moment it is answered.

use crate::correlation::{without, CorrelationTable, Entries};
use crate::pool::{PoolView, WorkerHandle, WorkerPool};
use crate::web_socket_actor::ProcessImageForWs;
use tokio::sync::oneshot::Receiver;
use vstd::prelude::*;

verus! {

/// The timing of the gateway, in milliseconds. It is fixed for the life of the
/// process.
#[derive(Clone, Copy, Debug, PartialEq, Eq, Structural)]
pub struct Config {
    /// How long a client call waits for the worker's reply.
    pub reply_timeout_ms: u64,
    /// How often a connection checks on its worker.
    pub heartbeat_interval_ms: u64,
    /// How long a worker may stay silent before its connection is closed.
    pub heartbeat_timeout_ms: u64,
}

impl Config {
    /// A reply within a minute, a probe every five seconds, and a connection
    /// closed after fifteen seconds of silence.
    pub open spec fn standard() -> Config {
        Config { reply_timeout_ms: 60_000, heartbeat_interval_ms: 5_000, heartbeat_timeout_ms: 15_000 }
    }
}

impl Default for Config {
    fn default() -> (config: Config)
        ensures
            config == Config::standard(),
    {
        Config { reply_timeout_ms: 60_000, heartbeat_interval_ms: 5_000, heartbeat_timeout_ms: 15_000 }
    }
}

/// Why a client call failed. Each failure ends the call; nothing is retried.
#[derive(Clone, Copy, Debug, PartialEq, Eq, Structural)]
pub enum Error {
    /// No worker was connected when the call looked for one.
    NoAvailableProcessors,
    /// The request could not be handed to the worker, or the worker's
    /// connection went away before it replied.
    ImageTransferError,
    /// The worker did not reply in time.
    Timeout,
    /// The request identifier drawn for the call is already pending.
    DuplicateRequest,
}

/// What all connections and all client calls share: the connected workers and
/// the pending requests.
pub struct AppState {
    pub data_processors: WorkerPool,
    pub pending_requests: CorrelationTable,
    pub config: Config,
}

/// How far a client call has come.
#[derive(Clone, Copy, Debug, PartialEq, Eq, Structural)]
pub enum Phase {
    /// The request is being handed to the selected worker.
    Sending,
    /// The worker has the request; the call waits for the reply since `since`.
    Waiting { since: u64 },
    /// The call has been answered.
    Finished,
}

/// One client call in flight.
#[derive(Clone, Copy, Debug, PartialEq, Eq, Structural)]
pub struct Dispatch {
    pub request_id: u128,
    pub phase: Phase,
}

/// What the caller did or saw for a client call since the last step.
#[derive(Debug, PartialEq, Eq)]
pub enum DispatchEvent {
    /// The worker's connection accepted the request at time `now`.
    Sent { now: u64 },
    /// The worker's connection is gone: the request could not be handed over.
    SendFailed,
    /// The reply channel yielded the worker's reply.
    Reply(Vec<u8>),
    /// The reply channel was closed without a reply.
    ReplyClosed,
    /// The wait that the last step asked for is over; it is `now`.
    Elapsed { now: u64 },
}

/// What the caller has to do next for a client call.
#[derive(Debug, PartialEq, Eq)]
pub enum DispatchAction {
    /// Wait on the reply channel, for at most `millis`.
    Await { millis: u64 },
    /// Answer the client: the call is over.
    Finish(Result<Vec<u8>, Error>),
    /// Nothing: the event does not belong to the phase the call is in.
    Nothing,
}

/// A client call that found its worker: what to send, to whom, and where the
/// reply will arrive.
pub struct Outbound {
    pub worker: WorkerHandle,
    pub message: ProcessImageForWs,
    pub reply: Receiver<Vec<u8>>,
    pub call: Dispatch,
}

/// Whether `id` has the version and variant bits of a random identifier.
pub open spec fn is_random_id(id: u128) -> bool {
    id & 0x0000_0000_0000_f000_c000_0000_0000_0000u128
        == 0x0000_0000_0000_4000_8000_0000_0000_0000u128
}

/// Calls `uuid::Uuid::new_v4` and `Uuid::as_u128`. The identifier is random;
/// what every outcome has are the version bits 0100 and the variant bits 10,
/// which `new_v4` sets after drawing the number. `new_v4` panics if the
/// operating system yields no random bytes, which no argument can rule out.
#[verifier::external_body]
fn new_request_id() -> (id: u128)
    ensures
        is_random_id(id),
{
    uuid::Uuid::new_v4().as_u128()
}

/// How long a call that waits since `since` has waited at `now`. A clock that
/// seems to run backwards counts as no time at all.
pub open spec fn waited(since: u64, now: u64) -> u64 {
    if now >= since {
        (now - since) as u64
    } else {
        0
    }
}

/// Whether the event ends a call that is in this phase.
pub open spec fn ends_call(phase: Phase, event: DispatchEvent, reply_timeout_ms: u64) -> bool {
    match (phase, event) {
        (Phase::Sending, DispatchEvent::SendFailed) => true,
        (Phase::Waiting { .. }, DispatchEvent::Reply(_)) => true,
        (Phase::Waiting { .. }, DispatchEvent::ReplyClosed) => true,
        (Phase::Waiting { since }, DispatchEvent::Elapsed { now }) => waited(since, now)
            >= reply_timeout_ms,
        _ => false,
    }
}

/// The phase that follows `phase` on `event`.
pub open spec fn next_phase(phase: Phase, event: DispatchEvent, reply_timeout_ms: u64) -> Phase {
    if ends_call(phase, event, reply_timeout_ms) {
        Phase::Finished
    } else {
        match (phase, event) {
            (Phase::Sending, DispatchEvent::Sent { now }) => Phase::Waiting { since: now },
            _ => phase,
        }
    }
}

/// What the caller is told to do when `event` meets a call in `phase`.
pub open spec fn next_action(
    phase: Phase,
    event: DispatchEvent,
    reply_timeout_ms: u64,
) -> DispatchAction {
    match (phase, event) {
        (Phase::Sending, DispatchEvent::Sent { .. }) => DispatchAction::Await {
            millis: reply_timeout_ms,
        },
        (Phase::Sending, DispatchEvent::SendFailed) => DispatchAction::Finish(
            Err(Error::ImageTransferError),
        ),
        (Phase::Waiting { .. }, DispatchEvent::Reply(payload)) => DispatchAction::Finish(
            Ok(payload),
        ),
        (Phase::Waiting { .. }, DispatchEvent::ReplyClosed) => DispatchAction::Finish(
            Err(Error::ImageTransferError),
        ),
        (Phase::Waiting { since }, DispatchEvent::Elapsed { now }) => if waited(since, now)
            >= reply_timeout_ms {
            DispatchAction::Finish(Err(Error::Timeout))
        } else {
            DispatchAction::Await { millis: (reply_timeout_ms - waited(since, now)) as u64 }
        },
        _ => DispatchAction::Nothing,
    }
}

/// The pending requests after `event` met a call for `id` in `phase`: the entry
/// of `id` is gone if the call ended, and nothing changed otherwise.
pub open spec fn next_entries(
    entries: Entries,
    id: u128,
    phase: Phase,
    event: DispatchEvent,
    reply_timeout_ms: u64,
) -> Entries {
    if ends_call(phase, event, reply_timeout_ms) {
        without(entries, id)
    } else {
        entries
    }
}

/// What starting a call with the identifier `id` does: the outcome `started`,
/// and the pool and the pending requests before and after.
pub open spec fn dispatched(
    pool: PoolView,
    entries: Entries,
    id: u128,
    image_data: Vec<u8>,
    started: Result<Outbound, Error>,
    pool_after: PoolView,
    entries_after: Entries,
) -> bool {
    if entries.contains_key(id) {
        &&& started matches Err(error)
        &&& error == Error::DuplicateRequest
        &&& pool_after == pool
        &&& entries_after == entries
    } else if pool.workers.len() == 0 {
        &&& started matches Err(error)
        &&& error == Error::NoAvailableProcessors
        &&& pool_after == pool
        &&& entries_after == entries
    } else {
        &&& started matches Ok(outbound)
        &&& outbound.worker == pool.workers[pool.slot()]
        &&& outbound.message == ProcessImageForWs(id, image_data)
        &&& outbound.call == Dispatch { request_id: id, phase: Phase::Sending }
        &&& pool_after == pool.advance()
        &&& entries_after.contains_key(id)
        &&& entries_after.remove(id) == entries
    }
}

impl AppState {
    /// A gateway without workers and without pending requests.
    pub fn new(config: Config) -> (state: AppState)
        ensures
            state.data_processors@ == PoolView::empty(),
            state.pending_requests@ == Map::<u128, tokio::sync::oneshot::Sender<Vec<u8>>>::empty(),
            state.config == config,
    {
        AppState {
            data_processors: WorkerPool::new(),
            pending_requests: CorrelationTable::new(),
            config,
        }
    }
}

/// Starts a client call under the identifier `request_id`: opens its reply
/// channel and selects the worker in rotation. With no worker connected the
/// entry is taken back and the call fails; an identifier that is already
/// pending fails the call before anything is touched.
pub fn dispatch(request_id: u128, image_data: Vec<u8>, app_state: &mut AppState) -> (started: Result<
    Outbound,
    Error,
>)
    ensures
        dispatched(
            old(app_state).data_processors@,
            old(app_state).pending_requests@,
            request_id,
            image_data,
            started,
            final(app_state).data_processors@,
            final(app_state).pending_requests@,
        ),
        final(app_state).config == old(app_state).config,
{
    let reply = match app_state.pending_requests.begin(request_id) {
        Ok(reply) => reply,
        Err(_) => {
            return Err(Error::DuplicateRequest);
        },
    };
    let worker = match app_state.data_processors.select_next() {
        Ok(worker) => worker,
        Err(_) => {
            app_state.pending_requests.cancel(request_id);
            assert(app_state.pending_requests@ =~= old(app_state).pending_requests@);
            return Err(Error::NoAvailableProcessors);
        },
    };
    Ok(
        Outbound {
            worker,
            message: ProcessImageForWs(request_id, image_data),
            reply,
            call: Dispatch { request_id, phase: Phase::Sending },
        },
    )
}

/// Starts a client call for `image_data` under a fresh random identifier. What
/// follows is what `dispatch` does with that identifier.
pub fn process_image(image_data: Vec<u8>, app_state: &mut AppState) -> (started: Result<
    Outbound,
    Error,
>)
    ensures
        exists|id: u128|
            is_random_id(id) && #[trigger] dispatched(
                old(app_state).data_processors@,
                old(app_state).pending_requests@,
                id,
                image_data,
                started,
                final(app_state).data_processors@,
                final(app_state).pending_requests@,
            ),
        final(app_state).config == old(app_state).config,
{
    let request_id = new_request_id();
    dispatch(request_id, image_data, app_state)
}

impl Dispatch {
    /// Takes the call one step on: `event` is what happened since the last step,
    /// the result is what to do next. A call that ends here, whatever the
    /// reason, leaves no entry behind in the pending requests.
    pub fn step(&mut self, app_state: &mut AppState, event: DispatchEvent) -> (action:
        DispatchAction)
        ensures
            final(self).request_id == old(self).request_id,
            final(self).phase == next_phase(
                old(self).phase,
                event,
                old(app_state).config.reply_timeout_ms,
            ),
            action == next_action(old(self).phase, event, old(app_state).config.reply_timeout_ms),
            final(app_state).pending_requests@ == next_entries(
                old(app_state).pending_requests@,
                old(self).request_id,
                old(self).phase,
                event,
                old(app_state).config.reply_timeout_ms,
            ),
            final(app_state).data_processors@ == old(app_state).data_processors@,
            final(app_state).config == old(app_state).config,
    {
        let reply_timeout_ms = app_state.config.reply_timeout_ms;
        match self.phase {
            Phase::Sending => match event {
                DispatchEvent::Sent { now } => {
                    self.phase = Phase::Waiting { since: now };
                    DispatchAction::Await { millis: reply_timeout_ms }
                },
                DispatchEvent::SendFailed => {
                    app_state.pending_requests.cancel(self.request_id);
                    self.phase = Phase::Finished;
                    DispatchAction::Finish(Err(Error::ImageTransferError))
                },
                _ => DispatchAction::Nothing,
            },
            Phase::Waiting { since } => match event {
                DispatchEvent::Reply(payload) => {
                    app_state.pending_requests.cancel(self.request_id);
                    self.phase = Phase::Finished;
                    DispatchAction::Finish(Ok(payload))
                },
                DispatchEvent::ReplyClosed => {
                    app_state.pending_requests.cancel(self.request_id);
                    self.phase = Phase::Finished;
                    DispatchAction::Finish(Err(Error::ImageTransferError))
                },
                DispatchEvent::Elapsed { now } => {
                    let waited_ms: u64 = if now >= since {
                        now - since
                    } else {
                        0
                    };
                    if waited_ms >= reply_timeout_ms {
                        app_state.pending_requests.cancel(self.request_id);
                        self.phase = Phase::Finished;
                        DispatchAction::Finish(Err(Error::Timeout))
                    } else {
                        DispatchAction::Await { millis: reply_timeout_ms - waited_ms }
                    }
                },
                _ => DispatchAction::Nothing,
            },
            Phase::Finished => DispatchAction::Nothing,
        }
    }
}

/// No call leaves an entry behind. A call that fails for want of a worker has
/// none when it returns, and the step that ends a call, with the reply, with a
/// failed delivery or with the timeout, takes its entry away. The step answers
/// the client exactly when it ends the call.
pub proof fn law_ended_call_leaves_no_entry(
    pool: PoolView,
    entries: Entries,
    id: u128,
    image_data: Vec<u8>,
    started: Result<Outbound, Error>,
    pool_after: PoolView,
    entries_after: Entries,
    phase: Phase,
    event: DispatchEvent,
    reply_timeout_ms: u64,
)
    ensures
        dispatched(pool, entries, id, image_data, started, pool_after, entries_after) && started
            == Err::<Outbound, Error>(Error::NoAvailableProcessors) ==> !entries_after.contains_key(
            id,
        ),
        ends_call(phase, event, reply_timeout_ms) ==> !next_entries(
            entries,
            id,
            phase,
            event,
            reply_timeout_ms,
        ).contains_key(id),
        ends_call(phase, event, reply_timeout_ms) == (next_action(
            phase,
            event,
            reply_timeout_ms,
        ) is Finish),
        ends_call(phase, event, reply_timeout_ms) == (!(phase is Finished) && next_phase(
            phase,
            event,
            reply_timeout_ms,
        ) is Finished),
{
}

/// A call times out when the bound has passed and not before. The timeout is
/// the answer only to the end of a wait that began at least `reply_timeout_ms`
/// ago; a wait that ends earlier is taken up again for exactly the time that is
/// left, and one that ends at the bound or after it ends the call at once.
pub proof fn law_timeout_at_the_bound(phase: Phase, event: DispatchEvent, reply_timeout_ms: u64)
    ensures
        next_action(phase, event, reply_timeout_ms) == DispatchAction::Finish(Err(Error::Timeout))
            ==> match (phase, event) {
            (Phase::Waiting { since }, DispatchEvent::Elapsed { now }) => waited(since, now)
                >= reply_timeout_ms,
            _ => false,
        },
        match (phase, event) {
            (Phase::Waiting { since }, DispatchEvent::Elapsed { now }) => next_action(
                phase,
                event,
                reply_timeout_ms,
            ) == if waited(since, now) >= reply_timeout_ms {
                DispatchAction::Finish(Err(Error::Timeout))
            } else {
                DispatchAction::Await { millis: (reply_timeout_ms - waited(since, now)) as u64 }
            },
            _ => true,
        },
{
}

} // verus!
