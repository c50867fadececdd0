use data_forward_server::api::{
    dispatch, process_image, AppState, Config, Dispatch, DispatchAction, DispatchEvent, Error, Phase,
};
use data_forward_server::correlation::TableError;
use data_forward_server::messages::{ImageMessage, ImageResponse};
use data_forward_server::pool::WorkerHandle;
use data_forward_server::web_socket_actor::{DataProcessorWs, Frame, ProcessImageForWs, Reaction};
use tokio::sync::oneshot::error::TryRecvError;

const A: WorkerHandle = WorkerHandle(10);
const B: WorkerHandle = WorkerHandle(20);

fn gateway_with(workers: &[WorkerHandle]) -> AppState {
    let mut state = AppState::new(Config::default());
    for worker in workers {
        state.data_processors.register(*worker);
    }
    state
}

#[test]
fn default_config_has_the_standard_timing() {
    let config = Config::default();
    assert_eq!(config.reply_timeout_ms, 60_000);
    assert_eq!(config.heartbeat_interval_ms, 5_000);
    assert_eq!(config.heartbeat_timeout_ms, 15_000);
    assert_eq!(config.heartbeat_timeout_ms, 3 * config.heartbeat_interval_ms);
}

#[test]
fn new_gateway_is_empty() {
    let config = Config { reply_timeout_ms: 1, heartbeat_interval_ms: 2, heartbeat_timeout_ms: 3 };
    let state = AppState::new(config);
    assert_eq!(state.data_processors.len(), 0);
    assert_eq!(state.pending_requests.len(), 0);
    assert_eq!(state.config, config);
}

#[test]
fn dispatch_to_empty_pool_fails_and_leaves_no_entry() {
    let mut state = gateway_with(&[]);
    let started = dispatch(77, vec![1, 2, 3], &mut state);
    assert_eq!(started.err(), Some(Error::NoAvailableProcessors));
    assert!(!state.pending_requests.is_pending(77));
    assert_eq!(state.pending_requests.len(), 0);
}

#[test]
fn process_image_on_empty_pool_fails_and_leaves_no_entry() {
    let mut state = gateway_with(&[]);
    let started = process_image(vec![1, 2, 3], &mut state);
    assert_eq!(started.err(), Some(Error::NoAvailableProcessors));
    assert_eq!(state.pending_requests.len(), 0);
}

#[test]
fn dispatch_selects_the_worker_and_stores_the_entry() {
    let mut state = gateway_with(&[A, B]);
    let outbound = dispatch(5, vec![9, 8], &mut state).unwrap();
    assert_eq!(outbound.worker, A);
    assert_eq!(outbound.message, ProcessImageForWs(5, vec![9, 8]));
    assert_eq!(outbound.call, Dispatch { request_id: 5, phase: Phase::Sending });
    assert!(state.pending_requests.is_pending(5));
    assert_eq!(state.pending_requests.len(), 1);
}

#[test]
fn dispatch_with_a_pending_identifier_is_refused() {
    let mut state = gateway_with(&[A, B]);
    let mut first = dispatch(5, vec![1], &mut state).unwrap();
    let second = dispatch(5, vec![2], &mut state);
    assert_eq!(second.err(), Some(Error::DuplicateRequest));
    // the refused call selected no worker and touched no entry
    assert_eq!(state.data_processors.select_next(), Ok(B));
    assert_eq!(state.pending_requests.resolve(5, vec![7]), Ok(()));
    assert_eq!(first.reply.try_recv(), Ok(vec![7]));
}

#[test]
fn process_image_draws_a_random_identifier() {
    let mut state = gateway_with(&[A]);
    let one = process_image(vec![1], &mut state).unwrap();
    let two = process_image(vec![2], &mut state).unwrap();
    let version_and_variant = 0x0000_0000_0000_f000_c000_0000_0000_0000u128;
    let random = 0x0000_0000_0000_4000_8000_0000_0000_0000u128;
    assert_eq!(one.call.request_id & version_and_variant, random);
    assert_eq!(two.call.request_id & version_and_variant, random);
    assert_ne!(one.call.request_id, two.call.request_id);
    assert_eq!(one.message.0, one.call.request_id);
    assert_eq!(one.message.1, vec![1]);
    assert_eq!(one.call.phase, Phase::Sending);
    assert!(state.pending_requests.is_pending(one.call.request_id));
    assert!(state.pending_requests.is_pending(two.call.request_id));
}

#[test]
fn three_calls_to_two_workers_wrap_around() {
    let mut state = gateway_with(&[A, B]);
    let mut routed = Vec::new();
    for (id, payload) in [(1u128, vec![1u8]), (2, vec![2, 2]), (3, vec![3, 3, 3])] {
        let mut outbound = dispatch(id, payload.clone(), &mut state).unwrap();
        routed.push(outbound.worker);
        let mut call = outbound.call;
        assert_eq!(
            call.step(&mut state, DispatchEvent::Sent { now: 100 }),
            DispatchAction::Await { millis: 60_000 }
        );
        // the worker replies at once with its input unchanged
        let ProcessImageForWs(request_id, image_data) = outbound.message;
        assert_eq!(state.pending_requests.resolve(request_id, image_data), Ok(()));
        let reply = outbound.reply.try_recv().unwrap();
        assert_eq!(
            call.step(&mut state, DispatchEvent::Reply(reply)),
            DispatchAction::Finish(Ok(payload))
        );
        assert_eq!(call.phase, Phase::Finished);
        assert!(!state.pending_requests.is_pending(id));
    }
    assert_eq!(routed, vec![A, B, A]);
    assert_eq!(state.pending_requests.len(), 0);
}

#[test]
fn disconnected_worker_fails_the_delivery() {
    let mut state = gateway_with(&[]);
    let mut connection = DataProcessorWs::new(0);
    assert!(connection.started(A, &mut state, 0));
    let mut outbound = dispatch(9, vec![4], &mut state).unwrap();
    assert_eq!(outbound.worker, A);
    // the transport of the selected worker breaks before it replies
    assert_eq!(connection.handle(Frame::Broken, &mut state, 10), Reaction::Stop);
    connection.stopping(&mut state);
    assert!(!state.data_processors.contains(A));
    assert_eq!(connection.forward(outbound.message), None);
    let mut call = outbound.call;
    assert_eq!(
        call.step(&mut state, DispatchEvent::SendFailed),
        DispatchAction::Finish(Err(Error::ImageTransferError))
    );
    assert!(!state.pending_requests.is_pending(9));
    // a reply that arrives late has no effect
    let late = Frame::Text(Some(ImageMessage::Response(ImageResponse {
        request_id: 9,
        processed_image_data: vec![4],
    })));
    assert_eq!(connection.handle(late, &mut state, 20), Reaction::Nothing);
    assert_eq!(state.pending_requests.resolve(9, vec![4]), Err(TableError::NotFound));
    assert_eq!(outbound.reply.try_recv(), Err(TryRecvError::Closed));
    assert_eq!(state.pending_requests.len(), 0);
}

#[test]
fn closed_reply_channel_fails_the_delivery() {
    let mut state = gateway_with(&[A]);
    let outbound = dispatch(9, vec![4], &mut state).unwrap();
    let mut call = outbound.call;
    call.step(&mut state, DispatchEvent::Sent { now: 5 });
    assert_eq!(call.phase, Phase::Waiting { since: 5 });
    assert_eq!(
        call.step(&mut state, DispatchEvent::ReplyClosed),
        DispatchAction::Finish(Err(Error::ImageTransferError))
    );
    assert_eq!(call.phase, Phase::Finished);
    assert!(!state.pending_requests.is_pending(9));
}

#[test]
fn call_times_out_at_the_bound_and_not_before() {
    let mut state = gateway_with(&[A]);
    let mut outbound = dispatch(9, vec![4], &mut state).unwrap();
    let mut call = outbound.call;
    assert_eq!(
        call.step(&mut state, DispatchEvent::Sent { now: 1_000 }),
        DispatchAction::Await { millis: 60_000 }
    );
    assert_eq!(
        call.step(&mut state, DispatchEvent::Elapsed { now: 31_000 }),
        DispatchAction::Await { millis: 30_000 }
    );
    assert_eq!(
        call.step(&mut state, DispatchEvent::Elapsed { now: 60_999 }),
        DispatchAction::Await { millis: 1 }
    );
    assert!(state.pending_requests.is_pending(9));
    assert_eq!(
        call.step(&mut state, DispatchEvent::Elapsed { now: 61_000 }),
        DispatchAction::Finish(Err(Error::Timeout))
    );
    assert_eq!(call.phase, Phase::Finished);
    assert!(!state.pending_requests.is_pending(9));
    // the worker's late reply is discarded
    assert_eq!(state.pending_requests.resolve(9, vec![1]), Err(TableError::NotFound));
    assert_eq!(outbound.reply.try_recv(), Err(TryRecvError::Closed));
}

#[test]
fn clock_that_runs_backwards_counts_as_no_wait() {
    let mut state = gateway_with(&[A]);
    let outbound = dispatch(9, vec![4], &mut state).unwrap();
    let mut call = outbound.call;
    call.step(&mut state, DispatchEvent::Sent { now: 1_000 });
    assert_eq!(
        call.step(&mut state, DispatchEvent::Elapsed { now: 10 }),
        DispatchAction::Await { millis: 60_000 }
    );
}

#[test]
fn configured_reply_timeout_is_used() {
    let config = Config { reply_timeout_ms: 250, heartbeat_interval_ms: 5, heartbeat_timeout_ms: 15 };
    let mut state = AppState::new(config);
    state.data_processors.register(A);
    let outbound = dispatch(1, vec![], &mut state).unwrap();
    let mut call = outbound.call;
    assert_eq!(
        call.step(&mut state, DispatchEvent::Sent { now: 0 }),
        DispatchAction::Await { millis: 250 }
    );
    assert_eq!(
        call.step(&mut state, DispatchEvent::Elapsed { now: 249 }),
        DispatchAction::Await { millis: 1 }
    );
    assert_eq!(
        call.step(&mut state, DispatchEvent::Elapsed { now: 250 }),
        DispatchAction::Finish(Err(Error::Timeout))
    );
}

#[test]
fn events_that_do_not_belong_to_the_phase_change_nothing() {
    let mut state = gateway_with(&[A]);
    let outbound = dispatch(9, vec![4], &mut state).unwrap();
    let mut call = outbound.call;
    assert_eq!(call.step(&mut state, DispatchEvent::Reply(vec![1])), DispatchAction::Nothing);
    assert_eq!(call.step(&mut state, DispatchEvent::ReplyClosed), DispatchAction::Nothing);
    assert_eq!(call.step(&mut state, DispatchEvent::Elapsed { now: u64::MAX }), DispatchAction::Nothing);
    assert_eq!(call.phase, Phase::Sending);
    assert!(state.pending_requests.is_pending(9));
    call.step(&mut state, DispatchEvent::Sent { now: 3 });
    assert_eq!(call.step(&mut state, DispatchEvent::Sent { now: 4 }), DispatchAction::Nothing);
    assert_eq!(call.step(&mut state, DispatchEvent::SendFailed), DispatchAction::Nothing);
    assert_eq!(call.phase, Phase::Waiting { since: 3 });
    assert!(state.pending_requests.is_pending(9));
}

#[test]
fn finished_call_takes_no_more_steps() {
    let mut state = gateway_with(&[A]);
    let outbound = dispatch(9, vec![4], &mut state).unwrap();
    let mut call = outbound.call;
    call.step(&mut state, DispatchEvent::SendFailed);
    assert_eq!(call.phase, Phase::Finished);
    // another call under the same identifier is not disturbed by the finished one
    let _again = dispatch(9, vec![5], &mut state).unwrap();
    assert_eq!(call.step(&mut state, DispatchEvent::SendFailed), DispatchAction::Nothing);
    assert_eq!(call.step(&mut state, DispatchEvent::Elapsed { now: u64::MAX }), DispatchAction::Nothing);
    assert!(state.pending_requests.is_pending(9));
}

#[test]
fn failed_call_is_not_retried() {
    let mut state = gateway_with(&[A, B]);
    let outbound = dispatch(9, vec![4], &mut state).unwrap();
    assert_eq!(outbound.worker, A);
    let mut call = outbound.call;
    call.step(&mut state, DispatchEvent::SendFailed);
    // the rotation moved on by one selection and no more
    assert_eq!(state.data_processors.select_next(), Ok(B));
}
