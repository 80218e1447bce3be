use serde_json::Value;
use snaxum::config::ChimeraConfig;
use snaxum::error::RuntimeError;
use snaxum::worker::{
    async_worker_step, begin_async_dispatch, worker_step, AsyncRuntimeMessage, AsyncWorkerStep,
    PendingRequests, Received, RuntimeLayout, RuntimeMessage, WorkerStep,
};

#[test]
fn worker_steps() {
    let msg = RuntimeMessage::Dispatch {
        method: "GET".to_string(),
        path: "/python/hello".to_string(),
        request_data: Value::Null,
        response_tx: 17u8,
    };
    match worker_step(Received::Message(msg)) {
        WorkerStep::Handle { method, path, response_tx, .. } => {
            assert_eq!(method, "GET");
            assert_eq!(path, "/python/hello");
            assert_eq!(response_tx, 17);
        }
        _ => panic!("expected a dispatch to handle"),
    }
    assert!(matches!(worker_step::<u8>(Received::Message(RuntimeMessage::Shutdown)), WorkerStep::Stop));
    assert!(matches!(worker_step::<u8>(Received::Timeout), WorkerStep::Continue));
    assert!(matches!(worker_step::<u8>(Received::Disconnected), WorkerStep::Stop));
}

#[test]
fn async_worker_steps() {
    let msg = AsyncRuntimeMessage::Dispatch {
        request_id: 3,
        method: "POST".to_string(),
        path: "/python/x".to_string(),
        request_data: Value::Null,
    };
    assert!(matches!(
        async_worker_step(Received::Message(msg)),
        AsyncWorkerStep::Submit { request_id: 3, .. }
    ));
    assert!(matches!(
        async_worker_step(Received::Message(AsyncRuntimeMessage::Shutdown)),
        AsyncWorkerStep::Stop
    ));
    assert!(matches!(async_worker_step(Received::Timeout), AsyncWorkerStep::Continue));
    assert!(matches!(async_worker_step(Received::Disconnected), AsyncWorkerStep::Stop));
}

#[test]
fn pending_requests_round_trip() {
    let mut pending: PendingRequests<&str> = PendingRequests::new();
    let a = pending.register("first");
    let b = pending.register("second");
    assert_eq!(a, 1);
    assert_eq!(b, 2);
    assert_eq!(pending.len(), 2);
    assert_eq!(pending.complete(b), Some("second"));
    assert_eq!(pending.complete(b), None);
    assert_eq!(pending.complete(99), None);
    assert_eq!(pending.complete(a), Some("first"));
    assert_eq!(pending.len(), 0);
    assert_eq!(pending.register("third"), 3);
}

#[test]
fn async_dispatch_needs_async_enabled() {
    let mut pending: PendingRequests<u32> = PendingRequests::new();
    assert_eq!(begin_async_dispatch(false, &mut pending, 5), Err(RuntimeError::AsyncNotEnabled));
    assert_eq!(pending.len(), 0);
    assert_eq!(begin_async_dispatch(true, &mut pending, 5), Ok(1));
    assert_eq!(pending.complete(1), Some(5));
}

#[test]
fn runtime_layout_for_config() {
    let mut config = ChimeraConfig::default();
    config.dispatch_workers = 3;
    config.disable_signal_handler = true;
    config.enable_async = false;
    let layout = RuntimeLayout::for_config(&config);
    assert_eq!(layout.dispatch_workers, 3);
    assert_eq!(layout.channel_capacity, 6);
    assert!(!layout.install_signal_handler);
    assert!(!layout.start_async);
}
