use zclone_core::messaging::Backend;
use zclone_core::messaging::CancellationHandle;
use zclone_core::messaging::ChatEvent;
use zclone_core::messaging::ChatRequest;
use zclone_core::messaging::failure_event;
use zclone_core::models::Message;
use zclone_core::models::Role;
use zclone_core::scripted::run_cancelled_after;
use zclone_core::scripted::run_uncancelled;
use zclone_core::scripted::ScriptedBackend;
use zclone_core::scripted::chunk_content_string;

fn request(session_id: &str, message_id: &str) -> ChatRequest {
    ChatRequest {
        session_id: session_id.to_string(),
        message_id: message_id.to_string(),
        messages: Vec::new(),
        model: "gpt-4".to_string(),
        temperature_milli: 700,
        system_prompt: None,
    }
}

fn drain(backend: &mut ScriptedBackend, req: &ChatRequest) -> Vec<ChatEvent> {
    let mut events = Vec::new();
    while let Some(e) = backend.next_event(req, false) {
        events.push(e);
    }
    events
}

#[test]
fn test_messaging_pipeline() {
    let request = ChatRequest {
        session_id: "test-session".to_string(),
        message_id: "test-message".to_string(),
        messages: vec![Message::new(Role::User, "Hello")],
        model: "gpt-4".to_string(),
        temperature_milli: 700,
        system_prompt: None,
    };

    let mut backend = ScriptedBackend::new(5);
    let mut chunks = Vec::new();
    while let Some(event) = backend.next_event(&request, false) {
        match event {
            ChatEvent::ResponseChunk(chunk) => {
                chunks.push(chunk.content.clone());
                if chunk.is_final {
                    break;
                }
            }
            _ => {}
        }
    }

    assert_eq!(chunks.len(), 5);
}

#[test]
fn scripted_five_chunks_scenario() {
    let req = request("s", "m");
    let mut backend = ScriptedBackend::new(5);
    let events = drain(&mut backend, &req);

    assert_eq!(events.len(), 5);
    for (i, event) in events.iter().enumerate() {
        match event {
            ChatEvent::ResponseChunk(chunk) => {
                assert_eq!(chunk.session_id, "s");
                assert_eq!(chunk.message_id, "m");
                assert_eq!(chunk.content, format!("chunk {} ", i));
                assert_eq!(chunk.is_final, i == 4);
            }
            _ => panic!("scripted backend emitted a non-chunk event"),
        }
    }
}

#[test]
fn scripted_chunk_contents_exact() {
    assert_eq!(chunk_content_string(0), "chunk 0 ");
    assert_eq!(chunk_content_string(4), "chunk 4 ");
    assert_eq!(chunk_content_string(11), "chunk 11 ");
    assert_eq!(chunk_content_string(12345), "chunk 12345 ");
}

#[test]
fn terminal_event_is_unique_and_last() {
    let req = request("s", "m");
    let mut backend = ScriptedBackend::new(3);
    let events = drain(&mut backend, &req);

    assert_eq!(events.len(), 3);
    let terminal_positions: Vec<usize> = events
        .iter()
        .enumerate()
        .filter(|(_, e)| e.is_terminal())
        .map(|(i, _)| i)
        .collect();
    assert_eq!(terminal_positions, vec![events.len() - 1]);
}

#[test]
fn cancellation_mid_stream_ends_with_cancelled() {
    let req = request("s", "m");
    let mut backend = ScriptedBackend::new(5);

    let mut events = Vec::new();
    events.push(backend.next_event(&req, false).unwrap());
    events.push(backend.next_event(&req, false).unwrap());
    // The caller requests cancellation; the backend observes it before the
    // next chunk.
    events.push(backend.next_event(&req, true).unwrap());
    assert!(backend.next_event(&req, true).is_none());
    assert!(backend.next_event(&req, false).is_none());

    assert_eq!(events.len(), 3);
    match &events[2] {
        ChatEvent::Cancelled {
            session_id,
            message_id,
        } => {
            assert_eq!(session_id, "s");
            assert_eq!(message_id, "m");
        }
        _ => panic!("expected a cancellation notice"),
    }
    // No final chunk was observed for the cancelled dispatch.
    for event in &events {
        match event {
            ChatEvent::ResponseChunk(chunk) => assert!(!chunk.is_final),
            ChatEvent::Cancelled { .. } => {}
            ChatEvent::Error(_) => panic!("no error was provoked"),
        }
    }
}

#[test]
fn backend_failure_yields_one_error_event() {
    let req = request("s1", "m1");
    let event = failure_event(&req, "connection refused");
    match event {
        ChatEvent::Error(err) => {
            assert_eq!(err.session_id, "s1");
            assert_eq!(err.message_id, "m1");
            assert_eq!(err.error, "connection refused");
            assert!(!err.error.is_empty());
        }
        _ => panic!("expected an error event"),
    }
}

#[test]
fn failure_with_empty_description_is_still_described() {
    let req = request("s1", "m1");
    let event = failure_event(&req, "");
    match event {
        ChatEvent::Error(err) => {
            assert!(!err.error.is_empty());
            assert_eq!(err.error, "backend failure");
        }
        _ => panic!("expected an error event"),
    }
}

#[test]
fn interleaved_streams_keep_per_dispatch_order() {
    let req_a = request("sa", "ma");
    let req_b = request("sb", "mb");
    let mut backend_a = ScriptedBackend::new(3);
    let mut backend_b = ScriptedBackend::new(2);
    let a = drain(&mut backend_a, &req_a);
    let b = drain(&mut backend_b, &req_b);

    // One arbitrary interleaving on the shared output.
    let shared = vec![
        a[0].clone(),
        b[0].clone(),
        a[1].clone(),
        b[1].clone(),
        a[2].clone(),
    ];

    let project = |sid: &str, mid: &str| -> Vec<ChatEvent> {
        shared
            .iter()
            .filter(|e| match e {
                ChatEvent::ResponseChunk(c) => c.session_id == sid && c.message_id == mid,
                ChatEvent::Error(err) => err.session_id == sid && err.message_id == mid,
                ChatEvent::Cancelled {
                    session_id,
                    message_id,
                } => session_id == sid && message_id == mid,
            })
            .cloned()
            .collect()
    };

    assert_eq!(project("sa", "ma"), a);
    assert_eq!(project("sb", "mb"), b);
}

#[test]
fn full_run_matches_step_by_step_drain() {
    let req = request("s", "m");
    let mut backend = ScriptedBackend::new(4);
    assert_eq!(run_uncancelled(&req, 4), drain(&mut backend, &req));
}

#[test]
fn single_chunk_run_is_immediately_final() {
    let req = request("s", "m");
    let events = run_uncancelled(&req, 1);
    assert_eq!(events.len(), 1);
    match &events[0] {
        ChatEvent::ResponseChunk(chunk) => {
            assert!(chunk.is_final);
            assert_eq!(chunk.content, "chunk 0 ");
        }
        _ => panic!("expected a chunk"),
    }
}

#[test]
fn cancelled_run_keeps_early_chunks_and_ends_with_notice() {
    let req = request("s", "m");
    let events = run_cancelled_after(&req, 5, 2);
    assert_eq!(events.len(), 3);
    for event in &events[..2] {
        match event {
            ChatEvent::ResponseChunk(chunk) => assert!(!chunk.is_final),
            _ => panic!("expected a non-final chunk"),
        }
    }
    assert!(matches!(events[2], ChatEvent::Cancelled { .. }));
}

#[test]
fn cancel_is_harmless_after_dispatch_ended() {
    // The dispatch task has finished and dropped its receive end.
    let (tx, rx) = tokio::sync::mpsc::channel::<()>(1);
    let handle = CancellationHandle::new(tx);
    drop(rx);
    // No panic and no error: the notice is simply not delivered.
    assert!(!handle.cancel());
}

#[test]
fn cancel_delivers_once_and_is_idempotent() {
    let (tx, mut rx) = tokio::sync::mpsc::channel::<()>(1);
    let handle = CancellationHandle::new(tx);
    assert!(handle.cancel());
    // A second request finds the one-shot channel full: a harmless no-op.
    assert!(!handle.cancel());
    assert!(rx.try_recv().is_ok());
}
