use serve_core::reload::{handle_ws, ReloadAction, ReloadEvent, ReloadState, RELOAD_MESSAGE};

fn run_connection(events: &[ReloadEvent]) -> (ReloadState, Vec<&'static str>) {
    let mut state = ReloadState::Open;
    let mut sent = Vec::new();
    for event in events {
        let (next, action) = handle_ws(state, *event);
        if let ReloadAction::Send { message, times } = action {
            for _ in 0..times {
                sent.push(message);
            }
        }
        state = next;
    }
    (state, sent)
}

#[test]
fn build_done_sends_the_reload_message() {
    let (state, action) = handle_ws(ReloadState::Open, ReloadEvent::BuildDone);
    assert_eq!(state, ReloadState::Open);
    assert!(matches!(action, ReloadAction::Send { message, times: 1 } if message == "{\"reload\": true}"));
    assert_eq!(RELOAD_MESSAGE, "{\"reload\": true}");
}

#[test]
fn one_message_per_build_in_order() {
    let (state, sent) = run_connection(&[ReloadEvent::BuildDone; 5]);
    assert_eq!(state, ReloadState::Open);
    assert_eq!(sent, vec!["{\"reload\": true}"; 5]);
}

#[test]
fn a_fresh_connection_has_sent_nothing() {
    let (state, sent) = run_connection(&[]);
    assert_eq!(state, ReloadState::Open);
    assert!(sent.is_empty());
}

#[test]
fn client_message_closes_the_connection() {
    let (state, action) = handle_ws(ReloadState::Open, ReloadEvent::ClientMessage);
    assert_eq!(state, ReloadState::Closed);
    assert!(matches!(action, ReloadAction::Close));
}

#[test]
fn client_disconnect_closes_the_connection() {
    let (state, action) = handle_ws(ReloadState::Open, ReloadEvent::ClientDisconnected);
    assert_eq!(state, ReloadState::Closed);
    assert!(matches!(action, ReloadAction::Close));
}

#[test]
fn no_message_after_the_client_has_spoken() {
    let events = [
        ReloadEvent::BuildDone,
        ReloadEvent::BuildDone,
        ReloadEvent::ClientMessage,
        ReloadEvent::BuildDone,
        ReloadEvent::BuildDone,
        ReloadEvent::BuildDone,
    ];
    let (state, sent) = run_connection(&events);
    assert_eq!(state, ReloadState::Closed);
    assert_eq!(sent.len(), 2);
}

#[test]
fn no_message_after_the_client_has_gone() {
    let events = [ReloadEvent::ClientDisconnected, ReloadEvent::BuildDone];
    let (state, sent) = run_connection(&events);
    assert_eq!(state, ReloadState::Closed);
    assert!(sent.is_empty());
}

#[test]
fn failed_send_closes_the_connection() {
    let events = [ReloadEvent::BuildDone, ReloadEvent::SendFailed, ReloadEvent::BuildDone];
    let (state, sent) = run_connection(&events);
    assert_eq!(state, ReloadState::Closed);
    assert_eq!(sent.len(), 1);
}

#[test]
fn end_of_announcements_closes_the_connection() {
    let (state, action) = handle_ws(ReloadState::Open, ReloadEvent::ChannelClosed);
    assert_eq!(state, ReloadState::Closed);
    assert!(matches!(action, ReloadAction::Close));
}

#[test]
fn a_lag_is_answered_with_one_message_for_each_missed_build() {
    let (state, action) = handle_ws(ReloadState::Open, ReloadEvent::ChannelLagged { missed: 3 });
    assert_eq!(state, ReloadState::Open);
    assert!(matches!(action, ReloadAction::Send { message, times: 3 } if message == "{\"reload\": true}"));
    let (state, action) = handle_ws(ReloadState::Open, ReloadEvent::ChannelLagged { missed: 0 });
    assert_eq!(state, ReloadState::Open);
    assert!(matches!(action, ReloadAction::Send { times: 0, .. }));
}

#[test]
fn nine_builds_in_one_burst_give_nine_messages() {
    let mut events = vec![ReloadEvent::ChannelLagged { missed: 1 }];
    events.extend([ReloadEvent::BuildDone; 8]);
    let (state, sent) = run_connection(&events);
    assert_eq!(state, ReloadState::Open);
    assert_eq!(sent, vec!["{\"reload\": true}"; 9]);
}

#[test]
fn a_burst_on_a_live_channel_loses_no_build() {
    let (tx, mut rx) = tokio::sync::broadcast::channel::<()>(8);
    for _ in 0..21 {
        tx.send(()).unwrap();
    }
    let mut state = ReloadState::Open;
    let mut sent = 0u64;
    loop {
        let event = match rx.try_recv() {
            Ok(()) => ReloadEvent::BuildDone,
            Err(tokio::sync::broadcast::error::TryRecvError::Lagged(missed)) => ReloadEvent::ChannelLagged { missed },
            Err(tokio::sync::broadcast::error::TryRecvError::Closed) => ReloadEvent::ChannelClosed,
            Err(tokio::sync::broadcast::error::TryRecvError::Empty) => break,
        };
        let (next, action) = handle_ws(state, event);
        if let ReloadAction::Send { times, .. } = action {
            sent += times;
        }
        state = next;
    }
    assert_eq!(state, ReloadState::Open);
    assert_eq!(sent, 21);
}

#[test]
fn closed_connection_does_nothing() {
    for event in [
        ReloadEvent::ClientMessage,
        ReloadEvent::ClientDisconnected,
        ReloadEvent::BuildDone,
        ReloadEvent::ChannelLagged { missed: 4 },
        ReloadEvent::ChannelClosed,
        ReloadEvent::SendFailed,
    ] {
        let (state, action) = handle_ws(ReloadState::Closed, event);
        assert_eq!(state, ReloadState::Closed);
        assert!(matches!(action, ReloadAction::Nothing));
    }
}

#[test]
fn scenario_one_event_after_opening_yields_one_message() {
    let (state, sent) = run_connection(&[ReloadEvent::BuildDone]);
    assert_eq!(state, ReloadState::Open);
    assert_eq!(sent, vec!["{\"reload\": true}"]);
}
