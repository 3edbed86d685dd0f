use ruggine::outbound::{OutboundAction, OutboundEvent, OutboundState};

fn message(payload: &str) -> OutboundEvent {
    OutboundEvent::Message { payload: payload.to_string() }
}

#[test]
fn writer_starts_waiting() {
    assert_eq!(OutboundState::start(), OutboundState::Waiting);
}

#[test]
fn delivered_payload_is_written_unchanged() {
    let (state, action) = OutboundState::start().step(message("{\"content\":\"hi\"}"));
    assert_eq!(state, OutboundState::Writing);
    assert_eq!(action, OutboundAction::Write { payload: "{\"content\":\"hi\"}".to_string() });
}

#[test]
fn written_payload_leads_to_next_receive() {
    let (state, action) = OutboundState::Writing.step(OutboundEvent::Written);
    assert_eq!(state, OutboundState::Waiting);
    assert_eq!(action, OutboundAction::Receive);
}

#[test]
fn failed_write_ends_writing() {
    let (state, action) = OutboundState::Writing.step(OutboundEvent::WriteFailed);
    assert_eq!(state, OutboundState::Stopped);
    assert_eq!(action, OutboundAction::Stop);
}

#[test]
fn closed_channel_ends_writing() {
    let (state, action) = OutboundState::Waiting.step(OutboundEvent::ChannelClosed);
    assert_eq!(state, OutboundState::Stopped);
    assert_eq!(action, OutboundAction::Stop);
}

#[test]
fn lagging_subscriber_stays_connected() {
    let (state, action) = OutboundState::Waiting.step(OutboundEvent::Lagged { missed: 28 });
    assert_eq!(state, OutboundState::Waiting);
    assert_eq!(action, OutboundAction::Receive);
    let (state, action) = state.step(OutboundEvent::Lagged { missed: u64::MAX });
    assert_eq!(state, OutboundState::Waiting);
    assert_eq!(action, OutboundAction::Receive);
}

#[test]
fn writer_event_out_of_turn_ends_writing() {
    let (state, action) = OutboundState::Waiting.step(OutboundEvent::Written);
    assert_eq!((state, action), (OutboundState::Stopped, OutboundAction::Stop));
    let (state, action) = OutboundState::Writing.step(message("x"));
    assert_eq!((state, action), (OutboundState::Stopped, OutboundAction::Stop));
    let (state, action) = OutboundState::Writing.step(OutboundEvent::Lagged { missed: 1 });
    assert_eq!((state, action), (OutboundState::Stopped, OutboundAction::Stop));
}

#[test]
fn stopped_writer_stays_stopped() {
    let (state, action) = OutboundState::Stopped.step(message("x"));
    assert_eq!((state, action), (OutboundState::Stopped, OutboundAction::Stop));
}

#[test]
fn writer_forwards_in_order() {
    let mut state = OutboundState::start();
    let mut written = Vec::new();
    for event in [
        message("a"),
        OutboundEvent::Written,
        OutboundEvent::Lagged { missed: 3 },
        message("b"),
        OutboundEvent::Written,
        message("c"),
        OutboundEvent::WriteFailed,
        message("d"),
    ] {
        let (next, action) = state.step(event);
        state = next;
        if let OutboundAction::Write { payload } = action {
            written.push(payload);
        }
    }
    assert_eq!(written, vec!["a".to_string(), "b".to_string(), "c".to_string()]);
    assert_eq!(state, OutboundState::Stopped);
}
