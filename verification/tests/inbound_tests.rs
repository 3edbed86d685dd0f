use ruggine::channel::Delivery;
use ruggine::inbound::{ClientFrame, InboundAction, InboundEvent, InboundState, Session};
use ruggine::wire::{WsClientMessage, WsServerMessage};

const GROUP: u128 = 0x99999999_0000_0000_0000_000000000001;
const ALICE: u128 = 0x11111111_2222_3333_4444_555555555555;

fn alice() -> Session {
    Session::open(GROUP, ALICE, Some("alice".to_string()))
}

fn chat(content: &str) -> InboundEvent {
    InboundEvent::Chat { content: content.to_string() }
}

#[test]
fn session_uses_resolved_name() {
    let session = alice();
    assert_eq!(session.group_id, GROUP);
    assert_eq!(session.user_id, ALICE);
    assert_eq!(session.username, "alice");
}

#[test]
fn session_falls_back_to_unknown_name() {
    let session = Session::open(GROUP, ALICE, None);
    assert_eq!(session.username, "Sconosciuto");
}

#[test]
fn session_frames_messages_in_its_name() {
    let frame = alice().frame("hi".to_string());
    assert_eq!(
        frame,
        WsServerMessage { sender_id: ALICE, sender_username: "alice".to_string(), content: "hi".to_string() }
    );
    assert!(!frame.is_system());
}

#[test]
fn text_frame_with_content_is_chat() {
    let event = InboundEvent::of_frame(ClientFrame::Text("{\"content\":\"hi\"}".to_string()));
    assert_eq!(event, chat("hi"));
}

#[test]
fn text_frame_without_content_is_malformed() {
    assert_eq!(InboundEvent::of_frame(ClientFrame::Text("{}".to_string())), InboundEvent::Malformed);
    assert_eq!(InboundEvent::of_frame(ClientFrame::Text("not json".to_string())), InboundEvent::Malformed);
    assert_eq!(
        InboundEvent::of_frame(ClientFrame::Text("{\"content\":42}".to_string())),
        InboundEvent::Malformed
    );
}

#[test]
fn other_frames_keep_their_kind() {
    assert_eq!(InboundEvent::of_frame(ClientFrame::Binary), InboundEvent::Binary);
    assert_eq!(InboundEvent::of_frame(ClientFrame::Ping), InboundEvent::Ping);
    assert_eq!(InboundEvent::of_frame(ClientFrame::Pong), InboundEvent::Pong);
    assert_eq!(InboundEvent::of_frame(ClientFrame::Close), InboundEvent::Close);
}

#[test]
fn of_text_tells_chat_from_malformed() {
    assert_eq!(InboundEvent::of_text(None), InboundEvent::Malformed);
    assert_eq!(
        InboundEvent::of_text(Some(WsClientMessage { content: "x".to_string() })),
        chat("x")
    );
}

#[test]
fn reader_starts_reading() {
    assert_eq!(InboundState::start(), InboundState::Reading);
}

#[test]
fn chat_goes_to_the_store_first() {
    let (state, action) = InboundState::start().step(&alice(), chat("hi"));
    assert_eq!(state, InboundState::Storing { content: "hi".to_string() });
    assert_eq!(
        action,
        InboundAction::Store { group_id: GROUP, user_id: ALICE, content: "hi".to_string() }
    );
}

#[test]
fn stored_message_is_published_as_frame() {
    let state = InboundState::Storing { content: "hi".to_string() };
    let (state, action) = state.step(&alice(), InboundEvent::Stored);
    assert_eq!(state, InboundState::Publishing);
    assert_eq!(
        action,
        InboundAction::Publish {
            payload: "{\"sender_id\":\"11111111-2222-3333-4444-555555555555\",\"sender_display_name\":\"alice\",\"content\":\"hi\"}"
                .to_string()
        }
    );
}

#[test]
fn message_that_was_not_stored_is_dropped() {
    let state = InboundState::Storing { content: "hi".to_string() };
    let (state, action) = state.step(&alice(), InboundEvent::StoreFailed);
    assert_eq!(state, InboundState::Reading);
    assert_eq!(action, InboundAction::Read);
}

#[test]
fn reading_goes_on_after_publishing() {
    let (state, action) =
        InboundState::Publishing.step(&alice(), InboundEvent::Published(Delivery::Queued { receivers: 1 }));
    assert_eq!(state, InboundState::Reading);
    assert_eq!(action, InboundAction::Read);
    let (state, action) =
        InboundState::Publishing.step(&alice(), InboundEvent::Published(Delivery::Queued { receivers: 9 }));
    assert_eq!(state, InboundState::Reading);
    assert_eq!(action, InboundAction::Read);
}

#[test]
fn reading_ends_when_nobody_is_subscribed() {
    let (state, action) = InboundState::Publishing.step(&alice(), InboundEvent::Published(Delivery::Unheard));
    assert_eq!(state, InboundState::Stopped);
    assert_eq!(action, InboundAction::Stop);
}

#[test]
fn malformed_frame_is_skipped() {
    let (state, action) = InboundState::start().step(&alice(), InboundEvent::Malformed);
    assert_eq!(state, InboundState::Reading);
    assert_eq!(action, InboundAction::Read);
}

#[test]
fn anything_but_text_ends_reading() {
    for event in [
        InboundEvent::Binary,
        InboundEvent::Ping,
        InboundEvent::Pong,
        InboundEvent::Close,
        InboundEvent::Ended,
        InboundEvent::Failed,
    ] {
        let (state, action) = InboundState::start().step(&alice(), event);
        assert_eq!(state, InboundState::Stopped);
        assert_eq!(action, InboundAction::Stop);
    }
}

#[test]
fn reply_out_of_turn_ends_reading() {
    let (state, action) = InboundState::start().step(&alice(), InboundEvent::Stored);
    assert_eq!((state, action), (InboundState::Stopped, InboundAction::Stop));
    let (state, action) = InboundState::Publishing.step(&alice(), InboundEvent::Stored);
    assert_eq!((state, action), (InboundState::Stopped, InboundAction::Stop));
    let (state, action) = InboundState::Storing { content: "x".to_string() }.step(&alice(), chat("y"));
    assert_eq!((state, action), (InboundState::Stopped, InboundAction::Stop));
    let (state, action) =
        InboundState::start().step(&alice(), InboundEvent::Published(Delivery::Queued { receivers: 1 }));
    assert_eq!((state, action), (InboundState::Stopped, InboundAction::Stop));
}

#[test]
fn stopped_reader_stays_stopped() {
    let (state, action) = InboundState::Stopped.step(&alice(), chat("hi"));
    assert_eq!((state, action), (InboundState::Stopped, InboundAction::Stop));
    let (state, action) = InboundState::Stopped.step(&alice(), InboundEvent::Stored);
    assert_eq!((state, action), (InboundState::Stopped, InboundAction::Stop));
}

#[test]
fn nothing_is_published_before_it_is_stored() {
    let session = alice();
    let events = vec![
        InboundEvent::Malformed,
        chat("one"),
        InboundEvent::StoreFailed,
        chat("two"),
        InboundEvent::Stored,
        InboundEvent::Published(Delivery::Queued { receivers: 2 }),
        chat("three"),
        InboundEvent::Stored,
        InboundEvent::Published(Delivery::Unheard),
        chat("four"),
    ];
    let mut state = InboundState::start();
    let mut stored: Option<String> = None;
    let mut confirmed = false;
    let mut published = Vec::new();
    for event in events {
        if event == InboundEvent::Stored {
            confirmed = true;
        }
        let (next, action) = state.step(&session, event);
        state = next;
        match action {
            InboundAction::Store { content, .. } => {
                stored = Some(content);
                confirmed = false;
            }
            InboundAction::Publish { payload } => {
                assert!(confirmed);
                let content = stored.take().expect("a message went to the store before");
                assert_eq!(payload, session.frame(content.clone()).encode());
                published.push(content);
            }
            InboundAction::Read | InboundAction::Stop => {}
        }
    }
    assert_eq!(published, vec!["two".to_string(), "three".to_string()]);
    assert_eq!(state, InboundState::Stopped);
}
