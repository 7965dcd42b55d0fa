use weechat_matrix::device_id::{ReadOutcome, WriteRequest};
use weechat_matrix::message::{ClientMessage, Protocol};
use weechat_matrix::sync::{
    sync_filter, JoinedRoom, LazyLoad, LoopAction, LoopEvent, MemberSync, SyncFilter, SyncLoop,
    DEFAULT_SYNC_TIMEOUT, STATE_EVENT_LIMIT,
};

struct Plain;

impl Protocol for Plain {
    type Login = String;
    type StateEvent = String;
    type TimelineEvent = String;
    type Members = Vec<String>;
    type Room = String;
}

fn machine() -> SyncLoop<Plain> {
    SyncLoop::new("alice".to_string(), "secret".to_string(), "example".to_string())
}

/// A loop that has logged in and begun to poll, with no stored token.
fn streaming() -> SyncLoop<Plain> {
    let mut m = machine();
    assert!(matches!(m.step(LoopEvent::Started), LoopAction::CheckSession));
    assert!(matches!(m.step(LoopEvent::SessionChecked(true)), LoopAction::NegotiateFilter { .. }));
    assert!(matches!(m.step(LoopEvent::FilterReady("f1".to_string())), LoopAction::LoadSyncToken));
    assert!(matches!(m.step(LoopEvent::TokenLoaded(None)), LoopAction::Sync { .. }));
    m
}

/// A loop that has asked for a login.
fn logging_in(outcome: ReadOutcome) -> (SyncLoop<Plain>, LoopAction<Plain>) {
    let mut m = machine();
    m.step(LoopEvent::Started);
    m.step(LoopEvent::SessionChecked(false));
    let action = m.step(LoopEvent::DeviceIdRead(outcome));
    (m, action)
}

fn room(id: &str, state: &[&str], timeline: &[&str]) -> JoinedRoom<Plain> {
    JoinedRoom {
        room_id: id.to_string(),
        state: state.iter().map(|e| e.to_string()).collect(),
        timeline: timeline.iter().map(|e| e.to_string()).collect(),
    }
}

fn sent_state(action: LoopAction<Plain>) -> (String, String) {
    match action {
        LoopAction::SendMessage(ClientMessage::SyncState(room, event)) => (room, event),
        _ => panic!("not a state event"),
    }
}

fn sent_timeline(action: LoopAction<Plain>) -> (String, String) {
    match action {
        LoopAction::SendMessage(ClientMessage::SyncEvent(room, event)) => (room, event),
        _ => panic!("not a timeline event"),
    }
}

fn pair(room: &str, event: &str) -> (String, String) {
    (room.to_string(), event.to_string())
}

#[test]
fn first_login_without_stored_identity() {
    let mut m = machine();
    let mut announced = 0;
    assert!(matches!(m.step(LoopEvent::Started), LoopAction::CheckSession));
    match m.step(LoopEvent::SessionChecked(false)) {
        LoopAction::LoadDeviceId { file_name } => assert_eq!(file_name, "alice.device_id"),
        _ => panic!("expected the device id to be loaded"),
    }
    match m.step(LoopEvent::DeviceIdRead(ReadOutcome::NotFound)) {
        LoopAction::Login { username, password, device_id, display_name } => {
            assert_eq!(username, "alice");
            assert_eq!(password, "secret");
            assert_eq!(device_id, None);
            assert_eq!(display_name, "Weechat-Matrix-rs");
        }
        _ => panic!("expected a login"),
    }
    let logged_in =
        LoopEvent::LoggedIn { device_id: "NEWDEVICE".to_string(), response: "session".to_string() };
    match m.step(logged_in) {
        LoopAction::SaveDeviceId(request) => assert_eq!(
            request,
            WriteRequest {
                file_name: "alice.device_id".to_string(),
                content: "NEWDEVICE".to_string()
            }
        ),
        _ => panic!("expected the device id to be saved"),
    }
    match m.step(LoopEvent::DeviceIdSaved) {
        LoopAction::SendMessage(ClientMessage::LoginMessage(response)) => {
            announced += 1;
            assert_eq!(response, "session");
        }
        _ => panic!("expected the login to be announced"),
    }
    match m.step(LoopEvent::Sent) {
        LoopAction::NegotiateFilter { name, filter } => {
            assert_eq!(name, "sync");
            assert_eq!(filter, sync_filter());
        }
        _ => panic!("expected the filter to be negotiated"),
    }
    assert!(matches!(m.step(LoopEvent::FilterReady("f1".to_string())), LoopAction::LoadSyncToken));
    match m.step(LoopEvent::TokenLoaded(None)) {
        LoopAction::Sync { timeout, filter_id, token } => {
            assert_eq!(timeout, 30);
            assert_eq!(filter_id, "f1");
            assert_eq!(token, None);
        }
        _ => panic!("expected the sync to begin"),
    }
    assert_eq!(announced, 1);
    assert!(!m.is_stopped());
}

#[test]
fn restart_with_stored_identity() {
    let (mut m, action) = logging_in(ReadOutcome::Content("DEVICEID123".to_string()));
    match action {
        LoopAction::Login { device_id, .. } => {
            assert_eq!(device_id, Some("DEVICEID123".to_string()))
        }
        _ => panic!("expected a login"),
    }
    let logged_in = LoopEvent::LoggedIn {
        device_id: "DEVICEID123".to_string(),
        response: "session".to_string(),
    };
    match m.step(logged_in) {
        LoopAction::SaveDeviceId(request) => {
            assert_eq!(request.file_name, "alice.device_id");
            assert_eq!(request.content, "DEVICEID123");
        }
        _ => panic!("expected the device id to be saved"),
    }
}

#[test]
fn empty_device_id_file_is_a_first_login() {
    let (_, action) = logging_in(ReadOutcome::Content(String::new()));
    match action {
        LoopAction::Login { device_id, .. } => assert_eq!(device_id, None),
        _ => panic!("expected a login"),
    }
}

#[test]
fn unreadable_device_id_ends_the_loop() {
    let (mut m, action) = logging_in(ReadOutcome::Failed("PermissionDenied".to_string()));
    match action {
        LoopAction::SendError(text) => assert_eq!(
            text,
            "Error while reading the device id for server example: PermissionDenied"
        ),
        _ => panic!("expected an error"),
    }
    assert!(matches!(m.step(LoopEvent::Sent), LoopAction::Stop));
    assert!(m.is_stopped());
}

#[test]
fn rejected_login_ends_the_loop() {
    let (mut m, _) = logging_in(ReadOutcome::NotFound);
    match m.step(LoopEvent::LoginFailed("Forbidden".to_string())) {
        LoopAction::SendError(text) => {
            assert_eq!(text, "Error while logging in to server example: Forbidden")
        }
        _ => panic!("expected an error"),
    }
    assert!(!m.is_stopped());
    assert!(matches!(m.step(LoopEvent::Sent), LoopAction::Stop));
    assert!(m.is_stopped());
    assert!(matches!(m.step(LoopEvent::Started), LoopAction::Stop));
}

#[test]
fn failed_device_id_write_ends_the_loop() {
    let (mut m, _) = logging_in(ReadOutcome::NotFound);
    let logged_in =
        LoopEvent::LoggedIn { device_id: "NEWDEVICE".to_string(), response: "session".to_string() };
    assert!(matches!(m.step(logged_in), LoopAction::SaveDeviceId(_)));
    let mut errors = 0;
    match m.step(LoopEvent::DeviceIdNotSaved("disk full".to_string())) {
        LoopAction::SendError(text) => {
            errors += 1;
            assert_eq!(text, "Error while writing the device id for server example: disk full");
        }
        _ => panic!("expected an error"),
    }
    let later: Vec<LoopEvent<Plain>> = vec![
        LoopEvent::Sent,
        LoopEvent::DeviceIdSaved,
        LoopEvent::Sent,
        LoopEvent::FilterReady("f1".to_string()),
        LoopEvent::Response(vec![room("R1", &["s"], &["t"])]),
    ];
    for event in later {
        assert!(matches!(m.step(event), LoopAction::Stop));
        assert!(m.is_stopped());
    }
    assert_eq!(errors, 1);
}

#[test]
fn existing_session_skips_the_login() {
    let mut m = machine();
    m.step(LoopEvent::Started);
    match m.step(LoopEvent::SessionChecked(true)) {
        LoopAction::NegotiateFilter { name, filter } => {
            assert_eq!(name, "sync");
            assert_eq!(
                filter,
                SyncFilter {
                    lazy_load: LazyLoad::Enabled { include_redundant_members: false },
                    limit: Some(10),
                }
            );
        }
        _ => panic!("expected the filter to be negotiated"),
    }
}

#[test]
fn failed_filter_negotiation_ends_the_loop() {
    let mut m = machine();
    m.step(LoopEvent::Started);
    assert!(matches!(m.step(LoopEvent::SessionChecked(true)), LoopAction::NegotiateFilter { .. }));
    match m.step(LoopEvent::FilterFailed("M_UNKNOWN".to_string())) {
        LoopAction::SendError(text) => assert_eq!(
            text,
            "Error while negotiating the sync filter for server example: M_UNKNOWN"
        ),
        _ => panic!("expected an error"),
    }
    assert!(matches!(m.step(LoopEvent::Sent), LoopAction::Stop));
    assert!(m.is_stopped());
    assert!(matches!(m.step(LoopEvent::FilterReady("f1".to_string())), LoopAction::Stop));
}

#[test]
fn filter_failure_at_another_time_stops_the_loop() {
    let mut m = streaming();
    assert!(matches!(m.step(LoopEvent::FilterFailed("late".to_string())), LoopAction::Stop));
    assert!(m.is_stopped());
}

#[test]
fn sync_resumes_from_stored_token() {
    let mut m = machine();
    m.step(LoopEvent::Started);
    m.step(LoopEvent::SessionChecked(true));
    m.step(LoopEvent::FilterReady("f7".to_string()));
    match m.step(LoopEvent::TokenLoaded(Some("s72594".to_string()))) {
        LoopAction::Sync { timeout, filter_id, token } => {
            assert_eq!(timeout, DEFAULT_SYNC_TIMEOUT);
            assert_eq!(filter_id, "f7");
            assert_eq!(token, Some("s72594".to_string()));
        }
        _ => panic!("expected the sync to begin"),
    }
}

#[test]
fn sync_constants() {
    assert_eq!(DEFAULT_SYNC_TIMEOUT, 30);
    assert_eq!(STATE_EVENT_LIMIT, 10);
}

#[test]
fn response_with_two_state_and_three_timeline_events() {
    let mut m = streaming();
    let response = vec![room("R1", &["s1", "s2"], &["t1", "t2", "t3"])];
    let mut messages = 0;
    let first = m.step(LoopEvent::Response(response));
    assert_eq!(sent_state(first), pair("R1", "s1"));
    messages += 1;
    assert_eq!(sent_state(m.step(LoopEvent::Sent)), pair("R1", "s2"));
    messages += 1;
    assert_eq!(sent_timeline(m.step(LoopEvent::Sent)), pair("R1", "t1"));
    messages += 1;
    assert_eq!(sent_timeline(m.step(LoopEvent::Sent)), pair("R1", "t2"));
    messages += 1;
    assert_eq!(sent_timeline(m.step(LoopEvent::Sent)), pair("R1", "t3"));
    messages += 1;
    match m.step(LoopEvent::Sent) {
        LoopAction::QueryMembers(room) => assert_eq!(room, "R1"),
        _ => panic!("expected the members to be checked"),
    }
    assert!(matches!(
        m.step(LoopEvent::MembersChecked(MemberSync::Synced)),
        LoopAction::AwaitResponse
    ));
    assert_eq!(messages, 5);
    assert!(!m.is_stopped());
}

#[test]
fn rooms_are_dealt_with_one_after_the_other() {
    let mut m = streaming();
    let response = vec![room("A", &[], &["a1"]), room("B", &["b1"], &[]), room("C", &[], &[])];
    assert_eq!(sent_timeline(m.step(LoopEvent::Response(response))), pair("A", "a1"));
    match m.step(LoopEvent::Sent) {
        LoopAction::QueryMembers(room) => assert_eq!(room, "A"),
        _ => panic!("expected the members of A to be checked"),
    }
    match m.step(LoopEvent::MembersChecked(MemberSync::Incomplete)) {
        LoopAction::FetchMembers(room) => assert_eq!(room, "A"),
        _ => panic!("expected the members of A to be fetched"),
    }
    assert_eq!(sent_state(m.step(LoopEvent::FetchStarted)), pair("B", "b1"));
    match m.step(LoopEvent::Sent) {
        LoopAction::QueryMembers(room) => assert_eq!(room, "B"),
        _ => panic!("expected the members of B to be checked"),
    }
    match m.step(LoopEvent::MembersChecked(MemberSync::UnknownRoom)) {
        LoopAction::QueryMembers(room) => assert_eq!(room, "C"),
        _ => panic!("expected the members of C to be checked"),
    }
    assert!(matches!(
        m.step(LoopEvent::MembersChecked(MemberSync::Synced)),
        LoopAction::AwaitResponse
    ));
    let next = vec![room("A", &[], &["a2"])];
    assert_eq!(sent_timeline(m.step(LoopEvent::Response(next))), pair("A", "a2"));
}

#[test]
fn empty_response_goes_on_polling() {
    let mut m = streaming();
    assert!(matches!(m.step(LoopEvent::Response(Vec::new())), LoopAction::AwaitResponse));
    assert!(!m.is_stopped());
}

#[test]
fn closed_channel_ends_the_loop() {
    let mut m = streaming();
    let response = vec![room("R1", &["s1", "s2"], &["t1"])];
    assert_eq!(sent_state(m.step(LoopEvent::Response(response))), pair("R1", "s1"));
    assert!(matches!(m.step(LoopEvent::ChannelClosed), LoopAction::Stop));
    assert!(m.is_stopped());
    assert!(matches!(m.step(LoopEvent::Sent), LoopAction::Stop));
}

#[test]
fn closed_channel_at_the_login_ends_the_loop() {
    let (mut m, _) = logging_in(ReadOutcome::NotFound);
    m.step(LoopEvent::LoggedIn { device_id: "D".to_string(), response: "session".to_string() });
    assert!(matches!(m.step(LoopEvent::DeviceIdSaved), LoopAction::SendMessage(_)));
    assert!(matches!(m.step(LoopEvent::ChannelClosed), LoopAction::Stop));
    assert!(m.is_stopped());
}

#[test]
fn unexpected_event_ends_the_loop() {
    let mut m = machine();
    assert!(!m.is_stopped());
    assert!(matches!(m.step(LoopEvent::Sent), LoopAction::Stop));
    assert!(m.is_stopped());
    let mut polling = streaming();
    assert!(matches!(polling.step(LoopEvent::FetchStarted), LoopAction::Stop));
    assert!(polling.is_stopped());
}
