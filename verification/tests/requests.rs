use uuid::Uuid;
use weechat_matrix::auth::{AuthData, AuthValue, InteractiveAuthInfo};
use weechat_matrix::commands::keys::{expand_home, KeysAction, KeysCommand, KeysSubcommand};
use weechat_matrix::connection::{Connection, EVENT_CHANNEL_CAPACITY};
use weechat_matrix::message::Protocol;
use weechat_matrix::request::{
    transaction_id_or_fresh, BridgeError, DeleteDevicesRequest, Direction, JoinFailure,
    MessagesRequest, Typing, TypingRequest, TYPING_NOTICE_TIMEOUT,
};
use weechat_matrix::sync::{LoopAction, LoopEvent};

struct Words;

impl Protocol for Words {
    type Login = String;
    type StateEvent = String;
    type TimelineEvent = String;
    type Members = Vec<String>;
    type Room = String;
}

fn connection() -> Connection {
    Connection::new("alice".to_string(), "secret".to_string(), "example".to_string())
}

fn pair(name: &str, value: AuthValue) -> (String, AuthValue) {
    (name.to_string(), value)
}

fn password_auth_of_alice(session: Option<String>) -> AuthData {
    AuthData {
        kind: "m.login.password".to_string(),
        auth_parameters: vec![
            pair(
                "identifier",
                AuthValue::Object(vec![
                    ("type".to_string(), "m.id.user".to_string()),
                    ("user".to_string(), "alice".to_string()),
                ]),
            ),
            pair("password", AuthValue::Text("secret".to_string())),
            pair("user", AuthValue::Text("alice".to_string())),
        ],
        session,
    }
}

#[test]
fn auth_data_names_the_user_twice() {
    let info = InteractiveAuthInfo {
        user: "alice".to_string(),
        password: "secret".to_string(),
        session: None,
    };
    assert_eq!(info.as_auth_data(), password_auth_of_alice(None));
}

#[test]
fn auth_data_carries_the_session() {
    let info = InteractiveAuthInfo {
        user: "alice".to_string(),
        password: "secret".to_string(),
        session: Some("xyz".to_string()),
    };
    let data = info.as_auth_data();
    assert_eq!(data.session, Some("xyz".to_string()));
    assert_eq!(data, password_auth_of_alice(Some("xyz".to_string())));
    let names: Vec<&str> = data.auth_parameters.iter().map(|p| p.0.as_str()).collect();
    assert_eq!(names, vec!["identifier", "password", "user"]);
}

#[test]
fn send_message_honours_the_callers_transaction_id() {
    let c = connection();
    let token = 0x1234_5678_9abc_4def_8123_4567_89ab_cdef_u128;
    let first = c.send_message("!r:example.org", "hello".to_string(), Some(token));
    let second = c.send_message("!r:example.org", "hello".to_string(), Some(token));
    assert_eq!(first.transaction_id, token);
    assert_eq!(second.transaction_id, token);
    assert_eq!(first.room_id, second.room_id);
    assert_eq!(first.content, second.content);
    assert_eq!(first.room_id, "!r:example.org");
    assert_eq!(first.content, "hello");
}

#[test]
fn send_message_without_id_gets_a_random_uuid() {
    let c = connection();
    let first = c.send_message("!r:example.org", "hello".to_string(), None);
    let second = c.send_message("!r:example.org", "hello".to_string(), None);
    assert_eq!(Uuid::from_u128(first.transaction_id).get_version_num(), 4);
    assert_eq!(Uuid::from_u128(second.transaction_id).get_version_num(), 4);
    assert_eq!((first.transaction_id >> 76) & 0xf, 4);
    assert_eq!((first.transaction_id >> 62) & 0x3, 2);
    assert_ne!(first.transaction_id, second.transaction_id);
}

#[test]
fn transaction_id_is_the_given_one_or_fresh() {
    assert_eq!(transaction_id_or_fresh(Some(0)), 0);
    assert_eq!(transaction_id_or_fresh(Some(u128::MAX)), u128::MAX);
    let fresh = transaction_id_or_fresh(None);
    assert_eq!((fresh >> 76) & 0xf, 4);
    assert_eq!((fresh >> 62) & 0x3, 2);
    assert_ne!(fresh, transaction_id_or_fresh(None));
}

#[test]
fn delete_devices_without_auth() {
    let c = connection();
    let request = c.delete_devices(vec!["DEV1".to_string(), "DEV2".to_string()], None);
    assert_eq!(
        request,
        DeleteDevicesRequest { devices: vec!["DEV1".to_string(), "DEV2".to_string()], auth: None }
    );
}

#[test]
fn delete_devices_with_auth() {
    let c = connection();
    let info = InteractiveAuthInfo {
        user: "alice".to_string(),
        password: "secret".to_string(),
        session: Some("xyz".to_string()),
    };
    let request = c.delete_devices(vec!["DEV1".to_string()], Some(info));
    assert_eq!(request.devices, vec!["DEV1".to_string()]);
    assert_eq!(request.auth, Some(password_auth_of_alice(Some("xyz".to_string()))));
}

#[test]
fn room_messages_reads_backward() {
    let c = connection();
    let request = c.room_messages("!r:example.org".to_string(), "t47429-4392820".to_string());
    assert_eq!(
        request,
        MessagesRequest {
            room_id: "!r:example.org".to_string(),
            from: "t47429-4392820".to_string(),
            direction: Direction::Backward,
        }
    );
    assert_eq!(
        MessagesRequest::backward("R".to_string(), "p".to_string()).direction,
        Direction::Backward
    );
}

#[test]
fn typing_notice_lasts_four_seconds() {
    let c = connection();
    assert_eq!(TYPING_NOTICE_TIMEOUT, 4);
    assert_eq!(
        c.send_typing_notice("!r:example.org", true),
        TypingRequest { room_id: "!r:example.org".to_string(), typing: Typing::Yes(4) }
    );
    assert_eq!(
        c.send_typing_notice("!r:example.org", false),
        TypingRequest { room_id: "!r:example.org".to_string(), typing: Typing::No }
    );
}

#[test]
fn bridge_hands_the_result_back() {
    let c = connection();
    let answer: Result<u32, String> = Ok(7);
    assert_eq!(c.spawn(Ok(answer)), Ok(Ok(7)));
    let refused: Result<u32, String> = Err("M_FORBIDDEN".to_string());
    assert_eq!(c.spawn(Ok(refused)), Ok(Err("M_FORBIDDEN".to_string())));
}

#[test]
fn bridge_reports_a_lost_network_side() {
    let c = connection();
    let cancelled: Result<Result<u32, String>, JoinFailure> = Err(JoinFailure::Cancelled);
    assert_eq!(c.spawn(cancelled), Err(BridgeError::Unavailable(JoinFailure::Cancelled)));
    let panicked: Result<Result<u32, String>, JoinFailure> = Err(JoinFailure::Panicked);
    assert_eq!(c.spawn(panicked), Err(BridgeError::Unavailable(JoinFailure::Panicked)));
}

#[test]
fn connection_starts_its_loops() {
    let c = connection();
    assert_eq!(EVENT_CHANNEL_CAPACITY, 1000);
    assert!(c.response_receiver().is_running());
    let mut machine = c.sync_loop::<Words>();
    assert!(!machine.is_stopped());
    assert!(matches!(machine.step(LoopEvent::Started), LoopAction::CheckSession));
    match machine.step(LoopEvent::SessionChecked(false)) {
        LoopAction::LoadDeviceId { file_name } => assert_eq!(file_name, "alice.device_id"),
        _ => panic!("expected the device id to be loaded"),
    }
}

#[test]
fn keys_subcommands_by_name() {
    assert_eq!(KeysCommand::subcommand("import"), Some(KeysSubcommand::Import));
    assert_eq!(KeysCommand::subcommand("export"), Some(KeysSubcommand::Export));
    assert_eq!(KeysCommand::subcommand("set-name"), None);
    assert_eq!(KeysCommand::subcommand(""), None);
    assert_eq!(KeysCommand::subcommand("Import"), None);
}

#[test]
fn keys_command_runs_on_a_matrix_buffer() {
    let file = "/home/alice/keys.txt".to_string();
    let passphrase = "open sesame".to_string();
    let arguments = Some((file.clone(), passphrase.clone()));
    assert_eq!(
        KeysCommand::run(true, Some(KeysSubcommand::Import), arguments.clone()),
        Some(KeysAction::Import { file: file.clone(), passphrase: passphrase.clone() })
    );
    assert_eq!(
        KeysCommand::run(true, Some(KeysSubcommand::Export), arguments),
        Some(KeysAction::Export { file, passphrase })
    );
}

#[test]
fn keys_command_refuses_other_buffers_before_it_reads_anything() {
    let refusal = Some(KeysAction::Print("Must be executed on Matrix buffer".to_string()));
    let arguments = Some(("f".to_string(), "p".to_string()));
    assert_eq!(KeysCommand::run(false, Some(KeysSubcommand::Import), arguments.clone()), refusal);
    assert_eq!(KeysCommand::run(false, Some(KeysSubcommand::Export), arguments.clone()), refusal);
    assert_eq!(KeysCommand::run(false, None, arguments), refusal);
    assert_eq!(KeysCommand::run(false, Some(KeysSubcommand::Import), None), refusal);
    assert_eq!(KeysCommand::run(false, None, None), refusal);
}

#[test]
fn keys_command_without_subcommand_or_arguments_does_nothing() {
    let arguments = Some(("f".to_string(), "p".to_string()));
    assert_eq!(KeysCommand::run(true, None, arguments), None);
    assert_eq!(KeysCommand::run(true, Some(KeysSubcommand::Import), None), None);
    assert_eq!(KeysCommand::run(true, Some(KeysSubcommand::Export), None), None);
    assert_eq!(KeysCommand::run(true, None, None), None);
}

#[test]
fn home_directory_is_expanded() {
    assert_eq!(expand_home("~/keys.txt", "/home/alice"), "/home/alice/keys.txt");
    assert_eq!(expand_home("~", "/home/alice"), "/home/alice");
    assert_eq!(expand_home("~/", "/home/alice"), "/home/alice/");
}

#[test]
fn other_paths_are_left_alone() {
    assert_eq!(expand_home("/tmp/keys.txt", "/home/alice"), "/tmp/keys.txt");
    assert_eq!(expand_home("~bob/keys.txt", "/home/alice"), "~bob/keys.txt");
    assert_eq!(expand_home("keys~/a", "/home/alice"), "keys~/a");
    assert_eq!(expand_home("", "/home/alice"), "");
    assert_eq!(expand_home("~é", "/home/alice"), "~é");
}
