use std::collections::HashMap;
use weechat_matrix::device_id::{
    file_name, load_device_id, save_device_id, ReadOutcome, WriteRequest,
};

fn read(store: &HashMap<String, String>, name: &str) -> ReadOutcome {
    match store.get(name) {
        Some(content) => ReadOutcome::Content(content.clone()),
        None => ReadOutcome::NotFound,
    }
}

fn write(store: &mut HashMap<String, String>, request: WriteRequest) {
    store.insert(request.file_name, request.content);
}

#[test]
fn file_name_is_user_name_and_extension() {
    assert_eq!(file_name("alice"), "alice.device_id");
    assert_eq!(file_name(""), ".device_id");
    assert_eq!(file_name("john.doe"), "john.doe.device_id");
}

#[test]
fn save_writes_the_users_file() {
    assert_eq!(
        save_device_id("alice", "DEVICEID123"),
        WriteRequest {
            file_name: "alice.device_id".to_string(),
            content: "DEVICEID123".to_string()
        }
    );
}

#[test]
fn save_then_load_round_trip() {
    let mut store = HashMap::new();
    store.insert("alice.device_id".to_string(), "OLD".to_string());
    write(&mut store, save_device_id("alice", "DEVICEID123"));
    assert_eq!(store.len(), 1);
    let loaded = load_device_id(read(&store, &file_name("alice")));
    assert_eq!(loaded, Ok(Some("DEVICEID123".to_string())));
}

#[test]
fn load_without_file_finds_no_identity() {
    let store = HashMap::new();
    assert_eq!(load_device_id(read(&store, &file_name("alice"))), Ok(None));
    assert_eq!(load_device_id(ReadOutcome::NotFound), Ok(None));
}

#[test]
fn load_of_empty_file_finds_no_identity() {
    assert_eq!(load_device_id(ReadOutcome::Content(String::new())), Ok(None));
}

#[test]
fn load_reports_other_failures() {
    assert_eq!(
        load_device_id(ReadOutcome::Failed("PermissionDenied".to_string())),
        Err("PermissionDenied".to_string())
    );
}

#[test]
fn save_for_one_user_keeps_the_other() {
    let mut store = HashMap::new();
    write(&mut store, save_device_id("alice", "A1"));
    write(&mut store, save_device_id("bob", "B1"));
    write(&mut store, save_device_id("alice", "A2"));
    assert_eq!(load_device_id(read(&store, &file_name("bob"))), Ok(Some("B1".to_string())));
    assert_eq!(load_device_id(read(&store, &file_name("alice"))), Ok(Some("A2".to_string())));
    assert_eq!(store.len(), 2);
}
