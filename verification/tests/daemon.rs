use librespot_protocol::connect::{Cluster, DeviceInfo, MemberType, PutStateReason, PutStateRequest};
use protobuf::Message;
use serde_json::Value;

use spotify_connect::cli::{ctl, request_line, ControlRequest};
use spotify_connect::cluster::{mock_cluster, DeviceCluster};
use spotify_connect::control::{
    error_reply, finish_transfer, finish_volume, handle, message_line, ok_reply, read_request, request_in, Shared,
    Step,
};
use spotify_connect::daemon::{connection_wait, fetch_request, DaemonAction, DaemonEvent, FetchError};
use spotify_connect::message::read_cluster;

fn mocked() -> Shared<u8> {
    let mut shared = Shared::new("me".to_string());
    shared.start_mock();
    shared
}

fn live() -> Shared<u8> {
    let mut shared = Shared::new("me".to_string());
    shared.advance(DaemonEvent::SignedIn);
    shared.connect(1);
    shared.cluster_fetched(mock_cluster("me"));
    shared
}

fn reply(line: &str, shared: &mut Shared<u8>) -> Value {
    match handle(line, shared) {
        Some(Step::Reply(value)) => value,
        _ => panic!("no reply"),
    }
}

fn error(code: &str) -> Value {
    serde_json::from_str(&format!("{{\"error\":\"{code}\"}}")).unwrap()
}

fn ok() -> Value {
    serde_json::from_str("{\"ok\":true}").unwrap()
}

fn active(shared: &mut Shared<u8>) -> (String, u64) {
    let status = reply("{\"cmd\":\"status\"}\n", shared);
    let device = &status["activeDevice"];
    (device["id"].as_str().unwrap().to_string(), device["volume"].as_u64().unwrap())
}

#[test]
fn nobody_is_served_before_signing_in() {
    let mut shared: Shared<u8> = Shared::new("me".to_string());
    for line in ["{\"cmd\":\"status\"}", "{\"cmd\":\"switch\",\"id\":\"x\"}", "junk", ""] {
        assert_eq!(reply(line, &mut shared), error("not_authenticated"));
    }
}

#[test]
fn without_a_cluster_nothing_is_available() {
    let mut shared: Shared<u8> = Shared::new("me".to_string());
    assert!(matches!(shared.advance(DaemonEvent::SignedIn), DaemonAction::Receive));
    assert_eq!(reply("{\"cmd\":\"devices\"}", &mut shared), error("unavailable"));
    shared.connect(1);
    assert_eq!(reply("nonsense", &mut shared), error("unavailable"));
}

#[test]
fn bad_requests_are_refused_and_change_nothing() {
    for shared in [&mut mocked(), &mut live()] {
        for line in [
            "",
            "junk",
            "null",
            "[]",
            "{}",
            "{\"cmd\":7}",
            "{\"cmd\":\"play\"}",
            "{\"cmd\":\"switch\"}",
            "{\"cmd\":\"switch\",\"id\":1}",
            "{\"cmd\":\"volume\"}",
            "{\"cmd\":\"volume\",\"value\":101}",
            "{\"cmd\":\"volume\",\"value\":-1}",
            "{\"cmd\":\"volume\",\"value\":1.5}",
            "{\"cmd\":\"volume\",\"value\":\"1\"}",
        ] {
            assert_eq!(reply(line, shared), error("bad_request"), "{line}");
        }
        assert_eq!(active(shared), ("mock-living-room".to_string(), 55));
    }
}

#[test]
fn a_mock_switch_shows_in_the_status() {
    let mut shared = mocked();
    assert_eq!(active(&mut shared), ("mock-living-room".to_string(), 55));
    assert_eq!(reply("{\"cmd\":\"switch\",\"id\":\"mock-office\"}", &mut shared), ok());
    assert_eq!(active(&mut shared), ("mock-office".to_string(), 45));
    assert_eq!(reply("{\"cmd\":\"switch\",\"id\":\"nowhere\"}", &mut shared), error("bad_request"));
    assert_eq!(active(&mut shared), ("mock-office".to_string(), 45));
}

#[test]
fn a_mock_volume_shows_in_the_status() {
    let mut shared = mocked();
    for percent in [0, 1, 33, 99, 100] {
        let line = format!("{{\"cmd\":\"volume\",\"value\":{percent}}}");
        assert_eq!(reply(&line, &mut shared), ok());
        assert_eq!(active(&mut shared), ("mock-living-room".to_string(), percent));
    }
}

#[test]
fn a_mock_volume_needs_a_device_that_plays() {
    let mut shared = mocked();
    shared.cluster.as_mut().unwrap().set_active("gone");
    assert_eq!(reply("{\"cmd\":\"volume\",\"value\":1}", &mut shared), error("no_active_device"));
    assert_eq!(reply("{\"cmd\":\"volume\",\"value\":101}", &mut shared), error("bad_request"));
}

#[test]
fn a_live_volume_is_put_and_then_noted() {
    let mut shared = live();
    let change = match handle("{\"cmd\":\"volume\",\"value\":30}", &mut shared) {
        Some(Step::SetVolume(change)) => change,
        _ => panic!("no change of volume"),
    };
    assert_eq!(change.device, "mock-living-room");
    assert_eq!(change.percent, 30);
    assert_eq!(change.raw, 19660);
    assert_eq!(change.request.endpoint, "/connect-state/v1/connect/volume/from/me/to/mock-living-room");
    assert_eq!(change.request.headers.len(), 1);
    assert_eq!(change.request.headers["content-type"], "application/json");
    assert_eq!(change.request.body, b"{\"volume\":19660}");
    assert_eq!(active(&mut shared).1, 55);
    assert_eq!(finish_volume(&mut shared, &change, false), error("volume_failed"));
    assert_eq!(active(&mut shared).1, 55);
    assert_eq!(finish_volume(&mut shared, &change, true), ok());
    assert_eq!(active(&mut shared), ("mock-living-room".to_string(), 30));
    shared.cluster = None;
    assert_eq!(finish_volume(&mut shared, &change, true), ok());
    assert!(shared.cluster.is_none());
}

#[test]
fn a_live_volume_needs_a_device_that_plays() {
    let mut shared = live();
    shared.cluster.as_mut().unwrap().set_active("");
    assert_eq!(reply("{\"cmd\":\"volume\",\"value\":1}", &mut shared), error("no_active_device"));
    assert_eq!(reply("{\"cmd\":\"volume\",\"value\":101}", &mut shared), error("bad_request"));
}

#[test]
fn a_live_switch_is_transferred_and_then_noted() {
    let mut shared = live();
    let transfer = match handle("{\"cmd\":\"switch\",\"id\":\"mock-office\"}", &mut shared) {
        Some(Step::Transfer(transfer)) => transfer,
        _ => panic!("no transfer"),
    };
    assert_eq!((transfer.from.as_str(), transfer.target.as_str()), ("mock-living-room", "mock-office"));
    assert_eq!(finish_transfer(&mut shared, &transfer, false), error("switch_failed"));
    assert_eq!(active(&mut shared).0, "mock-living-room");
    assert_eq!(finish_transfer(&mut shared, &transfer, true), ok());
    assert_eq!(active(&mut shared).0, "mock-office");
}

#[test]
fn with_nothing_playing_a_switch_resumes_at_its_target() {
    let mut shared = live();
    shared.cluster.as_mut().unwrap().set_active("");
    match handle("{\"cmd\":\"switch\",\"id\":\"unheard-of\"}", &mut shared) {
        Some(Step::Transfer(transfer)) => {
            assert_eq!((transfer.from.as_str(), transfer.target.as_str()), ("unheard-of", "unheard-of"))
        }
        _ => panic!("no transfer"),
    }
}

#[test]
fn a_volume_off_the_scale_stops_the_list_only() {
    let mut shared = live();
    shared.cluster.as_mut().unwrap().set_volume("mock-office", u32::MAX);
    assert!(handle("{\"cmd\":\"devices\"}", &mut shared).is_none());
    assert!(handle("{\"cmd\":\"status\"}", &mut shared).is_none());
    assert!(handle("{\"cmd\":\"switch\",\"id\":\"mock-office\"}", &mut shared).is_some());
    assert_eq!(reply("{}", &mut shared), error("bad_request"));
}

#[test]
fn the_daemon_understands_the_client() {
    let request = read_request(&request_line(&ControlRequest::Switch("a\"b\n\u{e4}".to_string())));
    assert_eq!(request.cmd, "switch");
    assert_eq!(request.id, Some("a\"b\n\u{e4}".to_string()));
    assert_eq!(request.value, None);
    let request = read_request(&request_line(&ControlRequest::Volume(7)));
    assert_eq!((request.cmd.as_str(), request.value), ("volume", Some(7)));
    assert_eq!(read_request(&request_line(&ControlRequest::Status)).cmd, "status");
    assert_eq!(read_request(&request_line(&ControlRequest::Devices)).cmd, "devices");
}

#[test]
fn messages_take_one_line() {
    assert_eq!(message_line(&ok_reply()), "{\"ok\":true}\n");
    let line = message_line(&error_reply("two\nlines\u{2028}"));
    assert_eq!(line.find('\n'), Some(line.len() - 1));
    let read: Value = serde_json::from_str(&line).unwrap();
    assert_eq!(read["error"], "two\nlines\u{2028}");
}

#[test]
fn the_daemon_forgets_with_the_connection() {
    let mut shared = live();
    assert!(matches!(shared.advance(DaemonEvent::Disconnected), DaemonAction::Wait(5)));
    assert!(shared.session.is_none());
    assert_eq!(reply("{\"cmd\":\"status\"}", &mut shared), error("unavailable"));
    assert!(matches!(shared.advance(DaemonEvent::SignedOut), DaemonAction::Wait(5)));
    assert_eq!(reply("{\"cmd\":\"status\"}", &mut shared), error("not_authenticated"));
    assert_eq!(shared.own_id, "me");
}

#[test]
fn a_fetched_cluster_does_not_replace_an_update() {
    let mut shared: Shared<u8> = Shared::new("me".to_string());
    let mut newer = DeviceCluster::new();
    newer.set_active("newer");
    shared.cluster_updated(None);
    assert!(shared.cluster.is_none());
    shared.cluster_updated(Some(newer));
    shared.cluster_fetched(DeviceCluster::new());
    assert_eq!(shared.cluster.as_ref().unwrap().active_device_id, "newer");
    shared.cluster_updated(None);
    assert_eq!(shared.cluster.as_ref().unwrap().active_device_id, "newer");
    let mut newest = DeviceCluster::new();
    newest.set_active("newest");
    shared.cluster_updated(Some(newest));
    assert_eq!(shared.cluster.unwrap().active_device_id, "newest");
}

#[test]
fn the_observer_is_announced() {
    let request = fetch_request("me", "client", "connection").ok().unwrap();
    assert_eq!(request.endpoint, "/connect-state/v1/devices/meobs");
    assert_eq!(request.headers.len(), 2);
    assert_eq!(request.headers["x-spotify-connection-id"], "connection");
    assert_eq!(request.headers["content-type"], "application/x-protobuf");
    let put = PutStateRequest::parse_from_bytes(&request.body).unwrap();
    assert_eq!(put.member_type.enum_value(), Ok(MemberType::CONNECT_STATE));
    assert_eq!(put.put_state_reason.enum_value(), Ok(PutStateReason::NEW_DEVICE));
    let info = &put.device.device_info;
    assert_eq!(info.device_id, "meobs");
    assert_eq!(info.name, "spotify-connect observer");
    assert_eq!(info.client_id, "client");
    assert!(info.capabilities.hidden);
    assert!(info.capabilities.is_observable);
    assert!(!info.capabilities.can_be_player);
    assert!(!put.is_active);
}

#[test]
fn the_reply_to_the_announcement_is_read() {
    let mut c = Cluster::new();
    c.active_device_id = "p".into();
    let d = DeviceInfo { name: "Portable".into(), volume: 9, ..Default::default() };
    c.device.insert("p".into(), d);
    let cluster = read_cluster(&c.write_to_bytes().unwrap()).ok().unwrap();
    assert_eq!(cluster.active_device_id, "p");
    assert_eq!(cluster.device.len(), 1);
    assert_eq!(cluster.device[0].0, "p");
    assert_eq!(cluster.device[0].1.name, "Portable");
    assert_eq!(cluster.device[0].1.volume, 9);
    let bytes = [0xff, 0xff];
    let expected = Cluster::parse_from_bytes(&bytes).unwrap_err().to_string();
    assert_eq!(read_cluster(&bytes).err(), Some(expected));
}

#[test]
fn the_cluster_is_fetched_once_there_is_a_connection() {
    assert_eq!(connection_wait(""), Some(500));
    assert_eq!(connection_wait("id"), None);
}

#[test]
fn a_connection_id_has_to_fit_into_a_header() {
    match fetch_request("me", "client", "a\nb") {
        Err(FetchError::BadHeader(reason)) => assert_eq!(reason, "failed to parse header value"),
        _ => panic!("no bad header"),
    }
    assert!(fetch_request("me", "client", "\u{7f}").is_err());
    assert!(fetch_request("me", "client", "\u{0}").is_err());
    let request = fetch_request("me", "client", "\t ~\u{e4}").ok().unwrap();
    assert_eq!(request.headers["x-spotify-connection-id"].as_bytes(), "\t ~\u{e4}".as_bytes());
}

#[test]
fn requests_are_read_from_values() {
    let json: Value = serde_json::from_str("{\"cmd\":\"switch\",\"id\":\"a\",\"value\":7}").unwrap();
    let request = request_in(&json);
    assert_eq!(request.cmd, "switch");
    assert_eq!(request.id, Some("a".to_string()));
    assert_eq!(request.value, Some(7));
    let request = request_in(&Value::Null);
    assert_eq!((request.cmd.as_str(), request.id, request.value), ("", None, None));
}

#[test]
fn without_mock_mode_a_cluster_goes_with_its_session() {
    let mut shared = live();
    assert!(shared.cluster.is_some() && shared.session.is_some());
    shared.advance(DaemonEvent::Disconnected);
    assert!(shared.cluster.is_none() && shared.session.is_none() && shared.authenticated);
    shared.advance(DaemonEvent::SignedIn);
    shared.connect(2);
    shared.cluster_updated(None);
    assert_eq!(reply("{\"cmd\":\"devices\"}", &mut shared), error("unavailable"));
    shared.cluster_fetched(mock_cluster("me"));
    assert_eq!(active(&mut shared).0, "mock-living-room");
}

#[test]
fn the_client_goes_by_what_the_daemon_sends() {
    let mut shared: Shared<u8> = Shared::new("me".to_string());
    let outcome = ctl(Some(message_line(&reply("{\"cmd\":\"status\"}", &mut shared))));
    assert_eq!((outcome.shown.as_str(), outcome.code), ("{\"error\":\"not_authenticated\"}", 3));
    shared.advance(DaemonEvent::SignedIn);
    let outcome = ctl(Some(message_line(&reply("{\"cmd\":\"status\"}", &mut shared))));
    assert_eq!((outcome.shown.as_str(), outcome.code), ("{\"error\":\"unavailable\"}", 2));
    let outcome = ctl(Some(message_line(&reply("{\"cmd\":\"play\"}", &mut mocked()))));
    assert_eq!((outcome.shown.as_str(), outcome.code), ("{\"error\":\"bad_request\"}", 1));
    let outcome = ctl(Some(message_line(&ok_reply())));
    assert_eq!((outcome.shown.as_str(), outcome.code), ("{\"ok\":true}", 0));
}
