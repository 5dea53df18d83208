use librespot_protocol::connect::{Cluster, DeviceInfo};
use librespot_protocol::devices::{DeviceAlias, DeviceType};
use serde_json::Value;

use spotify_connect::cluster::{mock_cluster, DeviceCluster};
use spotify_connect::devices::{check_volumes, devices, devices_json, status_json};
use spotify_connect::message::type_label;

fn record(fields: Vec<(&str, Value)>) -> Value {
    let mut map = serde_json::Map::new();
    for (key, value) in fields {
        map.insert(key.to_string(), value);
    }
    Value::Object(map)
}

fn entry(id: &str, name: &str, kind: &str, active: bool, volume: u32) -> Value {
    record(vec![
        ("id", Value::from(id)),
        ("name", Value::from(name)),
        ("type", Value::from(kind)),
        ("active", Value::from(active)),
        ("volume", Value::from(volume)),
    ])
}

fn alias(name: &str) -> DeviceAlias {
    DeviceAlias { id: 1, display_name: name.into(), ..Default::default() }
}

fn named(name: &str) -> DeviceInfo {
    DeviceInfo { name: name.into(), ..Default::default() }
}

fn ids(cluster: Cluster, own_id: &str) -> Vec<String> {
    let cluster = DeviceCluster::from_message(cluster);
    devices(&cluster, own_id).into_iter().map(|entry| entry.id).collect()
}

#[test]
fn maps_cluster_to_devices() {
    let mut c = Cluster::new();
    for (id, name, t) in [("me", "arch", DeviceType::COMPUTER), ("p", "Portable", DeviceType::SPEAKER)] {
        let d = DeviceInfo { name: name.into(), device_type: t.into(), ..Default::default() };
        c.device.insert(id.into(), d);
    }
    let mut base = named("echo1");
    base.device_aliases.insert("".into(), alias("Kitchen"));
    c.device.insert("echo1".into(), base.clone());
    c.device.insert("echo1_amzn_1".into(), named("Kitchen"));
    let mut lone = named("echo2");
    lone.device_aliases.insert("".into(), alias("Bedroom"));
    c.device.insert("echo2".into(), lone);
    if let Some(p) = c.device.get_mut("p") {
        p.volume = u16::MAX as u32 / 2;
    }
    c.active_device_id = "p".into();
    let c = DeviceCluster::from_message(c);
    assert!(check_volumes(&c, "me"));
    assert_eq!(
        devices_json(&c, "me"),
        Value::Array(vec![
            entry("me", "This computer", "local", false, 0),
            entry("echo2", "Bedroom", "unknown", false, 0),
            entry("echo1_amzn_1", "Kitchen", "unknown", false, 0),
            entry("p", "Portable", "speaker", true, 50),
        ])
    );
    assert_eq!(
        status_json(&c, "me"),
        record(vec![(
            "activeDevice",
            record(vec![
                ("id", Value::from("p")),
                ("name", Value::from("Portable")),
                ("volume", Value::from(50)),
            ]),
        )])
    );
}

#[test]
fn the_observer_is_not_listed() {
    let mut c = Cluster::new();
    c.device.insert("meobs".into(), named("spotify-connect observer"));
    c.device.insert("me".into(), named("arch"));
    c.device.insert("meobsx".into(), named("other"));
    assert_eq!(ids(c, "me"), vec!["me", "meobsx"]);
}

#[test]
fn this_computer_comes_first_and_case_does_not_count() {
    let mut c = Cluster::new();
    for (id, name) in [("z", "aardvark"), ("y", "Badger"), ("x", "ZEBRA"), ("me", "zzz"), ("w", "\u{c4}hre")] {
        c.device.insert(id.into(), named(name));
    }
    assert_eq!(ids(c, "me"), vec!["me", "z", "y", "x", "w"]);
}

#[test]
fn devices_of_one_name_keep_their_order() {
    let mut c = DeviceCluster::new();
    for id in ["3", "1", "2"] {
        c.insert(id, mock_device("Same"));
    }
    c.insert("0", mock_device("Earlier"));
    let found: Vec<String> = devices(&c, "me").into_iter().map(|entry| entry.id).collect();
    assert_eq!(found, vec!["0", "3", "1", "2"]);
}

fn mock_device(name: &str) -> spotify_connect::cluster::DeviceInfo {
    spotify_connect::cluster::DeviceInfo {
        name: name.to_string(),
        device_type: 4,
        volume: 0,
        device_aliases: Vec::new(),
    }
}

#[test]
fn an_alias_base_stays_without_its_expansion() {
    let mut base = named("echo");
    base.device_aliases.insert("".into(), alias("Kitchen"));
    let mut c = Cluster::new();
    c.device.insert("echo".into(), base.clone());
    // No underscore behind the id, so no expansion of it.
    c.device.insert("echoes".into(), named("Other"));
    assert_eq!(ids(c, "me"), vec!["echo", "echoes"]);
    let mut c = Cluster::new();
    c.device.insert("echo".into(), base);
    c.device.insert("echo_".into(), named("Other"));
    assert_eq!(ids(c, "me"), vec!["echo_"]);
    // A device without aliases stays in any case.
    let mut c = Cluster::new();
    c.device.insert("echo".into(), named("Plain"));
    c.device.insert("echo_1".into(), named("Rest"));
    assert_eq!(ids(c, "me"), vec!["echo", "echo_1"]);
}

#[test]
fn no_active_device_is_reported_as_null() {
    let mut c = Cluster::new();
    c.device.insert("p".into(), named("Portable"));
    let none = record(vec![("activeDevice", Value::Null)]);
    assert_eq!(status_json(&DeviceCluster::from_message(c.clone()), "me"), none);
    c.active_device_id = "gone".into();
    assert_eq!(status_json(&DeviceCluster::from_message(c), "me"), none);
}

#[test]
fn an_active_observer_is_not_reported() {
    let mut c = Cluster::new();
    c.device.insert("meobs".into(), named("observer"));
    c.active_device_id = "meobs".into();
    let c = DeviceCluster::from_message(c);
    assert_eq!(status_json(&c, "me"), record(vec![("activeDevice", Value::Null)]));
}

#[test]
fn device_types_go_by_their_names() {
    for (value, label) in [
        (0, "unknown"),
        (1, "computer"),
        (2, "tablet"),
        (3, "smartphone"),
        (4, "speaker"),
        (5, "tv"),
        (6, "avr"),
        (7, "stb"),
        (8, "audio_dongle"),
        (9, "game_console"),
        (10, "cast_video"),
        (11, "cast_audio"),
        (12, "automobile"),
        (13, "smartwatch"),
        (14, "chromebook"),
        (15, "unknown"),
        (100, "unknown_spotify"),
        (101, "car_thing"),
        (102, "observer"),
        (103, "home_thing"),
        (-1, "unknown"),
    ] {
        assert_eq!(type_label(value), label);
    }
}

#[test]
fn large_volumes_cannot_be_shown() {
    let mut c = Cluster::new();
    let mut d = named("loud");
    d.volume = 42_949_672;
    c.device.insert("loud".into(), d.clone());
    assert!(check_volumes(&DeviceCluster::from_message(c.clone()), "me"));
    d.volume = 42_949_673;
    c.device.insert("loud".into(), d.clone());
    assert!(!check_volumes(&DeviceCluster::from_message(c.clone()), "me"));
    // What is not listed does not count.
    c.device.clear();
    c.device.insert("meobs".into(), d);
    assert!(check_volumes(&DeviceCluster::from_message(c), "me"));
}

#[test]
fn the_mock_cluster_shows_five_devices() {
    let cluster = mock_cluster("me");
    assert_eq!(
        devices_json(&cluster, "me"),
        Value::Array(vec![
            entry("me", "This computer", "local", false, 40),
            entry("mock-bedroom", "Bedroom Speaker", "speaker", false, 20),
            entry("mock-kitchen", "Kitchen", "speaker", false, 35),
            entry("mock-living-room", "Living Room", "speaker", true, 55),
            entry("mock-office", "Office", "speaker", false, 45),
        ])
    );
}

#[test]
fn the_mock_cluster_replaces_a_device_of_the_same_id() {
    let cluster = mock_cluster("mock-kitchen");
    assert_eq!(cluster.device.len(), 4);
    assert_eq!(cluster.device[0].0, "mock-kitchen");
    assert_eq!(cluster.device[0].1.name, "Kitchen");
}

#[test]
fn a_cluster_message_is_taken_apart() {
    let mut c = Cluster::new();
    let mut d = named("Echo");
    d.volume = 7;
    d.device_type = DeviceType::TV.into();
    d.device_aliases.insert("a".into(), alias("One"));
    c.device.insert("echo".into(), d);
    c.active_device_id = "echo".into();
    let cluster = DeviceCluster::from_message(c);
    assert_eq!(cluster.active_device_id, "echo");
    assert_eq!(cluster.device.len(), 1);
    let (id, device) = &cluster.device[0];
    assert_eq!(id, "echo");
    assert_eq!(device.name, "Echo");
    assert_eq!(device.volume, 7);
    assert_eq!(device.device_type, 5);
    assert_eq!(device.device_aliases, vec!["One"]);
}

#[test]
fn the_list_does_not_depend_on_the_order_of_the_cluster() {
    let mut forth = DeviceCluster::new();
    let mut back = DeviceCluster::new();
    let names = ["c", "A", "b", "D"];
    for name in names {
        forth.insert(name, mock_device(name));
    }
    for name in names.iter().rev() {
        back.insert(name, mock_device(name));
    }
    assert_eq!(devices_json(&forth, "me"), devices_json(&back, "me"));
}
