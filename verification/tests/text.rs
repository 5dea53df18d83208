use spotify_connect::identity::{
    hostname, known_device_id, new_device_id, observer_id, receiver_name, stored_device_id,
};
use spotify_connect::paths::{device_id_path, socket_path, state_dir};
use spotify_connect::text::{in_order, number_up_to, remove_hyphens, starts_with, trim, white_space};
use spotify_connect::volume::{percent_from_raw, raw_from_percent};

#[test]
fn white_space_is_that_of_the_standard_library() {
    for value in 0..=0x10ffffu32 {
        if let Some(c) = char::from_u32(value) {
            assert_eq!(white_space(c), c.is_whitespace(), "{value:x}");
        }
    }
}

#[test]
fn trims_both_ends() {
    for text in ["", " ", "a", " a", "a\n", "\t a b \r\n", "\u{3000}x\u{a0}", "\u{200b}a"] {
        assert_eq!(trim(text), text.trim());
        assert_eq!(trim(trim(text)), trim(text));
    }
}

#[test]
fn finds_prefixes() {
    assert!(starts_with("echo_1", "echo_"));
    assert!(starts_with("echo", ""));
    assert!(!starts_with("echo", "echo_"));
    assert!(!starts_with("ech\u{f6}_1", "echo"));
}

#[test]
fn orders_text_as_the_standard_library_does() {
    let texts = ["", "a", "ab", "b", "Z", "\u{e4}", "\u{ffff}", "\u{10000}", "a\u{10000}"];
    for a in texts {
        for b in texts {
            assert_eq!(in_order(a, b), a <= b, "{a:?} {b:?}");
        }
    }
}

#[test]
fn reads_numbers_as_the_standard_library_does() {
    for text in [
        "", "+", "-", "0", "-0", "+0", "007", "100", "101", "+100", "++1", " 1", "1 ", "1_0", "0x1", "\u{661}",
        "18446744073709551615", "18446744073709551616", "99999999999999999999999", "000000000000000000000000042",
    ] {
        let expected = text.parse::<u64>().ok();
        assert_eq!(number_up_to(text, u64::MAX), expected, "{text}");
        assert_eq!(number_up_to(text, 100), expected.filter(|n| *n <= 100), "{text}");
    }
}

#[test]
fn hyphens_are_taken_out() {
    assert_eq!(remove_hyphens("-a--\u{e4}b-"), "a\u{e4}b");
    assert_eq!(remove_hyphens("---"), "");
}

#[test]
fn a_device_id_is_made_of_a_uuid_and_stays() {
    let id = new_device_id("0f5c2b0e-1d3a-4c55-9d0b-6c1f0b7b9f00\n");
    assert_eq!(id, "0f5c2b0e1d3a4c559d0b6c1f0b7b9f00");
    assert_eq!(stored_device_id(&id), id);
    assert_eq!(stored_device_id(&format!("{id}\n")), id);
    assert_eq!(known_device_id(Some(format!("{id}\n"))), Some(id));
    assert_eq!(known_device_id(Some(" ".to_string())), Some(String::new()));
    assert_eq!(known_device_id(None), None);
}

#[test]
fn an_id_with_bared_white_space_does_not_stay() {
    let id = new_device_id("- a");
    assert_eq!(id, " a");
    assert_eq!(stored_device_id(&id), "a");
}

#[test]
fn names_of_this_computer() {
    assert_eq!(observer_id("me"), "meobs");
    assert_eq!(hostname(Some("arch\n".to_string())), "arch");
    assert_eq!(hostname(None), "librespot");
    assert_eq!(receiver_name("arch"), "Omarchy arch");
}

#[test]
fn paths_follow_the_environment() {
    let plan = state_dir(Some("/state"), Some("/home/me"));
    assert_eq!(plan.base, Some("/state"));
    assert_eq!(plan.names, vec!["spotify-connect"]);
    let plan = state_dir(None, Some("/home/me"));
    assert_eq!(plan.base, Some("/home/me"));
    assert_eq!(plan.names, vec![".local/state", "spotify-connect"]);
    let plan = device_id_path(None::<&str>, None);
    assert_eq!(plan.base, None);
    assert_eq!(plan.names, vec![".local/state", "spotify-connect", "device_id"]);
    let plan = socket_path(Some("/run/user/1000"), "/tmp");
    assert_eq!(plan.base, Some("/run/user/1000"));
    assert_eq!(plan.names, vec!["spotify-connect.sock"]);
    assert_eq!(socket_path(None, "/tmp").base, Some("/tmp"));
}

#[test]
fn percentages_survive_a_round_trip() {
    for percent in 0..=100 {
        let raw = raw_from_percent(percent);
        assert_eq!(raw, percent * 65535 / 100);
        assert_eq!(percent_from_raw(raw as u32) as u64, percent);
    }
    assert_eq!(percent_from_raw(1), 1);
    assert_eq!(percent_from_raw(32767), 50);
    assert_eq!(percent_from_raw(32768), 51);
    assert_eq!(percent_from_raw(65535), 100);
}
