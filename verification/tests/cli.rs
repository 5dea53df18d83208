use spotify_connect::cli::{
    complaint, ctl, exit_code, exit_code_in, parse_args, request_line, ControlRequest, Invocation, USAGE_CODE,
};

fn parse(words: &[&str]) -> Invocation {
    let args: Vec<String> = words.iter().map(|word| word.to_string()).collect();
    parse_args(&args)
}

#[test]
fn command_lines_are_told_apart() {
    assert!(matches!(parse(&["daemon"]), Invocation::Daemon { mock: false }));
    assert!(matches!(parse(&["daemon", "--mock"]), Invocation::Daemon { mock: true }));
    assert!(matches!(parse(&["login"]), Invocation::Login));
    assert!(matches!(parse(&["status"]), Invocation::Control(ControlRequest::Status)));
    assert!(matches!(parse(&["devices"]), Invocation::Control(ControlRequest::Devices)));
    match parse(&["switch", "abc"]) {
        Invocation::Control(ControlRequest::Switch(id)) => assert_eq!(id, "abc"),
        _ => panic!("no switch"),
    }
    for words in [
        &[] as &[&str],
        &["--mock"],
        &["daemon", "mock"],
        &["--mock", "daemon"],
        &["switch"],
        &["volume"],
        &["switch", "a", "b"],
        &["login", "now"],
        &["Status"],
        &[""],
    ] {
        assert!(matches!(parse(words), Invocation::Unknown), "{words:?}");
    }
}

#[test]
fn the_json_flag_changes_nothing() {
    assert!(matches!(parse(&["--json", "status"]), Invocation::Control(ControlRequest::Status)));
    assert!(matches!(parse(&["daemon", "--json", "--mock", "--json"]), Invocation::Daemon { mock: true }));
    assert!(matches!(parse(&["switch", "--json"]), Invocation::Unknown));
}

#[test]
fn a_volume_is_a_percentage() {
    for (word, percent) in [("0", 0), ("100", 100), ("+7", 7), ("007", 7)] {
        match parse(&["volume", word]) {
            Invocation::Control(ControlRequest::Volume(value)) => assert_eq!(value, percent),
            _ => panic!("no volume"),
        }
    }
    for word in ["", "101", "-1", "1.5", "ten", "99999999999999999999999999"] {
        assert!(matches!(parse(&["volume", word]), Invocation::BadVolume), "{word}");
    }
}

#[test]
fn what_cannot_be_done_is_explained() {
    assert_eq!(complaint(&Invocation::BadVolume).unwrap(), "volume takes 0-100");
    assert_eq!(
        complaint(&Invocation::Unknown).unwrap(),
        "usage: spotify-connect daemon [--mock] | login | status | devices | switch <device-id> | volume <0-100>"
    );
    assert_eq!(complaint(&Invocation::Login), None);
    assert_eq!(USAGE_CODE, 64);
}

#[test]
fn requests_are_lines_of_json() {
    assert_eq!(request_line(&ControlRequest::Status), "{\"cmd\":\"status\"}\n");
    assert_eq!(request_line(&ControlRequest::Devices), "{\"cmd\":\"devices\"}\n");
    assert_eq!(request_line(&ControlRequest::Switch("a".to_string())), "{\"cmd\":\"switch\",\"id\":\"a\"}\n");
    assert_eq!(request_line(&ControlRequest::Volume(7)), "{\"cmd\":\"volume\",\"value\":7}\n");
}

#[test]
fn exit_codes_tell_replies_apart() {
    assert_eq!(exit_code("{\"ok\":true}\n"), 0);
    assert_eq!(exit_code("[]"), 0);
    assert_eq!(exit_code("not json"), 0);
    assert_eq!(exit_code("{\"error\":7}"), 0);
    assert_eq!(exit_code("{\"error\":\"unavailable\"}"), 2);
    assert_eq!(exit_code("{\"error\":\"not_authenticated\"}"), 3);
    assert_eq!(exit_code("{\"error\":\"bad_request\"}"), 1);
}

#[test]
fn exit_codes_are_read_from_values() {
    assert_eq!(exit_code_in(&serde_json::Value::Null), 0);
    for (text, code) in [
        ("{\"error\":\"unavailable\"}", 2),
        ("{\"error\":\"not_authenticated\"}", 3),
        ("{\"error\":\"switch_failed\"}", 1),
    ] {
        assert_eq!(exit_code_in(&serde_json::from_str(text).unwrap()), code);
    }
}

#[test]
fn no_reply_means_unavailable() {
    for reply in [None, Some(String::new()), Some(" \n".to_string())] {
        let outcome = ctl(reply);
        assert_eq!(outcome.shown, "{\"error\":\"unavailable\"}");
        assert_eq!(outcome.code, 2);
    }
    let outcome = ctl(Some("{\"ok\":true}\n".to_string()));
    assert_eq!(outcome.shown, "{\"ok\":true}");
    assert_eq!(outcome.code, 0);
}
