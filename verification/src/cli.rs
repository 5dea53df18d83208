//! The command line, and the client that asks the daemon.

use vstd::prelude::*;

use crate::control::{
    carries, error_json, error_reply, message_line, request_of, RequestView,
};
use crate::json::{
    as_text, field, field_of, is_message, json_of, json_parsed, json_text, nests, null, number,
    parse, render, set_field, string, text_of, Json,
};
use crate::text::{number_up_to, same_text, trim, trimmed, written_number};

verus! {

/// What the client asks of the daemon.
pub enum ControlRequest {
    Status,
    Devices,
    /// Playback on the device with this id.
    Switch(String),
    /// This volume in percent.
    Volume(u64),
}

/// The model of a [`ControlRequest`].
#[verifier::ext_equal]
pub enum ControlRequestView {
    Status,
    Devices,
    Switch(Seq<char>),
    Volume(u64),
}

impl View for ControlRequest {
    type V = ControlRequestView;

    open spec fn view(&self) -> ControlRequestView {
        match self {
            ControlRequest::Status => ControlRequestView::Status,
            ControlRequest::Devices => ControlRequestView::Devices,
            ControlRequest::Switch(id) => ControlRequestView::Switch(id@),
            ControlRequest::Volume(percent) => ControlRequestView::Volume(*percent),
        }
    }
}

/// What a command line asks for.
pub enum Invocation {
    Daemon { mock: bool },
    Login,
    Control(ControlRequest),
    /// A volume that is no percentage.
    BadVolume,
    /// None of these.
    Unknown,
}

/// The model of an [`Invocation`].
#[verifier::ext_equal]
pub enum InvocationView {
    Daemon { mock: bool },
    Login,
    Control(ControlRequestView),
    BadVolume,
    Unknown,
}

impl View for Invocation {
    type V = InvocationView;

    open spec fn view(&self) -> InvocationView {
        match self {
            Invocation::Daemon { mock } => InvocationView::Daemon { mock: *mock },
            Invocation::Login => InvocationView::Login,
            Invocation::Control(request) => InvocationView::Control(request@),
            Invocation::BadVolume => InvocationView::BadVolume,
            Invocation::Unknown => InvocationView::Unknown,
        }
    }
}

/// The arguments that count: all but `--json`, which is accepted and changes nothing.
pub open spec fn words_of(args: Seq<Seq<char>>) -> Seq<Seq<char>> {
    args.filter(|arg: Seq<char>| arg != "--json"@)
}

/// What the words of a command line ask for.
pub open spec fn invocation_of(words: Seq<Seq<char>>) -> InvocationView {
    if words.len() == 1 {
        if words[0] == "daemon"@ {
            InvocationView::Daemon { mock: false }
        } else if words[0] == "login"@ {
            InvocationView::Login
        } else if words[0] == "status"@ {
            InvocationView::Control(ControlRequestView::Status)
        } else if words[0] == "devices"@ {
            InvocationView::Control(ControlRequestView::Devices)
        } else {
            InvocationView::Unknown
        }
    } else if words.len() == 2 {
        if words[0] == "daemon"@ && words[1] == "--mock"@ {
            InvocationView::Daemon { mock: true }
        } else if words[0] == "switch"@ {
            InvocationView::Control(ControlRequestView::Switch(words[1]))
        } else if words[0] == "volume"@ {
            match written_number(words[1]) {
                Some(percent) if percent <= 100 => InvocationView::Control(
                    ControlRequestView::Volume(percent as u64),
                ),
                _ => InvocationView::BadVolume,
            }
        } else {
            InvocationView::Unknown
        }
    } else {
        InvocationView::Unknown
    }
}

/// The models of some arguments.
pub open spec fn arg_views(args: Seq<String>) -> Seq<Seq<char>> {
    args.map_values(|arg: String| arg@)
}

/// The arguments that count.
fn words(args: &Vec<String>) -> (kept: Vec<String>)
    ensures
        arg_views(kept@) == words_of(arg_views(args@)),
{
    let ghost views = arg_views(args@);
    let ghost counts = |arg: Seq<char>| arg != "--json"@;
    let mut kept: Vec<String> = Vec::new();
    let mut i: usize = 0;
    assert(arg_views(kept@) =~= views.take(0).filter(counts)) by {
        reveal(Seq::filter);
    }
    while i < args.len()
        invariant
            i <= args@.len(),
            views == arg_views(args@),
            counts == (|arg: Seq<char>| arg != "--json"@),
            arg_views(kept@) == views.take(i as int).filter(counts),
        decreases args@.len() - i,
    {
        proof {
            reveal(Seq::filter);
            assert(views.take(i + 1).drop_last() =~= views.take(i as int));
            assert(views.take(i + 1).last() == args@[i as int]@);
        }
        let ghost before = arg_views(kept@);
        if !same_text(args[i].as_str(), "--json") {
            kept.push(args[i].clone());
            assert(arg_views(kept@) =~= before.push(args@[i as int]@));
        }
        i += 1;
    }
    assert(views.take(args@.len() as int) =~= views);
    kept
}

/// What a command line asks for, from its arguments behind the program's name.
pub fn parse_args(args: &Vec<String>) -> (invocation: Invocation)
    ensures
        invocation@ == invocation_of(words_of(arg_views(args@))),
{
    let words = words(args);
    assert forall|i: int| 0 <= i < words@.len() implies #[trigger] arg_views(words@)[i]
        == words@[i]@ by {}
    if words.len() == 1 {
        assert(arg_views(words@)[0] == words@[0]@);
        let word = words[0].as_str();
        if same_text(word, "daemon") {
            Invocation::Daemon { mock: false }
        } else if same_text(word, "login") {
            Invocation::Login
        } else if same_text(word, "status") {
            Invocation::Control(ControlRequest::Status)
        } else if same_text(word, "devices") {
            Invocation::Control(ControlRequest::Devices)
        } else {
            Invocation::Unknown
        }
    } else if words.len() == 2 {
        assert(arg_views(words@)[0] == words@[0]@);
        assert(arg_views(words@)[1] == words@[1]@);
        let word = words[0].as_str();
        if same_text(word, "daemon") && same_text(words[1].as_str(), "--mock") {
            Invocation::Daemon { mock: true }
        } else if same_text(word, "switch") {
            Invocation::Control(ControlRequest::Switch(words[1].clone()))
        } else if same_text(word, "volume") {
            match number_up_to(words[1].as_str(), 100) {
                Some(percent) => Invocation::Control(ControlRequest::Volume(percent)),
                None => Invocation::BadVolume,
            }
        } else {
            Invocation::Unknown
        }
    } else {
        Invocation::Unknown
    }
}

/// The exit code of a command line that asks for nothing that can be done.
pub const USAGE_CODE: i32 = 64;

/// What is said of a command line that asks for nothing that can be done.
pub fn complaint(invocation: &Invocation) -> (text: Option<String>)
    ensures
        match invocation@ {
            InvocationView::BadVolume => text matches Some(said) && said@ == "volume takes 0-100"@,
            InvocationView::Unknown => text matches Some(said) && said@
                == "usage: spotify-connect daemon [--mock] | login | status | devices | switch <device-id> | volume <0-100>"@,
            _ => text is None,
        },
{
    match invocation {
        Invocation::BadVolume => Some("volume takes 0-100".to_owned()),
        Invocation::Unknown => Some(
            "usage: spotify-connect daemon [--mock] | login | status | devices | switch <device-id> | volume <0-100>".to_owned(),
        ),
        _ => None,
    }
}

/// What the client sends for a request.
pub open spec fn request_json(request: ControlRequestView) -> Json {
    match request {
        ControlRequestView::Status => Json::Record(map!["cmd"@ => Json::Text("status"@)]),
        ControlRequestView::Devices => Json::Record(map!["cmd"@ => Json::Text("devices"@)]),
        ControlRequestView::Switch(id) => Json::Record(
            map!["cmd"@ => Json::Text("switch"@), "id"@ => Json::Text(id)],
        ),
        ControlRequestView::Volume(percent) => Json::Record(
            map!["cmd"@ => Json::Text("volume"@), "value"@ => Json::Number(percent)],
        ),
    }
}

/// What the daemon is to understand of a request.
pub open spec fn understood(request: ControlRequestView) -> RequestView {
    match request {
        ControlRequestView::Status => RequestView { cmd: "status"@, id: None, value: None },
        ControlRequestView::Devices => RequestView { cmd: "devices"@, id: None, value: None },
        ControlRequestView::Switch(id) => RequestView {
            cmd: "switch"@,
            id: Some(id),
            value: None,
        },
        ControlRequestView::Volume(percent) => RequestView {
            cmd: "volume"@,
            id: None,
            value: Some(percent),
        },
    }
}

/// The daemon understands what the client sends.
pub proof fn lemma_request_is_understood(request: ControlRequestView)
    ensures
        is_message(request_json(request)),
        request_of(Some(request_json(request))) == understood(request),
{
    reveal_with_fuel(nests, 3);
    reveal_strlit("cmd");
    reveal_strlit("id");
    reveal_strlit("value");
    assert("cmd"@.len() == 3);
    assert("id"@.len() == 2);
    assert("value"@.len() == 5);
}

/// The line that the client sends for a request, which the daemon understands.
pub fn request_line(request: &ControlRequest) -> (line: String)
    ensures
        carries(line@, request_json(request@)),
        request_of(json_parsed(line@)) == understood(request@),
{
    let mut value = null();
    match request {
        ControlRequest::Status => {
            set_field(&mut value, "cmd", string("status"));
        },
        ControlRequest::Devices => {
            set_field(&mut value, "cmd", string("devices"));
        },
        ControlRequest::Switch(id) => {
            set_field(&mut value, "cmd", string("switch"));
            set_field(&mut value, "id", string(id.as_str()));
        },
        ControlRequest::Volume(percent) => {
            set_field(&mut value, "cmd", string("volume"));
            set_field(&mut value, "value", number(*percent));
        },
    }
    proof {
        lemma_request_is_understood(request@);
        assert(json_of(value) =~~= request_json(request@));
    }
    message_line(&value)
}

/// The exit code that a reply calls for. Text that is no JSON counts as null.
pub open spec fn exit_code_of(parsed: Option<Json>) -> i32 {
    let json = match parsed {
        Some(json) => json,
        None => Json::Null,
    };
    match text_of(field_of(json, "error"@)) {
        None => 0,
        Some(code) => if code == "unavailable"@ {
            2
        } else if code == "not_authenticated"@ {
            3
        } else {
            1
        },
    }
}

/// The exit code that a reply calls for.
pub fn exit_code_in(json: &serde_json::Value) -> (code: i32)
    ensures
        code == exit_code_of(Some(json_of(*json))),
{
    match as_text(field(json, "error")) {
        None => 0,
        Some(error) => if same_text(error, "unavailable") {
            2
        } else if same_text(error, "not_authenticated") {
            3
        } else {
            1
        },
    }
}

/// The exit code that the reply on a line calls for.
pub fn exit_code(line: &str) -> (code: i32)
    ensures
        code == exit_code_of(json_parsed(line@)),
{
    match parse(line) {
        Some(json) => exit_code_in(&json),
        None => exit_code_in(&null()),
    }
}

/// What the client shows and its exit code.
pub struct Outcome {
    pub shown: String,
    pub code: i32,
}

/// The line that the client goes by: the daemon's reply, and where there is none or it is blank,
/// that the daemon is unavailable.
pub open spec fn line_of(reply: Option<Seq<char>>) -> Seq<char> {
    match reply {
        Some(line) if trimmed(line).len() > 0 => line,
        _ => json_text(error_json("unavailable"@)),
    }
}

/// What the client makes of the daemon's reply, where there is one.
pub fn ctl(reply: Option<String>) -> (outcome: Outcome)
    ensures
        outcome.shown@ == trimmed(
            line_of(
                match reply {
                    Some(line) => Some(line@),
                    None => None,
                },
            ),
        ),
        outcome.code == exit_code_of(
            json_parsed(
                line_of(
                    match reply {
                        Some(line) => Some(line@),
                        None => None,
                    },
                ),
            ),
        ),
        reply is None ==> outcome.code == 2 && outcome.shown@ == json_text(
            error_json("unavailable"@),
        ),
        reply matches Some(line) && trimmed(line@).len() == 0 ==> outcome.code == 2
            && outcome.shown@ == json_text(error_json("unavailable"@)),
{
    let line = match reply {
        Some(line) => if !trim(line.as_str()).is_empty() {
            line
        } else {
            render(&error_reply("unavailable"))
        },
        None => render(&error_reply("unavailable")),
    };
    Outcome { shown: trim(line.as_str()).to_owned(), code: exit_code(line.as_str()) }
}

} // verus!
