//! What the client asks for every command line, and what it makes of every reply.

use vstd::prelude::*;

use crate::cli::{
    exit_code_of, invocation_of, lemma_request_is_understood, line_of, request_json, words_of,
    ControlRequestView, InvocationView, USAGE_CODE,
};
use crate::control::{request_of, RequestView};
use crate::json::{json_text, Json};
use crate::text::{is_white_space, written_number};
use crate::text_laws::{lemma_numbers_are_not_negative, lemma_trimmed_meaning};

verus! {

/// `--json` counts for nothing wherever it stands, and every other argument stands for itself, in
/// its place.
pub proof fn lemma_json_flag_is_ignored(a: Seq<Seq<char>>, b: Seq<Seq<char>>, arg: Seq<char>)
    ensures
        words_of(Seq::empty()) == Seq::<Seq<char>>::empty(),
        words_of(seq!["--json"@]) == Seq::<Seq<char>>::empty(),
        arg != "--json"@ ==> words_of(seq![arg]) == seq![arg],
        words_of(a + b) == words_of(a) + words_of(b),
        invocation_of(words_of(a + seq!["--json"@] + b)) == invocation_of(words_of(a + b)),
{
    let kept = |word: Seq<char>| word != "--json"@;
    let flag = seq!["--json"@];
    assert(words_of(Seq::empty()) =~= Seq::empty() && words_of(flag) =~= Seq::empty()) by {
        reveal(Seq::filter);
        assert(flag.drop_last() =~= Seq::empty());
        assert(Seq::<Seq<char>>::empty().filter(kept) =~= Seq::empty());
    }
    if arg != "--json"@ {
        reveal(Seq::filter);
        assert(seq![arg].drop_last() =~= Seq::empty());
        assert(words_of(seq![arg]) =~= seq![arg]);
    }
    Seq::filter_distributes_over_add(a, b, kept);
    Seq::filter_distributes_over_add(a + flag, b, kept);
    Seq::filter_distributes_over_add(a, flag, kept);
    assert(words_of(a + flag + b) =~= words_of(a + b));
}

proof fn lemma_command_words_differ()
    ensures
        "daemon"@ != "login"@,
        "daemon"@ != "status"@,
        "daemon"@ != "devices"@,
        "daemon"@ != "switch"@,
        "daemon"@ != "volume"@,
        "login"@ != "status"@,
        "login"@ != "devices"@,
        "status"@ != "devices"@,
        "switch"@ != "volume"@,
{
    reveal_strlit("daemon");
    reveal_strlit("login");
    reveal_strlit("status");
    reveal_strlit("devices");
    reveal_strlit("switch");
    reveal_strlit("volume");
    assert("daemon"@[0] == 'd' && "daemon"@[1] == 'a');
    assert("login"@[0] == 'l');
    assert("status"@[0] == 's' && "status"@[1] == 't');
    assert("devices"@[0] == 'd' && "devices"@[1] == 'e');
    assert("switch"@[0] == 's' && "switch"@[1] == 'w');
    assert("volume"@[0] == 'v');
}

/// What the command lines ask for. A switch goes to exactly the id that is given, a volume is
/// exactly the number that is written, and what is none of these is refused.
pub proof fn lemma_command_lines(word: Seq<char>, percent: u64, words: Seq<Seq<char>>)
    ensures
        invocation_of(seq!["daemon"@]) == (InvocationView::Daemon { mock: false }),
        invocation_of(seq!["daemon"@, "--mock"@]) == (InvocationView::Daemon { mock: true }),
        invocation_of(seq!["login"@]) == InvocationView::Login,
        invocation_of(seq!["status"@]) == InvocationView::Control(ControlRequestView::Status),
        invocation_of(seq!["devices"@]) == InvocationView::Control(ControlRequestView::Devices),
        invocation_of(seq!["switch"@, word]) == InvocationView::Control(
            ControlRequestView::Switch(word),
        ),
        percent <= 100 && written_number(word) == Some(percent as int) <==> invocation_of(
            seq!["volume"@, word],
        ) == InvocationView::Control(ControlRequestView::Volume(percent)),
        written_number(word) is None || written_number(word)->0 > 100 ==> invocation_of(
            seq!["volume"@, word],
        ) == InvocationView::BadVolume,
        words != seq!["daemon"@] && words != seq!["daemon"@, "--mock"@] && words != seq!["login"@]
            && words != seq!["status"@] && words != seq!["devices"@] && !(words.len() == 2 && (
        words[0] == "switch"@ || words[0] == "volume"@)) ==> invocation_of(words)
            == InvocationView::Unknown,
        USAGE_CODE == 64,
{
    lemma_command_words_differ();
    if written_number(word) is Some {
        lemma_numbers_are_not_negative(word);
    }
    if words.len() == 1 {
        assert(words =~= seq![words[0]]);
    }
    if words.len() == 2 {
        assert(words =~= seq![words[0], words[1]]);
    }
}

/// What the daemon is asked for a command line, and what it understands: the word behind `switch`
/// as the id, the number behind `volume` as the value.
pub proof fn lemma_what_is_asked(id: Seq<char>, percent: u64)
    ensures
        request_json(ControlRequestView::Status) == Json::Record(
            map!["cmd"@ => Json::Text("status"@)],
        ),
        request_json(ControlRequestView::Devices) == Json::Record(
            map!["cmd"@ => Json::Text("devices"@)],
        ),
        request_json(ControlRequestView::Switch(id)) == Json::Record(
            map!["cmd"@ => Json::Text("switch"@), "id"@ => Json::Text(id)],
        ),
        request_json(ControlRequestView::Volume(percent)) == Json::Record(
            map!["cmd"@ => Json::Text("volume"@), "value"@ => Json::Number(percent)],
        ),
        request_of(Some(request_json(ControlRequestView::Status))) == (RequestView {
            cmd: "status"@,
            id: None,
            value: None,
        }),
        request_of(Some(request_json(ControlRequestView::Devices))) == (RequestView {
            cmd: "devices"@,
            id: None,
            value: None,
        }),
        request_of(Some(request_json(ControlRequestView::Switch(id)))) == (RequestView {
            cmd: "switch"@,
            id: Some(id),
            value: None,
        }),
        request_of(Some(request_json(ControlRequestView::Volume(percent)))) == (RequestView {
            cmd: "volume"@,
            id: None,
            value: Some(percent),
        }),
{
    lemma_request_is_understood(ControlRequestView::Status);
    lemma_request_is_understood(ControlRequestView::Devices);
    lemma_request_is_understood(ControlRequestView::Switch(id));
    lemma_request_is_understood(ControlRequestView::Volume(percent));
}

/// From the command line to the daemon: a switch to an id reaches it as a switch to that very id,
/// with and without `--json` behind it.
pub proof fn lemma_switch_reaches_daemon(id: Seq<char>)
    requires
        id != "--json"@,
    ensures
        invocation_of(words_of(seq!["switch"@, id])) is Control,
        request_of(
            Some(request_json(invocation_of(words_of(seq!["switch"@, id]))->Control_0)),
        ) == (RequestView { cmd: "switch"@, id: Some(id), value: None }),
        invocation_of(words_of(seq!["switch"@, id, "--json"@])) == invocation_of(
            words_of(seq!["switch"@, id]),
        ),
{
    let (one, two) = (seq!["switch"@], seq![id]);
    reveal_strlit("switch");
    reveal_strlit("--json");
    assert("switch"@.len() == 6 && "switch"@[0] == 's' && "--json"@[0] == '-');
    lemma_json_flag_is_ignored(one, two, "switch"@);
    lemma_json_flag_is_ignored(one, two, id);
    assert(one + two =~= seq!["switch"@, id]);
    lemma_json_flag_is_ignored(one + two, Seq::empty(), id);
    assert(one + two + seq!["--json"@] + Seq::empty() =~= seq!["switch"@, id, "--json"@]);
    assert(one + two + Seq::empty() =~= one + two);
    lemma_command_lines(id, 0, one);
    lemma_what_is_asked(id, 0);
}

/// The exit code goes by the error that a reply holds: 0 where it holds none, 2 and 3 for two of
/// them, and 1 for all others. Text that is no JSON holds none.
pub proof fn lemma_exit_code_meaning(fields: Map<Seq<char>, Json>, other: Json, code: Seq<char>)
    ensures
        exit_code_of(None) == 0,
        other !is Record ==> exit_code_of(Some(other)) == 0,
        !fields.contains_key("error"@) || fields["error"@] !is Text ==> exit_code_of(
            Some(Json::Record(fields)),
        ) == 0,
        fields.contains_pair("error"@, Json::Text(code)) ==> (exit_code_of(
            Some(Json::Record(fields)),
        ) == if code == "unavailable"@ {
            2i32
        } else if code == "not_authenticated"@ {
            3i32
        } else {
            1i32
        }),
{
}

/// The client goes by the line that has come where that has any character but white space, and else
/// by the error that nothing is available.
pub proof fn lemma_line_that_counts(line: Seq<char>, i: int)
    ensures
        line_of(None) == json_text(Json::Record(map!["error"@ => Json::Text("unavailable"@)])),
        0 <= i < line.len() && !is_white_space(line[i]) ==> line_of(Some(line)) == line,
        (forall|k: int| 0 <= k < line.len() ==> is_white_space(#[trigger] line[k])) ==> line_of(
            Some(line),
        ) == json_text(Json::Record(map!["error"@ => Json::Text("unavailable"@)])),
{
    let bounds = lemma_trimmed_meaning(line);
}

} // verus!
