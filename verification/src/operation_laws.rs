//! What comes out of the operations, said of what goes into them.
//!
//! Each law speaks of a call: whatever an operation may return, and leave behind in what it is
//! handed to change, is as the law says.

use vstd::prelude::*;
use vstd::utf8::encode_utf8;

use crate::cli::{
    arg_views, complaint, ctl, parse_args, request_line, ControlRequest, Invocation, Outcome,
};
use crate::client_laws::{
    lemma_command_lines, lemma_exit_code_meaning, lemma_json_flag_is_ignored,
    lemma_line_that_counts, lemma_what_is_asked,
};
use crate::cluster::{mock_cluster, mock_view, DeviceCluster, DeviceInfo};
use crate::command_laws::{
    is_louder, lemma_place_meaning, lemma_switch_is_noted, lemma_volume_is_noted,
    lemma_with_device_meaning, lemma_with_volume,
};
use crate::control::{
    answer, answered, change_volume, error_reply, finish_transfer, finish_volume, handle,
    is_answerable, message_line, ok_reply, read_request, request_of, Request, RequestView, Shared,
    SharedView, Step, Transfer, VolumeChange,
};
use crate::daemon::{connection_wait, fetch_request, DaemonAction, DaemonEvent, FetchError};
use crate::devices::{device_list, devices, devices_json, status_json, DeviceEntry};
use crate::identity::{
    hostname, known_device_id, new_device_id, observer_id, receiver_name, stored_device_id,
};
use crate::json::{json_of, json_parsed, json_text, Json};
use crate::life_laws::lemma_header_text_meaning;
use crate::message::{
    announcement_encoded, cluster_contents, cluster_decoded, device_type_label, read_cluster,
    AnnouncementView, ClusterContents,
};
use crate::paths::{device_id_path, socket_path, state_dir, PathPlan};
use crate::put::{header_contents, PutRequest};
use crate::shown_laws::{
    lemma_devices_reply, lemma_every_device_is_shown, lemma_no_device_is_shown_twice,
    lemma_only_devices_are_shown, lemma_status_names_nobody,
};
use crate::text::{is_white_space, written_number};
use crate::text_laws::{lemma_numbers_are_not_negative, lemma_trimmed_meaning};
use crate::volume::{percent_from_raw, raw_from_percent};

verus! {

/// The list that is made of a cluster has an entry for every device, whatever its type, but for the
/// observer and for one with aliases whose id, an underscore and a suffix are the id of a device.
/// The place of the entry is returned.
pub proof fn lemma_devices_lists_every_device(
    cluster: DeviceCluster,
    own_id: &str,
    found: Vec<DeviceEntry>,
    i: int,
) -> (place: int)
    requires
        call_ensures(devices, (&cluster, own_id), found),
        0 <= i < cluster.device@.len(),
        cluster.device@[i].0@ != own_id@ + "obs"@,
        cluster.device@[i].1.device_aliases@.len() == 0 || forall|k: int|
            0 <= k < cluster.device@.len() ==> !(cluster.device@[i].0@ + "_"@).is_prefix_of(
                (#[trigger] cluster.device@[k]).0@,
            ),
    ensures
        0 <= place < found@.len(),
        ({
            let (id, device) = cluster.device@[i];
            let entry = found@[place];
            &&& entry.id@ == id@
            &&& id@ == own_id@ ==> entry.name@ == "This computer"@ && entry.kind@ == "local"@
            &&& id@ != own_id@ && device.device_aliases@.len() > 0 ==> entry.name@
                == device.device_aliases@[0]@
            &&& id@ != own_id@ && device.device_aliases@.len() == 0 ==> entry.name@ == device.name@
            &&& id@ != own_id@ ==> entry.kind@ == device_type_label(device.device_type)
            &&& entry.active <==> id@ == cluster.active_device_id@
            &&& (entry.volume - 1) * 65535 < device.volume * 100 <= entry.volume * 65535
        }),
{
    assert forall|k: int| 0 <= k < cluster.device@.len() implies (#[trigger] cluster@.device[k]).0
        == cluster.device@[k].0@ by {}
    assert(cluster@.device[i].1 == cluster.device@[i].1@);
    lemma_every_device_is_shown(cluster@, own_id@, i)
}

/// Every entry of the list that is made of a cluster is that of a device, whose place is returned,
/// and where ids are distinct no two entries have the same id.
pub proof fn lemma_devices_lists_only_devices(
    cluster: DeviceCluster,
    own_id: &str,
    found: Vec<DeviceEntry>,
    k: int,
) -> (i: int)
    requires
        call_ensures(devices, (&cluster, own_id), found),
        0 <= k < found@.len(),
    ensures
        0 <= i < cluster.device@.len(),
        found@[k].id@ == cluster.device@[i].0@,
        found@[k].id@ != own_id@ + "obs"@,
        found@[k].active <==> found@[k].id@ == cluster.active_device_id@,
        cluster.device@[i].1.device_aliases@.len() == 0 || forall|n: int|
            0 <= n < cluster.device@.len() ==> !(cluster.device@[i].0@ + "_"@).is_prefix_of(
                (#[trigger] cluster.device@[n]).0@,
            ),
        (forall|n: int, m: int|
            0 <= n < m < cluster.device@.len() ==> (#[trigger] cluster.device@[n]).0@ != (
            #[trigger] cluster.device@[m]).0@) ==> forall|m: int|
            k < m < found@.len() ==> (#[trigger] found@[m]).id@ != found@[k].id@,
{
    let i = lemma_only_devices_are_shown(cluster@, own_id@, k);
    assert forall|n: int| 0 <= n < cluster.device@.len() implies (#[trigger] cluster.device@[n]).0@
        == cluster@.device[n].0 by {}
    assert(cluster@.device[i].1 == cluster.device@[i].1@);
    if forall|n: int, m: int|
        0 <= n < m < cluster.device@.len() ==> (#[trigger] cluster.device@[n]).0@ != (
        #[trigger] cluster.device@[m]).0@ {
        assert forall|n: int, m: int|
            0 <= n < m < cluster@.device.len() implies #[trigger] cluster@.device[n].0
            != #[trigger] cluster@.device[m].0 by {
            assert(cluster.device@[n].0@ != cluster.device@[m].0@);
        }
        assert forall|m: int| k < m < found@.len() implies (#[trigger] found@[m]).id@
            != found@[k].id@ by {
            lemma_no_device_is_shown_twice(cluster@, own_id@, k, m);
        }
    }
    i
}

/// What is reported of the devices, and of the one that plays, is what the list says of them.
pub proof fn lemma_reports_say_what_the_list_says(
    cluster: DeviceCluster,
    own_id: &str,
    found: Vec<DeviceEntry>,
    listed: serde_json::Value,
    status: serde_json::Value,
)
    requires
        call_ensures(devices, (&cluster, own_id), found),
        call_ensures(devices_json, (&cluster, own_id), listed),
        call_ensures(status_json, (&cluster, own_id), status),
    ensures
        json_of(listed) == Json::List(
            Seq::new(
                found@.len(),
                |k: int|
                    Json::Record(
                        map![
                            "id"@ => Json::Text(found@[k].id@),
                            "name"@ => Json::Text(found@[k].name@),
                            "type"@ => Json::Text(found@[k].kind@),
                            "active"@ => Json::Bool(found@[k].active),
                            "volume"@ => Json::Number(found@[k].volume as u64),
                        ],
                    ),
            ),
        ),
        (forall|k: int|
            0 <= k < found@.len() ==> (#[trigger] found@[k]).id@ != cluster.active_device_id@)
            ==> json_of(status) == Json::Record(map!["activeDevice"@ => Json::Null]),
{
    let shared = SharedView::<()> {
        authenticated: true,
        own_id: own_id@,
        cluster: Some(cluster@),
        session: None,
    };
    let asked = RequestView { cmd: "devices"@, id: None, value: None };
    lemma_devices_reply(asked, shared, cluster@);
    let shown = device_list(cluster@, own_id@);
    assert(json_of(listed)->List_0 =~= Seq::new(
        found@.len(),
        |k: int|
            Json::Record(
                map![
                    "id"@ => Json::Text(found@[k].id@),
                    "name"@ => Json::Text(found@[k].name@),
                    "type"@ => Json::Text(found@[k].kind@),
                    "active"@ => Json::Bool(found@[k].active),
                    "volume"@ => Json::Number(found@[k].volume as u64),
                ],
            ),
    )) by {
        assert(shown.len() == found@.len());
        assert forall|k: int| 0 <= k < found@.len() implies #[trigger] shown[k] == found@[k]@ by {}
        reveal_strlit("status");
        reveal_strlit("devices");
        assert("status"@.len() == 6);
        assert("devices"@.len() == 7);
    }
    if forall|k: int|
        0 <= k < found@.len() ==> (#[trigger] found@[k]).id@ != cluster.active_device_id@ {
        assert forall|k: int| 0 <= k < shown.len() implies (#[trigger] shown[k]).id
            != cluster@.active_device_id by {
            assert(shown[k] == found@[k]@);
        }
        let status_asked = RequestView { cmd: "status"@, id: None, value: None };
        lemma_status_names_nobody(status_asked, shared, cluster@);
    }
}

/// Asked for the status, a daemon that is signed in and knows a cluster of whose listed devices
/// none has the id of the one that plays replies with null, connected or not.
pub proof fn lemma_answer_names_nobody<S>(
    request: Request,
    shared: &mut Shared<S>,
    step: Step,
    cluster: DeviceCluster,
)
    requires
        call_ensures(answer::<S>, (&request, shared), step),
        request.cmd@ == "status"@,
        shared.authenticated,
        shared.cluster == Some(cluster),
        forall|i: int|
            #![trigger cluster.device@[i]]
            0 <= i < cluster.device@.len() && cluster.device@[i].0@ == cluster.active_device_id@
                ==> cluster.device@[i].0@ == shared.own_id@ + "obs"@ || (
            cluster.device@[i].1.device_aliases@.len() > 0 && exists|k: int|
                0 <= k < cluster.device@.len() && (cluster.device@[i].0@ + "_"@).is_prefix_of(
                    (#[trigger] cluster.device@[k]).0@,
                )),
    ensures
        final(shared)@ == old(shared)@,
        step matches Step::Reply(value) && json_of(value) == Json::Record(
            map!["activeDevice"@ => Json::Null],
        ),
{
    let shown = device_list(cluster@, shared.own_id@);
    assert forall|k: int| 0 <= k < shown.len() implies (#[trigger] shown[k]).id
        != cluster@.active_device_id by {
        let i = lemma_only_devices_are_shown(cluster@, shared.own_id@, k);
        assert(cluster@.device[i].0 == cluster.device@[i].0@);
        assert(cluster@.device[i].1 == cluster.device@[i].1@);
        if cluster.device@[i].0@ == cluster.active_device_id@ {
            let n = choose|n: int|
                0 <= n < cluster.device@.len() && (cluster.device@[i].0@ + "_"@).is_prefix_of(
                    (#[trigger] cluster.device@[n]).0@,
                );
            assert(cluster@.device[n].0 == cluster.device@[n].0@);
        }
    }
    lemma_status_names_nobody(request@, shared@, cluster@);
}

/// The daemon answers the request that a line makes as [`answered`] has it; a line whose request
/// cannot be answered changes nothing.
pub proof fn lemma_handle_answers<S>(line: &str, shared: &mut Shared<S>, step: Option<Step>)
    requires
        call_ensures(handle::<S>, (line, shared), step),
    ensures
        step is Some <==> is_answerable(request_of(json_parsed(line@)), old(shared)@),
        step is None ==> final(shared)@ == old(shared)@,
        step is Some ==> (final(shared)@, step->0@) == answered(
            request_of(json_parsed(line@)),
            old(shared)@,
        ),
{
}

/// The daemon answers a request by what it knows and by nothing else, as [`answered`] has it.
pub proof fn lemma_answer_answers<S>(request: Request, shared: &mut Shared<S>, step: Step)
    requires
        call_ensures(answer::<S>, (&request, shared), step),
    ensures
        (final(shared)@, step@) == answered(request@, old(shared)@),
{
}

/// What is read from a line is the command, the id and the value in the record that the line holds.
pub proof fn lemma_read_request_reads(line: &str, request: Request, fields: Map<Seq<char>, Json>)
    requires
        call_ensures(read_request, (line,), request),
        json_parsed(line@) == Some(Json::Record(fields)),
    ensures
        fields.contains_key("cmd"@) && fields["cmd"@] is Text ==> request.cmd@
            == fields["cmd"@]->Text_0,
        fields.contains_key("id"@) && fields["id"@] is Text <==> request.id is Some,
        request.id is Some ==> request.id->0@ == fields["id"@]->Text_0,
        fields.contains_key("value"@) && fields["value"@] is Number <==> request.value is Some,
        request.value is Some ==> request.value->0 == fields["value"@]->Number_0,
{
    assert(request@ == request_of(json_parsed(line@)));
}

/// A change of volume tells Spotify the very volume that it notes, the part of the scale that the
/// percentage asks for, and goes from this computer to the device.
pub proof fn lemma_change_volume_tells_what_it_notes(
    own_id: &str,
    device: &str,
    percent: u64,
    change: Result<VolumeChange, String>,
)
    requires
        call_ensures(change_volume, (own_id, device, percent), change),
        percent <= 100,
    ensures
        change is Ok,
        ({
            let made = change->Ok_0;
            &&& made.device@ == device@
            &&& made.percent == percent
            &&& made.raw * 100 <= percent * 65535 < (made.raw + 1) * 100
            &&& made.request.endpoint@ == "/connect-state/v1/connect/volume/from/"@ + own_id@
                + "/to/"@ + device@
            &&& made.request.body@ == encode_utf8(
                json_text(Json::Record(map!["volume"@ => Json::Number(made.raw as u64)])),
            )
            &&& header_contents(made.request.headers) == map![
                "content-type"@ => "application/json"@,
            ]
        }),
{
}

/// What the daemon notes of a change of volume that Spotify has carried out, or has not.
pub proof fn lemma_finish_volume_notes<S>(
    shared: &mut Shared<S>,
    change: VolumeChange,
    done: bool,
    value: serde_json::Value,
)
    requires
        call_ensures(finish_volume::<S>, (shared, &change, done), value),
    ensures
        json_of(value) == if done {
            Json::Record(map!["ok"@ => Json::Bool(true)])
        } else {
            Json::Record(map!["error"@ => Json::Text("volume_failed"@)])
        },
        !done ==> final(shared)@ == old(shared)@,
        final(shared)@.authenticated == old(shared)@.authenticated,
        final(shared)@.own_id == old(shared)@.own_id,
        final(shared)@.session == old(shared)@.session,
        final(shared)@.cluster is Some <==> old(shared)@.cluster is Some,
        done && old(shared)@.cluster is Some ==> is_louder(
            old(shared)@.cluster->0,
            final(shared)@.cluster->0,
            change.device@,
            if change.raw <= 65535 {
                change.raw
            } else {
                65535
            },
        ),
{
    lemma_volume_is_noted(shared@, change@);
}

/// What the daemon notes of a transfer that Spotify has carried out, or has not.
pub proof fn lemma_finish_transfer_notes<S>(
    shared: &mut Shared<S>,
    transfer: Transfer,
    done: bool,
    value: serde_json::Value,
)
    requires
        call_ensures(finish_transfer::<S>, (shared, &transfer, done), value),
    ensures
        json_of(value) == if done {
            Json::Record(map!["ok"@ => Json::Bool(true)])
        } else {
            Json::Record(map!["error"@ => Json::Text("switch_failed"@)])
        },
        !done ==> final(shared)@ == old(shared)@,
        final(shared)@.authenticated == old(shared)@.authenticated,
        final(shared)@.own_id == old(shared)@.own_id,
        final(shared)@.session == old(shared)@.session,
        final(shared)@.cluster is Some <==> old(shared)@.cluster is Some,
        done && old(shared)@.cluster is Some ==> final(shared)@.cluster->0.active_device_id
            == transfer.target@ && final(shared)@.cluster->0.device
            == old(shared)@.cluster->0.device,
{
    lemma_switch_is_noted(shared@, transfer@);
}

/// A refusal has its code in its only field; a confirmation has one field that is true.
pub proof fn lemma_replies_say(code: &str, refusal: serde_json::Value, done: serde_json::Value)
    requires
        call_ensures(error_reply, (code,), refusal),
        call_ensures(ok_reply, (), done),
    ensures
        json_of(refusal) == Json::Record(map!["error"@ => Json::Text(code@)]),
        json_of(done) == Json::Record(map!["ok"@ => Json::Bool(true)]),
{
}

/// A message goes out as its text and a line end.
pub proof fn lemma_message_line_writes(value: serde_json::Value, line: String)
    requires
        call_ensures(message_line, (&value,), line),
    ensures
        line@ == json_text(json_of(value)).push('\n'),
        json_parsed(line@) == Some(json_of(value)),
{
}

/// After an update the daemon knows the cluster that it carries, every device of it and the one
/// that plays; without one it knows what it knew.
pub proof fn lemma_cluster_updated_follows<S>(
    shared: &mut Shared<S>,
    cluster: Option<DeviceCluster>,
)
    requires
        call_ensures(Shared::<S>::cluster_updated, (shared, cluster), ()),
    ensures
        cluster is Some ==> final(shared)@.cluster == Some(cluster->0@),
        cluster is None ==> final(shared)@.cluster == old(shared)@.cluster,
        final(shared)@.authenticated == old(shared)@.authenticated,
        final(shared)@.own_id == old(shared)@.own_id,
        final(shared)@.session == old(shared)@.session,
{
}

/// A cluster that was fetched is known exactly as it came, unless one is known already.
pub proof fn lemma_cluster_fetched_follows<S>(shared: &mut Shared<S>, cluster: DeviceCluster)
    requires
        call_ensures(Shared::<S>::cluster_fetched, (shared, cluster), ()),
    ensures
        old(shared)@.cluster is None ==> final(shared)@.cluster == Some(cluster@),
        old(shared)@.cluster is Some ==> final(shared)@ == old(shared)@,
        final(shared)@.authenticated == old(shared)@.authenticated,
        final(shared)@.own_id == old(shared)@.own_id,
        final(shared)@.session == old(shared)@.session,
{
}

/// A connection is noted, and all else is as before.
pub proof fn lemma_connect_notes<S>(shared: &mut Shared<S>, session: S)
    requires
        call_ensures(Shared::<S>::connect, (shared, session), ()),
    ensures
        final(shared)@.session == Some(session),
        final(shared)@.authenticated == old(shared)@.authenticated,
        final(shared)@.own_id == old(shared)@.own_id,
        final(shared)@.cluster == old(shared)@.cluster,
{
}

/// What is known at the start, and in mock mode.
pub proof fn lemma_starts<S>(own_id: String, fresh: Shared<S>, shared: &mut Shared<S>)
    requires
        call_ensures(Shared::<S>::new, (own_id,), fresh),
        call_ensures(Shared::<S>::start_mock, (shared,), ()),
    ensures
        !fresh.authenticated,
        fresh.own_id@ == own_id@,
        fresh.cluster is None,
        fresh.session is None,
        final(shared)@.authenticated,
        final(shared)@.own_id == old(shared)@.own_id,
        final(shared)@.session == old(shared)@.session,
        final(shared)@.cluster == Some(mock_view(old(shared)@.own_id)),
{
    assert(fresh@.cluster is None);
}

/// What the daemon knows after an event, and what it does next: it connects once there are
/// credentials, and else looks again after five seconds.
pub proof fn lemma_advance_goes_on<S>(
    shared: &mut Shared<S>,
    event: DaemonEvent,
    action: DaemonAction,
)
    requires
        call_ensures(Shared::<S>::advance, (shared, event), action),
    ensures
        final(shared)@.own_id == old(shared)@.own_id,
        event is SignedIn ==> final(shared)@.authenticated && action is Receive,
        event is SignedOut ==> !final(shared)@.authenticated && action == DaemonAction::Wait(5),
        event is Disconnected ==> final(shared)@.authenticated == old(shared)@.authenticated
            && final(shared)@.session is None && final(shared)@.cluster is None && action
            == DaemonAction::Wait(5),
        event !is Disconnected ==> final(shared)@.session == old(shared)@.session
            && final(shared)@.cluster == old(shared)@.cluster,
{
}

/// Half a second passes before another look where there is no connection id, and none else.
pub proof fn lemma_connection_wait_waits(connection_id: &str, milliseconds: Option<u64>)
    requires
        call_ensures(connection_wait, (connection_id,), milliseconds),
    ensures
        connection_id@.len() == 0 ==> milliseconds == Some(500u64),
        connection_id@.len() > 0 ==> milliseconds is None,
{
}

/// The cluster is asked for with the announcement of the observer, at its place and over the
/// connection, wherever the connection id can be in a header and the announcement be encoded.
pub proof fn lemma_fetch_request_announces(
    own_id: &str,
    client_id: &str,
    connection_id: &str,
    request: Result<PutRequest, FetchError>,
)
    requires
        call_ensures(fetch_request, (own_id, client_id, connection_id), request),
    ensures
        ({
            let fits = forall|i: int|
                0 <= i < connection_id@.len() ==> #[trigger] connection_id@[i] as int == 9 || (
                connection_id@[i] as int >= 32 && connection_id@[i] as int != 127);
            let encoded = announcement_encoded(
                AnnouncementView {
                    device_id: own_id@ + "obs"@,
                    name: "spotify-connect observer"@,
                    client_id: client_id@,
                    member_type: 2,
                    put_state_reason: 3,
                    hidden: true,
                    is_observable: true,
                },
            );
            &&& !fits ==> (request matches Err(FetchError::BadHeader(reason)) && reason@
                == "failed to parse header value"@)
            &&& fits && encoded is Err ==> (request matches Err(FetchError::BadMessage(reason))
                && reason@ == encoded->Err_0)
            &&& fits && encoded is Ok ==> (request matches Ok(put) && put.body@ == encoded->Ok_0
                && put.endpoint@ == "/connect-state/v1/devices/"@ + (own_id@ + "obs"@)
                && header_contents(put.headers) == map![
                "x-spotify-connection-id"@ => connection_id@,
                "content-type"@ => "application/x-protobuf"@,
            ])
        }),
{
    lemma_header_text_meaning(connection_id@);
}

/// What is read from a reply is what the message in it holds, or its error.
pub proof fn lemma_read_cluster_reads(reply: &[u8], cluster: Result<DeviceCluster, String>)
    requires
        call_ensures(read_cluster, (reply,), cluster),
    ensures
        cluster is Ok ==> cluster_decoded(reply@) == Ok::<ClusterContents, Seq<char>>(
            cluster_contents(cluster->Ok_0@),
        ),
        cluster is Err ==> cluster_decoded(reply@) == Err::<ClusterContents, Seq<char>>(
            cluster->Err_0@,
        ),
{
}

/// Putting in a device, setting a volume and making a device the one that plays change that and
/// nothing else.
pub proof fn lemma_cluster_changes(
    put: &mut DeviceCluster,
    id: &str,
    info: DeviceInfo,
    set: &mut DeviceCluster,
    volume: u32,
    found: bool,
    moved: &mut DeviceCluster,
    i: int,
)
    requires
        call_ensures(DeviceCluster::insert, (put, id, info), ()),
        call_ensures(DeviceCluster::set_volume, (set, id, volume), found),
        call_ensures(DeviceCluster::set_active, (moved, id), ()),
    ensures
        final(put)@.active_device_id == old(put)@.active_device_id,
        (forall|k: int| 0 <= k < old(put)@.device.len() ==> #[trigger] old(put)@.device[k].0 != id@)
            ==> final(put)@.device == old(put)@.device.push((id@, info@)),
        0 <= i < old(put)@.device.len() && old(put)@.device[i].0 == id@ && (forall|k: int|
            0 <= k < i ==> #[trigger] old(put)@.device[k].0 != id@) ==> final(put)@.device
            == old(put)@.device.update(i, (id@, info@)),
        is_louder(old(set)@, final(set)@, id@, volume),
        found <==> exists|k: int|
            0 <= k < old(set)@.device.len() && #[trigger] old(set)@.device[k].0 == id@,
        final(moved)@.active_device_id == id@,
        final(moved)@.device == old(moved)@.device,
{
    lemma_with_device_meaning(put@, id@, info@, i);
    lemma_with_volume(set@, id@, volume);
}

/// A device is found at the first place of its id.
pub proof fn lemma_find_finds(
    cluster: DeviceCluster,
    id: &str,
    place: Option<usize>,
    found: bool,
    i: int,
)
    requires
        call_ensures(DeviceCluster::find, (&cluster, id), place),
        call_ensures(DeviceCluster::contains, (&cluster, id), found),
        0 <= i < cluster.device@.len(),
    ensures
        cluster.device@[i].0@ == id@ ==> found && place is Some && place->0 <= i,
        found <==> place is Some,
        place is Some ==> place->0 < cluster.device@.len() && cluster.device@[place->0 as int].0@
            == id@,
{
    assert(cluster@.device[i].0 == cluster.device@[i].0@);
    lemma_place_meaning(cluster@, id@, i);
    if place is Some {
        assert(cluster@.device[place->0 as int].0 == cluster.device@[place->0 as int].0@);
    }
}

/// The canned cluster starts with the living room playing.
pub proof fn lemma_mock_cluster_is_canned(own_id: &str, cluster: DeviceCluster)
    requires
        call_ensures(mock_cluster, (own_id,), cluster),
    ensures
        cluster.active_device_id@ == "mock-living-room"@,
        cluster@ == mock_view(own_id@),
{
    assert(cluster@.active_device_id == cluster.active_device_id@);
}

/// A percentage on Spotify's scale, rounded down, and a volume on that scale in percent, rounded
/// up.
pub proof fn lemma_volumes_convert(percent: u64, raw: u64, volume: u32, shown: u32)
    requires
        call_ensures(raw_from_percent, (percent,), raw),
        call_ensures(percent_from_raw, (volume,), shown),
    ensures
        raw * 100 <= percent * 65535 < (raw + 1) * 100,
        (shown - 1) * 65535 < volume * 100 <= shown * 65535,
{
}

/// The command line `switch` and one word asks for a switch to that word; `volume` and a number up
/// to a hundred for that volume, and any other word behind it is refused.
pub proof fn lemma_parse_args_takes_words(args: Vec<String>, invocation: Invocation)
    requires
        call_ensures(parse_args, (&args,), invocation),
        args@.len() == 2,
        args@[1]@ != "--json"@,
    ensures
        args@[0]@ == "switch"@ ==> (invocation matches Invocation::Control(
            ControlRequest::Switch(id),
        ) && id@ == args@[1]@),
        args@[0]@ == "volume"@ && written_number(args@[1]@) is Some && written_number(
            args@[1]@,
        )->0 <= 100 ==> (invocation matches Invocation::Control(ControlRequest::Volume(percent))
            && percent == written_number(args@[1]@)->0),
        args@[0]@ == "volume"@ && !(written_number(args@[1]@) is Some && written_number(
            args@[1]@,
        )->0 <= 100) ==> invocation is BadVolume,
        args@[0]@ == "daemon"@ && args@[1]@ == "--mock"@ ==> invocation == (Invocation::Daemon {
            mock: true,
        }),
{
    let views = arg_views(args@);
    let (first, second) = (args@[0]@, args@[1]@);
    assert(views =~= seq![first] + seq![second]);
    assert(views =~= seq![first, second]);
    reveal_strlit("--json");
    reveal_strlit("switch");
    reveal_strlit("volume");
    reveal_strlit("daemon");
    assert("--json"@[0] == '-' && "switch"@[0] == 's' && "volume"@[0] == 'v' && "daemon"@[0]
        == 'd');
    lemma_json_flag_is_ignored(seq![first], seq![second], first);
    lemma_json_flag_is_ignored(seq![first], seq![second], second);
    lemma_command_lines(second, 0, views);
    if written_number(second) is Some && written_number(second)->0 <= 100 {
        lemma_numbers_are_not_negative(second);
        lemma_command_lines(second, written_number(second)->0 as u64, views);
    }
}

/// A command line of one word asks for what the word says.
pub proof fn lemma_parse_args_takes_a_word(args: Vec<String>, invocation: Invocation)
    requires
        call_ensures(parse_args, (&args,), invocation),
        args@.len() == 1,
    ensures
        args@[0]@ == "daemon"@ ==> invocation == (Invocation::Daemon { mock: false }),
        args@[0]@ == "login"@ ==> invocation is Login,
        args@[0]@ == "status"@ ==> invocation == Invocation::Control(ControlRequest::Status),
        args@[0]@ == "devices"@ ==> invocation == Invocation::Control(ControlRequest::Devices),
        args@[0]@ != "daemon"@ && args@[0]@ != "login"@ && args@[0]@ != "status"@ && args@[0]@
            != "devices"@ ==> invocation is Unknown,
{
    let views = arg_views(args@);
    let word = args@[0]@;
    assert(views =~= seq![word]);
    reveal_strlit("--json");
    reveal_strlit("login");
    reveal_strlit("status");
    reveal_strlit("devices");
    reveal_strlit("daemon");
    assert("--json"@[0] == '-' && "login"@[0] == 'l' && "status"@[0] == 's' && "devices"@[0] == 'd'
        && "daemon"@[0] == 'd');
    lemma_json_flag_is_ignored(views, views, word);
    lemma_command_lines(word, 0, views);
    lemma_command_lines(word, 0, Seq::empty());
}

/// What is said of a command line that is refused, and of no other.
pub proof fn lemma_complaint_complains(invocation: Invocation, text: Option<String>)
    requires
        call_ensures(complaint, (&invocation,), text),
    ensures
        text is Some <==> invocation is BadVolume || invocation is Unknown,
        invocation is BadVolume ==> text->0@ == "volume takes 0-100"@,
        invocation is Unknown ==> text->0@
            == "usage: spotify-connect daemon [--mock] | login | status | devices | switch <device-id> | volume <0-100>"@,
{
}

/// What goes to the daemon for a request: its command, and the id or the volume that is asked for,
/// on a line.
pub proof fn lemma_request_line_asks(request: ControlRequest, line: String)
    requires
        call_ensures(request_line, (&request,), line),
    ensures
        json_parsed(line@) == Some(
            match request {
                ControlRequest::Status => Json::Record(map!["cmd"@ => Json::Text("status"@)]),
                ControlRequest::Devices => Json::Record(map!["cmd"@ => Json::Text("devices"@)]),
                ControlRequest::Switch(id) => Json::Record(
                    map!["cmd"@ => Json::Text("switch"@), "id"@ => Json::Text(id@)],
                ),
                ControlRequest::Volume(percent) => Json::Record(
                    map!["cmd"@ => Json::Text("volume"@), "value"@ => Json::Number(percent)],
                ),
            },
        ),
        line@ == json_text(json_parsed(line@)->0).push('\n'),
{
    match request {
        ControlRequest::Switch(id) => lemma_what_is_asked(id@, 0),
        ControlRequest::Volume(percent) => lemma_what_is_asked(Seq::empty(), percent),
        _ => lemma_what_is_asked(Seq::empty(), 0),
    }
}

/// The client shows a reply that is not blank without the white space around it, and its exit code
/// goes by the error in the reply; without such a reply it shows that nothing is available and
/// exits with 2.
pub proof fn lemma_ctl_shows_reply(reply: Option<String>, outcome: Outcome, i: int) -> (bounds: (
    int,
    int,
))
    requires
        call_ensures(ctl, (reply,), outcome),
    ensures
        reply is None || (forall|k: int|
            0 <= k < reply->0@.len() ==> is_white_space(#[trigger] reply->0@[k])) ==> outcome.code
            == 2 && outcome.shown@ == json_text(
            Json::Record(map!["error"@ => Json::Text("unavailable"@)]),
        ),
        reply is Some && 0 <= i < reply->0@.len() && !is_white_space(reply->0@[i]) ==> ({
            let line = reply->0@;
            &&& 0 <= bounds.0 <= i < bounds.1 <= line.len()
            &&& outcome.shown@ == line.subrange(bounds.0, bounds.1)
            &&& forall|k: int|
                0 <= k < bounds.0 || bounds.1 <= k < line.len() ==> is_white_space(
                    #[trigger] line[k],
                )
            &&& !is_white_space(line[bounds.0]) && !is_white_space(line[bounds.1 - 1])
            &&& outcome.code == match json_parsed(line) {
                Some(Json::Record(fields)) => if fields.contains_key("error"@) && fields["error"@]
                    is Text {
                    if fields["error"@]->Text_0 == "unavailable"@ {
                        2i32
                    } else if fields["error"@]->Text_0 == "not_authenticated"@ {
                        3i32
                    } else {
                        1i32
                    }
                } else {
                    0i32
                },
                _ => 0i32,
            }
        }),
{
    let line = match reply {
        Some(line) => line@,
        None => Seq::empty(),
    };
    lemma_line_that_counts(line, i);
    if let Some(Json::Record(fields)) = json_parsed(line) {
        if fields.contains_key("error"@) && fields["error"@] is Text {
            lemma_exit_code_meaning(fields, Json::Null, fields["error"@]->Text_0);
        } else {
            lemma_exit_code_meaning(fields, Json::Null, Seq::empty());
        }
    } else if let Some(other) = json_parsed(line) {
        lemma_exit_code_meaning(Map::empty(), other, Seq::empty());
    }
    lemma_trimmed_meaning(line)
}

/// The names by which this computer goes. The bounds of a text without the white space around it
/// are returned.
pub proof fn lemma_names(
    text: String,
    own_id: &str,
    observer: String,
    stored: String,
    known: Option<String>,
    unknown: Option<String>,
    made: String,
    host: String,
    no_host: String,
    receiver: String,
) -> (bounds: (int, int))
    requires
        call_ensures(observer_id, (own_id,), observer),
        call_ensures(stored_device_id, (own_id,), stored),
        call_ensures(known_device_id, (Some(text),), known),
        call_ensures(known_device_id, (None,), unknown),
        call_ensures(new_device_id, (own_id,), made),
        call_ensures(hostname, (Some(text),), host),
        call_ensures(hostname, (None,), no_host),
        call_ensures(receiver_name, (own_id,), receiver),
    ensures
        observer@ == own_id@ + "obs"@,
        receiver@ == "Omarchy "@ + own_id@,
        unknown is None,
        no_host@ == "librespot"@,
        made@ == stored@.filter(|c: char| c != '-'),
        0 <= bounds.0 <= bounds.1 <= text@.len(),
        bounds.0 < bounds.1 ==> !is_white_space(text@[bounds.0]) && !is_white_space(
            text@[bounds.1 - 1],
        ),
        forall|i: int|
            0 <= i < bounds.0 || bounds.1 <= i < text@.len() ==> is_white_space(
                #[trigger] text@[i],
            ),
        known is Some && known->0@ == text@.subrange(bounds.0, bounds.1),
        host@ == text@.subrange(bounds.0, bounds.1),
        text@ == own_id@ ==> stored@ == known->0@,
{
    lemma_trimmed_meaning(text@)
}

/// Where the files are.
pub proof fn lemma_paths<P>(
    dir: P,
    home: Option<P>,
    temp: P,
    given: PathPlan<P>,
    at_home: PathPlan<P>,
    id_given: PathPlan<P>,
    id_at_home: PathPlan<P>,
    socket: PathPlan<P>,
    temp_socket: PathPlan<P>,
)
    requires
        call_ensures(state_dir::<P>, (Some(dir), home), given),
        call_ensures(state_dir::<P>, (None, home), at_home),
        call_ensures(device_id_path::<P>, (Some(dir), home), id_given),
        call_ensures(device_id_path::<P>, (None, home), id_at_home),
        call_ensures(socket_path::<P>, (Some(dir), temp), socket),
        call_ensures(socket_path::<P>, (None, temp), temp_socket),
    ensures
        given.base == Some(dir) && given@.names == seq!["spotify-connect"@],
        at_home.base == home && at_home@.names == seq![".local/state"@, "spotify-connect"@],
        id_given.base == Some(dir) && id_given@.names == seq!["spotify-connect"@, "device_id"@],
        id_at_home.base == home && id_at_home@.names == seq![
            ".local/state"@,
            "spotify-connect"@,
            "device_id"@,
        ],
        socket.base == Some(dir) && socket@.names == seq!["spotify-connect.sock"@],
        temp_socket.base == Some(temp) && temp_socket@.names == seq!["spotify-connect.sock"@],
{
    assert(given@.base == given.base && at_home@.base == at_home.base);
    assert(id_given@.base == id_given.base && id_at_home@.base == id_at_home.base);
    assert(socket@.base == socket.base && temp_socket@.base == temp_socket.base);
    assert(id_given@.names =~= seq!["spotify-connect"@, "device_id"@]);
    assert(id_at_home@.names =~= seq![".local/state"@, "spotify-connect"@, "device_id"@]);
}

} // verus!
