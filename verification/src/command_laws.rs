//! What each request does, from the line that makes it to what the daemon knows afterwards.

use vstd::prelude::*;
use vstd::utf8::encode_utf8;

use crate::cluster::{lemma_place, ClusterView, DeviceView};
use crate::control::{
    answered, carries, request_of, transfer_finished, volume_change, volume_finished, RequestView,
    SharedView, StepView, TransferView, VolumeChangeView,
};
use crate::json::{json_parsed, json_text, Json};
use crate::put::PutRequestView;
use crate::volume::{raw_volume, shown_percent};

verus! {

/// A volume in percent is the greatest one on Spotify's scale, which ends at 65535, that is not
/// above that part of the scale; a volume on the scale is shown as the smallest percentage that is
/// not below it.
pub proof fn lemma_volumes_meaning(percent: int, raw: int)
    requires
        0 <= percent,
        0 <= raw,
    ensures
        raw_volume(percent) * 100 <= percent * 65535 < (raw_volume(percent) + 1) * 100,
        (shown_percent(raw) - 1) * 65535 < raw * 100 <= shown_percent(raw) * 65535,
{
}

/// A request is what the fields of a record say: its command, its id and its value. A field that is
/// missing or of another type is as good as none.
pub proof fn lemma_request_fields(
    fields: Map<Seq<char>, Json>,
    cmd: Seq<char>,
    id: Seq<char>,
    value: u64,
)
    ensures
        ({
            let request = request_of(Some(Json::Record(fields)));
            &&& fields.contains_pair("cmd"@, Json::Text(cmd)) ==> request.cmd == cmd
            &&& !fields.contains_key("cmd"@) || fields["cmd"@] !is Text ==> request.cmd.len() == 0
            &&& request.id == Some(id) <==> fields.contains_pair("id"@, Json::Text(id))
            &&& request.value == Some(value) <==> fields.contains_pair(
                "value"@,
                Json::Number(value),
            )
        }),
{
}

/// What is no record, and text that is no JSON, asks for nothing.
pub proof fn lemma_no_request(json: Json)
    ensures
        request_of(None) == (RequestView { cmd: Seq::empty(), id: None, value: None }),
        json !is Record ==> request_of(Some(json)) == (RequestView {
            cmd: Seq::empty(),
            id: None,
            value: None,
        }),
{
}

/// The requests that are refused whatever plays, and the words of the refusals. None of them
/// changes what the daemon knows.
pub proof fn lemma_refusals_meaning<S>(request: RequestView, shared: SharedView<S>)
    ensures
        !shared.authenticated ==> answered(request, shared) == (
            shared,
            StepView::Reply(Json::Record(map!["error"@ => Json::Text("not_authenticated"@)])),
        ),
        shared.authenticated && shared.cluster is None ==> answered(request, shared) == (
            shared,
            StepView::Reply(Json::Record(map!["error"@ => Json::Text("unavailable"@)])),
        ),
        shared.authenticated && shared.cluster is Some && (request.cmd != "status"@ && request.cmd
            != "devices"@ && request.cmd != "switch"@ && request.cmd != "volume"@ || request.cmd
            == "switch"@ && request.id is None || request.cmd == "volume"@ && (
        request.value is None || request.value->0 > 100)) ==> answered(request, shared) == (
            shared,
            StepView::Reply(Json::Record(map!["error"@ => Json::Text("bad_request"@)])),
        ),
{
    lemma_words_differ();
    if let Some(cluster) = shared.cluster {
        assert(shared.with_cluster(cluster) == shared);
    }
}

proof fn lemma_words_differ()
    ensures
        "switch"@ != "status"@,
        "switch"@ != "devices"@,
        "switch"@ != "volume"@,
        "volume"@ != "status"@,
        "volume"@ != "devices"@,
{
    reveal_strlit("status");
    reveal_strlit("devices");
    reveal_strlit("switch");
    reveal_strlit("volume");
    assert("switch"@[1] == 'w');
    assert("status"@[1] == 't');
    assert("volume"@[1] == 'o');
    assert("devices"@[1] == 'e');
}

/// Where Spotify is connected, a switch asks it to transfer playback to the device with that id,
/// known or not: from the one that plays, and where none plays from that device itself. Nothing
/// changes as yet.
pub proof fn lemma_switch_asks_spotify<S>(
    request: RequestView,
    shared: SharedView<S>,
    cluster: ClusterView,
    id: Seq<char>,
)
    requires
        shared.authenticated,
        shared.session is Some,
        shared.cluster == Some(cluster),
        request.cmd == "switch"@,
        request.id == Some(id),
    ensures
        answered(request, shared).0 == shared,
        cluster.active_device_id.len() > 0 ==> answered(request, shared).1 == StepView::Transfer(
            TransferView { from: cluster.active_device_id, target: id },
        ),
        cluster.active_device_id.len() == 0 ==> answered(request, shared).1 == StepView::Transfer(
            TransferView { from: id, target: id },
        ),
{
    lemma_words_differ();
}

/// Once Spotify has transferred playback, the target is the device that plays, and all else is as
/// before; where Spotify has not, all is as before.
pub proof fn lemma_switch_is_noted<S>(shared: SharedView<S>, transfer: TransferView)
    ensures
        transfer_finished(shared, transfer, true).1 == Json::Record(
            map!["ok"@ => Json::Bool(true)],
        ),
        transfer_finished(shared, transfer, true).0 == (SharedView {
            authenticated: shared.authenticated,
            own_id: shared.own_id,
            session: shared.session,
            cluster: match shared.cluster {
                Some(cluster) => Some(
                    ClusterView { device: cluster.device, active_device_id: transfer.target },
                ),
                None => None,
            },
        }),
        transfer_finished(shared, transfer, false) == (
            shared,
            Json::Record(map!["error"@ => Json::Text("switch_failed"@)]),
        ),
{
}

/// Where no Spotify stands behind the daemon, a switch to a device that it knows makes that the one
/// that plays, and all else is as before; one to any other id is refused and changes nothing.
pub proof fn lemma_switch_without_spotify<S>(
    request: RequestView,
    shared: SharedView<S>,
    cluster: ClusterView,
    id: Seq<char>,
)
    requires
        shared.authenticated,
        shared.session is None,
        shared.cluster == Some(cluster),
        request.cmd == "switch"@,
        request.id == Some(id),
    ensures
        (exists|i: int| 0 <= i < cluster.device.len() && #[trigger] cluster.device[i].0 == id)
            ==> answered(request, shared) == (
            SharedView {
                authenticated: shared.authenticated,
                own_id: shared.own_id,
                session: shared.session,
                cluster: Some(ClusterView { device: cluster.device, active_device_id: id }),
            },
            StepView::Reply(Json::Record(map!["ok"@ => Json::Bool(true)])),
        ),
        (forall|i: int| 0 <= i < cluster.device.len() ==> #[trigger] cluster.device[i].0 != id)
            ==> answered(request, shared) == (
            shared,
            StepView::Reply(Json::Record(map!["error"@ => Json::Text("bad_request"@)])),
        ),
{
    lemma_words_differ();
    assert(shared.with_cluster(cluster) == shared);
}

/// Where Spotify is connected and a device plays, a volume asks Spotify to set it on that device;
/// where none plays the request is refused. Nothing changes as yet.
pub proof fn lemma_volume_asks_spotify<S>(
    request: RequestView,
    shared: SharedView<S>,
    cluster: ClusterView,
    percent: u64,
)
    requires
        shared.authenticated,
        shared.session is Some,
        shared.cluster == Some(cluster),
        request.cmd == "volume"@,
        request.value == Some(percent),
        percent <= 100,
    ensures
        answered(request, shared).0 == shared,
        cluster.active_device_id.len() == 0 ==> answered(request, shared).1 == StepView::Reply(
            Json::Record(map!["error"@ => Json::Text("no_active_device"@)]),
        ),
        cluster.active_device_id.len() > 0 ==> ({
            let step = answered(request, shared).1;
            let raw = percent as int * 65535 / 100;
            &&& step is SetVolume
            &&& step->SetVolume_0.device == cluster.active_device_id
            &&& step->SetVolume_0.percent == percent
            &&& step->SetVolume_0.raw == raw
            &&& step->SetVolume_0.request == PutRequestView {
                endpoint: "/connect-state/v1/connect/volume/from/"@ + shared.own_id + "/to/"@
                    + cluster.active_device_id,
                headers: map!["content-type"@ => "application/json"@],
                body: encode_utf8(
                    json_text(Json::Record(map!["volume"@ => Json::Number(raw as u64)])),
                ),
            }
        }),
{
    lemma_words_differ();
}

/// What Spotify is told of a change of volume is what the daemon notes of it afterwards: the part
/// of the scale that the percentage asks for, in the only field of the body. The request goes from
/// this computer to the device.
pub proof fn lemma_volume_told_is_volume_noted(
    own_id: Seq<char>,
    device: Seq<char>,
    percent: u64,
)
    requires
        percent <= 100,
    ensures
        ({
            let change = volume_change(own_id, device, percent);
            &&& change.device == device
            &&& change.percent == percent
            &&& change.raw * 100 <= percent * 65535 < (change.raw + 1) * 100
            &&& change.request.body == encode_utf8(
                json_text(Json::Record(map!["volume"@ => Json::Number(change.raw as u64)])),
            )
            &&& change.request.endpoint == "/connect-state/v1/connect/volume/from/"@ + own_id
                + "/to/"@ + device
            &&& change.request.headers == map!["content-type"@ => "application/json"@]
        }),
{
}

/// Once Spotify has set a volume, the device has it, to the end of the scale, and all else is as
/// before; where Spotify has not, all is as before.
pub proof fn lemma_volume_is_noted<S>(shared: SharedView<S>, change: VolumeChangeView)
    ensures
        volume_finished(shared, change, false) == (
            shared,
            Json::Record(map!["error"@ => Json::Text("volume_failed"@)]),
        ),
        volume_finished(shared, change, true).1 == Json::Record(map!["ok"@ => Json::Bool(true)]),
        ({
            let after = volume_finished(shared, change, true).0;
            &&& after.authenticated == shared.authenticated
            &&& after.own_id == shared.own_id
            &&& after.session == shared.session
            &&& shared.cluster is None ==> after.cluster is None
            &&& shared.cluster is Some ==> after.cluster is Some && is_louder(
                shared.cluster->0,
                after.cluster->0,
                change.device,
                if change.raw <= 65535 {
                    change.raw
                } else {
                    65535
                },
            )
        }),
{
    if let Some(cluster) = shared.cluster {
        lemma_with_volume(
            cluster,
            change.device,
            if change.raw <= 65535 {
                change.raw
            } else {
                65535
            },
        );
    }
}

/// Whether two clusters are the same but for the volume of the device `id`, the first of that id,
/// which is `volume` in the second one.
pub open spec fn is_louder(
    before: ClusterView,
    after: ClusterView,
    id: Seq<char>,
    volume: u32,
) -> bool {
    &&& after.active_device_id == before.active_device_id
    &&& after.device.len() == before.device.len()
    &&& forall|i: int|
        #![trigger after.device[i]]
        #![trigger before.device[i]]
        0 <= i < before.device.len() ==> {
            let (name, device) = before.device[i];
            let chosen = name == id && forall|k: int|
                0 <= k < i ==> #[trigger] before.device[k].0 != id;
            after.device[i] == (
                name,
                DeviceView {
                    name: device.name,
                    device_type: device.device_type,
                    device_aliases: device.device_aliases,
                    volume: if chosen {
                        volume
                    } else {
                        device.volume
                    },
                },
            )
        }
}

/// Setting a volume changes that of the device with the id, the first of that id, and nothing else;
/// without such a device it changes nothing.
pub proof fn lemma_with_volume(cluster: ClusterView, id: Seq<char>, volume: u32)
    ensures
        is_louder(cluster, cluster.with_volume(id, volume), id, volume),
{
    lemma_place(cluster, id);
    let at = cluster.place(id);
    let after = cluster.with_volume(id, volume);
    assert forall|i: int|
        #![trigger after.device[i]]
        #![trigger cluster.device[i]]
        0 <= i < cluster.device.len() implies {
        let (name, device) = cluster.device[i];
        let chosen = name == id && forall|k: int|
            0 <= k < i ==> #[trigger] cluster.device[k].0 != id;
        after.device[i] == (
            name,
            DeviceView {
                name: device.name,
                device_type: device.device_type,
                device_aliases: device.device_aliases,
                volume: if chosen {
                    volume
                } else {
                    device.volume
                },
            },
        )
    } by {
        if i > at {
            assert(cluster.device[at].0 == id);
        }
    }
}

/// A device is known by its id, and its place is the first one of that id.
pub proof fn lemma_place_meaning(cluster: ClusterView, id: Seq<char>, i: int)
    requires
        0 <= i < cluster.device.len(),
    ensures
        cluster.device[i].0 == id ==> cluster.has(id) && 0 <= cluster.place(id) <= i,
        cluster.has(id) ==> 0 <= cluster.place(id) < cluster.device.len()
            && cluster.device[cluster.place(id)].0 == id,
{
    lemma_place(cluster, id);
}

/// Making a device the one that plays changes nothing else.
pub proof fn lemma_with_active_meaning(cluster: ClusterView, id: Seq<char>)
    ensures
        cluster.with_active(id).active_device_id == id,
        cluster.with_active(id).device == cluster.device,
{
}

/// A device that is put in takes the place of the first one of its id, and comes behind all others
/// where there is none; nothing else changes.
pub proof fn lemma_with_device_meaning(
    cluster: ClusterView,
    id: Seq<char>,
    info: DeviceView,
    i: int,
)
    ensures
        cluster.with_device(id, info).active_device_id == cluster.active_device_id,
        (forall|k: int| 0 <= k < cluster.device.len() ==> #[trigger] cluster.device[k].0 != id)
            ==> cluster.with_device(id, info).device == cluster.device.push((id, info)),
        0 <= i < cluster.device.len() && cluster.device[i].0 == id && (forall|k: int|
            0 <= k < i ==> #[trigger] cluster.device[k].0 != id) ==> cluster.with_device(
            id,
            info,
        ).device == cluster.device.update(i, (id, info)),
{
    lemma_place(cluster, id);
}

/// Where no Spotify stands behind the daemon, a volume is set on the device that plays, and all
/// else is as before; where the one that plays is not known the request is refused and changes
/// nothing.
pub proof fn lemma_volume_without_spotify<S>(
    request: RequestView,
    shared: SharedView<S>,
    cluster: ClusterView,
    percent: u64,
)
    requires
        shared.authenticated,
        shared.session is None,
        shared.cluster == Some(cluster),
        request.cmd == "volume"@,
        request.value == Some(percent),
        percent <= 100,
    ensures
        (exists|i: int|
            0 <= i < cluster.device.len() && #[trigger] cluster.device[i].0
                == cluster.active_device_id) ==> ({
            let (after, step) = answered(request, shared);
            &&& step == StepView::Reply(Json::Record(map!["ok"@ => Json::Bool(true)]))
            &&& after.authenticated
            &&& after.own_id == shared.own_id
            &&& after.session is None
            &&& after.cluster is Some
            &&& is_louder(
                cluster,
                after.cluster->0,
                cluster.active_device_id,
                (percent as int * 65535 / 100) as u32,
            )
        }),
        (forall|i: int|
            0 <= i < cluster.device.len() ==> #[trigger] cluster.device[i].0
                != cluster.active_device_id) ==> answered(request, shared) == (
            shared,
            StepView::Reply(Json::Record(map!["error"@ => Json::Text("no_active_device"@)])),
        ),
{
    lemma_words_differ();
    lemma_with_volume(
        cluster,
        cluster.active_device_id,
        (percent as int * 65535 / 100) as u32,
    );
    assert(shared.with_cluster(cluster) == shared);
}

/// A message goes over the wire as its text and a line end, and is read from it unchanged.
pub proof fn lemma_line_meaning(line: Seq<char>, json: Json)
    requires
        carries(line, json),
    ensures
        line == json_text(json) + seq!['\n'],
        json_parsed(line) == Some(json),
        !json_text(json).contains('\n'),
{
    assert(line =~= json_text(json) + seq!['\n']);
    assert forall|i: int| 0 <= i < json_text(json).len() implies json_text(json)[i] != '\n' by {
        assert(line[i] == json_text(json)[i]);
    }
}

} // verus!
