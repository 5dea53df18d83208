//! What the list and the status show of Spotify's devices, said of the devices themselves.

use vstd::prelude::*;

use crate::cluster::ClusterView;
use crate::control::{answered, is_answerable, RequestView, SharedView, StepView};
use crate::devices::{
    device_list, entries, entry_le, entry_of, first_active, is_listed, list_json, EntryView,
};
use crate::json::Json;
use crate::list_laws::{
    lemma_list_ids_distinct, lemma_list_is_complete, lemma_list_order, lemma_local_is_own,
    lemma_status,
};
use crate::message::device_type_label;
use crate::text::{ascii_lowercased, lowercased};
use crate::text_laws::lemma_text_order_meaning;

verus! {

/// What makes a device one to list.
proof fn lemma_listed_meaning(cluster: ClusterView, own_id: Seq<char>, i: int)
    requires
        0 <= i < cluster.device.len(),
    ensures
        is_listed(cluster, own_id, i) <==> cluster.device[i].0 != own_id + "obs"@ && (
        cluster.device[i].1.device_aliases.len() == 0 || forall|k: int|
            0 <= k < cluster.device.len() ==> !(cluster.device[i].0 + "_"@).is_prefix_of(
                #[trigger] cluster.device[k].0,
            )),
{
}

/// Every device is in the list, whatever its type, but for the observer and for one with aliases
/// whose id, an underscore and a suffix are the id of a device. Its entry, whose place is returned,
/// gives its id, its name, its type, whether it plays, and its volume in percent, rounded up.
pub proof fn lemma_every_device_is_shown(
    cluster: ClusterView,
    own_id: Seq<char>,
    i: int,
) -> (place: int)
    requires
        0 <= i < cluster.device.len(),
        cluster.device[i].0 != own_id + "obs"@,
        cluster.device[i].1.device_aliases.len() == 0 || forall|k: int|
            0 <= k < cluster.device.len() ==> !(cluster.device[i].0 + "_"@).is_prefix_of(
                #[trigger] cluster.device[k].0,
            ),
    ensures
        0 <= place < device_list(cluster, own_id).len(),
        ({
            let (id, device) = cluster.device[i];
            let entry = device_list(cluster, own_id)[place];
            &&& entry.id == id
            &&& id == own_id ==> entry.name == "This computer"@ && entry.kind == "local"@
            &&& id != own_id && device.device_aliases.len() > 0 ==> entry.name
                == device.device_aliases[0]
            &&& id != own_id && device.device_aliases.len() == 0 ==> entry.name == device.name
            &&& id != own_id ==> entry.kind == device_type_label(device.device_type)
            &&& entry.active <==> id == cluster.active_device_id
            &&& (entry.volume - 1) * 65535 < device.volume * 100 <= entry.volume * 65535
        }),
{
    lemma_listed_meaning(cluster, own_id, i);
    let entry = entry_of(cluster, own_id, i);
    lemma_list_is_complete(cluster, own_id, entry);
    let shown = device_list(cluster, own_id);
    let place = choose|place: int| 0 <= place < shown.len() && shown[place] == entry;
    place
}

/// Every entry of the list is that of a device, whose place in the cluster is returned. It is
/// neither the observer nor one with aliases whose id, an underscore and a suffix are the id of a
/// device.
pub proof fn lemma_only_devices_are_shown(
    cluster: ClusterView,
    own_id: Seq<char>,
    k: int,
) -> (i: int)
    requires
        0 <= k < device_list(cluster, own_id).len(),
    ensures
        0 <= i < cluster.device.len(),
        cluster.device[i].0 != own_id + "obs"@,
        cluster.device[i].1.device_aliases.len() == 0 || forall|n: int|
            0 <= n < cluster.device.len() ==> !(cluster.device[i].0 + "_"@).is_prefix_of(
                #[trigger] cluster.device[n].0,
            ),
        ({
            let (id, device) = cluster.device[i];
            let entry = device_list(cluster, own_id)[k];
            &&& entry.id == id
            &&& id == own_id ==> entry.name == "This computer"@ && entry.kind == "local"@
            &&& id != own_id && device.device_aliases.len() > 0 ==> entry.name
                == device.device_aliases[0]
            &&& id != own_id && device.device_aliases.len() == 0 ==> entry.name == device.name
            &&& id != own_id ==> entry.kind == device_type_label(device.device_type)
            &&& entry.active <==> id == cluster.active_device_id
            &&& (entry.volume - 1) * 65535 < device.volume * 100 <= entry.volume * 65535
        }),
{
    let entry = device_list(cluster, own_id)[k];
    lemma_list_is_complete(cluster, own_id, entry);
    let i = choose|i: int|
        0 <= i < cluster.device.len() && is_listed(cluster, own_id, i) && #[trigger] entry_of(
            cluster,
            own_id,
            i,
        ) == entry;
    lemma_listed_meaning(cluster, own_id, i);
    i
}

/// No device is in the list twice.
pub proof fn lemma_no_device_is_shown_twice(
    cluster: ClusterView,
    own_id: Seq<char>,
    k: int,
    m: int,
)
    requires
        forall|i: int, j: int|
            0 <= i < j < cluster.device.len() ==> #[trigger] cluster.device[i].0
                != #[trigger] cluster.device[j].0,
        0 <= k < m < device_list(cluster, own_id).len(),
    ensures
        device_list(cluster, own_id)[k].id != device_list(cluster, own_id)[m].id,
{
    lemma_list_ids_distinct(cluster, own_id);
}

/// This computer is before all others, and these follow one another by their names in lower case,
/// character by character.
pub proof fn lemma_list_goes_by_name(cluster: ClusterView, own_id: Seq<char>, k: int, m: int)
    requires
        0 <= k < m < device_list(cluster, own_id).len(),
    ensures
        ({
            let (a, b) = (device_list(cluster, own_id)[k], device_list(cluster, own_id)[m]);
            let (x, y) = (lowercased(a.name), lowercased(b.name));
            &&& b.id == own_id ==> a.id == own_id
            &&& a.id == own_id || x.is_prefix_of(y) || exists|n: int|
                0 <= n < x.len() && n < y.len() && #[trigger] x.take(n) == y.take(n) && x[n] < y[n]
        }),
{
    let shown = device_list(cluster, own_id);
    let (a, b) = (shown[k], shown[m]);
    lemma_list_order(entries(cluster, own_id), a);
    assert(entry_le(shown[k], shown[m]));
    lemma_list_is_complete(cluster, own_id, a);
    lemma_list_is_complete(cluster, own_id, b);
    let i = choose|i: int|
        0 <= i < cluster.device.len() && is_listed(cluster, own_id, i) && #[trigger] entry_of(
            cluster,
            own_id,
            i,
        ) == a;
    let j = choose|j: int|
        0 <= j < cluster.device.len() && is_listed(cluster, own_id, j) && #[trigger] entry_of(
            cluster,
            own_id,
            j,
        ) == b;
    lemma_local_is_own(cluster, own_id, i);
    lemma_local_is_own(cluster, own_id, j);
    lemma_text_order_meaning(lowercased(a.name), lowercased(b.name));
}

/// The words under which device types are reported. Every number without a name of its own is
/// reported as unknown.
pub proof fn lemma_type_words(value: i32)
    ensures
        device_type_label(1) == "computer"@,
        device_type_label(2) == "tablet"@,
        device_type_label(3) == "smartphone"@,
        device_type_label(4) == "speaker"@,
        device_type_label(5) == "tv"@,
        device_type_label(6) == "avr"@,
        device_type_label(7) == "stb"@,
        device_type_label(8) == "audio_dongle"@,
        device_type_label(9) == "game_console"@,
        device_type_label(10) == "cast_video"@,
        device_type_label(11) == "cast_audio"@,
        device_type_label(12) == "automobile"@,
        device_type_label(13) == "smartwatch"@,
        device_type_label(14) == "chromebook"@,
        device_type_label(100) == "unknown_spotify"@,
        device_type_label(101) == "car_thing"@,
        device_type_label(102) == "observer"@,
        device_type_label(103) == "home_thing"@,
        value < 1 || 14 < value < 100 || 103 < value ==> device_type_label(value) == "unknown"@,
{
    reveal_strlit("COMPUTER");
    reveal_strlit("TABLET");
    reveal_strlit("SMARTPHONE");
    reveal_strlit("SPEAKER");
    reveal_strlit("TV");
    reveal_strlit("AVR");
    reveal_strlit("STB");
    reveal_strlit("AUDIO_DONGLE");
    reveal_strlit("GAME_CONSOLE");
    reveal_strlit("CAST_VIDEO");
    reveal_strlit("CAST_AUDIO");
    reveal_strlit("AUTOMOBILE");
    reveal_strlit("SMARTWATCH");
    reveal_strlit("CHROMEBOOK");
    reveal_strlit("UNKNOWN_SPOTIFY");
    reveal_strlit("CAR_THING");
    reveal_strlit("OBSERVER");
    reveal_strlit("HOME_THING");
    reveal_strlit("UNKNOWN");
    reveal_strlit("computer");
    reveal_strlit("tablet");
    reveal_strlit("smartphone");
    reveal_strlit("speaker");
    reveal_strlit("tv");
    reveal_strlit("avr");
    reveal_strlit("stb");
    reveal_strlit("audio_dongle");
    reveal_strlit("game_console");
    reveal_strlit("cast_video");
    reveal_strlit("cast_audio");
    reveal_strlit("automobile");
    reveal_strlit("smartwatch");
    reveal_strlit("chromebook");
    reveal_strlit("unknown_spotify");
    reveal_strlit("car_thing");
    reveal_strlit("observer");
    reveal_strlit("home_thing");
    reveal_strlit("unknown");
    assert(device_type_label(1) =~= "computer"@);
    assert(device_type_label(2) =~= "tablet"@);
    assert(device_type_label(3) =~= "smartphone"@);
    assert(device_type_label(4) =~= "speaker"@);
    assert(device_type_label(5) =~= "tv"@);
    assert(device_type_label(6) =~= "avr"@);
    assert(device_type_label(7) =~= "stb"@);
    assert(device_type_label(8) =~= "audio_dongle"@);
    assert(device_type_label(9) =~= "game_console"@);
    assert(device_type_label(10) =~= "cast_video"@);
    assert(device_type_label(11) =~= "cast_audio"@);
    assert(device_type_label(12) =~= "automobile"@);
    assert(device_type_label(13) =~= "smartwatch"@);
    assert(device_type_label(14) =~= "chromebook"@);
    assert(device_type_label(100) =~= "unknown_spotify"@);
    assert(device_type_label(101) =~= "car_thing"@);
    assert(device_type_label(102) =~= "observer"@);
    assert(device_type_label(103) =~= "home_thing"@);
    assert(ascii_lowercased("UNKNOWN"@) =~= "unknown"@);
}

/// Asked for the devices, a daemon that is signed in and knows a cluster replies with the list,
/// connected or not, and forgets nothing. Each entry has five fields.
pub proof fn lemma_devices_reply<S>(
    request: RequestView,
    shared: SharedView<S>,
    cluster: ClusterView,
)
    requires
        shared.authenticated,
        shared.cluster == Some(cluster),
        request.cmd == "devices"@,
    ensures
        answered(request, shared).0 == shared,
        answered(request, shared).1 == StepView::Reply(
            Json::List(
                Seq::new(
                    device_list(cluster, shared.own_id).len(),
                    |k: int|
                        {
                            let entry = device_list(cluster, shared.own_id)[k];
                            Json::Record(
                                map![
                                    "id"@ => Json::Text(entry.id),
                                    "name"@ => Json::Text(entry.name),
                                    "type"@ => Json::Text(entry.kind),
                                    "active"@ => Json::Bool(entry.active),
                                    "volume"@ => Json::Number(entry.volume as u64),
                                ],
                            )
                        },
                ),
            ),
        ),
{
    reveal_strlit("status");
    reveal_strlit("devices");
    assert("status"@.len() == 6);
    assert("devices"@.len() == 7);
    let shown = device_list(cluster, shared.own_id);
    assert(list_json(shown)->List_0 =~= Seq::new(
        shown.len(),
        |k: int|
            {
                let entry = shown[k];
                Json::Record(
                    map![
                        "id"@ => Json::Text(entry.id),
                        "name"@ => Json::Text(entry.name),
                        "type"@ => Json::Text(entry.kind),
                        "active"@ => Json::Bool(entry.active),
                        "volume"@ => Json::Number(entry.volume as u64),
                    ],
                )
            },
    ));
    assert(shared.with_cluster(cluster) == shared);
}

/// Asked for the status, a daemon that is signed in and knows a cluster replies with the device
/// that plays, connected or not, and forgets nothing: its id, its name and its volume in percent,
/// rounded up, which is returned.
pub proof fn lemma_status_names_player<S>(
    request: RequestView,
    shared: SharedView<S>,
    cluster: ClusterView,
    i: int,
) -> (percent: u64)
    requires
        shared.authenticated,
        shared.cluster == Some(cluster),
        request.cmd == "status"@,
        forall|k: int, m: int|
            0 <= k < m < cluster.device.len() ==> #[trigger] cluster.device[k].0
                != #[trigger] cluster.device[m].0,
        0 <= i < cluster.device.len(),
        cluster.device[i].0 == cluster.active_device_id,
        cluster.device[i].0 != shared.own_id + "obs"@,
        cluster.device[i].1.device_aliases.len() == 0 || forall|k: int|
            0 <= k < cluster.device.len() ==> !(cluster.device[i].0 + "_"@).is_prefix_of(
                #[trigger] cluster.device[k].0,
            ),
    ensures
        (percent - 1) * 65535 < cluster.device[i].1.volume * 100 <= percent * 65535,
        answered(request, shared) == (
            shared,
            StepView::Reply(
                Json::Record(
                    map![
                        "activeDevice"@ => Json::Record(
                            map![
                                "id"@ => Json::Text(cluster.active_device_id),
                                "name"@ => Json::Text(
                                    if cluster.active_device_id == shared.own_id {
                                        "This computer"@
                                    } else if cluster.device[i].1.device_aliases.len() > 0 {
                                        cluster.device[i].1.device_aliases[0]
                                    } else {
                                        cluster.device[i].1.name
                                    },
                                ),
                                "volume"@ => Json::Number(percent),
                            ],
                        ),
                    ],
                ),
            ),
        ),
{
    lemma_listed_meaning(cluster, shared.own_id, i);
    lemma_status(cluster, shared.own_id, i);
    assert(shared.with_cluster(cluster) == shared);
    entry_of(cluster, shared.own_id, i).volume as u64
}

/// Where the device that plays is none of those in the list, or none plays, the status is null,
/// connected or not, and the daemon forgets nothing.
pub proof fn lemma_status_names_nobody<S>(
    request: RequestView,
    shared: SharedView<S>,
    cluster: ClusterView,
)
    requires
        shared.authenticated,
        shared.cluster == Some(cluster),
        request.cmd == "status"@,
        forall|k: int|
            0 <= k < device_list(cluster, shared.own_id).len() ==> (#[trigger] device_list(
                cluster,
                shared.own_id,
            )[k]).id != cluster.active_device_id,
    ensures
        answered(request, shared) == (
            shared,
            StepView::Reply(Json::Record(map!["activeDevice"@ => Json::Null])),
        ),
{
    let shown = device_list(cluster, shared.own_id);
    assert forall|k: int| 0 <= k < shown.len() implies !(#[trigger] shown[k]).active by {
        let i = lemma_only_devices_are_shown(cluster, shared.own_id, k);
    }
    lemma_nobody_active(shown);
    assert(shared.with_cluster(cluster) == shared);
}

proof fn lemma_nobody_active(found: Seq<EntryView>)
    requires
        forall|k: int| 0 <= k < found.len() ==> !(#[trigger] found[k]).active,
    ensures
        first_active(found) is None,
    decreases found.len(),
{
    if found.len() > 0 {
        assert(!found[0].active);
        assert forall|k: int| 0 <= k < found.drop_first().len() implies !(
        #[trigger] found.drop_first()[k]).active by {
            assert(!found[k + 1].active);
        }
        lemma_nobody_active(found.drop_first());
    }
}

/// Where no device has the id of the one that plays but the observer and devices with aliases whose
/// id, an underscore and a suffix are the id of a device, the status is null.
pub proof fn lemma_status_hides_player<S>(
    request: RequestView,
    shared: SharedView<S>,
    cluster: ClusterView,
)
    requires
        shared.authenticated,
        shared.cluster == Some(cluster),
        request.cmd == "status"@,
        forall|i: int|
            #![trigger cluster.device[i]]
            0 <= i < cluster.device.len() && cluster.device[i].0 == cluster.active_device_id ==> (
            cluster.device[i].0 == shared.own_id + "obs"@ || (
            cluster.device[i].1.device_aliases.len() > 0 && exists|k: int|
                0 <= k < cluster.device.len() && (cluster.device[i].0 + "_"@).is_prefix_of(
                    #[trigger] cluster.device[k].0,
                ))),
    ensures
        answered(request, shared) == (
            shared,
            StepView::Reply(Json::Record(map!["activeDevice"@ => Json::Null])),
        ),
{
    let shown = device_list(cluster, shared.own_id);
    assert forall|k: int| 0 <= k < shown.len() implies (#[trigger] shown[k]).id
        != cluster.active_device_id by {
        let i = lemma_only_devices_are_shown(cluster, shared.own_id, k);
        assert(cluster.device[i].0 == shown[k].id);
    }
    lemma_status_names_nobody(request, shared, cluster);
}

/// A request can be answered unless it asks for the status or the devices of a daemon that is
/// signed in and knows a device to show whose volume, times a hundred, is beyond 32 bits.
pub proof fn lemma_answerable_meaning<S>(request: RequestView, shared: SharedView<S>)
    ensures
        !is_answerable(request, shared) <==> {
            &&& shared.authenticated
            &&& request.cmd == "status"@ || request.cmd == "devices"@
            &&& shared.cluster matches Some(cluster) && exists|i: int|
                #![trigger cluster.device[i]]
                0 <= i < cluster.device.len() && cluster.device[i].1.volume > 42949672
                    && cluster.device[i].0 != shared.own_id + "obs"@ && (
                cluster.device[i].1.device_aliases.len() == 0 || forall|k: int|
                    0 <= k < cluster.device.len() ==> !(cluster.device[i].0 + "_"@).is_prefix_of(
                        #[trigger] cluster.device[k].0,
                    ))
        },
{
    if let Some(cluster) = shared.cluster {
        assert forall|i: int| 0 <= i < cluster.device.len() implies (#[trigger] is_listed(
            cluster,
            shared.own_id,
            i,
        ) <==> cluster.device[i].0 != shared.own_id + "obs"@ && (
        cluster.device[i].1.device_aliases.len() == 0 || forall|k: int|
            0 <= k < cluster.device.len() ==> !(cluster.device[i].0 + "_"@).is_prefix_of(
                #[trigger] cluster.device[k].0,
            ))) by {
            lemma_listed_meaning(cluster, shared.own_id, i);
        }
    }
}

} // verus!
