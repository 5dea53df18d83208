//! What holds of every answer of the daemon, and of everything that changes what it knows.

use vstd::prelude::*;

use crate::cli::{exit_code_of, line_of, understood, ControlRequestView};
use crate::cluster::{
    lemma_changes_keep_wf, lemma_mock_wf, lemma_place, lemma_place_unique, ClusterView,
};
use crate::control::{
    answered, carries, error_json, is_answerable, ok_json, transfer_finished, volume_change,
    volume_finished, RequestView, SharedView, StepView, TransferView, VolumeChangeView,
};
use crate::daemon::{advanced, fetched, mocked, started, updated, DaemonEvent};
use crate::devices::{
    active_json, device_list, entry_of, first_active, is_expanded, is_listed, list_json, EntryView,
};
use crate::json::{json_parsed, json_text, Json};
use crate::list_laws::lemma_status;
use crate::text::trimmed;
use crate::volume::{lemma_percent_round_trip, raw_volume, FULL_VOLUME};

verus! {

/// Refusals of different codes differ, and no other reply is a refusal.
pub proof fn lemma_refusals(
    code: Seq<char>,
    other: Seq<char>,
    found: Seq<EntryView>,
    active: Option<EntryView>,
)
    ensures
        error_json(code) == error_json(other) ==> code == other,
        error_json(code) != ok_json(),
        error_json(code) != list_json(found),
        error_json(code) != active_json(active),
{
    reveal_strlit("error");
    reveal_strlit("ok");
    reveal_strlit("activeDevice");
    assert("error"@.len() == 5);
    assert("ok"@.len() == 2);
    assert("activeDevice"@.len() == 12);
    assert(error_json(code)->Record_0.contains_key("error"@));
    assert(error_json(code)->Record_0["error"@] == Json::Text(code));
    assert(error_json(other)->Record_0["error"@] == Json::Text(other));
    assert(!ok_json()->Record_0.contains_key("error"@));
    assert(!active_json(active)->Record_0.contains_key("error"@));
}

/// Nobody is told anything before someone has signed in: every request is refused, and none
/// changes what the daemon knows.
pub proof fn lemma_signed_out<S>(request: RequestView, shared: SharedView<S>)
    requires
        !shared.authenticated,
    ensures
        is_answerable(request, shared),
        answered(request, shared) == (
            shared,
            StepView::Reply(error_json("not_authenticated"@)),
        ),
{
}

/// Without a cluster every request is refused, and none changes what the daemon knows.
pub proof fn lemma_no_cluster<S>(request: RequestView, shared: SharedView<S>)
    requires
        shared.authenticated,
        shared.cluster is None,
    ensures
        is_answerable(request, shared),
        answered(request, shared) == (shared, StepView::Reply(error_json("unavailable"@))),
{
}

/// A request that is refused changes nothing.
pub proof fn lemma_refused_changes_nothing<S>(
    request: RequestView,
    shared: SharedView<S>,
    code: Seq<char>,
)
    requires
        answered(request, shared).1 == StepView::Reply(error_json(code)),
    ensures
        answered(request, shared).0 == shared,
{
    lemma_refusals(code, code, Seq::empty(), None);
    if let Some(cluster) = shared.cluster {
        assert(shared.with_cluster(cluster) == shared);
    }
}

/// Where Spotify is connected a request changes nothing by itself: what changes is noted once
/// Spotify has carried it out.
pub proof fn lemma_live_changes_nothing<S>(request: RequestView, shared: SharedView<S>)
    requires
        shared.session is Some,
    ensures
        answered(request, shared).0 == shared,
{
}

/// Spotify is asked for something only where it is connected.
pub proof fn lemma_steps_need_a_session<S>(request: RequestView, shared: SharedView<S>)
    requires
        answered(request, shared).1 !is Reply,
    ensures
        shared.authenticated,
        shared.cluster is Some,
        shared.session is Some,
{
}

/// Asking for the status or for the devices changes nothing.
pub proof fn lemma_queries_change_nothing<S>(request: RequestView, shared: SharedView<S>)
    requires
        request.cmd == "status"@ || request.cmd == "devices"@,
    ensures
        answered(request, shared).0 == shared,
{
    if let Some(cluster) = shared.cluster {
        assert(shared.with_cluster(cluster) == shared);
    }
}

/// A command that is none of the four is refused wherever a cluster is known.
pub proof fn lemma_unknown_command<S>(request: RequestView, shared: SharedView<S>)
    requires
        shared.authenticated,
        shared.cluster is Some,
        request.cmd != "status"@,
        request.cmd != "devices"@,
        request.cmd != "switch"@,
        request.cmd != "volume"@,
    ensures
        is_answerable(request, shared),
        answered(request, shared).1 == StepView::Reply(error_json("bad_request"@)),
{
}

/// A volume that is missing or above 100 is refused wherever a cluster is known, whatever plays.
pub proof fn lemma_volume_out_of_range<S>(request: RequestView, shared: SharedView<S>)
    requires
        shared.authenticated,
        shared.cluster is Some,
        request.cmd == "volume"@,
        request.value matches Some(value) ==> value > 100,
    ensures
        answered(request, shared).1 == StepView::Reply(error_json("bad_request"@)),
{
    lemma_commands_differ();
}

/// A switch without an id is refused wherever a cluster is known.
pub proof fn lemma_switch_without_id<S>(request: RequestView, shared: SharedView<S>)
    requires
        shared.authenticated,
        shared.cluster is Some,
        request.cmd == "switch"@,
        request.id is None,
    ensures
        answered(request, shared).1 == StepView::Reply(error_json("bad_request"@)),
{
    lemma_commands_differ();
}

proof fn lemma_commands_differ()
    ensures
        "switch"@ != "status"@,
        "switch"@ != "devices"@,
        "switch"@ != "volume"@,
        "volume"@ != "status"@,
        "volume"@ != "devices"@,
        "status"@ != "devices"@,
{
    reveal_strlit("status");
    reveal_strlit("devices");
    reveal_strlit("switch");
    reveal_strlit("volume");
    assert("switch"@[1] == 'w');
    assert("status"@[1] == 't');
    assert("volume"@[1] == 'o');
    assert("devices"@[1] == 'e');
}

/// Whether a device is listed depends neither on who plays nor on volumes.
pub proof fn lemma_listing_is_stable(
    cluster: ClusterView,
    own_id: Seq<char>,
    id: Seq<char>,
    volume: u32,
    i: int,
)
    requires
        0 <= i < cluster.device.len(),
    ensures
        is_listed(cluster.with_active(id), own_id, i) == is_listed(cluster, own_id, i),
        is_listed(cluster.with_volume(id, volume), own_id, i) == is_listed(cluster, own_id, i),
{
    let after = cluster.with_volume(id, volume);
    lemma_place(cluster, id);
    let base = cluster.device[i].0;
    assert(forall|k: int|
        0 <= k < cluster.device.len() ==> #[trigger] after.device[k].0 == cluster.device[k].0);
    if is_expanded(cluster, base) {
        let k = choose|k: int|
            0 <= k < cluster.device.len() && (base + "_"@).is_prefix_of(
                #[trigger] cluster.device[k].0,
            );
        assert((base + "_"@).is_prefix_of(after.device[k].0));
        assert(is_expanded(after, base));
        assert((base + "_"@).is_prefix_of(cluster.with_active(id).device[k].0));
        assert(is_expanded(cluster.with_active(id), base));
    }
    if is_expanded(after, base) {
        let k = choose|k: int|
            0 <= k < after.device.len() && (base + "_"@).is_prefix_of(
                #[trigger] after.device[k].0,
            );
        assert((base + "_"@).is_prefix_of(cluster.device[k].0));
        assert(is_expanded(cluster, base));
    }
}

/// A switch to a listed device is what the status then reports.
pub proof fn lemma_status_after_switch(cluster: ClusterView, own_id: Seq<char>, i: int)
    requires
        cluster.wf(),
        0 <= i < cluster.device.len(),
        is_listed(cluster, own_id, i),
    ensures
        ({
            let after = cluster.with_active(cluster.device[i].0);
            &&& first_active(device_list(after, own_id)) == Some(entry_of(after, own_id, i))
            &&& entry_of(after, own_id, i).id == cluster.device[i].0
            &&& entry_of(after, own_id, i).active
        }),
{
    let id = cluster.device[i].0;
    lemma_changes_keep_wf(cluster, id, 0, arbitrary());
    lemma_listing_is_stable(cluster, own_id, id, 0, i);
    lemma_status(cluster.with_active(id), own_id, i);
}

/// A volume that is set on the device that plays is the percentage that the status then reports.
pub proof fn lemma_status_after_volume(
    cluster: ClusterView,
    own_id: Seq<char>,
    i: int,
    percent: u64,
)
    requires
        cluster.wf(),
        0 <= i < cluster.device.len(),
        cluster.device[i].0 == cluster.active_device_id,
        is_listed(cluster, own_id, i),
        percent <= 100,
    ensures
        ({
            let after = cluster.with_volume(
                cluster.active_device_id,
                raw_volume(percent as int) as u32,
            );
            &&& first_active(device_list(after, own_id)) == Some(entry_of(after, own_id, i))
            &&& entry_of(after, own_id, i).id == cluster.active_device_id
            &&& entry_of(after, own_id, i).volume == percent
        }),
{
    let id = cluster.active_device_id;
    let raw = raw_volume(percent as int) as u32;
    lemma_percent_round_trip(percent as int);
    lemma_changes_keep_wf(cluster, id, raw, arbitrary());
    lemma_listing_is_stable(cluster, own_id, id, raw, i);
    lemma_place_unique(cluster, i);
    lemma_status(cluster.with_volume(id, raw), own_id, i);
}

/// Without Spotify behind it the daemon carries out a switch to a device that it knows, and the
/// status reports it then.
pub proof fn lemma_mock_switch<S>(shared: SharedView<S>, cluster: ClusterView, i: int)
    requires
        shared.authenticated,
        shared.session is None,
        shared.cluster == Some(cluster),
        cluster.wf(),
        0 <= i < cluster.device.len(),
        is_listed(cluster, shared.own_id, i),
    ensures
        ({
            let (after, step) = answered(
                understood(ControlRequestView::Switch(cluster.device[i].0)),
                shared,
            );
            let moved = cluster.with_active(cluster.device[i].0);
            &&& step == StepView::Reply(ok_json())
            &&& after == shared.with_cluster(moved)
            &&& answered(understood(ControlRequestView::Status), after).1 == StepView::Reply(
                active_json(Some(entry_of(moved, shared.own_id, i))),
            )
        }),
{
    lemma_commands_differ();
    assert(cluster.has(cluster.device[i].0));
    lemma_status_after_switch(cluster, shared.own_id, i);
}

/// Without Spotify behind it the daemon sets the volume of the device that plays, and the status
/// reports the percentage then.
pub proof fn lemma_mock_volume<S>(
    shared: SharedView<S>,
    cluster: ClusterView,
    i: int,
    percent: u64,
)
    requires
        shared.authenticated,
        shared.session is None,
        shared.cluster == Some(cluster),
        cluster.wf(),
        0 <= i < cluster.device.len(),
        cluster.device[i].0 == cluster.active_device_id,
        is_listed(cluster, shared.own_id, i),
        percent <= 100,
    ensures
        ({
            let (after, step) = answered(understood(ControlRequestView::Volume(percent)), shared);
            let louder = cluster.with_volume(
                cluster.active_device_id,
                raw_volume(percent as int) as u32,
            );
            &&& step == StepView::Reply(ok_json())
            &&& after == shared.with_cluster(louder)
            &&& entry_of(louder, shared.own_id, i).volume == percent
            &&& answered(understood(ControlRequestView::Status), after).1 == StepView::Reply(
                active_json(Some(entry_of(louder, shared.own_id, i))),
            )
        }),
{
    lemma_commands_differ();
    assert(cluster.has(cluster.active_device_id));
    lemma_status_after_volume(cluster, shared.own_id, i, percent);
}

/// A transfer that Spotify has carried out is what the status then reports, where the cluster has
/// not changed otherwise.
pub proof fn lemma_live_switch<S>(shared: SharedView<S>, cluster: ClusterView, i: int)
    requires
        shared.authenticated,
        shared.session is Some,
        shared.cluster == Some(cluster),
        cluster.wf(),
        0 <= i < cluster.device.len(),
        is_listed(cluster, shared.own_id, i),
    ensures
        ({
            let step = answered(
                understood(ControlRequestView::Switch(cluster.device[i].0)),
                shared,
            ).1;
            let moved = cluster.with_active(cluster.device[i].0);
            &&& step is Transfer
            &&& step->Transfer_0.target == cluster.device[i].0
            &&& transfer_finished(shared, step->Transfer_0, true) == (
                shared.with_cluster(moved),
                ok_json(),
            )
            &&& answered(
                understood(ControlRequestView::Status),
                transfer_finished(shared, step->Transfer_0, true).0,
            ).1 == StepView::Reply(active_json(Some(entry_of(moved, shared.own_id, i))))
        }),
{
    lemma_commands_differ();
    lemma_status_after_switch(cluster, shared.own_id, i);
}

/// A volume that Spotify has set is what the status then reports, where the cluster has not
/// changed otherwise.
pub proof fn lemma_live_volume<S>(
    shared: SharedView<S>,
    cluster: ClusterView,
    i: int,
    percent: u64,
)
    requires
        shared.authenticated,
        shared.session is Some,
        shared.cluster == Some(cluster),
        cluster.wf(),
        cluster.active_device_id.len() > 0,
        0 <= i < cluster.device.len(),
        cluster.device[i].0 == cluster.active_device_id,
        is_listed(cluster, shared.own_id, i),
        percent <= 100,
    ensures
        ({
            let step = answered(understood(ControlRequestView::Volume(percent)), shared).1;
            let louder = cluster.with_volume(
                cluster.active_device_id,
                raw_volume(percent as int) as u32,
            );
            &&& step == StepView::SetVolume(
                volume_change(shared.own_id, cluster.active_device_id, percent),
            )
            &&& volume_finished(shared, step->SetVolume_0, true) == (
                shared.with_cluster(louder),
                ok_json(),
            )
            &&& entry_of(louder, shared.own_id, i).volume == percent
            &&& answered(
                understood(ControlRequestView::Status),
                volume_finished(shared, step->SetVolume_0, true).0,
            ).1 == StepView::Reply(active_json(Some(entry_of(louder, shared.own_id, i))))
        }),
{
    lemma_commands_differ();
    lemma_percent_round_trip(percent as int);
    lemma_status_after_volume(cluster, shared.own_id, i, percent);
}

/// Where every volume is on Spotify's scale every request can be answered.
pub proof fn lemma_answerable_on_scale<S>(request: RequestView, shared: SharedView<S>)
    requires
        shared.cluster matches Some(cluster) ==> forall|i: int|
            #![trigger cluster.device[i]]
            0 <= i < cluster.device.len() ==> cluster.device[i].1.volume <= FULL_VOLUME,
    ensures
        is_answerable(request, shared),
{
}

/// What Spotify has refused changes nothing.
pub proof fn lemma_failure_changes_nothing<S>(
    shared: SharedView<S>,
    change: VolumeChangeView,
    transfer: TransferView,
)
    ensures
        volume_finished(shared, change, false).0 == shared,
        transfer_finished(shared, transfer, false).0 == shared,
{
}

/// Where nothing plays, a transfer goes from its target to its target, and else from the device
/// that plays.
pub proof fn lemma_transfer_source<S>(shared: SharedView<S>, id: Seq<char>)
    requires
        shared.authenticated,
        shared.session is Some,
        shared.cluster is Some,
    ensures
        answered(understood(ControlRequestView::Switch(id)), shared).1 == StepView::Transfer(
            TransferView {
                from: if shared.cluster->0.active_device_id.len() == 0 {
                    id
                } else {
                    shared.cluster->0.active_device_id
                },
                target: id,
            },
        ),
{
    lemma_commands_differ();
}

/// Everything that can change what a daemon knows.
pub enum Change<S> {
    Event(DaemonEvent),
    Mocked,
    Connected(S),
    Fetched(ClusterView),
    Updated(Option<ClusterView>),
    Asked(RequestView),
    VolumeFinished(VolumeChangeView, bool),
    TransferFinished(TransferView, bool),
}

/// What a daemon knows after a change.
pub open spec fn changed<S>(shared: SharedView<S>, change: Change<S>) -> SharedView<S> {
    match change {
        Change::Event(event) => advanced(shared, event).0,
        Change::Mocked => mocked(shared),
        Change::Connected(session) => SharedView { session: Some(session), ..shared },
        Change::Fetched(cluster) => fetched(shared, cluster),
        Change::Updated(cluster) => updated(shared, cluster),
        Change::Asked(request) => answered(request, shared).0,
        Change::VolumeFinished(change, done) => volume_finished(shared, change, done).0,
        Change::TransferFinished(transfer, done) => transfer_finished(shared, transfer, done).0,
    }
}

/// Whether the clusters that a change brings along have distinct ids.
pub open spec fn brings_wf<S>(change: Change<S>) -> bool {
    match change {
        Change::Fetched(cluster) => cluster.wf(),
        Change::Updated(Some(cluster)) => cluster.wf(),
        _ => true,
    }
}

/// What a daemon knows after a number of changes.
pub open spec fn after_all<S>(shared: SharedView<S>, changes: Seq<Change<S>>) -> SharedView<S>
    decreases changes.len(),
{
    if changes.len() == 0 {
        shared
    } else {
        changed(after_all(shared, changes.drop_last()), changes.last())
    }
}

/// Whatever happens, a daemon keeps its own id, and the ids in the cluster that it knows stay
/// distinct.
pub proof fn lemma_daemon_invariant<S>(own_id: Seq<char>, changes: Seq<Change<S>>)
    requires
        forall|i: int| 0 <= i < changes.len() ==> brings_wf(#[trigger] changes[i]),
    ensures
        after_all(started::<S>(own_id), changes).own_id == own_id,
        after_all(started::<S>(own_id), changes).wf(),
    decreases changes.len(),
{
    if changes.len() > 0 {
        let rest = changes.drop_last();
        lemma_daemon_invariant(own_id, rest);
        let before = after_all(started::<S>(own_id), rest);
        let last = changes.last();
        assert(brings_wf(changes[changes.len() - 1]));
        lemma_mock_wf(own_id);
        if let Some(cluster) = before.cluster {
            assert forall|id: Seq<char>, volume: u32| #[trigger]
                cluster.with_volume(id, volume).wf() by {
                lemma_changes_keep_wf(cluster, id, volume, arbitrary());
            }
            assert forall|id: Seq<char>| #[trigger] cluster.with_active(id).wf() by {
                lemma_changes_keep_wf(cluster, id, 0, arbitrary());
            }
        }
    }
}

/// Whether a change can happen outside mock mode to a daemon that knows `before`: it learns of
/// clusters only while it is connected.
pub open spec fn is_live_change<S>(before: SharedView<S>, change: Change<S>) -> bool {
    match change {
        Change::Mocked => false,
        Change::Fetched(_) => before.session is Some,
        Change::Updated(_) => before.session is Some,
        _ => true,
    }
}

/// Whether all of the changes can happen in turn outside mock mode.
pub open spec fn is_live_run<S>(start: SharedView<S>, changes: Seq<Change<S>>) -> bool {
    forall|i: int|
        0 <= i < changes.len() ==> is_live_change(
            after_all(start, changes.take(i)),
            #[trigger] changes[i],
        )
}

/// Outside mock mode a daemon that knows a cluster holds a session, so no request is ever carried
/// out on the cluster alone.
pub proof fn lemma_cluster_needs_session<S>(
    own_id: Seq<char>,
    changes: Seq<Change<S>>,
    request: RequestView,
)
    requires
        is_live_run(started::<S>(own_id), changes),
    ensures
        ({
            let known = after_all(started::<S>(own_id), changes);
            &&& known.cluster is Some ==> known.session is Some
            &&& answered(request, known).0 == known
        }),
    decreases changes.len(),
{
    if changes.len() > 0 {
        let rest = changes.drop_last();
        let last = changes.len() - 1;
        assert(changes.take(last) =~= rest);
        assert(is_live_change(after_all(started::<S>(own_id), rest), changes[last]));
        assert forall|i: int| 0 <= i < rest.len() implies is_live_change(
            after_all(started::<S>(own_id), rest.take(i)),
            #[trigger] rest[i],
        ) by {
            assert(rest.take(i) =~= changes.take(i));
            assert(rest[i] == changes[i]);
        }
        lemma_cluster_needs_session(own_id, rest, request);
    }
}

/// Whether a change leaves a daemon without a cluster signed in and without a cluster.
pub open spec fn brings_no_cluster<S>(change: Change<S>) -> bool {
    match change {
        Change::Event(event) => event !is SignedOut,
        Change::Mocked => false,
        Change::Fetched(_) => false,
        Change::Updated(cluster) => cluster is None,
        _ => true,
    }
}

/// The end of a connection takes session and cluster together and leaves the daemon signed in.
/// Whatever happens then, every request is told that nothing is available, until a cluster arrives
/// or nobody is signed in.
pub proof fn lemma_unavailable_until_cluster<S>(
    shared: SharedView<S>,
    changes: Seq<Change<S>>,
    request: RequestView,
)
    requires
        shared.authenticated,
        forall|i: int| 0 <= i < changes.len() ==> brings_no_cluster(#[trigger] changes[i]),
    ensures
        ({
            let ended = advanced(shared, DaemonEvent::Disconnected).0;
            let known = after_all(ended, changes);
            &&& ended.session is None
            &&& ended.cluster is None
            &&& ended.authenticated
            &&& known.authenticated
            &&& known.cluster is None
            &&& answered(request, known) == (
                known,
                StepView::Reply(error_json("unavailable"@)),
            )
        }),
    decreases changes.len(),
{
    if changes.len() > 0 {
        let rest = changes.drop_last();
        assert(brings_no_cluster(changes[changes.len() - 1]));
        assert forall|i: int| 0 <= i < rest.len() implies brings_no_cluster(
            #[trigger] rest[i],
        ) by {
            assert(rest[i] == changes[i]);
        }
        lemma_unavailable_until_cluster(shared, rest, request);
    }
}

/// A cluster that was fetched never replaces one that is known already.
pub proof fn lemma_fetch_never_overwrites<S>(
    shared: SharedView<S>,
    newer: ClusterView,
    older: ClusterView,
)
    ensures
        fetched(updated(shared, Some(newer)), older) == updated(shared, Some(newer)),
        updated(fetched(shared, older), Some(newer)) == updated(shared, Some(newer)),
{
}

/// After the connection has come to an end every request is refused, until a cluster is known
/// again; after signing out, until someone signs in again.
pub proof fn lemma_refused_after<S>(request: RequestView, shared: SharedView<S>)
    ensures
        answered(request, advanced(shared, DaemonEvent::Disconnected).0).1 == StepView::Reply(
            error_json(
                if shared.authenticated {
                    "unavailable"@
                } else {
                    "not_authenticated"@
                },
            ),
        ),
        answered(request, advanced(shared, DaemonEvent::SignedOut).0).1 == StepView::Reply(
            error_json("not_authenticated"@),
        ),
{
}

/// The exit code tells the replies apart: 0 where the request was answered, 2 where the daemon is
/// unavailable, 3 where nobody has signed in, 1 for every other refusal.
pub proof fn lemma_exit_codes(
    code: Seq<char>,
    found: Seq<EntryView>,
    active: Option<EntryView>,
)
    ensures
        exit_code_of(Some(ok_json())) == 0,
        exit_code_of(Some(list_json(found))) == 0,
        exit_code_of(Some(active_json(active))) == 0,
        exit_code_of(Some(error_json("unavailable"@))) == 2,
        exit_code_of(Some(error_json("not_authenticated"@))) == 3,
        code != "unavailable"@ && code != "not_authenticated"@ ==> exit_code_of(
            Some(error_json(code)),
        ) == 1,
{
    lemma_refusals(code, code, found, active);
    reveal_strlit("error");
    reveal_strlit("ok");
    reveal_strlit("activeDevice");
    reveal_strlit("unavailable");
    reveal_strlit("not_authenticated");
    assert("error"@.len() == 5);
    assert("unavailable"@.len() == 11);
    assert("not_authenticated"@.len() == 17);
    assert("ok"@.len() == 2);
    assert("activeDevice"@.len() == 12);
}

/// The client goes by the line that the daemon sends: it shows the text of the reply without the
/// line end, and its exit code is the one that the reply calls for.
pub proof fn lemma_client_goes_by_reply(line: Seq<char>, reply: Json)
    requires
        carries(line, reply),
    ensures
        line_of(Some(line)) == line,
        trimmed(line_of(Some(line))) == json_text(reply),
        exit_code_of(json_parsed(line_of(Some(line)))) == exit_code_of(Some(reply)),
{
}

/// A client that asks before anyone has signed in exits with 3, and one that asks before a cluster
/// is known with 2, on the lines that the daemon sends to it.
pub proof fn lemma_client_is_told<S>(
    request: RequestView,
    shared: SharedView<S>,
    line: Seq<char>,
)
    requires
        answered(request, shared).1 is Reply,
        carries(line, answered(request, shared).1->Reply_0),
    ensures
        !shared.authenticated ==> exit_code_of(json_parsed(line_of(Some(line)))) == 3,
        shared.authenticated && shared.cluster is None ==> exit_code_of(
            json_parsed(line_of(Some(line))),
        ) == 2,
{
    lemma_client_goes_by_reply(line, answered(request, shared).1->Reply_0);
    lemma_exit_codes(Seq::empty(), Seq::empty(), None);
}

} // verus!
