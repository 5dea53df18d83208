//! What the daemon knows after everything that happens to it, field by field.

use vstd::prelude::*;

use crate::cluster::{
    lemma_mock_devices, lemma_place, lemma_place_unique, mock_view, plain_device, ClusterView,
    DeviceView, COMPUTER, SPEAKER,
};
use crate::control::SharedView;
use crate::daemon::{
    advanced, fetched, mocked, observer, started, updated, DaemonAction, DaemonEvent,
    CONNECTION_MILLISECONDS,
};
use crate::message::{cluster_contents, device_contents, AnnouncementView};
use crate::paths::{state_dir_view, PathPlanView};
use crate::put::{announcement_request, is_header_text, json_request, PutRequestView};

verus! {

/// A daemon starts signed out, with its own id and nothing else.
pub proof fn lemma_start<S>(own_id: Seq<char>)
    ensures
        !started::<S>(own_id).authenticated,
        started::<S>(own_id).own_id == own_id,
        started::<S>(own_id).cluster is None,
        started::<S>(own_id).session is None,
{
}

/// After an update that carries a cluster the daemon knows exactly that cluster, its devices and
/// the one that plays, whatever it knew before; an update without one changes nothing. All else is
/// as before.
pub proof fn lemma_update_is_followed<S>(shared: SharedView<S>, cluster: ClusterView)
    ensures
        updated(shared, Some(cluster)).cluster == Some(cluster),
        updated(shared, Some(cluster)).authenticated == shared.authenticated,
        updated(shared, Some(cluster)).own_id == shared.own_id,
        updated(shared, Some(cluster)).session == shared.session,
        updated(shared, None) == shared,
{
}

/// A cluster that was fetched is known exactly as it came where none is known; where one is known,
/// that one stays. All else is as before.
pub proof fn lemma_fetch_is_followed<S>(shared: SharedView<S>, cluster: ClusterView)
    ensures
        shared.cluster is None ==> fetched(shared, cluster).cluster == Some(cluster),
        shared.cluster is Some ==> fetched(shared, cluster).cluster == shared.cluster,
        fetched(shared, cluster).authenticated == shared.authenticated,
        fetched(shared, cluster).own_id == shared.own_id,
        fetched(shared, cluster).session == shared.session,
{
}

/// Without credentials the daemon is signed out and looks again after five seconds; with them it is
/// signed in and connects at once; when the connection ends it knows no session and no cluster,
/// stays signed in or out, and looks again after five seconds. All else is as before.
pub proof fn lemma_events_meaning<S>(shared: SharedView<S>)
    ensures
        ({
            let (after, action) = advanced(shared, DaemonEvent::SignedOut);
            &&& !after.authenticated
            &&& after.own_id == shared.own_id
            &&& after.cluster == shared.cluster
            &&& after.session == shared.session
            &&& action == DaemonAction::Wait(5)
        }),
        ({
            let (after, action) = advanced(shared, DaemonEvent::SignedIn);
            &&& after.authenticated
            &&& after.own_id == shared.own_id
            &&& after.cluster == shared.cluster
            &&& after.session == shared.session
            &&& action == DaemonAction::Receive
        }),
        ({
            let (after, action) = advanced(shared, DaemonEvent::Disconnected);
            &&& after.authenticated == shared.authenticated
            &&& after.own_id == shared.own_id
            &&& after.cluster is None
            &&& after.session is None
            &&& action == DaemonAction::Wait(5)
        }),
        CONNECTION_MILLISECONDS == 500,
{
}

/// In mock mode the daemon is signed in and knows the canned cluster for its own id; all else is as
/// before.
pub proof fn lemma_mock_start<S>(shared: SharedView<S>)
    ensures
        mocked(shared).authenticated,
        mocked(shared).own_id == shared.own_id,
        mocked(shared).session == shared.session,
        mocked(shared).cluster == Some(mock_view(shared.own_id)),
{
}

/// The canned cluster: this computer at 40 percent and four speakers at 35, 55, 20 and 45, of which
/// the one in the living room plays, where this computer goes by an id of its own.
pub proof fn lemma_mock_meaning(own_id: Seq<char>)
    requires
        own_id != "mock-kitchen"@,
        own_id != "mock-living-room"@,
        own_id != "mock-bedroom"@,
        own_id != "mock-office"@,
    ensures
        mock_view(own_id).active_device_id == "mock-living-room"@,
        mock_view(own_id).device == seq![
            (
                own_id,
                DeviceView {
                    name: "Omarchy"@,
                    device_type: 1,
                    volume: 26214,
                    device_aliases: Seq::empty(),
                },
            ),
            (
                "mock-kitchen"@,
                DeviceView {
                    name: "Kitchen"@,
                    device_type: 4,
                    volume: 22937,
                    device_aliases: Seq::empty(),
                },
            ),
            (
                "mock-living-room"@,
                DeviceView {
                    name: "Living Room"@,
                    device_type: 4,
                    volume: 36044,
                    device_aliases: Seq::empty(),
                },
            ),
            (
                "mock-bedroom"@,
                DeviceView {
                    name: "Bedroom Speaker"@,
                    device_type: 4,
                    volume: 13107,
                    device_aliases: Seq::empty(),
                },
            ),
            (
                "mock-office"@,
                DeviceView {
                    name: "Office"@,
                    device_type: 4,
                    volume: 29490,
                    device_aliases: Seq::empty(),
                },
            ),
        ],
{
    lemma_mock_devices(own_id);
}

/// Where this computer goes by the id of one of the four speakers, the canned cluster has the four
/// speakers and no more; the one in the living room plays whatever this computer's id is.
pub proof fn lemma_mock_speakers(own_id: Seq<char>)
    ensures
        mock_view(own_id).active_device_id == "mock-living-room"@,
        own_id == "mock-kitchen"@ || own_id == "mock-living-room"@ || own_id == "mock-bedroom"@
            || own_id == "mock-office"@ ==> mock_view(own_id).device.len() == 4,
        mock_view(own_id).device.contains(
            (
                "mock-kitchen"@,
                DeviceView {
                    name: "Kitchen"@,
                    device_type: 4,
                    volume: 22937,
                    device_aliases: Seq::empty(),
                },
            ),
        ),
        mock_view(own_id).device.contains(
            (
                "mock-living-room"@,
                DeviceView {
                    name: "Living Room"@,
                    device_type: 4,
                    volume: 36044,
                    device_aliases: Seq::empty(),
                },
            ),
        ),
        mock_view(own_id).device.contains(
            (
                "mock-bedroom"@,
                DeviceView {
                    name: "Bedroom Speaker"@,
                    device_type: 4,
                    volume: 13107,
                    device_aliases: Seq::empty(),
                },
            ),
        ),
        mock_view(own_id).device.contains(
            (
                "mock-office"@,
                DeviceView {
                    name: "Office"@,
                    device_type: 4,
                    volume: 29490,
                    device_aliases: Seq::empty(),
                },
            ),
        ),
{
    reveal_strlit("mock-kitchen");
    reveal_strlit("mock-living-room");
    reveal_strlit("mock-bedroom");
    reveal_strlit("mock-office");
    assert("mock-kitchen"@[5] == 'k');
    assert("mock-living-room"@[5] == 'l');
    assert("mock-bedroom"@[5] == 'b');
    assert("mock-office"@[5] == 'o');
    reveal_with_fuel(ClusterView::place_from, 6);
    let empty = ClusterView { device: Seq::empty(), active_device_id: Seq::empty() };
    let kitchen = plain_device("Kitchen"@, SPEAKER, 35);
    let living = plain_device("Living Room"@, SPEAKER, 55);
    let bedroom = plain_device("Bedroom Speaker"@, SPEAKER, 20);
    let office = plain_device("Office"@, SPEAKER, 45);
    let one = empty.with_device(own_id, plain_device("Omarchy"@, COMPUTER, 40));
    let two = one.with_device("mock-kitchen"@, kitchen);
    let three = two.with_device("mock-living-room"@, living);
    let four = three.with_device("mock-bedroom"@, bedroom);
    let five = four.with_device("mock-office"@, office);
    assert(one.device.len() == 1 && one.device[0].0 == own_id);
    if own_id == "mock-kitchen"@ {
        assert(two.device =~= seq![("mock-kitchen"@, kitchen)]);
        assert(three.device =~= two.device.push(("mock-living-room"@, living)));
        assert(four.device =~= three.device.push(("mock-bedroom"@, bedroom)));
        assert(five.device =~= four.device.push(("mock-office"@, office)));
        assert(five.device[0] == ("mock-kitchen"@, kitchen));
        assert(five.device[1] == ("mock-living-room"@, living));
        assert(five.device[2] == ("mock-bedroom"@, bedroom));
        assert(five.device[3] == ("mock-office"@, office));
    } else if own_id == "mock-living-room"@ {
        assert(two.device =~= one.device.push(("mock-kitchen"@, kitchen)));
        assert(three.device =~= seq![("mock-living-room"@, living), ("mock-kitchen"@, kitchen)]);
        assert(four.device =~= three.device.push(("mock-bedroom"@, bedroom)));
        assert(five.device =~= four.device.push(("mock-office"@, office)));
        assert(five.device[0] == ("mock-living-room"@, living));
        assert(five.device[1] == ("mock-kitchen"@, kitchen));
        assert(five.device[2] == ("mock-bedroom"@, bedroom));
        assert(five.device[3] == ("mock-office"@, office));
    } else if own_id == "mock-bedroom"@ {
        assert(two.device =~= one.device.push(("mock-kitchen"@, kitchen)));
        assert(three.device =~= two.device.push(("mock-living-room"@, living)));
        assert(four.device =~= seq![
            ("mock-bedroom"@, bedroom),
            ("mock-kitchen"@, kitchen),
            ("mock-living-room"@, living),
        ]);
        assert(five.device =~= four.device.push(("mock-office"@, office)));
        assert(five.device[0] == ("mock-bedroom"@, bedroom));
        assert(five.device[1] == ("mock-kitchen"@, kitchen));
        assert(five.device[2] == ("mock-living-room"@, living));
        assert(five.device[3] == ("mock-office"@, office));
    } else if own_id == "mock-office"@ {
        assert(two.device =~= one.device.push(("mock-kitchen"@, kitchen)));
        assert(three.device =~= two.device.push(("mock-living-room"@, living)));
        assert(four.device =~= three.device.push(("mock-bedroom"@, bedroom)));
        assert(five.device =~= seq![
            ("mock-office"@, office),
            ("mock-kitchen"@, kitchen),
            ("mock-living-room"@, living),
            ("mock-bedroom"@, bedroom),
        ]);
        assert(five.device[0] == ("mock-office"@, office));
        assert(five.device[1] == ("mock-kitchen"@, kitchen));
        assert(five.device[2] == ("mock-living-room"@, living));
        assert(five.device[3] == ("mock-bedroom"@, bedroom));
    } else {
        lemma_mock_devices(own_id);
        assert(five.device[1] == ("mock-kitchen"@, kitchen));
        assert(five.device[2] == ("mock-living-room"@, living));
        assert(five.device[3] == ("mock-bedroom"@, bedroom));
        assert(five.device[4] == ("mock-office"@, office));
    }
}

/// What is announced to learn of the cluster: a device with this computer's id and `obs` behind it,
/// hidden and observable, a Connect member that is new. The request goes to the place of that
/// device, over the connection.
pub proof fn lemma_announcement_meaning(
    own_id: Seq<char>,
    client_id: Seq<char>,
    connection_id: Seq<char>,
    body: Seq<u8>,
)
    ensures
        observer(own_id, client_id) == (AnnouncementView {
            device_id: own_id + "obs"@,
            name: "spotify-connect observer"@,
            client_id,
            member_type: 2,
            put_state_reason: 3,
            hidden: true,
            is_observable: true,
        }),
        announcement_request(observer(own_id, client_id).device_id, connection_id, body) == (
        PutRequestView {
            endpoint: "/connect-state/v1/devices/"@ + own_id + "obs"@,
            headers: map![
                "x-spotify-connection-id"@ => connection_id,
                "content-type"@ => "application/x-protobuf"@,
            ],
            body,
        }),
        json_request(own_id, body) == (PutRequestView {
            endpoint: own_id,
            headers: map!["content-type"@ => "application/json"@],
            body,
        }),
{
    assert("/connect-state/v1/devices/"@ + (own_id + "obs"@) =~= "/connect-state/v1/devices/"@
        + own_id + "obs"@);
}

/// A header can hold every character but those with the codes from 0 to 31, less 9, and 127.
pub proof fn lemma_header_text_meaning(text: Seq<char>)
    ensures
        is_header_text(text) <==> forall|i: int|
            0 <= i < text.len() ==> #[trigger] text[i] as int == 9 || (text[i] as int >= 32
                && text[i] as int != 127),
{
    if forall|i: int|
        0 <= i < text.len() ==> #[trigger] text[i] as int == 9 || (text[i] as int >= 32
            && text[i] as int != 127) {
        assert forall|i: int| 0 <= i < text.len() implies (#[trigger] text[i] >= ' ' && text[i]
            != '\u{7f}') || text[i] == '\t' by {}
    }
}

/// Two clusters that hold the same but for the order of things have the same one playing, and for
/// every device of the one there is a device of the other, whose place is returned, with the same
/// id, name, type, volume and aliases, the aliases in any order.
pub proof fn lemma_contents_are_all_there_is(a: ClusterView, b: ClusterView, i: int) -> (j: int)
    requires
        forall|k: int, m: int|
            0 <= k < m < a.device.len() ==> #[trigger] a.device[k].0 != #[trigger] a.device[m].0,
        cluster_contents(a) == cluster_contents(b),
        0 <= i < a.device.len(),
    ensures
        a.active_device_id == b.active_device_id,
        0 <= j < b.device.len(),
        b.device[j].0 == a.device[i].0,
        b.device[j].1.name == a.device[i].1.name,
        b.device[j].1.device_type == a.device[i].1.device_type,
        b.device[j].1.volume == a.device[i].1.volume,
        b.device[j].1.device_aliases.to_multiset() == a.device[i].1.device_aliases.to_multiset(),
{
    let id = a.device[i].0;
    let (x, y) = (cluster_contents(a), cluster_contents(b));
    lemma_place_unique(a, i);
    assert(a.has(id));
    assert(x.device.contains_key(id));
    assert(y.device.contains_key(id));
    lemma_place(b, id);
    let j = b.place(id);
    assert(x.device[id] == device_contents(a.device[i].1));
    assert(y.device[id] == device_contents(b.device[j].1));
    j
}

/// The state is kept in `spotify-connect` under the directory for state where that is given, and
/// else in `.local/state/spotify-connect` under the home directory, or under the empty path.
pub proof fn lemma_state_dir_meaning<P>(dir: P, home: Option<P>)
    ensures
        state_dir_view(Some(dir), home) == (PathPlanView {
            base: Some(dir),
            names: seq!["spotify-connect"@],
        }),
        state_dir_view(None, home) == (PathPlanView {
            base: home,
            names: seq![".local/state"@, "spotify-connect"@],
        }),
{
}

} // verus!
