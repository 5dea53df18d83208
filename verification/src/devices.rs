//! The list of devices that can be switched to.

use vstd::prelude::*;

use crate::cluster::{ClusterView, DeviceCluster};
use crate::identity::{observer_id, observer_of};
use crate::json::{
    boolean, is_message, json_of, list, nests, null, number, set_field, string, Json,
};
use crate::message::{device_type_label, type_label};
use crate::text::{in_order, lowercased, same_text, starts_with, text_le, to_lowercase};
use crate::volume::{percent_from_raw, shown_percent, volume_fits};

verus! {

/// A device in the list.
pub struct DeviceEntry {
    pub id: String,
    pub name: String,
    /// `local` for this computer, else the device type.
    pub kind: String,
    /// Whether it is the one that plays.
    pub active: bool,
    /// The volume in percent.
    pub volume: u32,
}

/// The model of a [`DeviceEntry`].
#[verifier::ext_equal]
pub struct EntryView {
    pub id: Seq<char>,
    pub name: Seq<char>,
    pub kind: Seq<char>,
    pub active: bool,
    pub volume: u32,
}

impl View for DeviceEntry {
    type V = EntryView;

    open spec fn view(&self) -> EntryView {
        EntryView {
            id: self.id@,
            name: self.name@,
            kind: self.kind@,
            active: self.active,
            volume: self.volume,
        }
    }
}

/// Whether some device goes by the id `base`, an underscore and a suffix.
pub open spec fn is_expanded(cluster: ClusterView, base: Seq<char>) -> bool {
    exists|i: int|
        0 <= i < cluster.device.len() && (base + "_"@).is_prefix_of(
            #[trigger] cluster.device[i].0,
        )
}

/// Whether the device at place `i` is in the list. The observer is not, and a device with aliases
/// is not where the aliases are devices of their own.
pub open spec fn is_listed(cluster: ClusterView, own_id: Seq<char>, i: int) -> bool {
    let (id, device) = cluster.device[i];
    id != observer_of(own_id) && (device.device_aliases.len() == 0 || !is_expanded(cluster, id))
}

/// What the list says of the device at place `i`.
pub open spec fn entry_of(cluster: ClusterView, own_id: Seq<char>, i: int) -> EntryView {
    let (id, device) = cluster.device[i];
    EntryView {
        id,
        name: if id == own_id {
            "This computer"@
        } else if device.device_aliases.len() > 0 {
            device.device_aliases[0]
        } else {
            device.name
        },
        kind: if id == own_id {
            "local"@
        } else {
            device_type_label(device.device_type)
        },
        active: id == cluster.active_device_id,
        volume: shown_percent(device.volume as int) as u32,
    }
}

/// What the list says of the first `n` devices, in the cluster's order.
pub open spec fn entries_upto(cluster: ClusterView, own_id: Seq<char>, n: nat) -> Seq<EntryView>
    decreases n,
{
    if n == 0 {
        Seq::empty()
    } else {
        let before = entries_upto(cluster, own_id, (n - 1) as nat);
        if is_listed(cluster, own_id, n - 1) {
            before.push(entry_of(cluster, own_id, n - 1))
        } else {
            before
        }
    }
}

/// What the list says of all devices, in the cluster's order.
pub open spec fn entries(cluster: ClusterView, own_id: Seq<char>) -> Seq<EntryView> {
    entries_upto(cluster, own_id, cluster.device.len())
}

/// The order of the list: this computer first, then by name without regard to case.
pub open spec fn entry_le(a: EntryView, b: EntryView) -> bool {
    if (a.kind == "local"@) != (b.kind == "local"@) {
        a.kind == "local"@
    } else {
        text_le(lowercased(a.name), lowercased(b.name))
    }
}

/// `sorted` with `entry` put in behind the last one that is not after it.
pub open spec fn with_entry(sorted: Seq<EntryView>, entry: EntryView) -> Seq<EntryView>
    decreases sorted.len(),
{
    if sorted.len() == 0 || entry_le(sorted.last(), entry) {
        sorted.push(entry)
    } else {
        with_entry(sorted.drop_last(), entry).push(sorted.last())
    }
}

/// The entries in the order of the list; those that compare equal keep their order.
pub open spec fn in_list_order(found: Seq<EntryView>) -> Seq<EntryView>
    decreases found.len(),
{
    if found.len() == 0 {
        Seq::empty()
    } else {
        with_entry(in_list_order(found.drop_last()), found.last())
    }
}

/// The list of devices.
pub open spec fn device_list(cluster: ClusterView, own_id: Seq<char>) -> Seq<EntryView> {
    in_list_order(entries(cluster, own_id))
}

/// Whether the volume of every device in the list can be shown in percent.
pub open spec fn volumes_fit(cluster: ClusterView, own_id: Seq<char>) -> bool {
    forall|i: int|
        #![trigger cluster.device[i]]
        0 <= i < cluster.device.len() && is_listed(cluster, own_id, i) ==> volume_fits(
            cluster.device[i].1.volume,
        )
}

/// The first entry that is marked as playing.
pub open spec fn first_active(found: Seq<EntryView>) -> Option<EntryView>
    decreases found.len(),
{
    if found.len() == 0 {
        None
    } else if found.first().active {
        Some(found.first())
    } else {
        first_active(found.drop_first())
    }
}

/// Whether some device goes by the id `base`, an underscore and a suffix.
fn expanded(cluster: &DeviceCluster, base: &str) -> (found: bool)
    ensures
        found == is_expanded(cluster@, base@),
{
    let prefix = base.to_owned().concat("_");
    let mut i: usize = 0;
    while i < cluster.device.len()
        invariant
            i <= cluster.device@.len(),
            cluster@.device.len() == cluster.device@.len(),
            prefix@ == base@ + "_"@,
            forall|k: int| 0 <= k < i ==> !prefix@.is_prefix_of(#[trigger] cluster@.device[k].0),
        decreases cluster.device@.len() - i,
    {
        assert(cluster@.device[i as int].0 == cluster.device@[i as int].0@);
        if starts_with(cluster.device[i].0.as_str(), prefix.as_str()) {
            return true;
        }
        i += 1;
    }
    false
}

/// Whether the device at place `i` is in the list.
fn listed(cluster: &DeviceCluster, own_id: &str, i: usize) -> (found: bool)
    requires
        i < cluster.device@.len(),
    ensures
        found == is_listed(cluster@, own_id@, i as int),
{
    let entry = &cluster.device[i];
    assert(cluster@.device[i as int] == (entry.0@, entry.1@));
    if same_text(entry.0.as_str(), observer_id(own_id).as_str()) {
        return false;
    }
    entry.1.device_aliases.len() == 0 || !expanded(cluster, entry.0.as_str())
}

/// What the list says of the device at place `i`.
fn entry_at(cluster: &DeviceCluster, own_id: &str, i: usize) -> (entry: DeviceEntry)
    requires
        i < cluster.device@.len(),
        volume_fits(cluster.device@[i as int].1.volume),
    ensures
        entry@ == entry_of(cluster@, own_id@, i as int),
{
    let id = &cluster.device[i].0;
    let device = &cluster.device[i].1;
    assert(cluster@.device[i as int] == (id@, device@));
    let local = same_text(id.as_str(), own_id);
    DeviceEntry {
        id: id.clone(),
        name: if local {
            "This computer".to_owned()
        } else if device.device_aliases.len() > 0 {
            device.device_aliases[0].clone()
        } else {
            device.name.clone()
        },
        kind: if local {
            "local".to_owned()
        } else {
            type_label(device.device_type)
        },
        active: same_text(id.as_str(), cluster.active_device_id.as_str()),
        volume: percent_from_raw(device.volume),
    }
}

/// Whether the volume of every device in the list can be shown in percent.
pub fn check_volumes(cluster: &DeviceCluster, own_id: &str) -> (fit: bool)
    ensures
        fit == volumes_fit(cluster@, own_id@),
{
    let mut i: usize = 0;
    while i < cluster.device.len()
        invariant
            i <= cluster.device@.len(),
            cluster@.device.len() == cluster.device@.len(),
            forall|k: int|
                #![trigger cluster@.device[k]]
                0 <= k < i && is_listed(cluster@, own_id@, k) ==> volume_fits(
                    cluster@.device[k].1.volume,
                ),
        decreases cluster.device@.len() - i,
    {
        let volume: u32 = cluster.device[i].1.volume;
        assert(cluster@.device[i as int].1.volume == volume);
        if volume > u32::MAX / 100 && listed(cluster, own_id, i) {
            return false;
        }
        i += 1;
    }
    true
}

/// The place that `with_entry` picks.
proof fn lemma_with_entry(sorted: Seq<EntryView>, entry: EntryView, at: int)
    requires
        0 <= at <= sorted.len(),
        at == 0 || entry_le(sorted[at - 1], entry),
        forall|i: int| at <= i < sorted.len() ==> !entry_le(#[trigger] sorted[i], entry),
    ensures
        with_entry(sorted, entry) == sorted.insert(at, entry),
    decreases sorted.len(),
{
    if at == sorted.len() {
        assert(sorted.insert(at, entry) =~= sorted.push(entry));
    } else {
        assert(!entry_le(sorted[sorted.len() - 1], entry));
        lemma_with_entry(sorted.drop_last(), entry, at);
        assert(sorted.drop_last().insert(at, entry).push(sorted.last()) =~= sorted.insert(
            at,
            entry,
        ));
    }
}

/// Whether `a`, with its name in lower case, is not after `b`, with its name in lower case.
fn not_after(a: &DeviceEntry, a_key: &str, b: &DeviceEntry, b_key: &str) -> (ordered: bool)
    requires
        a_key@ == lowercased(a.name@),
        b_key@ == lowercased(b.name@),
    ensures
        ordered == entry_le(a@, b@),
{
    let a_local = same_text(a.kind.as_str(), "local");
    let b_local = same_text(b.kind.as_str(), "local");
    if a_local != b_local {
        a_local
    } else {
        in_order(a_key, b_key)
    }
}

/// The models of a list.
pub open spec fn entry_views(found: Seq<DeviceEntry>) -> Seq<EntryView> {
    found.map_values(|entry: DeviceEntry| entry@)
}

/// The list of devices.
pub fn devices(cluster: &DeviceCluster, own_id: &str) -> (found: Vec<DeviceEntry>)
    requires
        volumes_fit(cluster@, own_id@),
    ensures
        entry_views(found@) == device_list(cluster@, own_id@),
{
    let mut found: Vec<DeviceEntry> = Vec::new();
    let mut keys: Vec<String> = Vec::new();
    let mut i: usize = 0;
    assert(entry_views(found@) =~= in_list_order(entries_upto(cluster@, own_id@, 0)));
    while i < cluster.device.len()
        invariant
            i <= cluster.device@.len(),
            cluster@.device.len() == cluster.device@.len(),
            volumes_fit(cluster@, own_id@),
            keys@.len() == found@.len(),
            forall|k: int|
                0 <= k < keys@.len() ==> (#[trigger] keys@[k])@ == lowercased(found@[k].name@),
            entry_views(found@) == in_list_order(entries_upto(cluster@, own_id@, i as nat)),
        decreases cluster.device@.len() - i,
    {
        assert(cluster@.device[i as int].1.volume == cluster.device@[i as int].1.volume);
        if listed(cluster, own_id, i) {
            let entry = entry_at(cluster, own_id, i);
            let key = to_lowercase(entry.name.as_str());
            let mut at: usize = found.len();
            while at > 0 && !not_after(&found[at - 1], keys[at - 1].as_str(), &entry, key.as_str())
                invariant
                    at <= found@.len(),
                    keys@.len() == found@.len(),
                    key@ == lowercased(entry.name@),
                    forall|k: int|
                        0 <= k < keys@.len() ==> (#[trigger] keys@[k])@ == lowercased(
                            found@[k].name@,
                        ),
                    forall|k: int|
                        at <= k < found@.len() ==> !entry_le(#[trigger] found@[k]@, entry@),
                decreases at,
            {
                at -= 1;
            }
            let ghost before = entry_views(found@);
            proof {
                assert forall|k: int| at <= k < before.len() implies !entry_le(
                    #[trigger] before[k],
                    entry@,
                ) by {
                    assert(before[k] == found@[k]@);
                }
                lemma_with_entry(before, entry@, at as int);
                let upto = entries_upto(cluster@, own_id@, (i + 1) as nat);
                assert(upto.drop_last() =~= entries_upto(cluster@, own_id@, i as nat));
                assert(upto.last() == entry@);
            }
            let ghost entry_view = entry@;
            found.insert(at, entry);
            keys.insert(at, key);
            assert(entry_views(found@) =~= before.insert(at as int, entry_view));
        }
        i += 1;
    }
    found
}

/// What is reported of a device in the list.
pub open spec fn entry_json(entry: EntryView) -> Json {
    Json::Record(
        map![
            "id"@ => Json::Text(entry.id),
            "name"@ => Json::Text(entry.name),
            "type"@ => Json::Text(entry.kind),
            "active"@ => Json::Bool(entry.active),
            "volume"@ => Json::Number(entry.volume as u64),
        ],
    )
}

/// What is reported of a list of devices.
pub open spec fn list_json(found: Seq<EntryView>) -> Json {
    Json::List(found.map_values(|entry: EntryView| entry_json(entry)))
}

/// What is reported of the device that plays.
pub open spec fn active_json(active: Option<EntryView>) -> Json {
    Json::Record(
        map![
            "activeDevice"@ => match active {
                Some(entry) => Json::Record(
                    map![
                        "id"@ => Json::Text(entry.id),
                        "name"@ => Json::Text(entry.name),
                        "volume"@ => Json::Number(entry.volume as u64),
                    ],
                ),
                None => Json::Null,
            },
        ],
    )
}

/// Reports are messages of the protocol.
pub proof fn lemma_reports_are_messages(found: Seq<EntryView>, active: Option<EntryView>)
    ensures
        is_message(list_json(found)),
        is_message(active_json(active)),
{
    reveal_with_fuel(nests, 4);
    let items = list_json(found)->List_0;
    assert forall|i: int| 0 <= i < items.len() implies nests(#[trigger] items[i], 1) by {
        assert(items[i] == entry_json(found[i]));
    }
}

/// What is reported of a device in the list.
fn entry_value(entry: &DeviceEntry) -> (value: serde_json::Value)
    ensures
        json_of(value) == entry_json(entry@),
{
    let mut value = null();
    set_field(&mut value, "id", string(entry.id.as_str()));
    set_field(&mut value, "name", string(entry.name.as_str()));
    set_field(&mut value, "type", string(entry.kind.as_str()));
    set_field(&mut value, "active", boolean(entry.active));
    set_field(&mut value, "volume", number(entry.volume as u64));
    value
}

/// The list of devices as it is reported.
pub fn devices_json(cluster: &DeviceCluster, own_id: &str) -> (value: serde_json::Value)
    requires
        volumes_fit(cluster@, own_id@),
    ensures
        json_of(value) == list_json(device_list(cluster@, own_id@)),
        is_message(json_of(value)),
{
    let found = devices(cluster, own_id);
    let mut items: Vec<serde_json::Value> = Vec::new();
    let mut i: usize = 0;
    while i < found.len()
        invariant
            i <= found@.len(),
            items@.len() == i,
            forall|k: int| 0 <= k < i ==> json_of(#[trigger] items@[k]) == entry_json(found@[k]@),
        decreases found@.len() - i,
    {
        items.push(entry_value(&found[i]));
        i += 1;
    }
    proof {
        assert(items@.map_values(|item: serde_json::Value| json_of(item)) =~= entry_views(
            found@,
        ).map_values(|entry: EntryView| entry_json(entry)));
        lemma_reports_are_messages(device_list(cluster@, own_id@), None);
    }
    list(items)
}

/// The device that plays as it is reported.
pub fn status_json(cluster: &DeviceCluster, own_id: &str) -> (value: serde_json::Value)
    requires
        volumes_fit(cluster@, own_id@),
    ensures
        json_of(value) == active_json(first_active(device_list(cluster@, own_id@))),
        is_message(json_of(value)),
{
    let found = devices(cluster, own_id);
    let ghost views = entry_views(found@);
    let mut active = null();
    let mut i: usize = 0;
    assert(views.skip(0) =~= views);
    while i < found.len() && !found[i].active
        invariant
            i <= found@.len(),
            views == entry_views(found@),
            first_active(views) == first_active(views.skip(i as int)),
        decreases found@.len() - i,
    {
        assert(views.skip(i as int).drop_first() =~= views.skip(i + 1));
        i += 1;
    }
    if i < found.len() {
        set_field(&mut active, "id", string(found[i].id.as_str()));
        set_field(&mut active, "name", string(found[i].name.as_str()));
        set_field(&mut active, "volume", number(found[i].volume as u64));
    }
    let mut value = null();
    set_field(&mut value, "activeDevice", active);
    proof {
        lemma_reports_are_messages(views, first_active(views));
    }
    value
}

} // verus!
