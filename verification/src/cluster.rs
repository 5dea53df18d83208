//! The devices of an account, and which of them plays.

use vstd::prelude::*;

use crate::text::same_text;
use crate::volume::{raw_from_percent, raw_volume};

verus! {

/// A device as Spotify reports it.
pub struct DeviceInfo {
    pub name: String,
    /// The number of a device type in Spotify's protocol.
    pub device_type: i32,
    /// The volume on Spotify's scale.
    pub volume: u32,
    /// The display names of the aliases that the device stands for.
    pub device_aliases: Vec<String>,
}

/// The devices of an account with their ids, and the id of the one that plays.
///
/// The devices stand in the order in which they were handed over, which carries no meaning.
pub struct DeviceCluster {
    pub device: Vec<(String, DeviceInfo)>,
    /// Empty where none plays.
    pub active_device_id: String,
}

/// The model of a [`DeviceInfo`].
#[verifier::ext_equal]
pub struct DeviceView {
    pub name: Seq<char>,
    pub device_type: i32,
    pub volume: u32,
    pub device_aliases: Seq<Seq<char>>,
}

/// The model of a [`DeviceCluster`].
#[verifier::ext_equal]
pub struct ClusterView {
    pub device: Seq<(Seq<char>, DeviceView)>,
    pub active_device_id: Seq<char>,
}

impl View for DeviceInfo {
    type V = DeviceView;

    open spec fn view(&self) -> DeviceView {
        DeviceView {
            name: self.name@,
            device_type: self.device_type,
            volume: self.volume,
            device_aliases: self.device_aliases@.map_values(|alias: String| alias@),
        }
    }
}

impl View for DeviceCluster {
    type V = ClusterView;

    open spec fn view(&self) -> ClusterView {
        ClusterView {
            device: self.device@.map_values(|entry: (String, DeviceInfo)| (entry.0@, entry.1@)),
            active_device_id: self.active_device_id@,
        }
    }
}

impl ClusterView {
    /// No id occurs twice.
    pub open spec fn wf(self) -> bool {
        forall|i: int, j: int|
            0 <= i < j < self.device.len() ==> #[trigger] self.device[i].0
                != #[trigger] self.device[j].0
    }

    /// Whether there is a device with this id.
    pub open spec fn has(self, id: Seq<char>) -> bool {
        exists|i: int| 0 <= i < self.device.len() && #[trigger] self.device[i].0 == id
    }

    /// The place of the first device with this id, counted from `from`.
    pub open spec fn place_from(self, id: Seq<char>, from: int) -> int
        decreases self.device.len() - from,
    {
        if from >= self.device.len() || self.device[from].0 == id {
            from
        } else {
            self.place_from(id, from + 1)
        }
    }

    /// The place of the first device with this id; the number of devices where there is none.
    pub open spec fn place(self, id: Seq<char>) -> int {
        self.place_from(id, 0)
    }

    /// The same cluster with another device playing.
    pub open spec fn with_active(self, id: Seq<char>) -> ClusterView {
        ClusterView { active_device_id: id, ..self }
    }

    /// The same cluster with another volume for the device `id`, if there is one.
    pub open spec fn with_volume(self, id: Seq<char>, volume: u32) -> ClusterView {
        let at = self.place(id);
        if at < self.device.len() {
            ClusterView {
                device: self.device.update(
                    at,
                    (self.device[at].0, DeviceView { volume, ..self.device[at].1 }),
                ),
                ..self
            }
        } else {
            self
        }
    }

    /// The same cluster with `info` as the device `id`, in the place of one with that id.
    pub open spec fn with_device(self, id: Seq<char>, info: DeviceView) -> ClusterView {
        let at = self.place(id);
        if at < self.device.len() {
            ClusterView { device: self.device.update(at, (self.device[at].0, info)), ..self }
        } else {
            ClusterView { device: self.device.push((id, info)), ..self }
        }
    }
}

/// `place` finds the first device with the id.
pub proof fn lemma_place(cluster: ClusterView, id: Seq<char>)
    ensures
        0 <= cluster.place(id) <= cluster.device.len(),
        cluster.place(id) < cluster.device.len() <==> cluster.has(id),
        cluster.place(id) < cluster.device.len() ==> cluster.device[cluster.place(id)].0 == id,
        forall|i: int| 0 <= i < cluster.place(id) ==> #[trigger] cluster.device[i].0 != id,
{
    lemma_place_from(cluster, id, 0);
}

proof fn lemma_place_from(cluster: ClusterView, id: Seq<char>, from: int)
    requires
        0 <= from <= cluster.device.len(),
        forall|i: int| 0 <= i < from ==> #[trigger] cluster.device[i].0 != id,
    ensures
        from <= cluster.place_from(id, from) <= cluster.device.len(),
        cluster.place_from(id, from) < cluster.device.len() <==> cluster.has(id),
        cluster.place_from(id, from) < cluster.device.len()
            ==> cluster.device[cluster.place_from(id, from)].0 == id,
        forall|i: int|
            0 <= i < cluster.place_from(id, from) ==> #[trigger] cluster.device[i].0 != id,
    decreases cluster.device.len() - from,
{
    if from < cluster.device.len() && cluster.device[from].0 != id {
        lemma_place_from(cluster, id, from + 1);
    }
}

/// Where ids are distinct, `place` gives the only device with the id.
pub proof fn lemma_place_unique(cluster: ClusterView, i: int)
    requires
        cluster.wf(),
        0 <= i < cluster.device.len(),
    ensures
        cluster.place(cluster.device[i].0) == i,
{
    lemma_place(cluster, cluster.device[i].0);
}

/// Changing who plays, a volume or a device keeps ids distinct.
pub proof fn lemma_changes_keep_wf(
    cluster: ClusterView,
    id: Seq<char>,
    volume: u32,
    info: DeviceView,
)
    requires
        cluster.wf(),
    ensures
        cluster.with_active(id).wf(),
        cluster.with_volume(id, volume).wf(),
        cluster.with_device(id, info).wf(),
{
    lemma_place(cluster, id);
}

/// A device that was put in is found under its id; the devices of other ids are as before.
pub proof fn lemma_with_device(cluster: ClusterView, id: Seq<char>, info: DeviceView)
    ensures
        cluster.with_device(id, info).has(id),
        cluster.with_device(id, info).device[cluster.with_device(id, info).place(id)].1 == info,
        forall|i: int|
            0 <= i < cluster.device.len() && #[trigger] cluster.device[i].0 != id
                ==> cluster.with_device(id, info).device[i] == cluster.device[i],
{
    let after = cluster.with_device(id, info);
    lemma_place(cluster, id);
    lemma_place(after, id);
    let at = cluster.place(id);
    assert(after.device[at].0 == id);
    assert forall|i: int| 0 <= i < at implies #[trigger] after.device[i].0 != id by {
        assert(after.device[i].0 == cluster.device[i].0);
    }
}

impl DeviceCluster {
    /// No devices, and none that plays.
    pub fn new() -> (cluster: DeviceCluster)
        ensures
            cluster@ == (ClusterView { device: Seq::empty(), active_device_id: Seq::empty() }),
            cluster@.wf(),
    {
        let cluster = DeviceCluster { device: Vec::new(), active_device_id: String::new() };
        assert(cluster@.device =~= Seq::empty());
        cluster
    }

    /// The place of the first device with this id.
    pub fn find(&self, id: &str) -> (place: Option<usize>)
        ensures
            match place {
                Some(at) => self@.has(id@) && at == self@.place(id@) && at < self@.device.len(),
                None => !self@.has(id@),
            },
    {
        let mut i: usize = 0;
        proof {
            lemma_place(self@, id@);
        }
        while i < self.device.len()
            invariant
                i <= self@.device.len(),
                self@.device.len() == self.device@.len(),
                i <= self@.place(id@),
                0 <= self@.place(id@) <= self@.device.len(),
                self@.place(id@) < self@.device.len() <==> self@.has(id@),
                self@.place(id@) < self@.device.len() ==> self@.device[self@.place(id@)].0 == id@,
                forall|k: int| 0 <= k < self@.place(id@) ==> #[trigger] self@.device[k].0 != id@,
            decreases self.device@.len() - i,
        {
            assert(self@.device[i as int].0 == self.device@[i as int].0@);
            if same_text(self.device[i].0.as_str(), id) {
                return Some(i);
            }
            i += 1;
        }
        None
    }

    /// Whether there is a device with this id.
    pub fn contains(&self, id: &str) -> (found: bool)
        ensures
            found == self@.has(id@),
    {
        self.find(id).is_some()
    }

    /// Puts in a device, in the place of one with the same id.
    pub fn insert(&mut self, id: &str, info: DeviceInfo)
        ensures
            final(self)@ == old(self)@.with_device(id@, info@),
            old(self)@.wf() ==> final(self)@.wf(),
    {
        proof {
            lemma_place(self@, id@);
            if self@.wf() {
                lemma_changes_keep_wf(self@, id@, 0, info@);
            }
        }
        let ghost before = self@;
        match self.find(id) {
            Some(at) => {
                self.device[at].1 = info;
                assert(self@.device =~= before.with_device(id@, info@).device);
            },
            None => {
                self.device.push((id.to_owned(), info));
                assert(self@.device =~= before.with_device(id@, info@).device);
            },
        }
    }

    /// Makes `id` the device that plays.
    pub fn set_active(&mut self, id: &str)
        ensures
            final(self)@ == old(self)@.with_active(id@),
            old(self)@.wf() ==> final(self)@.wf(),
    {
        proof {
            if self@.wf() {
                lemma_changes_keep_wf(self@, id@, 0, arbitrary());
            }
        }
        self.active_device_id = id.to_owned();
    }

    /// Sets the volume of the device `id`. Without such a device nothing changes.
    pub fn set_volume(&mut self, id: &str, volume: u32) -> (found: bool)
        ensures
            found == old(self)@.has(id@),
            final(self)@ == old(self)@.with_volume(id@, volume),
            old(self)@.wf() ==> final(self)@.wf(),
    {
        proof {
            lemma_place(self@, id@);
            if self@.wf() {
                lemma_changes_keep_wf(self@, id@, volume, arbitrary());
            }
        }
        let ghost before = self@;
        match self.find(id) {
            Some(at) => {
                self.device[at].1.volume = volume;
                assert(self@.device =~= before.with_volume(id@, volume).device);
                true
            },
            None => false,
        }
    }
}

/// A device without aliases.
pub open spec fn plain_device(name: Seq<char>, device_type: i32, percent: int) -> DeviceView {
    DeviceView {
        name,
        device_type,
        volume: raw_volume(percent) as u32,
        device_aliases: Seq::empty(),
    }
}

/// The number of computers in Spotify's protocol.
pub const COMPUTER: i32 = 1;

/// The number of speakers in Spotify's protocol.
pub const SPEAKER: i32 = 4;

/// A canned cluster: this computer and four speakers, of which the one in the living room plays.
pub open spec fn mock_view(own_id: Seq<char>) -> ClusterView {
    ClusterView { device: Seq::empty(), active_device_id: Seq::empty() }.with_device(
        own_id,
        plain_device("Omarchy"@, COMPUTER, 40),
    ).with_device("mock-kitchen"@, plain_device("Kitchen"@, SPEAKER, 35)).with_device(
        "mock-living-room"@,
        plain_device("Living Room"@, SPEAKER, 55),
    ).with_device("mock-bedroom"@, plain_device("Bedroom Speaker"@, SPEAKER, 20)).with_device(
        "mock-office"@,
        plain_device("Office"@, SPEAKER, 45),
    ).with_active("mock-living-room"@)
}

fn new_device(name: &str, device_type: i32, percent: u64) -> (info: DeviceInfo)
    requires
        percent <= 100,
    ensures
        info@ == plain_device(name@, device_type, percent as int),
{
    let info = DeviceInfo {
        name: name.to_owned(),
        device_type,
        volume: raw_from_percent(percent) as u32,
        device_aliases: Vec::new(),
    };
    assert(info@.device_aliases =~= Seq::empty());
    info
}

/// The canned cluster has distinct ids.
pub proof fn lemma_mock_wf(own_id: Seq<char>)
    ensures
        mock_view(own_id).wf(),
{
    let empty = ClusterView { device: Seq::empty(), active_device_id: Seq::empty() };
    let own = plain_device("Omarchy"@, COMPUTER, 40);
    let kitchen = plain_device("Kitchen"@, SPEAKER, 35);
    let living = plain_device("Living Room"@, SPEAKER, 55);
    let bedroom = plain_device("Bedroom Speaker"@, SPEAKER, 20);
    let office = plain_device("Office"@, SPEAKER, 45);
    lemma_changes_keep_wf(empty, own_id, 0, own);
    let one = empty.with_device(own_id, own);
    lemma_changes_keep_wf(one, "mock-kitchen"@, 0, kitchen);
    let two = one.with_device("mock-kitchen"@, kitchen);
    lemma_changes_keep_wf(two, "mock-living-room"@, 0, living);
    let three = two.with_device("mock-living-room"@, living);
    lemma_changes_keep_wf(three, "mock-bedroom"@, 0, bedroom);
    let four = three.with_device("mock-bedroom"@, bedroom);
    lemma_changes_keep_wf(four, "mock-office"@, 0, office);
    let five = four.with_device("mock-office"@, office);
    lemma_changes_keep_wf(five, "mock-living-room"@, 0, arbitrary());
}

/// Where this computer goes by an id of its own, the canned cluster has five devices.
pub proof fn lemma_mock_devices(own_id: Seq<char>)
    requires
        own_id != "mock-kitchen"@,
        own_id != "mock-living-room"@,
        own_id != "mock-bedroom"@,
        own_id != "mock-office"@,
    ensures
        mock_view(own_id).device == seq![
            (own_id, plain_device("Omarchy"@, COMPUTER, 40)),
            ("mock-kitchen"@, plain_device("Kitchen"@, SPEAKER, 35)),
            ("mock-living-room"@, plain_device("Living Room"@, SPEAKER, 55)),
            ("mock-bedroom"@, plain_device("Bedroom Speaker"@, SPEAKER, 20)),
            ("mock-office"@, plain_device("Office"@, SPEAKER, 45)),
        ],
{
    reveal_strlit("mock-kitchen");
    reveal_strlit("mock-living-room");
    reveal_strlit("mock-bedroom");
    reveal_strlit("mock-office");
    assert("mock-kitchen"@[5] == 'k');
    assert("mock-living-room"@[5] == 'l');
    assert("mock-bedroom"@[5] == 'b');
    assert("mock-office"@[5] == 'o');
    reveal_with_fuel(ClusterView::place_from, 6);
    let empty = ClusterView { device: Seq::empty(), active_device_id: Seq::empty() };
    let own = plain_device("Omarchy"@, COMPUTER, 40);
    let kitchen = plain_device("Kitchen"@, SPEAKER, 35);
    let living = plain_device("Living Room"@, SPEAKER, 55);
    let bedroom = plain_device("Bedroom Speaker"@, SPEAKER, 20);
    let office = plain_device("Office"@, SPEAKER, 45);
    let one = empty.with_device(own_id, own);
    assert(one.device =~= seq![(own_id, own)]);
    let two = one.with_device("mock-kitchen"@, kitchen);
    assert(two.device =~= one.device.push(("mock-kitchen"@, kitchen)));
    let three = two.with_device("mock-living-room"@, living);
    assert(three.device =~= two.device.push(("mock-living-room"@, living)));
    let four = three.with_device("mock-bedroom"@, bedroom);
    assert(four.device =~= three.device.push(("mock-bedroom"@, bedroom)));
    let five = four.with_device("mock-office"@, office);
    assert(five.device =~= four.device.push(("mock-office"@, office)));
    assert(mock_view(own_id).device == five.device);
}

/// A canned cluster for screenshots, which needs no account.
pub fn mock_cluster(own_id: &str) -> (cluster: DeviceCluster)
    ensures
        cluster@ == mock_view(own_id@),
        cluster@.wf(),
{
    let mut cluster = DeviceCluster::new();
    cluster.insert(own_id, new_device("Omarchy", COMPUTER, 40));
    cluster.insert("mock-kitchen", new_device("Kitchen", SPEAKER, 35));
    cluster.insert("mock-living-room", new_device("Living Room", SPEAKER, 55));
    cluster.insert("mock-bedroom", new_device("Bedroom Speaker", SPEAKER, 20));
    cluster.insert("mock-office", new_device("Office", SPEAKER, 45));
    cluster.set_active("mock-living-room");
    cluster
}

} // verus!
