//! Spotify's protocol messages: what is read from them and what is written into them.

use vstd::multiset::Multiset;
use vstd::prelude::*;

use librespot_protocol::connect::{Capabilities, Device, PutStateRequest};
use librespot_protocol::devices::DeviceType;
use protobuf::{EnumOrUnknown, Message, MessageField};

use crate::cluster::{ClusterView, DeviceCluster, DeviceInfo, DeviceView};
use crate::text::{ascii_lowercased, is_ascii_text, to_lowercase};

verus! {

/// The protocol's name of a device type. A number without a name counts as `UNKNOWN`.
pub open spec fn device_type_name(value: i32) -> Seq<char> {
    if value == 1 {
        "COMPUTER"@
    } else if value == 2 {
        "TABLET"@
    } else if value == 3 {
        "SMARTPHONE"@
    } else if value == 4 {
        "SPEAKER"@
    } else if value == 5 {
        "TV"@
    } else if value == 6 {
        "AVR"@
    } else if value == 7 {
        "STB"@
    } else if value == 8 {
        "AUDIO_DONGLE"@
    } else if value == 9 {
        "GAME_CONSOLE"@
    } else if value == 10 {
        "CAST_VIDEO"@
    } else if value == 11 {
        "CAST_AUDIO"@
    } else if value == 12 {
        "AUTOMOBILE"@
    } else if value == 13 {
        "SMARTWATCH"@
    } else if value == 14 {
        "CHROMEBOOK"@
    } else if value == 100 {
        "UNKNOWN_SPOTIFY"@
    } else if value == 101 {
        "CAR_THING"@
    } else if value == 102 {
        "OBSERVER"@
    } else if value == 103 {
        "HOME_THING"@
    } else {
        "UNKNOWN"@
    }
}

/// The name under which a device type is reported.
pub open spec fn device_type_label(value: i32) -> Seq<char> {
    ascii_lowercased(device_type_name(value))
}

/// The names are in ASCII, and no device type is reported as `local`.
pub proof fn lemma_device_type_label(value: i32)
    ensures
        is_ascii_text(device_type_name(value)),
        device_type_label(value) != "local"@,
{
    reveal_strlit("COMPUTER");
    reveal_strlit("TABLET");
    reveal_strlit("SMARTPHONE");
    reveal_strlit("SPEAKER");
    reveal_strlit("TV");
    reveal_strlit("AVR");
    reveal_strlit("STB");
    reveal_strlit("AUDIO_DONGLE");
    reveal_strlit("GAME_CONSOLE");
    reveal_strlit("CAST_VIDEO");
    reveal_strlit("CAST_AUDIO");
    reveal_strlit("AUTOMOBILE");
    reveal_strlit("SMARTWATCH");
    reveal_strlit("CHROMEBOOK");
    reveal_strlit("UNKNOWN_SPOTIFY");
    reveal_strlit("CAR_THING");
    reveal_strlit("OBSERVER");
    reveal_strlit("HOME_THING");
    reveal_strlit("UNKNOWN");
    reveal_strlit("local");
    assert(device_type_label(value).len() == device_type_name(value).len());
}

/// The `Debug` form of `librespot_protocol::devices::DeviceType`, which is the variant's name, for
/// the variant that `protobuf::EnumOrUnknown::enum_value_or_default` picks: the one with this
/// number, and the first one, `UNKNOWN`, where there is none.
#[verifier::external_body]
fn variant_name(value: i32) -> (name: String)
    ensures
        name@ == device_type_name(value),
{
    format!("{:?}", EnumOrUnknown::<DeviceType>::from_i32(value).enum_value_or_default())
}

/// The name under which a device type is reported.
pub fn type_label(value: i32) -> (label: String)
    ensures
        label@ == device_type_label(value),
{
    proof {
        lemma_device_type_label(value);
    }
    to_lowercase(variant_name(value).as_str())
}

/// What a cluster message says of a device. Its aliases come in no order.
#[verifier::ext_equal]
pub struct DeviceContents {
    pub name: Seq<char>,
    pub device_type: i32,
    pub volume: u32,
    pub device_aliases: Multiset<Seq<char>>,
}

/// What a cluster message says. Its devices come in no order.
#[verifier::ext_equal]
pub struct ClusterContents {
    pub device: Map<Seq<char>, DeviceContents>,
    pub active_device_id: Seq<char>,
}

/// What is left of a device when the order of its aliases is forgotten.
pub open spec fn device_contents(device: DeviceView) -> DeviceContents {
    DeviceContents {
        name: device.name,
        device_type: device.device_type,
        volume: device.volume,
        device_aliases: device.device_aliases.to_multiset(),
    }
}

/// What is left of a cluster when the order of its devices and of their aliases is forgotten.
pub open spec fn cluster_contents(cluster: ClusterView) -> ClusterContents {
    ClusterContents {
        device: Map::new(
            |id: Seq<char>| cluster.has(id),
            |id: Seq<char>| device_contents(cluster.device[cluster.place(id)].1),
        ),
        active_device_id: cluster.active_device_id,
    }
}

/// The cluster message of `librespot_protocol`, known through [`message_contents`] only.
#[verifier::external_type_specification]
#[verifier::external_body]
pub struct ExClusterMessage(librespot_protocol::connect::Cluster);

/// What a cluster message holds in the fields that are of use here.
pub uninterp spec fn message_contents(
    message: librespot_protocol::connect::Cluster,
) -> ClusterContents;

/// What `parse_from_bytes` of the cluster message reads from `bytes`: what the message holds, or
/// the text of the error.
pub uninterp spec fn cluster_decoded(bytes: Seq<u8>) -> Result<ClusterContents, Seq<char>>;

/// The fields of the generated struct `librespot_protocol::connect::Cluster`. Its maps `device` and
/// `device_aliases` are hash maps, so ids are distinct, and the order in which entries come out is
/// left open.
#[verifier::external_body]
fn take_apart(message: librespot_protocol::connect::Cluster) -> (cluster: DeviceCluster)
    ensures
        cluster@.wf(),
        cluster_contents(cluster@) == message_contents(message),
{
    let device = message.device.into_iter().map(|(id, d)| (id, DeviceInfo {
        name: d.name,
        device_type: d.device_type.value(),
        volume: d.volume,
        device_aliases: d.device_aliases.into_values().map(|a| a.display_name).collect(),
    }));
    DeviceCluster { device: device.collect(), active_device_id: message.active_device_id }
}

/// `protobuf::Message::parse_from_bytes` of the cluster message, and the `Display` form of its
/// error. What it reads is named, not described.
#[verifier::external_body]
fn decode(bytes: &[u8]) -> (message: Result<librespot_protocol::connect::Cluster, String>)
    ensures
        match message {
            Ok(read) => cluster_decoded(bytes@) == Ok::<ClusterContents, Seq<char>>(
                message_contents(read),
            ),
            Err(text) => cluster_decoded(bytes@) == Err::<ClusterContents, Seq<char>>(text@),
        },
{
    librespot_protocol::connect::Cluster::parse_from_bytes(bytes).map_err(|e| e.to_string())
}

impl DeviceCluster {
    /// The cluster that a message describes.
    pub fn from_message(message: librespot_protocol::connect::Cluster) -> (cluster: DeviceCluster)
        ensures
            cluster@.wf(),
            cluster_contents(cluster@) == message_contents(message),
    {
        take_apart(message)
    }
}

/// The cluster in the reply to an announcement, or the text of the error.
pub fn read_cluster(reply: &[u8]) -> (cluster: Result<DeviceCluster, String>)
    ensures
        match cluster {
            Ok(read) => read@.wf() && cluster_decoded(reply@) == Ok::<ClusterContents, Seq<char>>(
                cluster_contents(read@),
            ),
            Err(text) => cluster_decoded(reply@) == Err::<ClusterContents, Seq<char>>(text@),
        },
{
    match decode(reply) {
        Ok(message) => Ok(DeviceCluster::from_message(message)),
        Err(text) => Err(text),
    }
}

/// A device that introduces itself to the account.
pub struct Announcement {
    pub device_id: String,
    pub name: String,
    pub client_id: String,
    /// The number of a member type in Spotify's protocol.
    pub member_type: i32,
    /// The number of a reason in Spotify's protocol.
    pub put_state_reason: i32,
    pub hidden: bool,
    pub is_observable: bool,
}

/// The model of an [`Announcement`].
#[verifier::ext_equal]
pub struct AnnouncementView {
    pub device_id: Seq<char>,
    pub name: Seq<char>,
    pub client_id: Seq<char>,
    pub member_type: i32,
    pub put_state_reason: i32,
    pub hidden: bool,
    pub is_observable: bool,
}

impl View for Announcement {
    type V = AnnouncementView;

    open spec fn view(&self) -> AnnouncementView {
        AnnouncementView {
            device_id: self.device_id@,
            name: self.name@,
            client_id: self.client_id@,
            member_type: self.member_type,
            put_state_reason: self.put_state_reason,
            hidden: self.hidden,
            is_observable: self.is_observable,
        }
    }
}

/// The bytes of the `PutStateRequest` with the fields of the announcement and defaults in all
/// others, as `write_to_bytes` gives them, or the text of its error.
pub uninterp spec fn announcement_encoded(
    announcement: AnnouncementView,
) -> Result<Seq<u8>, Seq<char>>;

/// `protobuf::Message::write_to_bytes` of a `librespot_protocol::connect::PutStateRequest`, and the
/// `Display` form of its error. The bytes are named, not described.
#[verifier::external_body]
pub(crate) fn encode(announcement: &Announcement) -> (bytes: Result<Vec<u8>, String>)
    ensures
        match bytes {
            Ok(written) => announcement_encoded(announcement@) == Ok::<Seq<u8>, Seq<char>>(
                written@,
            ),
            Err(text) => announcement_encoded(announcement@) == Err::<Seq<u8>, Seq<char>>(text@),
        },
{
    let mut info = librespot_protocol::connect::DeviceInfo::new();
    info.device_id = announcement.device_id.clone();
    info.name = announcement.name.clone();
    info.client_id = announcement.client_id.clone();
    let (hidden, is_observable) = (announcement.hidden, announcement.is_observable);
    let capabilities = Capabilities { hidden, is_observable, ..Default::default() };
    info.capabilities = MessageField::some(capabilities);
    let device = Device { device_info: MessageField::some(info), ..Default::default() };
    let mut request = PutStateRequest::new();
    request.device = MessageField::some(device);
    request.member_type = EnumOrUnknown::from_i32(announcement.member_type);
    request.put_state_reason = EnumOrUnknown::from_i32(announcement.put_state_reason);
    request.write_to_bytes().map_err(|e| e.to_string())
}

} // verus!
