//! Requests to the daemon and the answers to them.

use vstd::prelude::*;
use vstd::utf8::encode_utf8;

use crate::cluster::{lemma_place, ClusterView, DeviceCluster};
use crate::devices::{
    active_json, check_volumes, device_list, devices_json, first_active, list_json, status_json,
    volumes_fit,
};
use crate::json::{
    as_number, as_text, boolean, field, field_of, is_message, json_of, json_parsed, json_text,
    nests, null, number, number_of, parse, render, set_field, string, text_of, Json,
};
use crate::put::{json_request, put_json, PutRequest, PutRequestView};
use crate::text::{same_text, trimmed};
use crate::volume::{raw_from_percent, raw_volume, FULL_VOLUME};

verus! {

/// What the daemon knows. `S` is a connection to Spotify.
pub struct Shared<S> {
    pub authenticated: bool,
    pub own_id: String,
    pub cluster: Option<DeviceCluster>,
    pub session: Option<S>,
}

/// The model of a [`Shared`].
#[verifier::ext_equal]
pub struct SharedView<S> {
    pub authenticated: bool,
    pub own_id: Seq<char>,
    pub cluster: Option<ClusterView>,
    pub session: Option<S>,
}

impl<S> View for Shared<S> {
    type V = SharedView<S>;

    open spec fn view(&self) -> SharedView<S> {
        SharedView {
            authenticated: self.authenticated,
            own_id: self.own_id@,
            cluster: match self.cluster {
                Some(cluster) => Some(cluster@),
                None => None,
            },
            session: self.session,
        }
    }
}

impl<S> SharedView<S> {
    /// Where a cluster is known its ids are distinct.
    pub open spec fn wf(self) -> bool {
        self.cluster matches Some(cluster) ==> cluster.wf()
    }

    /// The same with another cluster.
    pub open spec fn with_cluster(self, cluster: ClusterView) -> SharedView<S> {
        SharedView { cluster: Some(cluster), ..self }
    }
}

/// A request to the daemon.
pub struct Request {
    pub cmd: String,
    pub id: Option<String>,
    pub value: Option<u64>,
}

/// The model of a [`Request`].
#[verifier::ext_equal]
pub struct RequestView {
    pub cmd: Seq<char>,
    pub id: Option<Seq<char>>,
    pub value: Option<u64>,
}

impl View for Request {
    type V = RequestView;

    open spec fn view(&self) -> RequestView {
        RequestView {
            cmd: self.cmd@,
            id: match self.id {
                Some(id) => Some(id@),
                None => None,
            },
            value: self.value,
        }
    }
}

impl RequestView {
    /// The volume that is asked for, if there is one and it is a percentage.
    pub open spec fn percent(self) -> Option<u64> {
        match self.value {
            Some(value) if value <= 100 => Some(value),
            _ => None,
        }
    }
}

/// The request that a JSON value makes. A field that is missing or of another type counts for
/// nothing, and text that is no JSON counts as null.
pub open spec fn request_of(parsed: Option<Json>) -> RequestView {
    let json = match parsed {
        Some(json) => json,
        None => Json::Null,
    };
    RequestView {
        cmd: match text_of(field_of(json, "cmd"@)) {
            Some(cmd) => cmd,
            None => Seq::empty(),
        },
        id: text_of(field_of(json, "id"@)),
        value: number_of(field_of(json, "value"@)),
    }
}

/// A change of volume that Spotify has to carry out.
pub struct VolumeChange {
    /// The id of the device.
    pub device: String,
    pub percent: u64,
    /// The volume on Spotify's scale.
    pub raw: u32,
    pub request: PutRequest,
}

/// The model of a [`VolumeChange`].
#[verifier::ext_equal]
pub struct VolumeChangeView {
    pub device: Seq<char>,
    pub percent: u64,
    pub raw: u32,
    pub request: PutRequestView,
}

impl View for VolumeChange {
    type V = VolumeChangeView;

    open spec fn view(&self) -> VolumeChangeView {
        VolumeChangeView {
            device: self.device@,
            percent: self.percent,
            raw: self.raw,
            request: self.request@,
        }
    }
}

/// A transfer of playback that Spotify has to carry out, between the ids of two devices.
pub struct Transfer {
    pub from: String,
    pub target: String,
}

/// The model of a [`Transfer`].
#[verifier::ext_equal]
pub struct TransferView {
    pub from: Seq<char>,
    pub target: Seq<char>,
}

impl View for Transfer {
    type V = TransferView;

    open spec fn view(&self) -> TransferView {
        TransferView { from: self.from@, target: self.target@ }
    }
}

/// What is to be done about a request.
pub enum Step {
    /// It is answered.
    Reply(serde_json::Value),
    /// Spotify is asked to change a volume.
    SetVolume(VolumeChange),
    /// Spotify is asked to transfer playback.
    Transfer(Transfer),
}

/// The model of a [`Step`].
#[verifier::ext_equal]
pub enum StepView {
    Reply(Json),
    SetVolume(VolumeChangeView),
    Transfer(TransferView),
}

impl View for Step {
    type V = StepView;

    open spec fn view(&self) -> StepView {
        match self {
            Step::Reply(value) => StepView::Reply(json_of(*value)),
            Step::SetVolume(change) => StepView::SetVolume(change@),
            Step::Transfer(transfer) => StepView::Transfer(transfer@),
        }
    }
}

/// The reply that refuses a request.
pub open spec fn error_json(code: Seq<char>) -> Json {
    Json::Record(map!["error"@ => Json::Text(code)])
}

/// The reply that a request was carried out.
pub open spec fn ok_json() -> Json {
    Json::Record(map!["ok"@ => Json::Bool(true)])
}

/// The body of the request that sets a volume.
pub open spec fn volume_json(raw: u64) -> Json {
    Json::Record(map!["volume"@ => Json::Number(raw)])
}

/// The change of volume that Spotify is asked for.
pub open spec fn volume_change(
    own_id: Seq<char>,
    device: Seq<char>,
    percent: u64,
) -> VolumeChangeView {
    VolumeChangeView {
        device,
        percent,
        raw: raw_volume(percent as int) as u32,
        request: json_request(
            "/connect-state/v1/connect/volume/from/"@ + own_id + "/to/"@ + device,
            encode_utf8(json_text(volume_json(raw_volume(percent as int) as u64))),
        ),
    }
}

/// What a request calls for where Spotify is connected.
pub open spec fn live_step(
    request: RequestView,
    own_id: Seq<char>,
    cluster: ClusterView,
) -> StepView {
    if request.cmd == "status"@ {
        StepView::Reply(active_json(first_active(device_list(cluster, own_id))))
    } else if request.cmd == "devices"@ {
        StepView::Reply(list_json(device_list(cluster, own_id)))
    } else if request.cmd == "volume"@ {
        match request.percent() {
            None => StepView::Reply(error_json("bad_request"@)),
            Some(percent) => if cluster.active_device_id.len() == 0 {
                StepView::Reply(error_json("no_active_device"@))
            } else {
                StepView::SetVolume(volume_change(own_id, cluster.active_device_id, percent))
            },
        }
    } else if request.cmd == "switch"@ {
        match request.id {
            None => StepView::Reply(error_json("bad_request"@)),
            // Nothing plays: from the target to the target resumes there.
            Some(target) => StepView::Transfer(
                TransferView {
                    from: if cluster.active_device_id.len() == 0 {
                        target
                    } else {
                        cluster.active_device_id
                    },
                    target,
                },
            ),
        }
    } else {
        StepView::Reply(error_json("bad_request"@))
    }
}

/// The cluster after a request and the reply to it, where no Spotify stands behind the daemon.
pub open spec fn mock_answer(
    request: RequestView,
    own_id: Seq<char>,
    cluster: ClusterView,
) -> (ClusterView, Json) {
    if request.cmd == "status"@ {
        (cluster, active_json(first_active(device_list(cluster, own_id))))
    } else if request.cmd == "devices"@ {
        (cluster, list_json(device_list(cluster, own_id)))
    } else if request.cmd == "switch"@ {
        match request.id {
            Some(id) if cluster.has(id) => (cluster.with_active(id), ok_json()),
            _ => (cluster, error_json("bad_request"@)),
        }
    } else if request.cmd == "volume"@ {
        match request.percent() {
            None => (cluster, error_json("bad_request"@)),
            Some(percent) => if cluster.has(cluster.active_device_id) {
                (
                    cluster.with_volume(
                        cluster.active_device_id,
                        raw_volume(percent as int) as u32,
                    ),
                    ok_json(),
                )
            } else {
                (cluster, error_json("no_active_device"@))
            },
        }
    } else {
        (cluster, error_json("bad_request"@))
    }
}

/// What the daemon knows after a request, and what is to be done about the request.
pub open spec fn answered<S>(
    request: RequestView,
    shared: SharedView<S>,
) -> (SharedView<S>, StepView) {
    if !shared.authenticated {
        (shared, StepView::Reply(error_json("not_authenticated"@)))
    } else {
        match (shared.cluster, shared.session) {
            (None, _) => (shared, StepView::Reply(error_json("unavailable"@))),
            (Some(cluster), Some(_)) => (shared, live_step(request, shared.own_id, cluster)),
            (Some(cluster), None) => {
                let (after, reply) = mock_answer(request, shared.own_id, cluster);
                (shared.with_cluster(after), StepView::Reply(reply))
            },
        }
    }
}

/// Whether the answer to a request takes the list of devices.
pub open spec fn takes_list<S>(request: RequestView, shared: SharedView<S>) -> bool {
    shared.authenticated && shared.cluster is Some && (request.cmd == "status"@ || request.cmd
        == "devices"@)
}

/// Whether the answer to a request can be computed: where it takes the list of devices, their
/// volumes can be shown in percent.
pub open spec fn is_answerable<S>(request: RequestView, shared: SharedView<S>) -> bool {
    takes_list(request, shared) ==> volumes_fit(shared.cluster->0, shared.own_id)
}

/// Refusals and confirmations are messages of the protocol.
pub proof fn lemma_replies_are_messages(code: Seq<char>, raw: u64)
    ensures
        is_message(error_json(code)),
        is_message(ok_json()),
        is_message(volume_json(raw)),
{
    reveal_with_fuel(nests, 3);
}

/// The reply that refuses a request.
pub fn error_reply(code: &str) -> (value: serde_json::Value)
    ensures
        json_of(value) == error_json(code@),
        is_message(json_of(value)),
{
    let mut value = null();
    set_field(&mut value, "error", string(code));
    proof {
        lemma_replies_are_messages(code@, 0);
    }
    value
}

/// The reply that a request was carried out.
pub fn ok_reply() -> (value: serde_json::Value)
    ensures
        json_of(value) == ok_json(),
        is_message(json_of(value)),
{
    let mut value = null();
    set_field(&mut value, "ok", boolean(true));
    proof {
        lemma_replies_are_messages(Seq::empty(), 0);
    }
    value
}

/// A copy of the text, where there is one.
fn owned(text: Option<&str>) -> (copy: Option<String>)
    ensures
        match text {
            Some(slice) => copy matches Some(string) && string@ == slice@,
            None => copy is None,
        },
{
    match text {
        Some(slice) => Some(slice.to_owned()),
        None => None,
    }
}

/// The request that a JSON value makes.
pub fn request_in(json: &serde_json::Value) -> (request: Request)
    ensures
        request@ == request_of(Some(json_of(*json))),
{
    Request {
        cmd: match as_text(field(json, "cmd")) {
            Some(cmd) => cmd.to_owned(),
            None => String::new(),
        },
        id: owned(as_text(field(json, "id"))),
        value: as_number(field(json, "value")),
    }
}

/// The request on a line.
pub fn read_request(line: &str) -> (request: Request)
    ensures
        request@ == request_of(json_parsed(line@)),
{
    match parse(line) {
        Some(json) => request_in(&json),
        None => request_in(&null()),
    }
}

/// The volume that is asked for, if there is one and it is a percentage.
fn percent_of(request: &Request) -> (percent: Option<u64>)
    ensures
        percent == request@.percent(),
{
    match request.value {
        Some(value) => if value <= 100 {
            Some(value)
        } else {
            None
        },
        None => None,
    }
}

/// The change of volume that Spotify is asked for. There always is one.
pub fn change_volume(
    own_id: &str,
    device: &str,
    percent: u64,
) -> (change: Result<VolumeChange, String>)
    requires
        percent <= 100,
    ensures
        change matches Ok(made) && made@ == volume_change(own_id@, device@, percent),
{
    let raw: u64 = raw_from_percent(percent);
    let mut json = null();
    set_field(&mut json, "volume", number(raw));
    proof {
        lemma_replies_are_messages(Seq::empty(), raw);
    }
    let endpoint = "/connect-state/v1/connect/volume/from/".to_owned().concat(own_id).concat(
        "/to/",
    ).concat(device);
    match put_json(endpoint, render(&json).as_str().as_bytes_vec()) {
        Ok(request) => Ok(
            VolumeChange { device: device.to_owned(), percent, raw: raw as u32, request },
        ),
        Err(reason) => Err(reason),
    }
}

/// What a request calls for where Spotify is connected.
fn answer_live(request: &Request, own_id: &str, cluster: &DeviceCluster) -> (step: Step)
    requires
        request@.cmd == "status"@ || request@.cmd == "devices"@ ==> volumes_fit(
            cluster@,
            own_id@,
        ),
    ensures
        step@ == live_step(request@, own_id@, cluster@),
        step matches Step::Reply(value) ==> is_message(json_of(value)),
{
    let cmd = request.cmd.as_str();
    let active = cluster.active_device_id.as_str();
    if same_text(cmd, "status") {
        Step::Reply(status_json(cluster, own_id))
    } else if same_text(cmd, "devices") {
        Step::Reply(devices_json(cluster, own_id))
    } else if same_text(cmd, "volume") {
        match percent_of(request) {
            None => Step::Reply(error_reply("bad_request")),
            Some(percent) => if active.is_empty() {
                Step::Reply(error_reply("no_active_device"))
            } else {
                match change_volume(own_id, active, percent) {
                    Ok(change) => Step::SetVolume(change),
                    Err(reason) => Step::Reply(
                        error_reply("bad_header: ".to_owned().concat(reason.as_str()).as_str()),
                    ),
                }
            },
        }
    } else if same_text(cmd, "switch") {
        match &request.id {
            None => Step::Reply(error_reply("bad_request")),
            Some(target) => Step::Transfer(
                Transfer {
                    from: if active.is_empty() {
                        target.clone()
                    } else {
                        active.to_owned()
                    },
                    target: target.clone(),
                },
            ),
        }
    } else {
        Step::Reply(error_reply("bad_request"))
    }
}

/// Carries out a request where no Spotify stands behind the daemon, and gives the reply.
fn answer_mock(
    request: &Request,
    own_id: &str,
    cluster: &mut DeviceCluster,
) -> (value: serde_json::Value)
    requires
        request@.cmd == "status"@ || request@.cmd == "devices"@ ==> volumes_fit(
            old(cluster)@,
            own_id@,
        ),
    ensures
        (final(cluster)@, json_of(value)) == mock_answer(request@, own_id@, old(cluster)@),
        old(cluster)@.wf() ==> final(cluster)@.wf(),
        is_message(json_of(value)),
{
    let cmd = request.cmd.as_str();
    if same_text(cmd, "status") {
        status_json(cluster, own_id)
    } else if same_text(cmd, "devices") {
        devices_json(cluster, own_id)
    } else if same_text(cmd, "switch") {
        match &request.id {
            Some(id) => if cluster.contains(id.as_str()) {
                cluster.set_active(id.as_str());
                ok_reply()
            } else {
                error_reply("bad_request")
            },
            None => error_reply("bad_request"),
        }
    } else if same_text(cmd, "volume") {
        match percent_of(request) {
            None => error_reply("bad_request"),
            Some(percent) => {
                let active = cluster.active_device_id.clone();
                if cluster.set_volume(active.as_str(), raw_from_percent(percent) as u32) {
                    ok_reply()
                } else {
                    proof {
                        lemma_place(old(cluster)@, active@);
                    }
                    error_reply("no_active_device")
                }
            },
        }
    } else {
        error_reply("bad_request")
    }
}

/// What is to be done about a request.
pub fn answer<S>(request: &Request, shared: &mut Shared<S>) -> (step: Step)
    requires
        is_answerable(request@, old(shared)@),
    ensures
        (final(shared)@, step@) == answered(request@, old(shared)@),
        old(shared)@.wf() ==> final(shared)@.wf(),
        step matches Step::Reply(value) ==> is_message(json_of(value)),
{
    if !shared.authenticated {
        return Step::Reply(error_reply("not_authenticated"));
    }
    match &mut shared.cluster {
        None => Step::Reply(error_reply("unavailable")),
        Some(cluster) => if shared.session.is_some() {
            answer_live(request, shared.own_id.as_str(), cluster)
        } else {
            Step::Reply(answer_mock(request, shared.own_id.as_str(), cluster))
        },
    }
}

/// What is to be done about the request on a line. Without a result where the answer takes the
/// list of devices and the volume of one of them cannot be shown in percent.
pub fn handle<S>(line: &str, shared: &mut Shared<S>) -> (step: Option<Step>)
    ensures
        match step {
            Some(taken) => is_answerable(request_of(json_parsed(line@)), old(shared)@) && (
                final(shared)@,
                taken@,
            ) == answered(request_of(json_parsed(line@)), old(shared)@),
            None => !is_answerable(request_of(json_parsed(line@)), old(shared)@)
                && final(shared)@ == old(shared)@,
        },
        old(shared)@.wf() ==> final(shared)@.wf(),
        step matches Some(Step::Reply(value)) ==> is_message(json_of(value)),
{
    let request = read_request(line);
    let cmd = request.cmd.as_str();
    if shared.authenticated && (same_text(cmd, "status") || same_text(cmd, "devices")) {
        if let Some(cluster) = &shared.cluster {
            if !check_volumes(cluster, shared.own_id.as_str()) {
                return None;
            }
        }
    }
    Some(answer(&request, shared))
}

/// What the daemon knows after a change of volume, and the reply.
pub open spec fn volume_finished<S>(
    shared: SharedView<S>,
    change: VolumeChangeView,
    done: bool,
) -> (SharedView<S>, Json) {
    if !done {
        (shared, error_json("volume_failed"@))
    } else {
        (
            match shared.cluster {
                Some(cluster) => shared.with_cluster(
                    cluster.with_volume(
                        change.device,
                        if change.raw <= FULL_VOLUME {
                            change.raw
                        } else {
                            FULL_VOLUME
                        },
                    ),
                ),
                None => shared,
            },
            ok_json(),
        )
    }
}

/// Takes note of how a change of volume went, and gives the reply.
pub fn finish_volume<S>(
    shared: &mut Shared<S>,
    change: &VolumeChange,
    done: bool,
) -> (value: serde_json::Value)
    ensures
        (final(shared)@, json_of(value)) == volume_finished(old(shared)@, change@, done),
        old(shared)@.wf() ==> final(shared)@.wf(),
        is_message(json_of(value)),
{
    if !done {
        return error_reply("volume_failed");
    }
    let raw: u32 = if change.raw <= FULL_VOLUME {
        change.raw
    } else {
        FULL_VOLUME
    };
    if let Some(cluster) = &mut shared.cluster {
        cluster.set_volume(change.device.as_str(), raw);
    }
    ok_reply()
}

/// What the daemon knows after a transfer of playback, and the reply.
pub open spec fn transfer_finished<S>(
    shared: SharedView<S>,
    transfer: TransferView,
    done: bool,
) -> (SharedView<S>, Json) {
    if !done {
        (shared, error_json("switch_failed"@))
    } else {
        (
            match shared.cluster {
                Some(cluster) => shared.with_cluster(cluster.with_active(transfer.target)),
                None => shared,
            },
            ok_json(),
        )
    }
}

/// Takes note of how a transfer of playback went, and gives the reply.
pub fn finish_transfer<S>(
    shared: &mut Shared<S>,
    transfer: &Transfer,
    done: bool,
) -> (value: serde_json::Value)
    ensures
        (final(shared)@, json_of(value)) == transfer_finished(old(shared)@, transfer@, done),
        old(shared)@.wf() ==> final(shared)@.wf(),
        is_message(json_of(value)),
{
    if !done {
        return error_reply("switch_failed");
    }
    if let Some(cluster) = &mut shared.cluster {
        cluster.set_active(transfer.target.as_str());
    }
    ok_reply()
}

/// Whether `line` carries the message `json`: its text, which is not blank, and a line end, which
/// is the only one; what is read from the line is the message.
pub open spec fn carries(line: Seq<char>, json: Json) -> bool {
    &&& line == json_text(json).push('\n')
    &&& json_parsed(line) == Some(json)
    &&& forall|i: int| 0 <= i < line.len() - 1 ==> #[trigger] line[i] != '\n'
    &&& trimmed(line) == json_text(json)
    &&& trimmed(line).len() > 0
}

/// A message as it goes over the wire.
pub fn message_line(value: &serde_json::Value) -> (line: String)
    requires
        is_message(json_of(*value)),
    ensures
        carries(line@, json_of(*value)),
{
    let text = render(value);
    let ghost held = text@;
    let line = text.concat("\n");
    proof {
        reveal_strlit("\n");
        assert(line@ =~= held.push('\n'));
        assert(line@.drop_last() =~= held);
        assert(trimmed(held) == held);
    }
    line
}

} // verus!
