//! What the models say of the values: each field of a value, and nothing else.

use vstd::prelude::*;

use crate::cli::{arg_views, ControlRequest, ControlRequestView, Invocation, InvocationView};
use crate::cluster::{DeviceCluster, DeviceInfo};
use crate::control::{Request, Shared, Step, StepView, Transfer, VolumeChange};
use crate::devices::{entry_views, DeviceEntry};
use crate::json::json_of;
use crate::message::Announcement;
use crate::paths::PathPlan;
use crate::put::{header_contents, PutRequest};

verus! {

/// The model of a cluster has its devices in their order, each with its id, and the id of the one
/// that plays.
pub proof fn lemma_cluster_model(cluster: DeviceCluster, i: int)
    ensures
        cluster@.active_device_id == cluster.active_device_id@,
        cluster@.device.len() == cluster.device@.len(),
        0 <= i < cluster.device@.len() ==> cluster@.device[i].0 == cluster.device@[i].0@
            && cluster@.device[i].1 == cluster.device@[i].1@,
{
}

/// The model of a device has its name, its type, its volume and its aliases in their order.
pub proof fn lemma_device_model(info: DeviceInfo, k: int)
    ensures
        info@.name == info.name@,
        info@.device_type == info.device_type,
        info@.volume == info.volume,
        info@.device_aliases.len() == info.device_aliases@.len(),
        0 <= k < info.device_aliases@.len() ==> info@.device_aliases[k] == info.device_aliases@[k]@,
{
}

/// The model of a list has an entry for each of its entries, field by field.
pub proof fn lemma_entry_model(found: Seq<DeviceEntry>, k: int)
    ensures
        entry_views(found).len() == found.len(),
        0 <= k < found.len() ==> ({
            let (model, entry) = (entry_views(found)[k], found[k]);
            &&& model == entry@
            &&& model.id == entry.id@
            &&& model.name == entry.name@
            &&& model.kind == entry.kind@
            &&& model.active == entry.active
            &&& model.volume == entry.volume
        }),
{
}

/// The model of what the daemon knows, field by field.
pub proof fn lemma_shared_model<S>(shared: Shared<S>)
    ensures
        shared@.authenticated == shared.authenticated,
        shared@.own_id == shared.own_id@,
        shared@.session == shared.session,
        shared.cluster is None ==> shared@.cluster is None,
        shared.cluster is Some ==> shared@.cluster == Some(shared.cluster->0@),
{
}

/// The models of requests and of what is to be done about them, field by field.
pub proof fn lemma_step_models(
    request: Request,
    change: VolumeChange,
    transfer: Transfer,
    value: serde_json::Value,
)
    ensures
        request@.cmd == request.cmd@,
        request.id is None ==> request@.id is None,
        request.id is Some ==> request@.id == Some(request.id->0@),
        request@.value == request.value,
        change@.device == change.device@,
        change@.percent == change.percent,
        change@.raw == change.raw,
        change@.request == change.request@,
        transfer@.from == transfer.from@,
        transfer@.target == transfer.target@,
        Step::Reply(value)@ == StepView::Reply(json_of(value)),
        Step::SetVolume(change)@ == StepView::SetVolume(change@),
        Step::Transfer(transfer)@ == StepView::Transfer(transfer@),
{
}

/// The models of what is sent to Spotify, field by field.
pub proof fn lemma_sent_models(put: PutRequest, announcement: Announcement)
    ensures
        put@.endpoint == put.endpoint@,
        put@.headers == header_contents(put.headers),
        put@.body == put.body@,
        announcement@.device_id == announcement.device_id@,
        announcement@.name == announcement.name@,
        announcement@.client_id == announcement.client_id@,
        announcement@.member_type == announcement.member_type,
        announcement@.put_state_reason == announcement.put_state_reason,
        announcement@.hidden == announcement.hidden,
        announcement@.is_observable == announcement.is_observable,
{
}

/// The models of command lines and of what they ask for.
pub proof fn lemma_command_models(args: Seq<String>, k: int, id: String, percent: u64, mock: bool)
    ensures
        arg_views(args).len() == args.len(),
        0 <= k < args.len() ==> arg_views(args)[k] == args[k]@,
        ControlRequest::Status@ == ControlRequestView::Status,
        ControlRequest::Devices@ == ControlRequestView::Devices,
        ControlRequest::Switch(id)@ == ControlRequestView::Switch(id@),
        ControlRequest::Volume(percent)@ == ControlRequestView::Volume(percent),
        (Invocation::Daemon { mock })@ == (InvocationView::Daemon { mock }),
        Invocation::Login@ == InvocationView::Login,
        Invocation::Control(ControlRequest::Switch(id))@ == InvocationView::Control(
            ControlRequestView::Switch(id@),
        ),
        Invocation::Control(ControlRequest::Volume(percent))@ == InvocationView::Control(
            ControlRequestView::Volume(percent),
        ),
        Invocation::Control(ControlRequest::Status)@ == InvocationView::Control(
            ControlRequestView::Status,
        ),
        Invocation::Control(ControlRequest::Devices)@ == InvocationView::Control(
            ControlRequestView::Devices,
        ),
        Invocation::BadVolume@ == InvocationView::BadVolume,
        Invocation::Unknown@ == InvocationView::Unknown,
{
}

/// The model of a path has its base and the names that are joined to it, in their order.
pub proof fn lemma_path_model<P>(plan: PathPlan<P>, k: int)
    ensures
        plan@.base == plan.base,
        plan@.names.len() == plan.names@.len(),
        0 <= k < plan.names@.len() ==> plan@.names[k] == plan.names@[k]@,
{
}

} // verus!
