//! The life of the daemon: signing in, connecting, learning of devices.

use vstd::prelude::*;

use crate::cluster::{mock_cluster, mock_view, ClusterView, DeviceCluster};
use crate::control::{Shared, SharedView};
use crate::identity::{observer_id, observer_of};
use crate::message::{announcement_encoded, encode, Announcement, AnnouncementView};
use crate::put::{announcement_headers, announcement_request, is_header_text, PutRequest};

verus! {

/// Something that the daemon finds out.
pub enum DaemonEvent {
    /// There are no credentials.
    SignedOut,
    /// There are credentials.
    SignedIn,
    /// The connection to Spotify has come to an end.
    Disconnected,
}

/// What the daemon does next.
pub enum DaemonAction {
    /// Connect to Spotify and stay connected.
    Receive,
    /// Look for credentials after this many seconds.
    Wait(u64),
}

/// How many seconds pass between two looks at the credentials.
pub const POLL_SECONDS: u64 = 5;

/// How many milliseconds pass between two looks at the connection id.
pub const CONNECTION_MILLISECONDS: u64 = 500;

/// What a daemon knows at its start.
pub open spec fn started<S>(own_id: Seq<char>) -> SharedView<S> {
    SharedView { authenticated: false, own_id, cluster: None, session: None }
}

/// What a daemon knows that serves the canned cluster.
pub open spec fn mocked<S>(shared: SharedView<S>) -> SharedView<S> {
    SharedView { authenticated: true, cluster: Some(mock_view(shared.own_id)), ..shared }
}

/// What the daemon knows after an event, and what it does next.
pub open spec fn advanced<S>(
    shared: SharedView<S>,
    event: DaemonEvent,
) -> (SharedView<S>, DaemonAction) {
    match event {
        DaemonEvent::SignedOut => (
            SharedView { authenticated: false, ..shared },
            DaemonAction::Wait(POLL_SECONDS),
        ),
        DaemonEvent::SignedIn => (
            SharedView { authenticated: true, ..shared },
            DaemonAction::Receive,
        ),
        DaemonEvent::Disconnected => (
            SharedView { session: None, cluster: None, ..shared },
            DaemonAction::Wait(POLL_SECONDS),
        ),
    }
}

/// What the daemon knows once the cluster has been fetched: what was learned since stays.
pub open spec fn fetched<S>(shared: SharedView<S>, cluster: ClusterView) -> SharedView<S> {
    match shared.cluster {
        Some(_) => shared,
        None => shared.with_cluster(cluster),
    }
}

/// What the daemon knows after an update. One without a cluster changes nothing.
pub open spec fn updated<S>(
    shared: SharedView<S>,
    cluster: Option<ClusterView>,
) -> SharedView<S> {
    match cluster {
        Some(cluster) => shared.with_cluster(cluster),
        None => shared,
    }
}

impl<S> Shared<S> {
    /// What a daemon knows at its start.
    pub fn new(own_id: String) -> (shared: Shared<S>)
        ensures
            shared@ == started::<S>(own_id@),
            shared@.wf(),
    {
        Shared { authenticated: false, own_id, cluster: None, session: None }
    }

    /// Serves the canned cluster, with no Spotify behind it.
    pub fn start_mock(&mut self)
        ensures
            final(self)@ == mocked(old(self)@),
            final(self)@.wf(),
    {
        self.authenticated = true;
        self.cluster = Some(mock_cluster(self.own_id.as_str()));
    }

    /// Takes note of an event, and decides what comes next.
    pub fn advance(&mut self, event: DaemonEvent) -> (action: DaemonAction)
        ensures
            (final(self)@, action) == advanced(old(self)@, event),
            old(self)@.wf() ==> final(self)@.wf(),
    {
        match event {
            DaemonEvent::SignedOut => {
                self.authenticated = false;
                DaemonAction::Wait(POLL_SECONDS)
            },
            DaemonEvent::SignedIn => {
                self.authenticated = true;
                DaemonAction::Receive
            },
            DaemonEvent::Disconnected => {
                self.session = None;
                self.cluster = None;
                DaemonAction::Wait(POLL_SECONDS)
            },
        }
    }

    /// Takes note of a connection to Spotify.
    pub fn connect(&mut self, session: S)
        ensures
            final(self)@ == (SharedView { session: Some(session), ..old(self)@ }),
            old(self)@.wf() ==> final(self)@.wf(),
    {
        self.session = Some(session);
    }

    /// Takes note of the cluster that was fetched, unless one is known already.
    pub fn cluster_fetched(&mut self, cluster: DeviceCluster)
        ensures
            final(self)@ == fetched(old(self)@, cluster@),
            old(self)@.wf() && cluster@.wf() ==> final(self)@.wf(),
    {
        if self.cluster.is_none() {
            self.cluster = Some(cluster);
        }
    }

    /// Takes note of an update.
    pub fn cluster_updated(&mut self, cluster: Option<DeviceCluster>)
        ensures
            final(self)@ == updated(
                old(self)@,
                match cluster {
                    Some(cluster) => Some(cluster@),
                    None => None,
                },
            ),
            old(self)@.wf() && (cluster matches Some(cluster) ==> cluster@.wf()) ==> final(self)@.wf(),
    {
        if cluster.is_some() {
            self.cluster = cluster;
        }
    }
}

/// How many milliseconds to wait before the cluster can be fetched; none once there is a
/// connection id.
pub fn connection_wait(connection_id: &str) -> (milliseconds: Option<u64>)
    ensures
        milliseconds == if connection_id@.len() == 0 {
            Some(CONNECTION_MILLISECONDS)
        } else {
            None
        },
{
    if connection_id.is_empty() {
        Some(CONNECTION_MILLISECONDS)
    } else {
        None
    }
}

/// The number of Connect members in Spotify's protocol.
pub const CONNECT_STATE: i32 = 2;

/// The number of the reason that a device is new in Spotify's protocol.
pub const NEW_DEVICE: i32 = 3;

/// The hidden device that is announced to learn of the cluster.
pub open spec fn observer(own_id: Seq<char>, client_id: Seq<char>) -> AnnouncementView {
    AnnouncementView {
        device_id: observer_of(own_id),
        name: "spotify-connect observer"@,
        client_id,
        member_type: CONNECT_STATE,
        put_state_reason: NEW_DEVICE,
        hidden: true,
        is_observable: true,
    }
}

/// The hidden device that is announced to learn of the cluster.
pub fn new_observer(own_id: &str, client_id: &str) -> (announcement: Announcement)
    ensures
        announcement@ == observer(own_id@, client_id@),
{
    Announcement {
        device_id: observer_id(own_id),
        name: "spotify-connect observer".to_owned(),
        client_id: client_id.to_owned(),
        member_type: CONNECT_STATE,
        put_state_reason: NEW_DEVICE,
        hidden: true,
        is_observable: true,
    }
}

/// Why the observer cannot be announced.
pub enum FetchError {
    /// The connection id cannot be in a header.
    BadHeader(String),
    /// The announcement cannot be encoded.
    BadMessage(String),
}

/// The request that announces the observer, to which the reply is the cluster.
pub fn fetch_request(
    own_id: &str,
    client_id: &str,
    connection_id: &str,
) -> (request: Result<PutRequest, FetchError>)
    ensures
        if !is_header_text(connection_id@) {
            request matches Err(FetchError::BadHeader(reason)) && reason@
                == "failed to parse header value"@
        } else {
            match announcement_encoded(observer(own_id@, client_id@)) {
                Ok(body) => request matches Ok(put) && put@ == announcement_request(
                    observer_of(own_id@),
                    connection_id@,
                    body,
                ),
                Err(text) => request matches Err(FetchError::BadMessage(reason)) && reason@
                    == text,
            }
        },
{
    let announcement = new_observer(own_id, client_id);
    let headers = match announcement_headers(connection_id) {
        Ok(headers) => headers,
        Err(reason) => return Err(FetchError::BadHeader(reason)),
    };
    match encode(&announcement) {
        Ok(body) => {
            let endpoint = "/connect-state/v1/devices/".to_owned().concat(
                announcement.device_id.as_str(),
            );
            Ok(PutRequest { endpoint, headers, body })
        },
        Err(reason) => Err(FetchError::BadMessage(reason)),
    }
}

} // verus!
