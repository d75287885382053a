//! The payloads of the management interface.

use vstd::prelude::*;

verus! {

/// Request payload for provisioning a new mount.
#[derive(Debug)]
pub struct CreateMountRequest {
    /// Absolute path where the mount should appear on the host.
    pub mountpoint: String,
    /// Upper (read-write) directory unique per mount.
    pub upper_dir: String,
    /// Optional CL passthrough directory.
    pub cl_dir: Option<String>,
    /// Arbitrary labels that the orchestrator can apply to the mount.
    pub labels: Vec<String>,
    /// Whether the presented filesystem should be mounted read-only.
    pub readonly: bool,
}

/// The mathematical value of a [`CreateMountRequest`].
pub struct CreateMountRequestView {
    pub mountpoint: Seq<char>,
    pub upper_dir: Seq<char>,
    pub cl_dir: Option<Seq<char>>,
    pub labels: Seq<Seq<char>>,
    pub readonly: bool,
}

impl View for CreateMountRequest {
    type V = CreateMountRequestView;

    open spec fn view(&self) -> CreateMountRequestView {
        CreateMountRequestView {
            mountpoint: self.mountpoint@,
            upper_dir: self.upper_dir@,
            cl_dir: self.cl_dir.deep_view(),
            labels: self.labels.deep_view(),
            readonly: self.readonly,
        }
    }
}

/// A copy of an optional path.
pub fn clone_optional_text(text: &Option<String>) -> (copy: Option<String>)
    ensures
        copy.deep_view() == text.deep_view(),
{
    match text {
        Some(t) => Some(t.clone()),
        None => None,
    }
}

impl Clone for CreateMountRequest {
    fn clone(&self) -> (r: Self)
        ensures
            r@ == self@,
    {
        let labels = self.labels.clone();
        assert(labels.deep_view() =~= self.labels.deep_view());
        CreateMountRequest {
            mountpoint: self.mountpoint.clone(),
            upper_dir: self.upper_dir.clone(),
            cl_dir: clone_optional_text(&self.cl_dir),
            labels,
            readonly: self.readonly,
        }
    }
}

/// Lifecycle indicator used in responses and service contracts.
#[derive(Debug)]
pub enum MountLifecycle {
    Provisioning,
    Mounted,
    Unmounting,
    Unmounted,
    Failed { reason: String },
}

/// The mathematical value of a [`MountLifecycle`].
pub enum MountLifecycleView {
    Provisioning,
    Mounted,
    Unmounting,
    Unmounted,
    Failed { reason: Seq<char> },
}

impl View for MountLifecycle {
    type V = MountLifecycleView;

    open spec fn view(&self) -> MountLifecycleView {
        match self {
            MountLifecycle::Provisioning => MountLifecycleView::Provisioning,
            MountLifecycle::Mounted => MountLifecycleView::Mounted,
            MountLifecycle::Unmounting => MountLifecycleView::Unmounting,
            MountLifecycle::Unmounted => MountLifecycleView::Unmounted,
            MountLifecycle::Failed { reason } => MountLifecycleView::Failed { reason: reason@ },
        }
    }
}

impl MountLifecycleView {
    /// Whether the lifecycle allows a step from `self` to `next`:
    /// `Provisioning → Mounted → Unmounting → {Unmounted | Failed}`.
    pub open spec fn steps_to(self, next: MountLifecycleView) -> bool {
        match self {
            MountLifecycleView::Provisioning => next is Mounted || next is Failed,
            MountLifecycleView::Mounted => next is Unmounting,
            MountLifecycleView::Unmounting => next is Unmounted || next is Failed,
            MountLifecycleView::Unmounted => false,
            MountLifecycleView::Failed { .. } => false,
        }
    }

    /// Whether no step leaves this state.
    pub open spec fn is_terminal(self) -> bool {
        self is Unmounted || self is Failed
    }
}

impl Clone for MountLifecycle {
    fn clone(&self) -> (r: Self)
        ensures
            r@ == self@,
    {
        match self {
            MountLifecycle::Provisioning => MountLifecycle::Provisioning,
            MountLifecycle::Mounted => MountLifecycle::Mounted,
            MountLifecycle::Unmounting => MountLifecycle::Unmounting,
            MountLifecycle::Unmounted => MountLifecycle::Unmounted,
            MountLifecycle::Failed { reason } => MountLifecycle::Failed { reason: reason.clone() },
        }
    }
}

impl MountLifecycle {
    /// Whether no step leaves this state.
    pub fn is_terminal(&self) -> (b: bool)
        ensures
            b == self@.is_terminal(),
    {
        match self {
            MountLifecycle::Unmounted => true,
            MountLifecycle::Failed { .. } => true,
            _ => false,
        }
    }
}

/// Directory layout for a mount.
#[derive(Debug)]
pub struct MountLayers {
    pub upper: String,
    pub cl: Option<String>,
    pub dicfuse: String,
}

/// The mathematical value of a [`MountLayers`].
pub struct MountLayersView {
    pub upper: Seq<char>,
    pub cl: Option<Seq<char>>,
    pub dicfuse: Seq<char>,
}

impl View for MountLayers {
    type V = MountLayersView;

    open spec fn view(&self) -> MountLayersView {
        MountLayersView { upper: self.upper@, cl: self.cl.deep_view(), dicfuse: self.dicfuse@ }
    }
}

impl Clone for MountLayers {
    fn clone(&self) -> (r: Self)
        ensures
            r@ == self@,
    {
        MountLayers {
            upper: self.upper.clone(),
            cl: clone_optional_text(&self.cl),
            dicfuse: self.dicfuse.clone(),
        }
    }
}

/// Snapshot of a single mount's state.
#[derive(Debug)]
pub struct MountStatus {
    pub mount_id: u128,
    pub mountpoint: String,
    pub layers: MountLayers,
    pub state: MountLifecycle,
    pub created_at_epoch_ms: u64,
    pub last_seen_epoch_ms: u64,
}

/// The mathematical value of a [`MountStatus`].
pub struct MountStatusView {
    pub mount_id: u128,
    pub mountpoint: Seq<char>,
    pub layers: MountLayersView,
    pub state: MountLifecycleView,
    pub created_at_epoch_ms: u64,
    pub last_seen_epoch_ms: u64,
}

impl View for MountStatus {
    type V = MountStatusView;

    open spec fn view(&self) -> MountStatusView {
        MountStatusView {
            mount_id: self.mount_id,
            mountpoint: self.mountpoint@,
            layers: self.layers@,
            state: self.state@,
            created_at_epoch_ms: self.created_at_epoch_ms,
            last_seen_epoch_ms: self.last_seen_epoch_ms,
        }
    }
}

impl Clone for MountStatus {
    fn clone(&self) -> (r: Self)
        ensures
            r@ == self@,
    {
        MountStatus {
            mount_id: self.mount_id,
            mountpoint: self.mountpoint.clone(),
            layers: self.layers.clone(),
            state: self.state.clone(),
            created_at_epoch_ms: self.created_at_epoch_ms,
            last_seen_epoch_ms: self.last_seen_epoch_ms,
        }
    }
}

/// Summary returned immediately after provisioning succeeds.
#[derive(Debug)]
pub struct MountCreated {
    pub mount_id: u128,
    pub mountpoint: String,
    pub state: MountLifecycle,
}

/// The mathematical value of a [`MountCreated`].
pub struct MountCreatedView {
    pub mount_id: u128,
    pub mountpoint: Seq<char>,
    pub state: MountLifecycleView,
}

impl View for MountCreated {
    type V = MountCreatedView;

    open spec fn view(&self) -> MountCreatedView {
        MountCreatedView {
            mount_id: self.mount_id,
            mountpoint: self.mountpoint@,
            state: self.state@,
        }
    }
}

impl MountStatusView {
    /// The summary that announces this mount.
    pub open spec fn created(self) -> MountCreatedView {
        MountCreatedView { mount_id: self.mount_id, mountpoint: self.mountpoint, state: self.state }
    }
}

impl MountCreated {
    /// The summary of a mount that was just provisioned.
    pub fn from_status(status: MountStatus) -> (created: MountCreated)
        ensures
            created@ == status@.created(),
    {
        MountCreated {
            mount_id: status.mount_id,
            mountpoint: status.mountpoint,
            state: status.state,
        }
    }
}

impl Clone for MountCreated {
    fn clone(&self) -> (r: Self)
        ensures
            r@ == self@,
    {
        MountCreated {
            mount_id: self.mount_id,
            mountpoint: self.mountpoint.clone(),
            state: self.state.clone(),
        }
    }
}

/// Convenience wrapper used by list endpoints.
#[derive(Debug)]
pub struct MountCollection {
    pub mounts: Vec<MountStatus>,
}

/// The statuses of a list, as mathematical values.
pub open spec fn statuses_view(mounts: Seq<MountStatus>) -> Seq<MountStatusView> {
    mounts.map_values(|s: MountStatus| s@)
}

impl View for MountCollection {
    type V = Seq<MountStatusView>;

    open spec fn view(&self) -> Seq<MountStatusView> {
        statuses_view(self.mounts@)
    }
}

impl MountCollection {
    /// Wraps a listing for the list endpoint.
    pub fn new(mounts: Vec<MountStatus>) -> (collection: MountCollection)
        ensures
            collection@ == statuses_view(mounts@),
    {
        MountCollection { mounts }
    }
}

/// Health check response payload.
#[derive(Debug)]
pub struct HealthResponse {
    /// Service health status: "healthy" or "degraded"
    pub status: String,
    /// Current number of active mounts
    pub mount_count: usize,
    /// Service uptime in seconds
    pub uptime_secs: u64,
}

/// The mathematical value of a [`HealthResponse`].
pub struct HealthResponseView {
    pub status: Seq<char>,
    pub mount_count: usize,
    pub uptime_secs: u64,
}

impl View for HealthResponse {
    type V = HealthResponseView;

    open spec fn view(&self) -> HealthResponseView {
        HealthResponseView {
            status: self.status@,
            mount_count: self.mount_count,
            uptime_secs: self.uptime_secs,
        }
    }
}

impl Clone for HealthResponse {
    fn clone(&self) -> (r: Self)
        ensures
            r@ == self@,
    {
        HealthResponse {
            status: self.status.clone(),
            mount_count: self.mount_count,
            uptime_secs: self.uptime_secs,
        }
    }
}

} // verus!
