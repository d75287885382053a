//! The table of active mounts and the decisions of the service that keeps it.
//!
//! Creating and deleting a mount each surround a kernel call that is slow and
//! happens elsewhere, with the table unlocked. So each comes in two steps: one
//! that decides before the call, and one that takes the call's outcome and
//! commits.
//!
//! Every access to an entry refreshes its last_seen timestamp: describing a
//! mount is an access to its entry, and listing is an access to every entry.
//! Both therefore write the table.

use crate::antares::fuse::{outcome_view, path_rejection, AntaresFuse, AntaresFuseView};
use crate::daemon::antares::clock::{current_epoch_ms, instant_now, uptime_secs};
use crate::daemon::antares::error::{ServiceError, ServiceErrorView};
use crate::daemon::antares::ident::{fresh_mount_id, hyphenated, is_random_uuid, mount_id_text};
use crate::daemon::antares::model::{
    clone_optional_text, CreateMountRequest, CreateMountRequestView, HealthResponse,
    HealthResponseView, MountLayers, MountLayersView, MountLifecycle, MountLifecycleView,
    MountStatus, MountStatusView,
};
use std::collections::HashMap;
use std::time::Instant;
use vstd::prelude::*;
use vstd::std_specs::hash::spec_keys_iter;
use vstd::std_specs::iter::IteratorSpec;
use vstd::string::StringExecFns;

verus! {

broadcast use vstd::std_specs::hash::group_hash_axioms;

/// Internal entry tracking a single mount.
#[derive(Debug)]
pub struct MountEntry {
    pub mount_id: u128,
    pub request: CreateMountRequest,
    pub fuse: AntaresFuse,
    pub state: MountLifecycle,
    pub created_at_epoch_ms: u64,
    pub last_seen_epoch_ms: u64,
}

/// The mathematical value of a [`MountEntry`].
pub struct MountEntryView {
    pub mount_id: u128,
    pub request: CreateMountRequestView,
    pub fuse: AntaresFuseView,
    pub state: MountLifecycleView,
    pub created_at_epoch_ms: u64,
    pub last_seen_epoch_ms: u64,
}

impl View for MountEntry {
    type V = MountEntryView;

    open spec fn view(&self) -> MountEntryView {
        MountEntryView {
            mount_id: self.mount_id,
            request: self.request@,
            fuse: self.fuse@,
            state: self.state@,
            created_at_epoch_ms: self.created_at_epoch_ms,
            last_seen_epoch_ms: self.last_seen_epoch_ms,
        }
    }
}

impl MountEntryView {
    /// The public status of the mount.
    pub open spec fn status(self) -> MountStatusView {
        MountStatusView {
            mount_id: self.mount_id,
            mountpoint: self.request.mountpoint,
            layers: MountLayersView {
                upper: self.request.upper_dir,
                cl: self.request.cl_dir,
                dicfuse: "shared"@,
            },
            state: self.state,
            created_at_epoch_ms: self.created_at_epoch_ms,
            last_seen_epoch_ms: self.last_seen_epoch_ms,
        }
    }

    /// The state in which an unmount that the kernel answered with `kernel`
    /// leaves the mount.
    pub open spec fn state_after_unmount(self, kernel: Result<(), Seq<char>>) -> MountLifecycleView {
        match self.fuse.unmount_result(kernel) {
            Ok(_) => MountLifecycleView::Unmounted,
            Err(e) => MountLifecycleView::Failed { reason: "unmount failed: "@ + e.message() },
        }
    }

    /// The status reported once the unmount has been tried.
    pub open spec fn status_after_unmount(self, kernel: Result<(), Seq<char>>) -> MountStatusView {
        (MountEntryView { state: self.state_after_unmount(kernel), ..self }).status()
    }
}

impl MountEntry {
    /// Convert to public MountStatus for API responses.
    pub fn to_status(&self) -> (status: MountStatus)
        ensures
            status@ == self@.status(),
    {
        MountStatus {
            mount_id: self.mount_id,
            mountpoint: self.request.mountpoint.clone(),
            layers: MountLayers {
                upper: self.request.upper_dir.clone(),
                cl: clone_optional_text(&self.request.cl_dir),
                dicfuse: String::from_str("shared"),
            },
            state: self.state.clone(),
            created_at_epoch_ms: self.created_at_epoch_ms,
            last_seen_epoch_ms: self.last_seen_epoch_ms,
        }
    }

    /// Records that the mount was seen at `now`: nothing but the last_seen
    /// timestamp changes.
    pub fn seen_at(&mut self, now: u64)
        ensures
            final(self)@ == (MountEntryView { last_seen_epoch_ms: now, ..old(self)@ }),
    {
        self.last_seen_epoch_ms = now;
    }

    /// Update the last_seen timestamp to the current time.
    pub fn update_last_seen(&mut self)
        ensures
            final(self)@ == (MountEntryView {
                last_seen_epoch_ms: final(self)@.last_seen_epoch_ms,
                ..old(self)@
            }),
    {
        let now = current_epoch_ms();
        self.seen_at(now);
    }

    /// Takes the kernel's answer to the unmount of a deleted mount and gives the
    /// final status: `Unmounted`, or `Failed` with the reason. The entry is
    /// spent either way; it is never registered again.
    pub fn finish_unmount(self, kernel: Result<(), String>) -> (status: MountStatus)
        ensures
            status@ == self@.status_after_unmount(outcome_view(kernel)),
    {
        let mut entry = self;
        match entry.fuse.unmount(kernel) {
            Ok(_) => {
                entry.state = MountLifecycle::Unmounted;
            },
            Err(e) => {
                let shown = e.message();
                entry.state = MountLifecycle::Failed {
                    reason: String::from_str("unmount failed: ").concat(shown.as_str()),
                };
            },
        }
        entry.to_status()
    }
}

/// Why a request cannot be served whatever the table holds, if it cannot.
pub open spec fn create_rejection(request: CreateMountRequestView) -> Option<Seq<char>> {
    if request.mountpoint.len() == 0 {
        Some("mountpoint cannot be empty"@)
    } else if request.upper_dir.len() == 0 {
        Some("upper_dir cannot be empty"@)
    } else if request.readonly {
        Some("readonly mounts are not yet supported"@)
    } else {
        None
    }
}

/// Whether some entry of the table holds `mountpoint`.
pub open spec fn mountpoint_in_use(
    table: Map<u128, MountEntryView>,
    mountpoint: Seq<char>,
) -> bool {
    exists|id: u128| table.contains_key(id) && (#[trigger] table[id]).request.mountpoint == mountpoint
}

/// What a registered entry looks like: it is filed under its own identifier,
/// it is mounted, and its engine is bound to the paths of its request.
pub open spec fn entry_wf(id: u128, entry: MountEntryView) -> bool {
    &&& entry.mount_id == id
    &&& entry.state is Mounted
    &&& entry.fuse.mounted
    &&& entry.fuse.mountpoint == entry.request.mountpoint
    &&& entry.fuse.upper_dir == entry.request.upper_dir
    &&& entry.fuse.cl_dir == entry.request.cl_dir
    &&& create_rejection(entry.request) is None
}

/// The invariant of the table: every entry is well formed, and no two entries
/// hold the same mountpoint.
pub open spec fn table_wf(table: Map<u128, MountEntryView>) -> bool {
    &&& table.dom().finite()
    &&& forall|id: u128| table.contains_key(id) ==> entry_wf(id, #[trigger] table[id])
    &&& forall|a: u128, b: u128|
        table.contains_key(a) && table.contains_key(b) && (#[trigger] table[a]).request.mountpoint
            == (#[trigger] table[b]).request.mountpoint ==> a == b
}

/// Whether `list` shows every entry of `table` exactly once, in some order.
pub open spec fn is_listing(list: Seq<MountStatusView>, table: Map<u128, MountEntryView>) -> bool {
    &&& list.len() == table.dom().len()
    &&& forall|i: int|
        0 <= i < list.len() ==> table.contains_key((#[trigger] list[i]).mount_id) && list[i]
            == table[list[i].mount_id].status()
    &&& forall|i: int, j: int|
        0 <= i < j < list.len() ==> (#[trigger] list[i]).mount_id != (#[trigger] list[j]).mount_id
}

/// Whether `drained` holds every entry of `table` exactly once, in some order.
pub open spec fn is_drain(drained: Seq<MountEntryView>, table: Map<u128, MountEntryView>) -> bool {
    &&& drained.len() == table.dom().len()
    &&& forall|i: int|
        0 <= i < drained.len() ==> table.contains_key((#[trigger] drained[i]).mount_id)
            && drained[i] == table[drained[i].mount_id]
    &&& forall|i: int, j: int|
        0 <= i < j < drained.len() ==> (#[trigger] drained[i]).mount_id != (
        #[trigger] drained[j]).mount_id
}

/// The entry once it has been accessed at time `now`: its last_seen
/// timestamp is `now`, and nothing else has changed.
pub open spec fn seen_entry(entry: MountEntryView, now: u64) -> MountEntryView {
    MountEntryView { last_seen_epoch_ms: now, ..entry }
}

/// What describing a mount at time `now` answers: the status of the entry as
/// the access leaves it, or `NotFound`.
pub open spec fn describe_result(table: Map<u128, MountEntryView>, mount_id: u128, now: u64) -> Result<
    MountStatusView,
    ServiceErrorView,
> {
    if table.contains_key(mount_id) {
        Ok(seen_entry(table[mount_id], now).status())
    } else {
        Err(ServiceErrorView::NotFound(mount_id))
    }
}

/// The table after a mount was described at time `now`: the entry described
/// was seen at `now`; no other entry changed.
pub open spec fn described_table(
    table: Map<u128, MountEntryView>,
    mount_id: u128,
    now: u64,
) -> Map<u128, MountEntryView> {
    if table.contains_key(mount_id) {
        table.insert(mount_id, seen_entry(table[mount_id], now))
    } else {
        table
    }
}

/// The table after its mounts were listed at time `now`: every entry was
/// seen at `now`.
pub open spec fn listed_table(table: Map<u128, MountEntryView>, now: u64) -> Map<
    u128,
    MountEntryView,
> {
    Map::new(|id: u128| table.contains_key(id), |id: u128| seen_entry(table[id], now))
}

/// The entry that `delete_mount` hands out at time `now`.
pub open spec fn deleted_entry(entry: MountEntryView, now: u64) -> MountEntryView {
    MountEntryView { state: MountLifecycleView::Unmounting, last_seen_epoch_ms: now, ..entry }
}

/// Why `prepare_mount` turns a request down, if it does: the request is
/// invalid, its mountpoint is taken, or its paths make no engine.
pub open spec fn prepare_rejection(
    table: Map<u128, MountEntryView>,
    request: CreateMountRequestView,
) -> Option<ServiceErrorView> {
    if let Some(why) = create_rejection(request) {
        Some(ServiceErrorView::InvalidRequest(why))
    } else if mountpoint_in_use(table, request.mountpoint) {
        Some(
            ServiceErrorView::InvalidRequest(
                "mountpoint "@ + request.mountpoint + " is already in use"@,
            ),
        )
    } else if let Some(why) = path_rejection(
        request.mountpoint,
        request.upper_dir,
        request.cl_dir,
    ) {
        Some(ServiceErrorView::FuseFailure("failed to create fuse: "@ + why))
    } else {
        None
    }
}

/// A request that passed `prepare_mount`, with the engine built for it. The
/// kernel mount of that engine is what stands between it and the table.
#[derive(Debug)]
pub struct PendingMount {
    request: CreateMountRequest,
    fuse: AntaresFuse,
}

/// The mathematical value of a [`PendingMount`].
pub struct PendingMountView {
    pub request: CreateMountRequestView,
    pub fuse: AntaresFuseView,
}

impl PendingMountView {
    /// The pending mount that `prepare_mount` makes of a request.
    pub open spec fn of(request: CreateMountRequestView) -> PendingMountView {
        PendingMountView {
            request,
            fuse: AntaresFuseView::fresh(request.mountpoint, request.upper_dir, request.cl_dir),
        }
    }

    /// The entry that is registered for this pending mount.
    pub open spec fn entry(self, mount_id: u128, now: u64) -> MountEntryView {
        MountEntryView {
            mount_id,
            request: self.request,
            fuse: AntaresFuseView { mounted: true, ..self.fuse },
            state: MountLifecycleView::Mounted,
            created_at_epoch_ms: now,
            last_seen_epoch_ms: now,
        }
    }
}

impl View for PendingMount {
    type V = PendingMountView;

    closed spec fn view(&self) -> PendingMountView {
        PendingMountView { request: self.request@, fuse: self.fuse@ }
    }
}

impl PendingMount {
    /// The request is valid and the engine is the fresh one built for it.
    pub open spec fn wf(&self) -> bool {
        &&& create_rejection(self@.request) is None
        &&& self@ == PendingMountView::of(self@.request)
        &&& self@.fuse.wf()
    }

    /// The request that is waiting.
    pub fn request(&self) -> (request: &CreateMountRequest)
        ensures
            request@ == self@.request,
    {
        &self.request
    }

    /// The engine whose kernel mount is to be performed.
    pub fn engine(&self) -> (engine: &AntaresFuse)
        ensures
            engine@ == self@.fuse,
    {
        &self.fuse
    }
}

/// How `commit_mount` ended.
#[derive(Debug)]
pub enum CreateOutcome {
    /// The mount is registered.
    Created(MountStatus),
    /// The kernel refused the mount. Nothing is mounted, nothing registered.
    Failed(ServiceError),
    /// Another request claimed the mountpoint while the kernel mount was under
    /// way, or the identifier drawn for the mount is registered already.
    /// Nothing is registered and no entry is touched; the engine handed back
    /// is mounted and has to be torn down.
    Discarded { error: ServiceError, engine: AntaresFuse },
}

/// The mathematical value of a [`CreateOutcome`].
pub enum CreateOutcomeView {
    Created(MountStatusView),
    Failed(ServiceErrorView),
    Discarded { error: ServiceErrorView, engine: AntaresFuseView },
}

impl View for CreateOutcome {
    type V = CreateOutcomeView;

    open spec fn view(&self) -> CreateOutcomeView {
        match self {
            CreateOutcome::Created(status) => CreateOutcomeView::Created(status@),
            CreateOutcome::Failed(error) => CreateOutcomeView::Failed(error@),
            CreateOutcome::Discarded { error, engine } => CreateOutcomeView::Discarded {
                error: error@,
                engine: engine@,
            },
        }
    }
}

/// How committing `pending` to `table` ends, given the kernel's answer to the
/// mount, the identifier drawn for the mount and the time.
pub open spec fn commit_outcome(
    table: Map<u128, MountEntryView>,
    pending: PendingMountView,
    kernel: Result<(), Seq<char>>,
    mount_id: u128,
    now: u64,
) -> CreateOutcomeView {
    match kernel {
        Err(reason) => CreateOutcomeView::Failed(
            ServiceErrorView::FuseFailure("failed to mount: "@ + reason),
        ),
        Ok(_) => if mountpoint_in_use(table, pending.request.mountpoint) {
            CreateOutcomeView::Discarded {
                error: ServiceErrorView::InvalidRequest(
                    "mountpoint "@ + pending.request.mountpoint
                        + " was claimed by another request"@,
                ),
                engine: AntaresFuseView { mounted: true, ..pending.fuse },
            }
        } else if table.contains_key(mount_id) {
            CreateOutcomeView::Discarded {
                error: ServiceErrorView::Internal(
                    "mount identifier "@ + hyphenated(mount_id) + " is already registered"@,
                ),
                engine: AntaresFuseView { mounted: true, ..pending.fuse },
            }
        } else {
            CreateOutcomeView::Created(pending.entry(mount_id, now).status())
        },
    }
}

/// The table after committing `pending` to `table`.
pub open spec fn commit_table(
    table: Map<u128, MountEntryView>,
    pending: PendingMountView,
    kernel: Result<(), Seq<char>>,
    mount_id: u128,
    now: u64,
) -> Map<u128, MountEntryView> {
    if commit_outcome(table, pending, kernel, mount_id, now) is Created {
        table.insert(mount_id, pending.entry(mount_id, now))
    } else {
        table
    }
}

/// The view of a `Result` that carries a status.
pub open spec fn status_result_view(r: Result<MountStatus, ServiceError>) -> Result<
    MountStatusView,
    ServiceErrorView,
> {
    match r {
        Ok(status) => Ok(status@),
        Err(e) => Err(e@),
    }
}

/// Concrete implementation of the mount service: the table of active mounts,
/// indexed by mount identifier.
pub struct AntaresServiceImpl {
    mounts: HashMap<u128, MountEntry>,
    start_time: Instant,
}

impl View for AntaresServiceImpl {
    type V = Map<u128, MountEntryView>;

    closed spec fn view(&self) -> Map<u128, MountEntryView> {
        self.mounts@.map_values(|e: MountEntry| e@)
    }
}

impl AntaresServiceImpl {
    /// The invariant of the service: see [`table_wf`].
    pub open spec fn wf(&self) -> bool {
        table_wf(self@)
    }

    /// Create a new service instance with no mounts. Its uptime counts from now.
    pub fn new() -> (service: Self)
        ensures
            service@ == Map::<u128, MountEntryView>::empty(),
            service.wf(),
    {
        let service = AntaresServiceImpl { mounts: HashMap::new(), start_time: instant_now() };
        assert(service@ =~= Map::<u128, MountEntryView>::empty());
        service
    }

    /// Validate the create mount request.
    pub fn validate_request(request: &CreateMountRequest) -> (r: Result<(), ServiceError>)
        ensures
            match r {
                Ok(_) => create_rejection(request@) is None,
                Err(e) => create_rejection(request@) is Some && e@
                    == ServiceErrorView::InvalidRequest(create_rejection(request@)->0),
            },
    {
        if request.mountpoint.as_str().is_empty() {
            return Err(
                ServiceError::InvalidRequest(String::from_str("mountpoint cannot be empty")),
            );
        }
        if request.upper_dir.as_str().is_empty() {
            return Err(ServiceError::InvalidRequest(String::from_str("upper_dir cannot be empty")));
        }
        if request.readonly {
            return Err(
                ServiceError::InvalidRequest(
                    String::from_str("readonly mounts are not yet supported"),
                ),
            );
        }
        Ok(())
    }

    /// The identifiers of the registered mounts, each once, in the order in
    /// which the table walks them.
    fn mount_ids(&self) -> (ids: Vec<u128>)
        ensures
            ids@.no_duplicates(),
            ids@.to_set() == self@.dom(),
            ids@.len() == self@.dom().len(),
    {
        let mut ids: Vec<u128> = Vec::new();
        let ghost keys = spec_keys_iter(&self.mounts).remaining();
        for id in walk: self.mounts.keys()
            invariant
                walk.seq() == keys,
                ids@.len() == walk.index(),
                forall|j: int| 0 <= j < ids@.len() ==> ids@[j] == *keys[j],
        {
            ids.push(*id);
        }
        proof {
            assert(ids@ =~= keys.unref());
            assert forall|i: int, j: int|
                0 <= i < ids@.len() && 0 <= j < ids@.len() && i != j implies ids@[i] != ids@[j] by {
                assert(keys[i] != keys[j]);
            }
            assert(self@.dom() =~= self.mounts@.dom());
            ids@.unique_seq_to_set();
        }
        ids
    }

    /// Check if a mountpoint is already in use.
    pub fn is_mountpoint_in_use(&self, mountpoint: &str) -> (in_use: bool)
        ensures
            in_use == mountpoint_in_use(self@, mountpoint@),
    {
        let ids = self.mount_ids();
        let wanted: String = mountpoint.to_owned();
        let mut i: usize = 0;
        while i < ids.len()
            invariant
                i <= ids@.len(),
                wanted@ == mountpoint@,
                ids@.to_set() == self@.dom(),
                forall|j: int| 0 <= j < i ==> (#[trigger] self@[ids@[j]]).request.mountpoint != mountpoint@,
            decreases ids@.len() - i,
        {
            assert(ids@.to_set().contains(ids@[i as int]));
            match self.mounts.get(&ids[i]) {
                Some(entry) => {
                    if entry.request.mountpoint == wanted {
                        assert(self@[ids@[i as int]].request.mountpoint == mountpoint@);
                        return true;
                    }
                },
                None => {},
            }
            i += 1;
        }
        proof {
            assert forall|id: u128| self@.contains_key(id) implies (#[trigger] self@[id]).request.mountpoint
                != mountpoint@ by {
                assert(ids@.to_set().contains(id));
                let j = choose|j: int| 0 <= j < ids@.len() && ids@[j] == id;
                assert(self@[ids@[j]].request.mountpoint != mountpoint@);
            }
        }
        false
    }

    /// The health report of a service that has been up for `uptime_secs`
    /// seconds: it is healthy and counts its registered mounts.
    pub fn health_at(&self, uptime_secs: u64) -> (health: HealthResponse)
        ensures
            health@ == (HealthResponseView {
                status: "healthy"@,
                mount_count: self@.dom().len() as usize,
                uptime_secs,
            }),
            health@.mount_count == self@.dom().len(),
    {
        assert(self@.dom() =~= self.mounts@.dom());
        HealthResponse::healthy(self.mounts.len(), uptime_secs)
    }

    /// Get service health information: [`Self::health_at`] for the time that
    /// has passed since the service was made.
    pub fn health_info(&self) -> (health: HealthResponse)
        ensures
            health@ == (HealthResponseView {
                status: "healthy"@,
                mount_count: self@.dom().len() as usize,
                uptime_secs: health@.uptime_secs,
            }),
            health@.mount_count == self@.dom().len(),
    {
        let uptime = uptime_secs(&self.start_time);
        self.health_at(uptime)
    }

    /// Lists every mount at time `now`. Listing is an access to each entry:
    /// every entry is seen at `now`, and the statuses returned show it so.
    /// Each mount is listed exactly once, in the order in which the table
    /// walks them.
    pub fn list_mounts_at(&mut self, now: u64) -> (r: Result<Vec<MountStatus>, ServiceError>)
        requires
            old(self).wf(),
        ensures
            final(self).wf(),
            final(self)@ == listed_table(old(self)@, now),
            r matches Ok(list) && is_listing(
                crate::daemon::antares::model::statuses_view(list@),
                final(self)@,
            ),
    {
        let ids = self.mount_ids();
        let mut list: Vec<MountStatus> = Vec::new();
        let mut i: usize = 0;
        while i < ids.len()
            invariant
                i <= ids@.len(),
                old(self).wf(),
                ids@.no_duplicates(),
                ids@.to_set() == old(self)@.dom(),
                ids@.len() == old(self)@.dom().len(),
                self@.dom() == old(self)@.dom(),
                list@.len() == i,
                forall|j: int|
                    0 <= j < i ==> #[trigger] self@[ids@[j]] == seen_entry(
                        old(self)@[ids@[j]],
                        now,
                    ),
                forall|j: int|
                    i <= j < ids@.len() ==> #[trigger] self@[ids@[j]] == old(self)@[ids@[j]],
                forall|j: int|
                    0 <= j < i ==> (#[trigger] list@[j])@ == seen_entry(
                        old(self)@[ids@[j]],
                        now,
                    ).status(),
            decreases ids@.len() - i,
        {
            let ghost before = self@;
            let id = ids[i];
            assert(ids@.to_set().contains(ids@[i as int]));
            assert(before[ids@[i as int]] == old(self)@[ids@[i as int]]);
            match self.mounts.remove(&id) {
                Some(entry) => {
                    let mut entry = entry;
                    assert(entry@ == before[id]);
                    entry.seen_at(now);
                    list.push(entry.to_status());
                    let ghost seen = entry@;
                    self.mounts.insert(id, entry);
                    proof {
                        assert(self@ =~= before.insert(id, seen));
                        assert(self@.dom() =~= old(self)@.dom());
                    }
                },
                None => {
                    assert(false);
                },
            }
            proof {
                assert forall|j: int| 0 <= j < i + 1 implies #[trigger] self@[ids@[j]]
                    == seen_entry(old(self)@[ids@[j]], now) by {
                    if j < i {
                        assert(ids@[j] != ids@[i as int]);
                        assert(before[ids@[j]] == seen_entry(old(self)@[ids@[j]], now));
                    }
                }
                assert forall|j: int| i + 1 <= j < ids@.len() implies #[trigger] self@[ids@[j]]
                    == old(self)@[ids@[j]] by {
                    assert(ids@[j] != ids@[i as int]);
                    assert(before[ids@[j]] == old(self)@[ids@[j]]);
                }
            }
            i += 1;
        }
        proof {
            let wanted = listed_table(old(self)@, now);
            assert forall|id: u128| self@.contains_key(id) implies #[trigger] self@[id]
                == wanted[id] by {
                assert(ids@.to_set().contains(id));
                let j = choose|j: int| 0 <= j < ids@.len() && ids@[j] == id;
                assert(self@[ids@[j]] == seen_entry(old(self)@[ids@[j]], now));
            }
            assert(self@ =~= wanted);
            lemma_listing_keeps_wf(old(self)@, now);
            let shown = crate::daemon::antares::model::statuses_view(list@);
            assert forall|j: int| 0 <= j < shown.len() implies self@.contains_key(
                (#[trigger] shown[j]).mount_id,
            ) && shown[j] == self@[shown[j].mount_id].status() by {
                assert(ids@.to_set().contains(ids@[j]));
                assert(list@[j]@ == seen_entry(old(self)@[ids@[j]], now).status());
                assert(self@[ids@[j]] == seen_entry(old(self)@[ids@[j]], now));
            }
            assert forall|a: int, b: int| 0 <= a < b < shown.len() implies (#[trigger] shown[a]).mount_id
                != (#[trigger] shown[b]).mount_id by {
                assert(ids@.to_set().contains(ids@[a]));
                assert(ids@.to_set().contains(ids@[b]));
                assert(list@[a]@ == seen_entry(old(self)@[ids@[a]], now).status());
                assert(list@[b]@ == seen_entry(old(self)@[ids@[b]], now).status());
            }
        }
        Ok(list)
    }

    /// Lists every mount: as [`Self::list_mounts_at`], at the time the clock
    /// shows. Listing counts as an access to every entry, so each one has
    /// its last_seen timestamp refreshed.
    pub fn list_mounts(&mut self) -> (r: Result<Vec<MountStatus>, ServiceError>)
        requires
            old(self).wf(),
        ensures
            final(self).wf(),
            exists|now: u64| final(self)@ == #[trigger] listed_table(old(self)@, now),
            r matches Ok(list) && is_listing(
                crate::daemon::antares::model::statuses_view(list@),
                final(self)@,
            ),
    {
        let now = current_epoch_ms();
        self.list_mounts_at(now)
    }

    /// Describes one mount at time `now`. Describing is an access to the
    /// entry: its last_seen timestamp becomes `now`, in the table and in the
    /// status returned. An identifier that is not registered gives `NotFound`
    /// and changes nothing.
    pub fn describe_mount_at(&mut self, mount_id: u128, now: u64) -> (r: Result<
        MountStatus,
        ServiceError,
    >)
        requires
            old(self).wf(),
        ensures
            final(self).wf(),
            status_result_view(r) == describe_result(old(self)@, mount_id, now),
            final(self)@ == described_table(old(self)@, mount_id, now),
    {
        match self.mounts.remove(&mount_id) {
            Some(entry) => {
                let mut entry = entry;
                entry.seen_at(now);
                let status = entry.to_status();
                let ghost seen = entry@;
                self.mounts.insert(mount_id, entry);
                proof {
                    assert(final(self)@ =~= old(self)@.insert(mount_id, seen));
                    lemma_access_keeps_wf(old(self)@, mount_id, now);
                }
                Ok(status)
            },
            None => {
                proof {
                    assert(final(self)@ =~= old(self)@);
                }
                Err(ServiceError::NotFound(mount_id))
            },
        }
    }

    /// The status of one mount, or `NotFound`: as
    /// [`Self::describe_mount_at`], at the time the clock shows.
    pub fn describe_mount(&mut self, mount_id: u128) -> (r: Result<MountStatus, ServiceError>)
        requires
            old(self).wf(),
        ensures
            final(self).wf(),
            match r {
                Ok(status) => {
                    &&& status_result_view(r) == describe_result(
                        old(self)@,
                        mount_id,
                        status@.last_seen_epoch_ms,
                    )
                    &&& final(self)@ == described_table(
                        old(self)@,
                        mount_id,
                        status@.last_seen_epoch_ms,
                    )
                },
                Err(e) => !old(self)@.contains_key(mount_id) && e@ == ServiceErrorView::NotFound(
                    mount_id,
                ) && final(self)@ == old(self)@,
            },
    {
        let now = current_epoch_ms();
        self.describe_mount_at(mount_id, now)
    }

    /// The first step of creating a mount: validates the request, turns it
    /// down if its mountpoint is registered, and builds the engine. Nothing is
    /// mounted and the table is not touched.
    pub fn prepare_mount(&self, request: CreateMountRequest) -> (r: Result<
        PendingMount,
        ServiceError,
    >)
        ensures
            match r {
                Ok(pending) => prepare_rejection(self@, request@) is None && pending@
                    == PendingMountView::of(request@) && pending.wf(),
                Err(e) => prepare_rejection(self@, request@) == Some(e@),
            },
    {
        match Self::validate_request(&request) {
            Ok(_) => {},
            Err(e) => {
                return Err(e);
            },
        }
        if self.is_mountpoint_in_use(request.mountpoint.as_str()) {
            return Err(
                ServiceError::InvalidRequest(
                    String::from_str("mountpoint ").concat(request.mountpoint.as_str()).concat(
                        " is already in use",
                    ),
                ),
            );
        }
        let built = AntaresFuse::new(
            request.mountpoint.clone(),
            request.upper_dir.clone(),
            clone_optional_text(&request.cl_dir),
        );
        match built {
            Ok(fuse) => Ok(PendingMount { request, fuse }),
            Err(e) => {
                let shown = e.message();
                Err(
                    ServiceError::FuseFailure(
                        String::from_str("failed to create fuse: ").concat(shown.as_str()),
                    ),
                )
            },
        }
    }

    /// The second step of creating a mount, with the identifier and the time
    /// given: takes the kernel's answer to the mount of the pending engine,
    /// checks the mountpoint once more, and registers the mount.
    pub fn commit_mount_with(
        &mut self,
        pending: PendingMount,
        kernel: Result<(), String>,
        mount_id: u128,
        now: u64,
    ) -> (outcome: CreateOutcome)
        requires
            old(self).wf(),
            pending.wf(),
        ensures
            outcome@ == commit_outcome(old(self)@, pending@, outcome_view(kernel), mount_id, now),
            final(self)@ == commit_table(old(self)@, pending@, outcome_view(kernel), mount_id, now),
            final(self).wf(),
    {
        let PendingMount { request, fuse } = pending;
        let mut fuse = fuse;
        match fuse.mount(kernel) {
            Ok(_) => {},
            Err(e) => {
                let shown = e.message();
                return CreateOutcome::Failed(
                    ServiceError::FuseFailure(
                        String::from_str("failed to mount: ").concat(shown.as_str()),
                    ),
                );
            },
        }
        if self.is_mountpoint_in_use(request.mountpoint.as_str()) {
            return CreateOutcome::Discarded {
                error: ServiceError::InvalidRequest(
                    String::from_str("mountpoint ").concat(request.mountpoint.as_str()).concat(
                        " was claimed by another request",
                    ),
                ),
                engine: fuse,
            };
        }
        assert(self@.dom() =~= self.mounts@.dom());
        if self.mounts.contains_key(&mount_id) {
            let shown = mount_id_text(mount_id);
            return CreateOutcome::Discarded {
                error: ServiceError::Internal(
                    String::from_str("mount identifier ").concat(shown.as_str()).concat(
                        " is already registered",
                    ),
                ),
                engine: fuse,
            };
        }
        let entry = MountEntry {
            mount_id,
            request,
            fuse,
            state: MountLifecycle::Mounted,
            created_at_epoch_ms: now,
            last_seen_epoch_ms: now,
        };
        let status = entry.to_status();
        let ghost added = entry@;
        self.mounts.insert(mount_id, entry);
        proof {
            assert(final(self)@ =~= old(self)@.insert(mount_id, added));
            lemma_insert_keeps_wf(old(self)@, mount_id, added);
        }
        CreateOutcome::Created(status)
    }

    /// The second step of creating a mount: draws a fresh identifier, reads
    /// the clock, and commits as [`Self::commit_mount_with`] does.
    pub fn commit_mount(&mut self, pending: PendingMount, kernel: Result<(), String>) -> (outcome:
        CreateOutcome)
        requires
            old(self).wf(),
            pending.wf(),
        ensures
            exists|mount_id: u128, now: u64|
                {
                    &&& is_random_uuid(mount_id)
                    &&& outcome@ == #[trigger] commit_outcome(
                        old(self)@,
                        pending@,
                        outcome_view(kernel),
                        mount_id,
                        now,
                    )
                    &&& final(self)@ == commit_table(
                        old(self)@,
                        pending@,
                        outcome_view(kernel),
                        mount_id,
                        now,
                    )
                },
            final(self).wf(),
    {
        let mount_id = fresh_mount_id();
        let now = current_epoch_ms();
        self.commit_mount_with(pending, kernel, mount_id, now)
    }

    /// The first step of deleting a mount, with the time given: takes the
    /// entry out of the table and hands it over in state `Unmounting`, for the
    /// kernel unmount and [`MountEntry::finish_unmount`].
    pub fn delete_mount_at(&mut self, mount_id: u128, now: u64) -> (r: Result<
        MountEntry,
        ServiceError,
    >)
        requires
            old(self).wf(),
        ensures
            match r {
                Ok(entry) => old(self)@.contains_key(mount_id) && entry@ == deleted_entry(
                    old(self)@[mount_id],
                    now,
                ),
                Err(e) => !old(self)@.contains_key(mount_id) && e@ == ServiceErrorView::NotFound(
                    mount_id,
                ),
            },
            final(self)@ == old(self)@.remove(mount_id),
            final(self).wf(),
    {
        match self.mounts.remove(&mount_id) {
            Some(entry) => {
                let mut entry = entry;
                entry.state = MountLifecycle::Unmounting;
                entry.seen_at(now);
                proof {
                    assert(final(self)@ =~= old(self)@.remove(mount_id));
                    lemma_remove_keeps_wf(old(self)@, mount_id);
                }
                Ok(entry)
            },
            None => {
                proof {
                    assert(final(self)@ =~= old(self)@.remove(mount_id));
                    assert(old(self)@.remove(mount_id) =~= old(self)@);
                }
                Err(ServiceError::NotFound(mount_id))
            },
        }
    }

    /// The first step of deleting a mount: as [`Self::delete_mount_at`], at
    /// the time the clock shows.
    pub fn delete_mount(&mut self, mount_id: u128) -> (r: Result<MountEntry, ServiceError>)
        requires
            old(self).wf(),
        ensures
            match r {
                Ok(entry) => old(self)@.contains_key(mount_id) && entry@ == deleted_entry(
                    old(self)@[mount_id],
                    entry@.last_seen_epoch_ms,
                ),
                Err(e) => !old(self)@.contains_key(mount_id) && e@ == ServiceErrorView::NotFound(
                    mount_id,
                ),
            },
            final(self)@ == old(self)@.remove(mount_id),
            final(self).wf(),
    {
        let now = current_epoch_ms();
        self.delete_mount_at(mount_id, now)
    }

    /// Takes every mount out of the table, for the shutdown sweep: each entry
    /// handed out is to be unmounted, whatever becomes of the others.
    pub fn shutdown_cleanup(&mut self) -> (drained: Vec<MountEntry>)
        requires
            old(self).wf(),
        ensures
            final(self)@ == Map::<u128, MountEntryView>::empty(),
            final(self).wf(),
            is_drain(entries_view(drained@), old(self)@),
    {
        let ids = self.mount_ids();
        let mut drained: Vec<MountEntry> = Vec::new();
        let mut i: usize = 0;
        while i < ids.len()
            invariant
                i <= ids@.len(),
                ids@.no_duplicates(),
                ids@.to_set() == old(self)@.dom(),
                ids@.len() == old(self)@.dom().len(),
                drained@.len() == i,
                forall|j: int| 0 <= j < i ==> (#[trigger] drained@[j])@ == old(self)@[ids@[j]],
                forall|id: u128|
                    self@.contains_key(id) <==> old(self)@.contains_key(id) && !ids@.subrange(
                        0,
                        i as int,
                    ).contains(id),
                forall|id: u128| self@.contains_key(id) ==> #[trigger] self@[id] == old(self)@[id],
                old(self).wf(),
            decreases ids@.len() - i,
        {
            let ghost before = self@;
            assert(ids@.to_set().contains(ids@[i as int]));
            assert(!ids@.subrange(0, i as int).contains(ids@[i as int]));
            match self.mounts.remove(&ids[i]) {
                Some(entry) => {
                    assert(entry@ == before[ids@[i as int]]);
                    assert(before[ids@[i as int]] == old(self)@[ids@[i as int]]);
                    drained.push(entry);
                },
                None => {
                    assert(false);
                },
            }
            proof {
                assert(self@ =~= before.remove(ids@[i as int]));
                assert forall|id: u128|
                    self@.contains_key(id) <==> old(self)@.contains_key(id) && !ids@.subrange(
                        0,
                        i + 1,
                    ).contains(id) by {
                    let longer = ids@.subrange(0, i + 1);
                    let shorter = ids@.subrange(0, i as int);
                    if shorter.contains(id) {
                        let k = choose|k: int| 0 <= k < shorter.len() && shorter[k] == id;
                        assert(longer[k] == id);
                    }
                    if id == ids@[i as int] {
                        assert(longer[i as int] == id);
                    }
                    if longer.contains(id) {
                        let k = choose|k: int| 0 <= k < longer.len() && longer[k] == id;
                        if k < i {
                            assert(shorter[k] == id);
                        }
                    }
                }
            }
            i += 1;
        }
        proof {
            assert(ids@.subrange(0, ids@.len() as int) =~= ids@);
            assert forall|id: u128| !self@.contains_key(id) by {
                if old(self)@.contains_key(id) {
                    assert(ids@.to_set().contains(id));
                }
            }
            assert(self@ =~= Map::<u128, MountEntryView>::empty());
            let out = entries_view(drained@);
            assert forall|j: int| 0 <= j < out.len() implies old(self)@.contains_key(
                (#[trigger] out[j]).mount_id,
            ) && out[j] == old(self)@[out[j].mount_id] by {
                assert(ids@.to_set().contains(ids@[j]));
                assert(drained@[j]@ == old(self)@[ids@[j]]);
            }
            assert forall|a: int, b: int| 0 <= a < b < out.len() implies (#[trigger] out[a]).mount_id
                != (#[trigger] out[b]).mount_id by {
                assert(ids@.to_set().contains(ids@[a]));
                assert(ids@.to_set().contains(ids@[b]));
                assert(drained@[a]@ == old(self)@[ids@[a]]);
                assert(drained@[b]@ == old(self)@[ids@[b]]);
            }
        }
        drained
    }
}

/// The entries of a list, as mathematical values.
pub open spec fn entries_view(entries: Seq<MountEntry>) -> Seq<MountEntryView> {
    entries.map_values(|e: MountEntry| e@)
}

/// Registering a well-formed entry under its identifier, with a mountpoint
/// that no entry holds, keeps the table well formed.
pub proof fn lemma_insert_keeps_wf(
    table: Map<u128, MountEntryView>,
    mount_id: u128,
    entry: MountEntryView,
)
    requires
        table_wf(table),
        entry_wf(mount_id, entry),
        !mountpoint_in_use(table, entry.request.mountpoint),
    ensures
        table_wf(table.insert(mount_id, entry)),
{
    let after = table.insert(mount_id, entry);
    assert forall|a: u128, b: u128|
        after.contains_key(a) && after.contains_key(b) && (#[trigger] after[a]).request.mountpoint
            == (#[trigger] after[b]).request.mountpoint implies a == b by {
        if a != mount_id && b != mount_id {
            assert(table[a].request.mountpoint == table[b].request.mountpoint);
        } else if a != mount_id {
            assert(table.contains_key(a) && table[a].request.mountpoint
                == entry.request.mountpoint);
        } else if b != mount_id {
            assert(table.contains_key(b) && table[b].request.mountpoint
                == entry.request.mountpoint);
        }
    }
}

/// An access to a registered entry keeps the table well formed.
pub proof fn lemma_access_keeps_wf(table: Map<u128, MountEntryView>, mount_id: u128, now: u64)
    requires
        table_wf(table),
        table.contains_key(mount_id),
    ensures
        table_wf(table.insert(mount_id, seen_entry(table[mount_id], now))),
{
    let after = table.insert(mount_id, seen_entry(table[mount_id], now));
    assert(after.dom() =~= table.dom());
    assert forall|id: u128| after.contains_key(id) implies entry_wf(id, #[trigger] after[id]) by {
        assert(entry_wf(id, table[id]));
    }
    assert forall|a: u128, b: u128|
        after.contains_key(a) && after.contains_key(b) && (#[trigger] after[a]).request.mountpoint
            == (#[trigger] after[b]).request.mountpoint implies a == b by {
        assert(table[a].request.mountpoint == table[b].request.mountpoint);
    }
}

/// A listing keeps the table well formed.
pub proof fn lemma_listing_keeps_wf(table: Map<u128, MountEntryView>, now: u64)
    requires
        table_wf(table),
    ensures
        table_wf(listed_table(table, now)),
        listed_table(table, now).dom() == table.dom(),
{
    let after = listed_table(table, now);
    assert(after.dom() =~= table.dom());
    assert forall|id: u128| after.contains_key(id) implies entry_wf(id, #[trigger] after[id]) by {
        assert(entry_wf(id, table[id]));
    }
    assert forall|a: u128, b: u128|
        after.contains_key(a) && after.contains_key(b) && (#[trigger] after[a]).request.mountpoint
            == (#[trigger] after[b]).request.mountpoint implies a == b by {
        assert(table[a].request.mountpoint == table[b].request.mountpoint);
    }
}

/// Taking an entry out keeps the table well formed.
pub proof fn lemma_remove_keeps_wf(table: Map<u128, MountEntryView>, mount_id: u128)
    requires
        table_wf(table),
    ensures
        table_wf(table.remove(mount_id)),
{
    let after = table.remove(mount_id);
    assert forall|a: u128, b: u128|
        after.contains_key(a) && after.contains_key(b) && (#[trigger] after[a]).request.mountpoint
            == (#[trigger] after[b]).request.mountpoint implies a == b by {
        assert(table[a].request.mountpoint == table[b].request.mountpoint);
    }
}

impl HealthResponse {
    /// The report of a service that is up.
    pub fn healthy(mount_count: usize, uptime_secs: u64) -> (health: HealthResponse)
        ensures
            health@ == (HealthResponseView { status: "healthy"@, mount_count, uptime_secs }),
    {
        HealthResponse { status: String::from_str("healthy"), mount_count, uptime_secs }
    }
}

} // verus!
