//! What holds of the mount service across several of its operations.

use crate::daemon::antares::error::ServiceErrorView;
use crate::daemon::antares::model::{CreateMountRequestView, MountLifecycleView};
use crate::daemon::antares::service::{
    commit_outcome, commit_table, create_rejection, deleted_entry, describe_result,
    described_table, entry_wf, lemma_access_keeps_wf, lemma_insert_keeps_wf,
    lemma_listing_keeps_wf, listed_table, mountpoint_in_use, prepare_rejection, table_wf,
    CreateOutcomeView, MountEntryView, PendingMountView,
};
use vstd::prelude::*;

verus! {

/// A request with an empty mountpoint, an empty upper directory or the
/// read-only flag is turned down as an invalid request, whatever the table
/// holds. The step that turns it down only reads the table, and no pending
/// mount ever stands for such a request, so no entry comes of it.
pub proof fn invalid_request_is_rejected(
    table: Map<u128, MountEntryView>,
    request: CreateMountRequestView,
)
    requires
        request.mountpoint.len() == 0 || request.upper_dir.len() == 0 || request.readonly,
    ensures
        prepare_rejection(table, request) matches Some(ServiceErrorView::InvalidRequest(_)),
        create_rejection(request) is Some,
        PendingMountView::of(request).request == request,
{
}

/// A commit registers a mount exactly when the kernel accepted it, no entry
/// holds its mountpoint, and the identifier drawn is not registered; it then
/// adds one entry under that identifier, in state `Mounted`, and reports it
/// so. Otherwise the table stays as it was: a commit never replaces or
/// removes an entry.
pub proof fn commit_registers_or_leaves(
    table: Map<u128, MountEntryView>,
    pending: PendingMountView,
    kernel: Result<(), Seq<char>>,
    mount_id: u128,
    now: u64,
)
    requires
        table_wf(table),
    ensures
        commit_outcome(table, pending, kernel, mount_id, now) is Created <==> kernel is Ok
            && !mountpoint_in_use(table, pending.request.mountpoint) && !table.contains_key(
            mount_id,
        ),
        forall|id: u128|
            table.contains_key(id) ==> commit_table(
                table,
                pending,
                kernel,
                mount_id,
                now,
            ).contains_key(id) && #[trigger] commit_table(table, pending, kernel, mount_id, now)[id]
                == table[id],
        commit_outcome(table, pending, kernel, mount_id, now) matches CreateOutcomeView::Created(
            status,
        ) ==> {
            &&& status.state is Mounted
            &&& status.mount_id == mount_id
            &&& status.mountpoint == pending.request.mountpoint
            &&& describe_result(
                commit_table(table, pending, kernel, mount_id, now),
                mount_id,
                now,
            ) == Ok::<_, ServiceErrorView>(status)
            &&& commit_table(table, pending, kernel, mount_id, now).dom().len()
                == table.dom().len() + 1
        },
        !(commit_outcome(table, pending, kernel, mount_id, now) is Created) ==> commit_table(
            table,
            pending,
            kernel,
            mount_id,
            now,
        ) == table,
{
}

/// Once a mount is registered, a second request for the same mountpoint is
/// turned down as an invalid request, at the first step and at the commit
/// alike, and the table keeps exactly one entry for that mountpoint.
pub proof fn duplicate_mountpoint_is_rejected(
    table: Map<u128, MountEntryView>,
    first: CreateMountRequestView,
    kernel: Result<(), Seq<char>>,
    mount_id: u128,
    now: u64,
    second: CreateMountRequestView,
    second_kernel: Result<(), Seq<char>>,
    second_id: u128,
    later: u64,
)
    requires
        table_wf(table),
        create_rejection(first) is None,
        commit_outcome(table, PendingMountView::of(first), kernel, mount_id, now) is Created,
        second.mountpoint == first.mountpoint,
    ensures
        ({
            let after = commit_table(table, PendingMountView::of(first), kernel, mount_id, now);
            &&& table_wf(after)
            &&& prepare_rejection(after, second) matches Some(ServiceErrorView::InvalidRequest(_))
            &&& !(commit_outcome(
                after,
                PendingMountView::of(second),
                second_kernel,
                second_id,
                later,
            ) is Created)
            &&& commit_table(after, PendingMountView::of(second), second_kernel, second_id, later)
                == after
            &&& forall|id: u128|
                after.contains_key(id) && (#[trigger] after[id]).request.mountpoint
                    == first.mountpoint ==> id == mount_id
        }),
{
    let pending = PendingMountView::of(first);
    let entry = pending.entry(mount_id, now);
    let after = commit_table(table, pending, kernel, mount_id, now);
    assert(entry_wf(mount_id, entry));
    lemma_insert_keeps_wf(table, mount_id, entry);
    assert(after.contains_key(mount_id) && after[mount_id].request.mountpoint
        == second.mountpoint);
}

/// Deleting a registered mount walks the lifecycle to its end: the entry
/// leaves the table in state `Unmounting`, the status reported after the
/// unmount is `Unmounted`, or `Failed` with the reason where the kernel
/// refused, and from then on the service does not know the identifier.
pub proof fn deleted_mount_is_gone(
    table: Map<u128, MountEntryView>,
    mount_id: u128,
    now: u64,
    kernel: Result<(), Seq<char>>,
    later: u64,
)
    requires
        table_wf(table),
        table.contains_key(mount_id),
    ensures
        ({
            let handed = deleted_entry(table[mount_id], now);
            let reported = handed.status_after_unmount(kernel);
            &&& table[mount_id].state.steps_to(handed.state)
            &&& handed.state.steps_to(reported.state)
            &&& reported.state.is_terminal()
            &&& reported.mount_id == mount_id
            &&& kernel is Ok ==> reported.state is Unmounted
            &&& kernel matches Err(reason) ==> reported.state == (MountLifecycleView::Failed {
                reason: "unmount failed: "@ + reason,
            })
            &&& describe_result(table.remove(mount_id), mount_id, later) == Err::<
                crate::daemon::antares::model::MountStatusView,
                _,
            >(ServiceErrorView::NotFound(mount_id))
            &&& table.remove(mount_id).dom().len() == table.dom().len() - 1
        }),
{
}

/// Every access refreshes last_seen. Describing a registered mount at time
/// `now` shows `now` as its last_seen timestamp, in the status returned and
/// in the entry kept, and changes nothing else of it: identifier, request,
/// state and creation time stay. No other entry changes. Listing at `now`
/// does the same to every entry. Neither adds nor removes an entry.
pub proof fn access_refreshes_last_seen(
    table: Map<u128, MountEntryView>,
    mount_id: u128,
    now: u64,
    other: u128,
)
    requires
        table_wf(table),
        table.contains_key(mount_id),
        table.contains_key(other),
    ensures
        ({
            let described = described_table(table, mount_id, now);
            let listed = listed_table(table, now);
            &&& describe_result(table, mount_id, now) matches Ok(status)
                && status.last_seen_epoch_ms == now && status.created_at_epoch_ms
                == table[mount_id].created_at_epoch_ms && status.mount_id == mount_id
                && status.state == table[mount_id].state
            &&& table_wf(described)
            &&& described.dom() == table.dom()
            &&& described[mount_id] == (MountEntryView {
                last_seen_epoch_ms: now,
                ..table[mount_id]
            })
            &&& other != mount_id ==> described[other] == table[other]
            &&& table_wf(listed)
            &&& listed.dom() == table.dom()
            &&& listed[other] == (MountEntryView { last_seen_epoch_ms: now, ..table[other] })
        }),
{
    lemma_access_keeps_wf(table, mount_id, now);
    lemma_listing_keeps_wf(table, now);
    assert(described_table(table, mount_id, now).dom() =~= table.dom());
}

} // verus!
