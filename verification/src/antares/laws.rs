//! What holds of the copy-up protocol.

use crate::antares::fuse::{
    applied, AntaresFuseView, RenameStepView, WriteOp, WriteStepView,
};
use crate::dicfuse::attr::{kind_of_mode, AttributeSnapshot, InodeKind, S_IFMT};
use crate::fserror::{FsErrorView, ENOSYS};
use vstd::prelude::*;

verus! {

/// Copy-up happens once. After a path that lived in the lower layer only has
/// been copied up, it lives in the upper layer whatever the lower layer
/// resolves it to: no write-class operation on it asks for a copy-up again,
/// and ending the protocol again changes nothing, whatever the lower layer
/// would answer. The upper entry carries the mode and owner of the lower
/// one, and a regular file was copied only with its full content streamed.
/// The lower layer is not part of the engine and is never written.
pub proof fn copy_up_happens_once(
    engine: AntaresFuseView,
    path: Seq<char>,
    attrs: AttributeSnapshot,
    ttl: u64,
    streamed: Result<u64, FsErrorView>,
    op: WriteOp,
    lower: Option<u64>,
    later_attrs: Result<(AttributeSnapshot, u64), FsErrorView>,
    later_streamed: Result<u64, FsErrorView>,
)
    requires
        !engine.upper.contains_key(path),
        engine.copy_up_result(path, Ok((attrs, ttl)), streamed) is Ok,
    ensures
        ({
            let copied = engine.after_copy_up(path, Ok((attrs, ttl)), streamed);
            &&& copied.resolve(path, lower) is Upper
            &&& !(copied.write_step(path, op, lower) is CopyUp)
            &&& copied.copy_up_result(path, later_attrs, later_streamed) is Ok
            &&& copied.after_copy_up(path, later_attrs, later_streamed) == copied
            &&& copied.upper[path].mode == attrs.mode
            &&& copied.upper[path].uid == attrs.uid
            &&& copied.upper[path].gid == attrs.gid
            &&& kind_of_mode(attrs.mode) == Some(InodeKind::File) ==> streamed == Ok::<
                u64,
                FsErrorView,
            >(attrs.size)
            &&& forall|other: Seq<char>|
                other != path ==> copied.upper.contains_key(other) == engine.upper.contains_key(
                    other,
                ) && (engine.upper.contains_key(other) ==> #[trigger] copied.upper[other]
                    == engine.upper[other])
        }),
{
}

/// What one write-class operation works on, the next one works on too: an
/// operation on a path of the upper layer leaves the path in the upper
/// layer, under the same entry but for the permission bits that a change of
/// mode sets, so a second operation is served from the upper layer as well
/// and finds there what the first one left. No other path is touched.
pub proof fn second_write_is_served_where_the_first_was(
    engine: AntaresFuseView,
    path: Seq<char>,
    first: WriteOp,
    second: WriteOp,
    lower: Option<u64>,
    other: Seq<char>,
)
    requires
        engine.resolve(path, lower) is Upper,
        other != path,
    ensures
        ({
            let written = engine.after_write(path, first, lower);
            &&& !(engine.write_step(path, first, lower) is CopyUp)
            &&& engine.write_step(path, first, lower) is Upper <==> applied(
                engine.upper[path],
                first,
            ) is Ok
            &&& written.resolve(path, lower) is Upper
            &&& !(written.write_step(path, second, lower) is CopyUp)
            &&& !(first is Chmod) ==> written.upper[path] == engine.upper[path]
            &&& first matches WriteOp::Chmod { mode } ==> written.upper[path].mode == (
            engine.upper[path].mode & S_IFMT) | (mode & 0o7777) && written.upper[path].uid
                == engine.upper[path].uid && written.upper[path].gid == engine.upper[path].gid
            &&& written.upper.contains_key(other) == engine.upper.contains_key(other)
            &&& engine.upper.contains_key(other) ==> written.upper[other] == engine.upper[other]
        }),
{
}

/// A failure of the lower layer is never turned into a success: where the
/// lower layer cannot supply the attributes of a path that the upper layer
/// lacks, copy-up fails with the lower layer's own failure, the operation
/// that needed it fails with it too, and the upper layer stays as it was. A
/// lower layer that lacks the capability thus makes the operation fail as
/// not implemented, which callers see as `ENOSYS`.
pub proof fn copy_up_failure_propagates(
    engine: AntaresFuseView,
    path: Seq<char>,
    failure: FsErrorView,
    streamed: Result<u64, FsErrorView>,
    op: WriteOp,
)
    requires
        !engine.upper.contains_key(path),
    ensures
        engine.copy_up_result(path, Err(failure), streamed) == Err::<(), FsErrorView>(failure),
        engine.after_copy_up(path, Err(failure), streamed) == engine,
        engine.write_after_copy_up_result(path, op, Err(failure), streamed) == Err::<
            (),
            FsErrorView,
        >(failure),
        engine.after_write_after_copy_up(path, op, Err(failure), streamed) == engine,
        failure is NotImplemented ==> failure.errno() == ENOSYS && ENOSYS == 38,
        engine.write_after_copy_up_result(path, op, Err(FsErrorView::NotImplemented), streamed)
            matches Err(e) && e.errno() == ENOSYS,
{
}

/// A rename works on the upper layer only: it never moves an entry while the
/// source or the target lives in the lower layer only, but names the end to
/// copy up; and once it has moved the entry, the target holds what the
/// source held and the source is gone from the merged view.
pub proof fn rename_moves_within_the_upper_layer(
    engine: AntaresFuseView,
    from: Seq<char>,
    to: Seq<char>,
    from_lower: Option<u64>,
    to_lower: Option<u64>,
)
    ensures
        !(engine.rename_step(from, to, from_lower, to_lower) is Upper) ==> engine.after_rename(
            from,
            to,
            from_lower,
            to_lower,
        ) == engine,
        engine.resolve(from, from_lower) matches crate::antares::fuse::Residence::Lower(inode)
            ==> engine.rename_step(from, to, from_lower, to_lower)
            == (RenameStepView::CopyUpSource { inode }),
        engine.resolve(from, from_lower) is Upper && from != to ==> (engine.resolve(to, to_lower)
            matches crate::antares::fuse::Residence::Lower(inode) ==> engine.rename_step(
            from,
            to,
            from_lower,
            to_lower,
        ) == (RenameStepView::CopyUpTarget { inode })),
        engine.renames(from, to, from_lower, to_lower) ==> {
            let moved = engine.after_rename(from, to, from_lower, to_lower);
            &&& engine.rename_step(from, to, from_lower, to_lower) == RenameStepView::Upper
            &&& moved.resolve(to, to_lower) is Upper
            &&& moved.upper[to] == engine.upper[from]
            &&& moved.resolve(from, from_lower) is Absent
        },
{
}

/// What the upper layer marks deleted is absent from the merged view,
/// whatever the lower layer has under the path, until the path is created
/// anew.
pub proof fn whiteout_hides_lower(
    engine: AntaresFuseView,
    path: Seq<char>,
    inode: u64,
    op: WriteOp,
    mode: u32,
    uid: u32,
    gid: u32,
)
    requires
        engine.resolve(path, Some(inode)) !is Absent,
    ensures
        ({
            let deleted = engine.after_unlink(path, Some(inode));
            let create = WriteOp::Create { mode, uid, gid };
            &&& engine.unlink_result(path, Some(inode)) is Ok
            &&& deleted.resolve(path, Some(inode)) is Absent
            &&& deleted.unlink_result(path, Some(inode)) == Err::<(), FsErrorView>(
                FsErrorView::NotFound,
            )
            &&& !(op is Create) ==> deleted.write_step(path, op, Some(inode))
                == WriteStepView::Failed(FsErrorView::NotFound)
            &&& deleted.after_write(path, create, Some(inode)).resolve(path, Some(inode)) is Upper
        }),
{
}

} // verus!
