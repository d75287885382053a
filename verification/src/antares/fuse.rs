//! One overlay engine: a mountpoint, the writable upper directory laid over the
//! shared read-only tree, and an optional pass-through directory.
//!
//! The engine decides; the kernel mount, the files of the upper directory and
//! the lower layer are somebody else's, and what they answered is handed in.
//! Of the upper directory the engine keeps what it decides by: which paths
//! stand there, with which mode and owner, and which are marked deleted.

use crate::dicfuse::attr::{kind_of_mode, AttributeSnapshot, InodeKind, S_IFMT, S_IFREG};
use crate::dicfuse::tree::plain_result;
use crate::fserror::{FsError, FsErrorView};
use vstd::prelude::*;
use vstd::string::StringExecFns;

verus! {

/// What the upper layer holds under one path: an entry made or modified
/// since the mount, or the mark of a deletion.
#[derive(Debug)]
pub struct UpperEntry {
    pub path: String,
    /// Whether this marks the path as deleted, hiding what the lower layer
    /// has under it.
    pub whiteout: bool,
    pub mode: u32,
    pub uid: u32,
    pub gid: u32,
}

/// What the upper layer holds under a path, as a mathematical value.
pub struct UpperNodeView {
    pub whiteout: bool,
    pub mode: u32,
    pub uid: u32,
    pub gid: u32,
}

/// The mathematical value of an [`UpperEntry`].
pub struct UpperEntryView {
    pub path: Seq<char>,
    pub node: UpperNodeView,
}

impl View for UpperEntry {
    type V = UpperEntryView;

    open spec fn view(&self) -> UpperEntryView {
        UpperEntryView {
            path: self.path@,
            node: UpperNodeView {
                whiteout: self.whiteout,
                mode: self.mode,
                uid: self.uid,
                gid: self.gid,
            },
        }
    }
}

/// The entries of the upper layer, as mathematical values.
pub open spec fn upper_view(entries: Seq<UpperEntry>) -> Seq<UpperEntryView> {
    entries.map_values(|e: UpperEntry| e@)
}

/// Whether the `i`-th of `entries` stands under `path`.
pub open spec fn holds_path(entries: Seq<UpperEntryView>, path: Seq<char>, i: int) -> bool {
    0 <= i < entries.len() && entries[i].path == path
}

/// Whether no two of `entries` stand under one path.
pub open spec fn distinct_paths(entries: Seq<UpperEntryView>) -> bool {
    forall|i: int, j: int|
        0 <= i < entries.len() && 0 <= j < entries.len() && i != j ==> (#[trigger] entries[i]).path
            != (#[trigger] entries[j]).path
}

/// The upper layer as a map from paths to what stands under them.
pub open spec fn table_of(entries: Seq<UpperEntryView>) -> Map<Seq<char>, UpperNodeView> {
    Map::new(
        |path: Seq<char>| exists|i: int| holds_path(entries, path, i),
        |path: Seq<char>| entries[choose|i: int| holds_path(entries, path, i)].node,
    )
}

/// An overlay engine bound to its directories.
#[derive(Debug)]
pub struct AntaresFuse {
    mountpoint: String,
    upper_dir: String,
    cl_dir: Option<String>,
    mounted: bool,
    upper: Vec<UpperEntry>,
}

/// The mathematical value of an [`AntaresFuse`].
pub struct AntaresFuseView {
    pub mountpoint: Seq<char>,
    pub upper_dir: Seq<char>,
    pub cl_dir: Option<Seq<char>>,
    pub mounted: bool,
    /// What the upper layer holds, by path.
    pub upper: Map<Seq<char>, UpperNodeView>,
}

/// Where a path of the merged view lives.
pub enum Residence {
    /// In the upper layer.
    Upper,
    /// In the lower layer only, under this inode.
    Lower(u64),
    /// Nowhere: neither layer has it, or the upper layer marks it deleted.
    Absent,
}

/// Why the three paths cannot make an engine, if they cannot.
pub open spec fn path_rejection(
    mountpoint: Seq<char>,
    upper_dir: Seq<char>,
    cl_dir: Option<Seq<char>>,
) -> Option<Seq<char>> {
    if mountpoint.len() == 0 {
        Some("mountpoint path is empty"@)
    } else if upper_dir.len() == 0 {
        Some("upper directory path is empty"@)
    } else if cl_dir matches Some(cl) && cl.len() == 0 {
        Some("CL directory path is empty"@)
    } else {
        None
    }
}

impl View for AntaresFuse {
    type V = AntaresFuseView;

    closed spec fn view(&self) -> AntaresFuseView {
        AntaresFuseView {
            mountpoint: self.mountpoint@,
            upper_dir: self.upper_dir@,
            cl_dir: self.cl_dir.deep_view(),
            mounted: self.mounted,
            upper: table_of(upper_view(self.upper@)),
        }
    }
}

impl AntaresFuseView {
    /// The paths are acceptable.
    pub open spec fn wf(self) -> bool {
        path_rejection(self.mountpoint, self.upper_dir, self.cl_dir) is None
    }

    /// The engine as `new` leaves it.
    pub open spec fn fresh(
        mountpoint: Seq<char>,
        upper_dir: Seq<char>,
        cl_dir: Option<Seq<char>>,
    ) -> AntaresFuseView {
        AntaresFuseView { mountpoint, upper_dir, cl_dir, mounted: false, upper: Map::empty() }
    }

    /// What `mount` answers when the kernel reported `kernel`.
    pub open spec fn mount_result(self, kernel: Result<(), Seq<char>>) -> Result<(), FsErrorView> {
        if self.mounted {
            Err(FsErrorView::InvalidRequest("already mounted"@))
        } else {
            match kernel {
                Ok(_) => Ok(()),
                Err(reason) => Err(FsErrorView::BackendFailure(reason)),
            }
        }
    }

    /// What `unmount` answers when the kernel reported `kernel`.
    pub open spec fn unmount_result(self, kernel: Result<(), Seq<char>>) -> Result<
        (),
        FsErrorView,
    > {
        if !self.mounted {
            Ok(())
        } else {
            match kernel {
                Ok(_) => Ok(()),
                Err(reason) => Err(FsErrorView::BackendFailure(reason)),
            }
        }
    }
}

/// A write-class operation on one path.
#[derive(Clone, Copy, Debug, PartialEq, Eq, Structural)]
pub enum WriteOp {
    /// Make sure a regular file stands under the path, creating one with
    /// these permission bits and owner where nothing does.
    Create { mode: u32, uid: u32, gid: u32 },
    /// Write `length` bytes at `offset`.
    Write { offset: u64, length: u64 },
    /// Cut or lengthen the content to `size` bytes.
    Truncate { size: u64 },
    /// Replace the permission bits.
    Chmod { mode: u32 },
}

/// How a write-class operation ended.
#[derive(Debug)]
pub enum WriteStep {
    /// The path lives in the upper layer, and the engine has taken note of
    /// the operation: perform it on the upper entry.
    Upper,
    /// The path lives in the lower layer only: copy this inode up, then ask
    /// again.
    CopyUp { inode: u64 },
    /// The operation cannot be served.
    Failed(FsError),
}

/// The mathematical value of a [`WriteStep`].
pub enum WriteStepView {
    Upper,
    CopyUp { inode: u64 },
    Failed(FsErrorView),
}

impl View for WriteStep {
    type V = WriteStepView;

    open spec fn view(&self) -> WriteStepView {
        match self {
            WriteStep::Upper => WriteStepView::Upper,
            WriteStep::CopyUp { inode } => WriteStepView::CopyUp { inode: *inode },
            WriteStep::Failed(e) => WriteStepView::Failed(e@),
        }
    }
}

/// How a rename ended.
#[derive(Debug)]
pub enum RenameStep {
    /// Both ends live in the upper layer, and the engine has moved the
    /// entry: perform the move in the upper directory. Where source and
    /// target are one path, there is nothing to move.
    Upper,
    /// The source lives in the lower layer only: copy this inode up under
    /// the source path, then ask again.
    CopyUpSource { inode: u64 },
    /// The target lives in the lower layer only: copy this inode up under
    /// the target path, then ask again.
    CopyUpTarget { inode: u64 },
    /// The rename cannot be served.
    Failed(FsError),
}

/// The mathematical value of a [`RenameStep`].
pub enum RenameStepView {
    Upper,
    CopyUpSource { inode: u64 },
    CopyUpTarget { inode: u64 },
    Failed(FsErrorView),
}

impl View for RenameStep {
    type V = RenameStepView;

    open spec fn view(&self) -> RenameStepView {
        match self {
            RenameStep::Upper => RenameStepView::Upper,
            RenameStep::CopyUpSource { inode } => RenameStepView::CopyUpSource { inode: *inode },
            RenameStep::CopyUpTarget { inode } => RenameStepView::CopyUpTarget { inode: *inode },
            RenameStep::Failed(e) => RenameStepView::Failed(e@),
        }
    }
}

/// The mark of a deletion.
pub open spec fn whiteout_node() -> UpperNodeView {
    UpperNodeView { whiteout: true, mode: 0, uid: 0, gid: 0 }
}

/// The upper entry that copy-up makes of a lower entry: its mode and owner.
pub open spec fn copied_node(attrs: AttributeSnapshot) -> UpperNodeView {
    UpperNodeView { whiteout: false, mode: attrs.mode, uid: attrs.uid, gid: attrs.gid }
}

/// The regular file that `Create` makes.
pub open spec fn created_node(mode: u32, uid: u32, gid: u32) -> UpperNodeView {
    UpperNodeView { whiteout: false, mode: S_IFREG | (mode & 0o7777), uid, gid }
}

/// What a write-class operation makes of an upper entry, or why it cannot
/// be applied: a write must not reach past the largest offset; a change of
/// mode replaces the permission bits and keeps the file type; nothing else
/// changes what the engine keeps of the entry.
pub open spec fn applied(node: UpperNodeView, op: WriteOp) -> Result<UpperNodeView, FsErrorView> {
    match op {
        WriteOp::Create { .. } => Ok(node),
        WriteOp::Write { offset, length } => if offset + length > u64::MAX {
            Err(FsErrorView::InvalidRequest("write reaches past the largest file"@))
        } else {
            Ok(node)
        },
        WriteOp::Truncate { .. } => Ok(node),
        WriteOp::Chmod { mode } => Ok(
            UpperNodeView { mode: (node.mode & S_IFMT) | (mode & 0o7777), ..node },
        ),
    }
}

/// The view of how the streaming of a content ended.
pub open spec fn streamed_view(streamed: Result<u64, FsError>) -> Result<u64, FsErrorView> {
    match streamed {
        Ok(count) => Ok(count),
        Err(e) => Err(e@),
    }
}

impl AntaresFuseView {
    /// Where `path` lives, given the inode that the lower layer resolves it
    /// to, if it does. The upper layer takes precedence, and its mark of a
    /// deletion hides the lower entry.
    pub open spec fn resolve(self, path: Seq<char>, lower: Option<u64>) -> Residence {
        if self.upper.contains_key(path) {
            if self.upper[path].whiteout {
                Residence::Absent
            } else {
                Residence::Upper
            }
        } else {
            match lower {
                Some(inode) => Residence::Lower(inode),
                None => Residence::Absent,
            }
        }
    }

    /// What `copy_up` answers, given what the lower layer answered when asked
    /// for the attributes, and how many bytes of content were streamed into
    /// the upper entry.
    pub open spec fn copy_up_result(
        self,
        path: Seq<char>,
        attrs: Result<(AttributeSnapshot, u64), FsErrorView>,
        streamed: Result<u64, FsErrorView>,
    ) -> Result<(), FsErrorView> {
        if self.upper.contains_key(path) {
            Ok(())
        } else {
            match attrs {
                Err(e) => Err(e),
                Ok((found, _)) => if kind_of_mode(found.mode) == Some(InodeKind::File) {
                    match streamed {
                        Err(e) => Err(e),
                        Ok(count) => if count == found.size {
                            Ok(())
                        } else {
                            Err(
                                FsErrorView::BackendFailure(
                                    "lower content is not of the size its attributes state"@,
                                ),
                            )
                        },
                    }
                } else {
                    Ok(())
                },
            }
        }
    }

    /// The engine after `copy_up`: where the upper layer had nothing under
    /// the path and the lower layer supplied what was needed, the path now
    /// stands in the upper layer; otherwise nothing changed.
    pub open spec fn after_copy_up(
        self,
        path: Seq<char>,
        attrs: Result<(AttributeSnapshot, u64), FsErrorView>,
        streamed: Result<u64, FsErrorView>,
    ) -> AntaresFuseView {
        if !self.upper.contains_key(path) && self.copy_up_result(path, attrs, streamed) is Ok {
            AntaresFuseView {
                upper: self.upper.insert(path, copied_node(attrs->Ok_0.0)),
                ..self
            }
        } else {
            self
        }
    }

    /// How a write-class operation ends.
    pub open spec fn write_step(self, path: Seq<char>, op: WriteOp, lower: Option<u64>) -> WriteStepView {
        match self.resolve(path, lower) {
            Residence::Lower(inode) => WriteStepView::CopyUp { inode },
            Residence::Upper => match applied(self.upper[path], op) {
                Ok(_) => WriteStepView::Upper,
                Err(e) => WriteStepView::Failed(e),
            },
            Residence::Absent => if op is Create {
                WriteStepView::Upper
            } else {
                WriteStepView::Failed(FsErrorView::NotFound)
            },
        }
    }

    /// The engine after a write-class operation.
    pub open spec fn after_write(self, path: Seq<char>, op: WriteOp, lower: Option<u64>) -> AntaresFuseView {
        match self.resolve(path, lower) {
            Residence::Lower(_) => self,
            Residence::Upper => match applied(self.upper[path], op) {
                Ok(node) => AntaresFuseView { upper: self.upper.insert(path, node), ..self },
                Err(_) => self,
            },
            Residence::Absent => match op {
                WriteOp::Create { mode, uid, gid } => AntaresFuseView {
                    upper: self.upper.insert(path, created_node(mode, uid, gid)),
                    ..self
                },
                _ => self,
            },
        }
    }

    /// What `write_after_copy_up` answers.
    pub open spec fn write_after_copy_up_result(
        self,
        path: Seq<char>,
        op: WriteOp,
        attrs: Result<(AttributeSnapshot, u64), FsErrorView>,
        streamed: Result<u64, FsErrorView>,
    ) -> Result<(), FsErrorView> {
        match self.copy_up_result(path, attrs, streamed) {
            Err(e) => Err(e),
            Ok(_) => match self.after_copy_up(path, attrs, streamed).write_step(path, op, None) {
                WriteStepView::Failed(e) => Err(e),
                _ => Ok(()),
            },
        }
    }

    /// The engine after `write_after_copy_up`.
    pub open spec fn after_write_after_copy_up(
        self,
        path: Seq<char>,
        op: WriteOp,
        attrs: Result<(AttributeSnapshot, u64), FsErrorView>,
        streamed: Result<u64, FsErrorView>,
    ) -> AntaresFuseView {
        if self.copy_up_result(path, attrs, streamed) is Ok {
            self.after_copy_up(path, attrs, streamed).after_write(path, op, None)
        } else {
            self
        }
    }

    /// What `unlink` answers.
    pub open spec fn unlink_result(self, path: Seq<char>, lower: Option<u64>) -> Result<
        (),
        FsErrorView,
    > {
        if self.resolve(path, lower) is Absent {
            Err(FsErrorView::NotFound)
        } else {
            Ok(())
        }
    }

    /// The engine after `unlink`: a path that the lower layer has is marked
    /// deleted; one that only the upper layer had is gone from it.
    pub open spec fn after_unlink(self, path: Seq<char>, lower: Option<u64>) -> AntaresFuseView {
        if self.resolve(path, lower) is Absent {
            self
        } else if lower is Some {
            AntaresFuseView { upper: self.upper.insert(path, whiteout_node()), ..self }
        } else {
            AntaresFuseView { upper: self.upper.remove(path), ..self }
        }
    }

    /// How `rename` ends: the source has to live in the upper layer, and so
    /// has the target if the lower layer has it; then the move is done there.
    pub open spec fn rename_step(
        self,
        from: Seq<char>,
        to: Seq<char>,
        from_lower: Option<u64>,
        to_lower: Option<u64>,
    ) -> RenameStepView {
        match self.resolve(from, from_lower) {
            Residence::Absent => RenameStepView::Failed(FsErrorView::NotFound),
            Residence::Lower(inode) => RenameStepView::CopyUpSource { inode },
            Residence::Upper => if from == to {
                RenameStepView::Upper
            } else {
                match self.resolve(to, to_lower) {
                    Residence::Lower(inode) => RenameStepView::CopyUpTarget { inode },
                    _ => RenameStepView::Upper,
                }
            },
        }
    }

    /// Whether `rename` moves the entry.
    pub open spec fn renames(
        self,
        from: Seq<char>,
        to: Seq<char>,
        from_lower: Option<u64>,
        to_lower: Option<u64>,
    ) -> bool {
        &&& self.resolve(from, from_lower) is Upper
        &&& from != to
        &&& !(self.resolve(to, to_lower) is Lower)
    }

    /// The engine after `rename`: where the entry is moved, the target holds
    /// what the source held, and the source is deleted as `unlink` deletes.
    pub open spec fn after_rename(
        self,
        from: Seq<char>,
        to: Seq<char>,
        from_lower: Option<u64>,
        to_lower: Option<u64>,
    ) -> AntaresFuseView {
        if self.renames(from, to, from_lower, to_lower) {
            (AntaresFuseView { upper: self.upper.insert(to, self.upper[from]), ..self }).after_unlink(
                from,
                from_lower,
            )
        } else {
            self
        }
    }
}

/// The view of a kernel outcome.
pub open spec fn outcome_view(kernel: Result<(), String>) -> Result<(), Seq<char>> {
    match kernel {
        Ok(_) => Ok(()),
        Err(reason) => Err(reason@),
    }
}

impl AntaresFuse {
    /// The engine's paths are acceptable, and its upper layer holds each
    /// path once.
    pub closed spec fn wf(&self) -> bool {
        &&& self@.wf()
        &&& distinct_paths(upper_view(self.upper@))
    }

    /// What the invariant says of the engine's value.
    pub proof fn lemma_wf(&self)
        requires
            self.wf(),
        ensures
            self@.wf(),
    {
    }

    /// Validates the paths and binds an engine to them. Nothing is mounted yet.
    pub fn new(mountpoint: String, upper_dir: String, cl_dir: Option<String>) -> (r: Result<
        AntaresFuse,
        FsError,
    >)
        ensures
            match r {
                Ok(engine) => {
                    &&& path_rejection(mountpoint@, upper_dir@, cl_dir.deep_view()) is None
                    &&& engine@ == AntaresFuseView::fresh(
                        mountpoint@,
                        upper_dir@,
                        cl_dir.deep_view(),
                    )
                    &&& engine.wf()
                },
                Err(e) => path_rejection(mountpoint@, upper_dir@, cl_dir.deep_view()) == Some(
                    e@->InvalidRequest_0,
                ) && e@ is InvalidRequest,
            },
    {
        if mountpoint.as_str().is_empty() {
            return Err(FsError::InvalidRequest(String::from_str("mountpoint path is empty")));
        }
        if upper_dir.as_str().is_empty() {
            return Err(FsError::InvalidRequest(String::from_str("upper directory path is empty")));
        }
        let cl_empty = match &cl_dir {
            Some(cl) => cl.as_str().is_empty(),
            None => false,
        };
        if cl_empty {
            return Err(FsError::InvalidRequest(String::from_str("CL directory path is empty")));
        }
        let engine = AntaresFuse { mountpoint, upper_dir, cl_dir, mounted: false, upper: Vec::new() };
        assert(engine@.upper =~= Map::<Seq<char>, UpperNodeView>::empty());
        Ok(engine)
    }

    /// Where the merged view is attached.
    pub fn mountpoint(&self) -> (path: &String)
        ensures
            path@ == self@.mountpoint,
    {
        &self.mountpoint
    }

    /// The writable directory.
    pub fn upper_dir(&self) -> (path: &String)
        ensures
            path@ == self@.upper_dir,
    {
        &self.upper_dir
    }

    /// The pass-through directory, if the engine has one.
    pub fn cl_dir(&self) -> (path: &Option<String>)
        ensures
            path.deep_view() == self@.cl_dir,
    {
        &self.cl_dir
    }

    /// Whether the merged view is installed.
    pub fn is_mounted(&self) -> (b: bool)
        ensures
            b == self@.mounted,
    {
        self.mounted
    }

    /// Records how the kernel answered the mount request. A rejected mount
    /// leaves the engine as it was.
    pub fn mount(&mut self, kernel: Result<(), String>) -> (r: Result<(), FsError>)
        ensures
            crate::antares::fuse::result_view(r) == old(self)@.mount_result(outcome_view(kernel)),
            final(self)@ == (AntaresFuseView {
                mounted: old(self)@.mounted || r is Ok,
                ..old(self)@
            }),
            old(self).wf() ==> final(self).wf(),
    {
        if self.mounted {
            return Err(FsError::InvalidRequest(String::from_str("already mounted")));
        }
        match kernel {
            Ok(_) => {
                self.mounted = true;
                Ok(())
            },
            Err(reason) => Err(FsError::BackendFailure(reason)),
        }
    }

    /// Records how the kernel answered the unmount request. A failed unmount
    /// leaves the engine mounted, so that the caller may try again; an engine
    /// that is not mounted has nothing to tear down.
    pub fn unmount(&mut self, kernel: Result<(), String>) -> (r: Result<(), FsError>)
        ensures
            crate::antares::fuse::result_view(r) == old(self)@.unmount_result(outcome_view(kernel)),
            final(self)@ == (AntaresFuseView {
                mounted: old(self)@.mounted && r is Err,
                ..old(self)@
            }),
            old(self).wf() ==> final(self).wf(),
    {
        if !self.mounted {
            return Ok(());
        }
        match kernel {
            Ok(_) => {
                self.mounted = false;
                Ok(())
            },
            Err(reason) => Err(FsError::BackendFailure(reason)),
        }
    }
}

impl AntaresFuse {
    /// Where the upper layer holds `path`.
    fn find(&self, path: &str) -> (found: Option<usize>)
        ensures
            match found {
                Some(i) => i < self.upper@.len() && self.upper@[i as int].path@ == path@,
                None => forall|i: int|
                    0 <= i < self.upper@.len() ==> (#[trigger] self.upper@[i]).path@ != path@,
            },
    {
        let wanted: String = path.to_owned();
        let mut i: usize = 0;
        while i < self.upper.len()
            invariant
                i <= self.upper@.len(),
                wanted@ == path@,
                forall|j: int| 0 <= j < i ==> (#[trigger] self.upper@[j]).path@ != path@,
            decreases self.upper@.len() - i,
        {
            if self.upper[i].path == wanted {
                return Some(i);
            }
            i += 1;
        }
        None
    }

    /// What `find` says of the engine's value.
    proof fn lemma_found(&self, path: Seq<char>, found: Option<usize>)
        requires
            self.wf(),
            match found {
                Some(i) => i < self.upper@.len() && self.upper@[i as int].path@ == path,
                None => forall|i: int|
                    0 <= i < self.upper@.len() ==> (#[trigger] self.upper@[i]).path@ != path,
            },
        ensures
            match found {
                Some(i) => self@.upper.contains_key(path) && self@.upper[path]
                    == self.upper@[i as int]@.node,
                None => !self@.upper.contains_key(path),
            },
    {
        let entries = upper_view(self.upper@);
        match found {
            Some(i) => {
                assert(entries[i as int].path == path);
                lemma_table_at(entries, i as int);
            },
            None => {
                assert forall|i: int| 0 <= i < entries.len() implies (#[trigger] entries[i]).path
                    != path by {
                    assert(self.upper@[i].path@ != path);
                }
                lemma_table_misses(entries, path);
            },
        }
    }

    /// Puts `entry` under its path, in place of what stands there.
    fn put(&mut self, found: Option<usize>, entry: UpperEntry)
        requires
            old(self).wf(),
            match found {
                Some(i) => i < old(self).upper@.len() && old(self).upper@[i as int].path@
                    == entry.path@,
                None => forall|i: int|
                    0 <= i < old(self).upper@.len() ==> (#[trigger] old(self).upper@[i]).path@
                        != entry.path@,
            },
        ensures
            final(self).wf(),
            final(self)@ == (AntaresFuseView {
                upper: old(self)@.upper.insert(entry@.path, entry@.node),
                ..old(self)@
            }),
    {
        let ghost before = upper_view(self.upper@);
        proof {
            self.lemma_found(entry.path@, found);
        }
        match found {
            Some(i) => {
                self.upper.set(i, entry);
                proof {
                    assert(upper_view(self.upper@) =~= before.update(i as int, entry@));
                    lemma_table_update(before, i as int, entry@);
                }
            },
            None => {
                self.upper.push(entry);
                proof {
                    assert(upper_view(self.upper@) =~= before.push(entry@));
                    lemma_table_push(before, entry@);
                }
            },
        }
    }

    /// Where `path` lives: see [`AntaresFuseView::resolve`].
    pub fn resolve(&self, path: &str, lower: Option<u64>) -> (residence: Residence)
        requires
            self.wf(),
        ensures
            residence == self@.resolve(path@, lower),
    {
        let found = self.find(path);
        proof {
            self.lemma_found(path@, found);
        }
        match found {
            Some(i) => if self.upper[i].whiteout {
                Residence::Absent
            } else {
                Residence::Upper
            },
            None => match lower {
                Some(inode) => Residence::Lower(inode),
                None => Residence::Absent,
            },
        }
    }

    /// Whether copying up an entry with these attributes needs its content
    /// streamed from the lower layer: it does for a regular file.
    pub fn copy_up_needs_content(attrs: &AttributeSnapshot) -> (needed: bool)
        ensures
            needed == (kind_of_mode(attrs.mode) == Some(InodeKind::File)),
    {
        attrs.is_regular_file()
    }

    /// Ends the copy-up of a lower-only path, given what the lower layer
    /// answered when asked for the attributes of its inode (with no handle,
    /// mapped), and how the streaming of its content into the new upper
    /// entry ended: the number of bytes, which are asked for only where the
    /// entry is a regular file. Where the attributes came and the full
    /// content was streamed, the path stands in the upper layer from now on,
    /// with the mode and owner of the lower entry. A failure of the lower
    /// layer is handed on as it is and leaves the engine untouched: the path
    /// still lives in the lower layer. Where the upper layer already has
    /// something under the path, there is nothing to copy and nothing
    /// changes.
    pub fn copy_up(
        &mut self,
        path: &str,
        attrs: Result<(AttributeSnapshot, u64), FsError>,
        streamed: Result<u64, FsError>,
    ) -> (r: Result<(), FsError>)
        requires
            old(self).wf(),
        ensures
            final(self).wf(),
            plain_result(r) == old(self)@.copy_up_result(
                path@,
                plain_result(attrs),
                streamed_view(streamed),
            ),
            final(self)@ == old(self)@.after_copy_up(
                path@,
                plain_result(attrs),
                streamed_view(streamed),
            ),
    {
        let found = self.find(path);
        proof {
            self.lemma_found(path@, found);
        }
        if found.is_some() {
            return Ok(());
        }
        let lower = match attrs {
            Err(e) => {
                return Err(e);
            },
            Ok((lower, _)) => lower,
        };
        if lower.is_regular_file() {
            match streamed {
                Err(e) => {
                    return Err(e);
                },
                Ok(count) => {
                    if count != lower.size {
                        return Err(
                            FsError::BackendFailure(
                                String::from_str(
                                    "lower content is not of the size its attributes state",
                                ),
                            ),
                        );
                    }
                },
            }
        }
        self.put(
            found,
            UpperEntry {
                path: path.to_owned(),
                whiteout: false,
                mode: lower.mode,
                uid: lower.uid,
                gid: lower.gid,
            },
        );
        Ok(())
    }

    /// Serves a write-class operation on `path`, given the inode that the
    /// lower layer resolves the path to, if it does. A path that lives in the
    /// upper layer is served there, without a word to the lower layer; one
    /// that lives in the lower layer only is not touched, and the caller is
    /// told to copy it up first.
    pub fn write_class(&mut self, path: &str, op: WriteOp, lower: Option<u64>) -> (step: WriteStep)
        requires
            old(self).wf(),
        ensures
            final(self).wf(),
            step@ == old(self)@.write_step(path@, op, lower),
            final(self)@ == old(self)@.after_write(path@, op, lower),
    {
        let found = self.find(path);
        proof {
            self.lemma_found(path@, found);
        }
        let resident = match found {
            Some(i) => !self.upper[i].whiteout,
            None => false,
        };
        if !resident {
            if found.is_none() {
                match lower {
                    Some(inode) => {
                        return WriteStep::CopyUp { inode };
                    },
                    None => {},
                }
            }
            return match op {
                WriteOp::Create { mode, uid, gid } => {
                    self.put(
                        found,
                        UpperEntry {
                            path: path.to_owned(),
                            whiteout: false,
                            mode: S_IFREG | (mode & 0o7777),
                            uid,
                            gid,
                        },
                    );
                    WriteStep::Upper
                },
                _ => WriteStep::Failed(FsError::NotFound),
            };
        }
        let at = found.unwrap();
        let ghost was = self.upper@[at as int]@.node;
        match op {
            WriteOp::Write { offset, length } => {
                if offset > u64::MAX - length {
                    return WriteStep::Failed(
                        FsError::InvalidRequest(
                            String::from_str("write reaches past the largest file"),
                        ),
                    );
                }
                proof {
                    assert(self@.upper.insert(path@, was) =~= self@.upper);
                }
                WriteStep::Upper
            },
            WriteOp::Chmod { mode } => {
                let entry = UpperEntry {
                    path: path.to_owned(),
                    whiteout: false,
                    mode: (self.upper[at].mode & S_IFMT) | (mode & 0o7777),
                    uid: self.upper[at].uid,
                    gid: self.upper[at].gid,
                };
                self.put(found, entry);
                WriteStep::Upper
            },
            _ => {
                proof {
                    assert(self@.upper.insert(path@, was) =~= self@.upper);
                }
                WriteStep::Upper
            },
        }
    }

    /// Serves a write-class operation on a path that was found to live in
    /// the lower layer only, given what the lower layer answered when asked
    /// for the attributes of its inode and how the streaming of its content
    /// ended: ends the copy-up as [`Self::copy_up`] does, then applies the
    /// operation to the upper entry. Where the copy-up fails, the operation
    /// fails with the lower layer's own failure and nothing changes.
    pub fn write_after_copy_up(
        &mut self,
        path: &str,
        op: WriteOp,
        attrs: Result<(AttributeSnapshot, u64), FsError>,
        streamed: Result<u64, FsError>,
    ) -> (r: Result<(), FsError>)
        requires
            old(self).wf(),
        ensures
            final(self).wf(),
            plain_result(r) == old(self)@.write_after_copy_up_result(
                path@,
                op,
                plain_result(attrs),
                streamed_view(streamed),
            ),
            final(self)@ == old(self)@.after_write_after_copy_up(
                path@,
                op,
                plain_result(attrs),
                streamed_view(streamed),
            ),
    {
        match self.copy_up(path, attrs, streamed) {
            Err(e) => Err(e),
            Ok(_) => match self.write_class(path, op, None) {
                WriteStep::Failed(e) => Err(e),
                _ => Ok(()),
            },
        }
    }

    /// Deletes `path` from the merged view, given the inode that the lower
    /// layer resolves the path to, if it does: a path that the lower layer
    /// has is marked deleted in the upper layer, which hides it; one that
    /// only the upper layer had is taken out of it.
    pub fn unlink(&mut self, path: &str, lower: Option<u64>) -> (r: Result<(), FsError>)
        requires
            old(self).wf(),
        ensures
            final(self).wf(),
            plain_result(r) == old(self)@.unlink_result(path@, lower),
            final(self)@ == old(self)@.after_unlink(path@, lower),
    {
        let found = self.find(path);
        proof {
            self.lemma_found(path@, found);
        }
        let hidden = match found {
            Some(i) => self.upper[i].whiteout,
            None => lower.is_none(),
        };
        if hidden {
            return Err(FsError::NotFound);
        }
        if lower.is_some() {
            self.put(
                found,
                UpperEntry { path: path.to_owned(), whiteout: true, mode: 0, uid: 0, gid: 0 },
            );
        } else {
            let at = found.unwrap();
            let ghost before = upper_view(self.upper@);
            self.upper.remove(at);
            proof {
                assert(upper_view(self.upper@) =~= before.remove(at as int));
                lemma_table_remove(before, at as int);
            }
        }
        Ok(())
    }

    /// Moves what stands under `from` to `to`, given the inodes that the
    /// lower layer resolves the two paths to, if it does. A source or a
    /// target that lives in the lower layer only is not touched: the caller
    /// is told which of the two to copy up first. The move replaces what the
    /// upper layer had under `to`, and deletes `from` as [`Self::unlink`]
    /// does.
    pub fn rename(
        &mut self,
        from: &str,
        to: &str,
        from_lower: Option<u64>,
        to_lower: Option<u64>,
    ) -> (step: RenameStep)
        requires
            old(self).wf(),
        ensures
            final(self).wf(),
            step@ == old(self)@.rename_step(from@, to@, from_lower, to_lower),
            final(self)@ == old(self)@.after_rename(from@, to@, from_lower, to_lower),
    {
        let source = self.find(from);
        proof {
            self.lemma_found(from@, source);
        }
        let at = match source {
            Some(at) => {
                if self.upper[at].whiteout {
                    return RenameStep::Failed(FsError::NotFound);
                }
                at
            },
            None => {
                return match from_lower {
                    Some(inode) => RenameStep::CopyUpSource { inode },
                    None => RenameStep::Failed(FsError::NotFound),
                };
            },
        };
        let from_owned: String = from.to_owned();
        let to_owned: String = to.to_owned();
        if from_owned == to_owned {
            return RenameStep::Upper;
        }
        let target = self.find(to);
        proof {
            self.lemma_found(to@, target);
        }
        if target.is_none() {
            match to_lower {
                Some(inode) => {
                    return RenameStep::CopyUpTarget { inode };
                },
                None => {},
            }
        }
        let moved = UpperEntry {
            path: to_owned,
            whiteout: false,
            mode: self.upper[at].mode,
            uid: self.upper[at].uid,
            gid: self.upper[at].gid,
        };
        self.put(target, moved);
        let gone = self.unlink(from, from_lower);
        assert(gone is Ok);
        RenameStep::Upper
    }
}

/// The entry under a path is what the map shows there.
pub proof fn lemma_table_at(entries: Seq<UpperEntryView>, i: int)
    requires
        distinct_paths(entries),
        0 <= i < entries.len(),
    ensures
        table_of(entries).contains_key(entries[i].path),
        table_of(entries)[entries[i].path] == entries[i].node,
{
    let path = entries[i].path;
    assert(holds_path(entries, path, i));
    let chosen = choose|k: int| holds_path(entries, path, k);
    assert(chosen == i);
}

/// A path that no entry stands under is not in the map.
pub proof fn lemma_table_misses(entries: Seq<UpperEntryView>, path: Seq<char>)
    requires
        forall|i: int| 0 <= i < entries.len() ==> (#[trigger] entries[i]).path != path,
    ensures
        !table_of(entries).contains_key(path),
{
    if table_of(entries).contains_key(path) {
        let k = choose|k: int| holds_path(entries, path, k);
        assert(entries[k].path == path);
    }
}

/// Adding an entry under a new path inserts it into the map.
pub proof fn lemma_table_push(entries: Seq<UpperEntryView>, added: UpperEntryView)
    requires
        distinct_paths(entries),
        !table_of(entries).contains_key(added.path),
    ensures
        distinct_paths(entries.push(added)),
        table_of(entries.push(added)) == table_of(entries).insert(added.path, added.node),
{
    let longer = entries.push(added);
    assert forall|i: int, j: int|
        0 <= i < longer.len() && 0 <= j < longer.len() && i != j implies (#[trigger] longer[i]).path
            != (#[trigger] longer[j]).path by {
        if i < entries.len() && j < entries.len() {
            assert(entries[i].path != entries[j].path);
        } else if i < entries.len() {
            assert(holds_path(entries, entries[i].path, i));
        } else {
            assert(holds_path(entries, entries[j].path, j));
        }
    }
    let wanted = table_of(entries).insert(added.path, added.node);
    assert forall|path: Seq<char>| #[trigger]
        table_of(longer).contains_key(path) <==> wanted.contains_key(path) by {
        if table_of(longer).contains_key(path) {
            let k = choose|k: int| holds_path(longer, path, k);
            if k < entries.len() {
                assert(holds_path(entries, path, k));
            }
        }
        if table_of(entries).contains_key(path) {
            let k = choose|k: int| holds_path(entries, path, k);
            assert(holds_path(longer, path, k));
        }
        if path == added.path {
            assert(holds_path(longer, path, entries.len() as int));
        }
    }
    assert forall|path: Seq<char>| #[trigger]
        table_of(longer).contains_key(path) implies table_of(longer)[path] == wanted[path] by {
        let k = choose|k: int| holds_path(longer, path, k);
        lemma_table_at(longer, k);
        if k < entries.len() {
            lemma_table_at(entries, k);
        }
    }
    assert(table_of(longer) =~= wanted);
}

/// Changing what stands under a path changes the map there and nowhere else.
pub proof fn lemma_table_update(entries: Seq<UpperEntryView>, at: int, changed: UpperEntryView)
    requires
        distinct_paths(entries),
        0 <= at < entries.len(),
        changed.path == entries[at].path,
    ensures
        distinct_paths(entries.update(at, changed)),
        table_of(entries.update(at, changed)) == table_of(entries).insert(
            changed.path,
            changed.node,
        ),
{
    let after = entries.update(at, changed);
    assert forall|i: int, j: int|
        0 <= i < after.len() && 0 <= j < after.len() && i != j implies (#[trigger] after[i]).path
            != (#[trigger] after[j]).path by {
        assert(after[i].path == entries[i].path);
        assert(after[j].path == entries[j].path);
    }
    let wanted = table_of(entries).insert(changed.path, changed.node);
    assert forall|path: Seq<char>| #[trigger]
        table_of(after).contains_key(path) <==> wanted.contains_key(path) by {
        if table_of(after).contains_key(path) {
            let k = choose|k: int| holds_path(after, path, k);
            assert(holds_path(entries, path, k));
        }
        if table_of(entries).contains_key(path) {
            let k = choose|k: int| holds_path(entries, path, k);
            assert(holds_path(after, path, k));
        }
        if path == changed.path {
            assert(holds_path(after, path, at));
        }
    }
    assert forall|path: Seq<char>| #[trigger]
        table_of(after).contains_key(path) implies table_of(after)[path] == wanted[path] by {
        let k = choose|k: int| holds_path(after, path, k);
        lemma_table_at(after, k);
        lemma_table_at(entries, k);
    }
    assert(table_of(after) =~= wanted);
}

/// Taking an entry out removes its path from the map and nothing else.
pub proof fn lemma_table_remove(entries: Seq<UpperEntryView>, at: int)
    requires
        distinct_paths(entries),
        0 <= at < entries.len(),
    ensures
        distinct_paths(entries.remove(at)),
        table_of(entries.remove(at)) == table_of(entries).remove(entries[at].path),
{
    let after = entries.remove(at);
    assert forall|i: int, j: int|
        0 <= i < after.len() && 0 <= j < after.len() && i != j implies (#[trigger] after[i]).path
            != (#[trigger] after[j]).path by {
        let oi = if i < at { i } else { i + 1 };
        let oj = if j < at { j } else { j + 1 };
        assert(after[i] == entries[oi]);
        assert(after[j] == entries[oj]);
    }
    let wanted = table_of(entries).remove(entries[at].path);
    assert forall|path: Seq<char>| #[trigger]
        table_of(after).contains_key(path) <==> wanted.contains_key(path) by {
        if table_of(after).contains_key(path) {
            let k = choose|k: int| holds_path(after, path, k);
            let ok = if k < at { k } else { k + 1 };
            assert(after[k] == entries[ok]);
            assert(holds_path(entries, path, ok));
            assert(entries[ok].path != entries[at].path);
        }
        if table_of(entries).contains_key(path) && path != entries[at].path {
            let k = choose|k: int| holds_path(entries, path, k);
            let nk = if k < at { k } else { k - 1 };
            assert(after[nk] == entries[k]);
            assert(holds_path(after, path, nk));
        }
    }
    assert forall|path: Seq<char>| #[trigger]
        table_of(after).contains_key(path) implies table_of(after)[path] == wanted[path] by {
        let k = choose|k: int| holds_path(after, path, k);
        let ok = if k < at { k } else { k + 1 };
        assert(after[k] == entries[ok]);
        lemma_table_at(after, k);
        lemma_table_at(entries, ok);
    }
    assert(table_of(after) =~= wanted);
}

/// The view of an engine's answer.
pub open spec fn result_view(r: Result<(), FsError>) -> Result<(), FsErrorView> {
    match r {
        Ok(_) => Ok(()),
        Err(e) => Err(e@),
    }
}

} // verus!
