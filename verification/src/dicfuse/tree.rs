//! The inode table and the queries against it.
//!
//! The table only ever grows: an entry is made when the listing of its parent
//! arrives, keeps its inode number for good, and changes once more at most,
//! when its own children or content arrive.

use crate::dicfuse::attr::{synthesized, AttributeSnapshot, InodeKind, ATTR_TTL_SECS};
use crate::dicfuse::store::{
    dir_entries_view, items_view, DirEntry, DirEntryView, FetchKind, FetchRequest,
    FetchRequestView, Step, StepView, StoreItem, StoreItemView,
};
use crate::fserror::{FsError, FsErrorView};
use vstd::prelude::*;
use vstd::string::StringExecFns;

verus! {

/// The inode number of the tree's root.
pub const ROOT_INODE: u64 = 1;

/// One entry of the inode table.
#[derive(Debug)]
pub struct InodeEntry {
    pub inode: u64,
    pub parent: u64,
    pub name: String,
    pub kind: InodeKind,
    pub size: u64,
    /// The store's identifier of the entry's listing or content.
    pub content_ref: String,
    /// Whether the children (of a directory) or the content (of a file or a
    /// symbolic link) are in the table.
    pub loaded: bool,
    /// The children of a loaded directory, in the order of its listing.
    pub children: Vec<u64>,
    /// The content of a loaded file or symbolic link.
    pub content: Vec<u8>,
}

/// The mathematical value of an [`InodeEntry`].
pub struct InodeEntryView {
    pub inode: u64,
    pub parent: u64,
    pub name: Seq<char>,
    pub kind: InodeKind,
    pub size: u64,
    pub content_ref: Seq<char>,
    pub loaded: bool,
    pub children: Seq<u64>,
    pub content: Seq<u8>,
}

impl View for InodeEntry {
    type V = InodeEntryView;

    open spec fn view(&self) -> InodeEntryView {
        InodeEntryView {
            inode: self.inode,
            parent: self.parent,
            name: self.name@,
            kind: self.kind,
            size: self.size,
            content_ref: self.content_ref@,
            loaded: self.loaded,
            children: self.children@,
            content: self.content@,
        }
    }
}

impl InodeEntryView {
    /// The entry as its parent's listing first shows it.
    pub open spec fn discovered(inode: u64, parent: u64, item: StoreItemView) -> InodeEntryView {
        InodeEntryView {
            inode,
            parent,
            name: item.name,
            kind: item.kind,
            size: item.size,
            content_ref: item.content_ref,
            loaded: false,
            children: Seq::empty(),
            content: Seq::empty(),
        }
    }

    /// Whether `later` is this entry, but for what loading adds.
    pub open spec fn same_identity(self, later: InodeEntryView) -> bool {
        &&& later.inode == self.inode
        &&& later.parent == self.parent
        &&& later.name == self.name
        &&& later.kind == self.kind
        &&& later.size == self.size
        &&& later.content_ref == self.content_ref
        &&& self.loaded ==> later == self
    }
}

/// What a query needs before the tree can answer it.
pub enum Need {
    /// Nothing: the children or the content are in the table.
    Nothing,
    /// A fetch, which nobody has started.
    Fetch,
    /// The end of a fetch that is under way.
    Wait,
}

/// The mathematical value of a [`Dicfuse`]: the table, entry `i` standing for
/// inode `i + 1`, and the inodes whose fetch is under way.
pub struct DicfuseView {
    pub entries: Seq<InodeEntryView>,
    pub pending: Set<u64>,
}

/// The part of `content` that a read of `length` bytes at `offset` returns.
pub open spec fn window(content: Seq<u8>, offset: u64, length: u32) -> Seq<u8> {
    if offset >= content.len() {
        Seq::empty()
    } else if offset + length >= content.len() {
        content.subrange(offset as int, content.len() as int)
    } else {
        content.subrange(offset as int, offset + length)
    }
}

impl DicfuseView {
    /// Whether the table has an entry for `inode`.
    pub open spec fn contains(self, inode: u64) -> bool {
        1 <= inode <= self.entries.len()
    }

    /// The entry of `inode`.
    pub open spec fn entry(self, inode: u64) -> InodeEntryView
        recommends
            self.contains(inode),
    {
        self.entries[inode - 1]
    }

    /// Whether `inode` is a directory of the table.
    pub open spec fn is_directory(self, inode: u64) -> bool {
        self.contains(inode) && self.entry(inode).kind == InodeKind::Directory
    }

    /// Whether `inode` is a file or a symbolic link of the table.
    pub open spec fn has_content(self, inode: u64) -> bool {
        self.contains(inode) && self.entry(inode).kind != InodeKind::Directory
    }

    /// What holds of every entry.
    pub open spec fn entry_wf(self, entry: InodeEntryView) -> bool {
        &&& self.contains(entry.parent)
        &&& entry.inode != ROOT_INODE ==> entry.parent < entry.inode && self.entry(
            entry.parent,
        ).kind == InodeKind::Directory
        &&& entry.kind != InodeKind::Directory ==> entry.children.len() == 0
        &&& entry.kind == InodeKind::Directory ==> entry.content.len() == 0
        &&& !entry.loaded ==> entry.children.len() == 0 && entry.content.len() == 0
        &&& entry.loaded && entry.kind != InodeKind::Directory ==> entry.content.len()
            == entry.size
        &&& forall|k: int|
            0 <= k < entry.children.len() ==> {
                &&& self.contains(#[trigger] entry.children[k])
                &&& self.entry(entry.children[k]).parent == entry.inode
            }
    }

    /// The invariant of the tree: inode 1 is the root directory, entries are
    /// numbered in the order in which they were found, children point back
    /// at their directory, and only entries that still lack their children or
    /// content have a fetch under way.
    pub open spec fn wf(self) -> bool {
        &&& 1 <= self.entries.len() <= usize::MAX
        &&& forall|i: int| 0 <= i < self.entries.len() ==> (#[trigger] self.entries[i]).inode == i + 1
        &&& self.entries[0].kind == InodeKind::Directory
        &&& self.entries[0].parent == ROOT_INODE
        &&& forall|i: int| 0 <= i < self.entries.len() ==> self.entry_wf(#[trigger] self.entries[i])
        &&& forall|inode: u64| #[trigger]
            self.pending.contains(inode) ==> self.contains(inode) && !self.entry(inode).loaded
    }

    /// The tree as `new` leaves it: the root alone, not yet listed.
    pub open spec fn fresh(root_ref: Seq<char>) -> DicfuseView {
        DicfuseView {
            entries: seq![
                InodeEntryView {
                    inode: ROOT_INODE,
                    parent: ROOT_INODE,
                    name: Seq::empty(),
                    kind: InodeKind::Directory,
                    size: 0,
                    content_ref: root_ref,
                    loaded: false,
                    children: Seq::empty(),
                    content: Seq::empty(),
                },
            ],
            pending: Set::empty(),
        }
    }

    /// What `getattr_with_mapping` answers. Neither the file handle nor the
    /// mapping flag bears on it.
    pub open spec fn getattr_result(self, inode: u64, handle: Option<u64>, mapping: bool) -> Result<
        (AttributeSnapshot, u64),
        FsErrorView,
    > {
        if self.contains(inode) {
            Ok((synthesized(inode, self.entry(inode).kind, self.entry(inode).size), ATTR_TTL_SECS))
        } else {
            Err(FsErrorView::NotFound)
        }
    }

    /// What a query on `inode` needs first.
    pub open spec fn need(self, inode: u64) -> Need
        recommends
            self.contains(inode),
    {
        if self.entry(inode).loaded {
            Need::Nothing
        } else if self.pending.contains(inode) {
            Need::Wait
        } else {
            Need::Fetch
        }
    }

    /// The fetch that loads `inode`.
    pub open spec fn request_for(self, inode: u64) -> FetchRequestView
        recommends
            self.contains(inode),
    {
        FetchRequestView {
            inode,
            content_ref: self.entry(inode).content_ref,
            kind: if self.entry(inode).kind == InodeKind::Directory {
                FetchKind::Tree
            } else {
                FetchKind::Blob
            },
        }
    }

    /// The tree once the fetch for `inode` is under way.
    pub open spec fn with_pending(self, inode: u64) -> DicfuseView {
        DicfuseView { pending: self.pending.insert(inode), ..self }
    }

    /// The tree once the fetch for `inode` has ended.
    pub open spec fn without_pending(self, inode: u64) -> DicfuseView {
        DicfuseView { pending: self.pending.remove(inode), ..self }
    }

    /// Whether the `k`-th child of `dir` bears `name`.
    pub open spec fn names_child(self, dir: u64, name: Seq<char>, k: int) -> bool {
        &&& 0 <= k < self.entry(dir).children.len()
        &&& self.entry(self.entry(dir).children[k]).name == name
    }

    /// Whether the `k`-th child of `dir` is the first that bears `name`.
    pub open spec fn first_named(self, dir: u64, name: Seq<char>, k: int) -> bool {
        &&& self.names_child(dir, name, k)
        &&& forall|j: int| 0 <= j < k ==> !self.names_child(dir, name, j)
    }

    /// The first child of the loaded directory `dir` that bears `name`.
    pub open spec fn find_child(self, dir: u64, name: Seq<char>) -> Result<u64, FsErrorView> {
        if exists|k: int| self.first_named(dir, name, k) {
            Ok(self.entry(dir).children[choose|k: int| self.first_named(dir, name, k)])
        } else {
            Err(FsErrorView::NotFound)
        }
    }

    /// How a query ends that needs `inode` loaded and then answers `answer`.
    pub open spec fn step_on<V>(self, inode: u64, answer: Result<V, FsErrorView>) -> StepView<V>
        recommends
            self.contains(inode),
    {
        match self.need(inode) {
            Need::Nothing => StepView::Done(answer),
            Need::Fetch => StepView::Fetch(self.request_for(inode)),
            Need::Wait => StepView::Wait(inode),
        }
    }

    /// How `lookup` ends.
    pub open spec fn lookup_step(self, parent: u64, name: Seq<char>) -> StepView<u64> {
        if self.is_directory(parent) {
            self.step_on(parent, self.find_child(parent, name))
        } else {
            StepView::Done(Err(FsErrorView::NotFound))
        }
    }

    /// The entries of the loaded directory `dir`, in the order of its listing.
    pub open spec fn listing(self, dir: u64) -> Seq<DirEntryView> {
        Seq::new(
            self.entry(dir).children.len(),
            |k: int|
                DirEntryView {
                    name: self.entry(self.entry(dir).children[k]).name,
                    inode: self.entry(dir).children[k],
                    kind: self.entry(self.entry(dir).children[k]).kind,
                },
        )
    }

    /// The listing of `dir` from its `offset`-th entry on.
    pub open spec fn listing_from(self, dir: u64, offset: usize) -> Seq<DirEntryView> {
        if offset >= self.listing(dir).len() {
            Seq::empty()
        } else {
            self.listing(dir).skip(offset as int)
        }
    }

    /// How `read_directory` ends.
    pub open spec fn read_directory_step(self, inode: u64, offset: usize) -> StepView<
        Seq<DirEntryView>,
    > {
        if self.is_directory(inode) {
            self.step_on(inode, Ok(self.listing_from(inode, offset)))
        } else {
            StepView::Done(Err(FsErrorView::NotFound))
        }
    }

    /// How `read` ends.
    pub open spec fn read_step(self, inode: u64, offset: u64, length: u32) -> StepView<Seq<u8>> {
        if self.has_content(inode) {
            self.step_on(inode, Ok(window(self.entry(inode).content, offset, length)))
        } else {
            StepView::Done(Err(FsErrorView::NotFound))
        }
    }

    /// The tree after a query that ended in `step`: a fetch that the query
    /// asks for is under way from then on; nothing else changes.
    pub open spec fn after_step<V>(self, inode: u64, step: StepView<V>) -> DicfuseView {
        if step is Fetch {
            self.with_pending(inode)
        } else {
            self
        }
    }

    /// The table once the listing `items` of `dir` is installed: each item
    /// becomes a new entry at the end of the table, and `dir` lists them.
    pub open spec fn installed(self, dir: u64, items: Seq<StoreItemView>) -> DicfuseView {
        let base = self.entries.len();
        let listed = InodeEntryView {
            loaded: true,
            children: Seq::new(items.len(), |k: int| (base + k + 1) as u64),
            ..self.entry(dir)
        };
        DicfuseView {
            entries: self.entries.update(dir - 1, listed) + Seq::new(
                items.len(),
                |k: int| InodeEntryView::discovered((base + k + 1) as u64, dir, items[k]),
            ),
            pending: self.pending.remove(dir),
        }
    }

    /// Whether the listing of `dir` is installed when its fetch ends in
    /// `outcome`.
    pub open spec fn installs(self, dir: u64, outcome: Result<Seq<StoreItemView>, Seq<char>>) -> bool {
        &&& self.is_directory(dir)
        &&& !self.entry(dir).loaded
        &&& outcome matches Ok(items) && self.entries.len() + items.len() <= usize::MAX
    }

    /// What `complete_tree_fetch` answers.
    pub open spec fn tree_fetch_result(
        self,
        dir: u64,
        outcome: Result<Seq<StoreItemView>, Seq<char>>,
    ) -> Result<(), FsErrorView> {
        if !self.is_directory(dir) {
            Err(FsErrorView::NotFound)
        } else {
            match outcome {
                Err(transport) => Err(FsErrorView::BackendFailure(transport)),
                Ok(items) => if self.entry(dir).loaded || self.installs(dir, outcome) {
                    Ok(())
                } else {
                    Err(FsErrorView::BackendFailure("inode table is full"@))
                },
            }
        }
    }

    /// The tree after `complete_tree_fetch`.
    pub open spec fn after_tree_fetch(
        self,
        dir: u64,
        outcome: Result<Seq<StoreItemView>, Seq<char>>,
    ) -> DicfuseView {
        if self.installs(dir, outcome) {
            self.installed(dir, outcome->Ok_0)
        } else if self.is_directory(dir) {
            self.without_pending(dir)
        } else {
            self
        }
    }

    /// Whether the content of `inode` is cached when its fetch ends in
    /// `outcome`.
    pub open spec fn caches(self, inode: u64, outcome: Result<Seq<u8>, Seq<char>>) -> bool {
        &&& self.has_content(inode)
        &&& !self.entry(inode).loaded
        &&& outcome matches Ok(bytes) && bytes.len() == self.entry(inode).size
    }

    /// The table once `bytes` are cached as the content of `inode`.
    pub open spec fn cached(self, inode: u64, bytes: Seq<u8>) -> DicfuseView {
        DicfuseView {
            entries: self.entries.update(
                inode - 1,
                InodeEntryView { loaded: true, content: bytes, ..self.entry(inode) },
            ),
            pending: self.pending.remove(inode),
        }
    }

    /// What `complete_blob_fetch` answers.
    pub open spec fn blob_fetch_result(self, inode: u64, outcome: Result<Seq<u8>, Seq<char>>) -> Result<
        (),
        FsErrorView,
    > {
        if !self.has_content(inode) {
            Err(FsErrorView::NotFound)
        } else {
            match outcome {
                Err(transport) => Err(FsErrorView::BackendFailure(transport)),
                Ok(bytes) => if self.entry(inode).loaded || self.caches(inode, outcome) {
                    Ok(())
                } else {
                    Err(FsErrorView::BackendFailure("blob length differs from the listed size"@))
                },
            }
        }
    }

    /// The tree after `complete_blob_fetch`.
    pub open spec fn after_blob_fetch(self, inode: u64, outcome: Result<Seq<u8>, Seq<char>>) -> DicfuseView {
        if self.caches(inode, outcome) {
            self.cached(inode, outcome->Ok_0)
        } else if self.has_content(inode) {
            self.without_pending(inode)
        } else {
            self
        }
    }

    /// Whether every directory of the table is listed.
    pub open spec fn fully_listed(self) -> bool {
        forall|inode: u64| #[trigger] self.is_directory(inode) ==> self.entry(inode).loaded
    }

    /// Whether `inode` is the directory that the eager import lists next: the
    /// lowest-numbered one that is not listed.
    pub open spec fn imports_next(self, inode: u64) -> bool {
        &&& self.is_directory(inode)
        &&& !self.entry(inode).loaded
        &&& forall|earlier: u64|
            earlier < inode && #[trigger] self.is_directory(earlier) ==> self.entry(earlier).loaded
    }
}

/// The entries of a table, as mathematical values.
pub open spec fn entries_view(entries: Seq<InodeEntry>) -> Seq<InodeEntryView> {
    entries.map_values(|entry: InodeEntry| entry@)
}

/// The view of an answer that holds plain values.
pub open spec fn plain_result<T>(r: Result<T, FsError>) -> Result<T, FsErrorView> {
    match r {
        Ok(value) => Ok(value),
        Err(e) => Err(e@),
    }
}

/// The view of the outcome of a tree fetch.
pub open spec fn listing_outcome_view(outcome: Result<Vec<StoreItem>, String>) -> Result<
    Seq<StoreItemView>,
    Seq<char>,
> {
    match outcome {
        Ok(items) => Ok(items_view(items@)),
        Err(transport) => Err(transport@),
    }
}

/// The view of the outcome of a blob fetch.
pub open spec fn blob_outcome_view(outcome: Result<Vec<u8>, String>) -> Result<
    Seq<u8>,
    Seq<char>,
> {
    match outcome {
        Ok(bytes) => Ok(bytes@),
        Err(transport) => Err(transport@),
    }
}

/// The view of a step that answers with an inode.
pub open spec fn inode_step_view(step: Step<u64>) -> StepView<u64> {
    match step {
        Step::Done(r) => StepView::Done(plain_result(r)),
        Step::Fetch(request) => StepView::Fetch(request@),
        Step::Wait(inode) => StepView::Wait(inode),
    }
}

/// The view of a step that answers with a listing.
pub open spec fn listing_step_view(step: Step<Vec<DirEntry>>) -> StepView<Seq<DirEntryView>> {
    match step {
        Step::Done(Ok(entries)) => StepView::Done(Ok(dir_entries_view(entries@))),
        Step::Done(Err(e)) => StepView::Done(Err(e@)),
        Step::Fetch(request) => StepView::Fetch(request@),
        Step::Wait(inode) => StepView::Wait(inode),
    }
}

/// The view of a step that answers with bytes.
pub open spec fn bytes_step_view(step: Step<Vec<u8>>) -> StepView<Seq<u8>> {
    match step {
        Step::Done(Ok(bytes)) => StepView::Done(Ok(bytes@)),
        Step::Done(Err(e)) => StepView::Done(Err(e@)),
        Step::Fetch(request) => StepView::Fetch(request@),
        Step::Wait(inode) => StepView::Wait(inode),
    }
}

/// The virtual tree cache.
#[derive(Debug)]
pub struct Dicfuse {
    entries: Vec<InodeEntry>,
    pending: Vec<u64>,
}

impl View for Dicfuse {
    type V = DicfuseView;

    closed spec fn view(&self) -> DicfuseView {
        DicfuseView { entries: entries_view(self.entries@), pending: self.pending@.to_set() }
    }
}

/// What a query has to do before it can answer.
enum Demand {
    Ready,
    Fetch(FetchRequest),
    Wait,
}

/// Where `wanted` first stands in `list`.
fn position(list: &Vec<u64>, wanted: u64) -> (found: Option<usize>)
    ensures
        match found {
            Some(i) => i < list@.len() && list@[i as int] == wanted,
            None => !list@.contains(wanted),
        },
{
    let mut i: usize = 0;
    while i < list.len()
        invariant
            i <= list@.len(),
            forall|j: int| 0 <= j < i ==> list@[j] != wanted,
        decreases list@.len() - i,
    {
        if list[i] == wanted {
            return Some(i);
        }
        i += 1;
    }
    None
}

proof fn lemma_push_to_set(list: Seq<u64>, added: u64)
    ensures
        list.push(added).to_set() == list.to_set().insert(added),
{
    let longer = list.push(added);
    assert forall|x: u64| longer.to_set().contains(x) <==> list.to_set().insert(added).contains(
        x,
    ) by {
        if list.contains(x) {
            let i = choose|i: int| 0 <= i < list.len() && list[i] == x;
            assert(longer[i] == x);
        }
        if x == added {
            assert(longer[list.len() as int] == x);
        }
        if longer.contains(x) {
            let i = choose|i: int| 0 <= i < longer.len() && longer[i] == x;
            if i < list.len() {
                assert(list[i] == x);
            }
        }
    }
    assert(longer.to_set() =~= list.to_set().insert(added));
}

proof fn lemma_remove_to_set(list: Seq<u64>, at: int)
    requires
        list.no_duplicates(),
        0 <= at < list.len(),
    ensures
        list.remove(at).to_set() == list.to_set().remove(list[at]),
        list.remove(at).no_duplicates(),
{
    let shorter = list.remove(at);
    assert forall|x: u64| shorter.to_set().contains(x) <==> list.to_set().remove(
        list[at],
    ).contains(x) by {
        if shorter.contains(x) {
            let i = choose|i: int| 0 <= i < shorter.len() && shorter[i] == x;
            if i < at {
                assert(list[i] == x);
            } else {
                assert(list[i + 1] == x);
            }
        }
        if list.contains(x) && x != list[at] {
            let i = choose|i: int| 0 <= i < list.len() && list[i] == x;
            if i < at {
                assert(shorter[i] == x);
            } else {
                assert(shorter[i - 1] == x);
            }
        }
    }
    assert(shorter.to_set() =~= list.to_set().remove(list[at]));
}

impl Dicfuse {
    /// The invariant of the tree: see [`DicfuseView::wf`].
    pub closed spec fn wf(&self) -> bool {
        &&& self@.wf()
        &&& self.pending@.no_duplicates()
    }

    /// What the invariant says of the tree's value.
    pub proof fn lemma_wf(&self)
        requires
            self.wf(),
        ensures
            self@.wf(),
    {
    }

    /// A tree that holds its root alone, a directory whose listing the store
    /// keeps under `root_ref`.
    pub fn new(root_ref: String) -> (tree: Dicfuse)
        ensures
            tree@ == DicfuseView::fresh(root_ref@),
            tree.wf(),
    {
        let root = InodeEntry {
            inode: ROOT_INODE,
            parent: ROOT_INODE,
            name: String::new(),
            kind: InodeKind::Directory,
            size: 0,
            content_ref: root_ref,
            loaded: false,
            children: Vec::new(),
            content: Vec::new(),
        };
        let mut entries: Vec<InodeEntry> = Vec::new();
        entries.push(root);
        let tree = Dicfuse { entries, pending: Vec::new() };
        proof {
            assert(tree@.entries =~= DicfuseView::fresh(root_ref@).entries);
            assert(tree@.pending =~= Set::<u64>::empty());
        }
        tree
    }

    /// The inode number of the root, which is a directory.
    pub fn root_inode(&self) -> (inode: u64)
        requires
            self.wf(),
        ensures
            inode == ROOT_INODE,
            self@.is_directory(inode),
    {
        ROOT_INODE
    }

    /// The number of entries in the table.
    pub fn inode_count(&self) -> (count: usize)
        ensures
            count == self@.entries.len(),
    {
        self.entries.len()
    }

    /// The entry of `inode`, if the table has one.
    pub fn entry(&self, inode: u64) -> (found: Option<&InodeEntry>)
        ensures
            match found {
                Some(entry) => self@.contains(inode) && entry@ == self@.entry(inode),
                None => !self@.contains(inode),
            },
    {
        if inode >= 1 && inode - 1 < self.entries.len() as u64 {
            Some(&self.entries[(inode - 1) as usize])
        } else {
            None
        }
    }

    /// Synthesized attributes of an inode, with the time for which they may
    /// be cached, or `NotFound`. The file handle and the mapping flag are
    /// taken for symmetry with a writable layer and have no effect here.
    pub fn getattr_with_mapping(&self, inode: u64, handle: Option<u64>, mapping: bool) -> (r:
        Result<(AttributeSnapshot, u64), FsError>)
        ensures
            plain_result(r) == self@.getattr_result(inode, handle, mapping),
    {
        match self.entry(inode) {
            Some(entry) => Ok(
                (AttributeSnapshot::synthesize(inode, entry.kind, entry.size), ATTR_TTL_SECS),
            ),
            None => Err(FsError::NotFound),
        }
    }

    /// Decides what a query on `inode` has to do first, and notes a fetch
    /// that it starts.
    fn demand(&mut self, inode: u64) -> (demand: Demand)
        requires
            old(self).wf(),
            old(self)@.contains(inode),
        ensures
            final(self).wf(),
            match demand {
                Demand::Ready => old(self)@.need(inode) is Nothing && final(self)@ == old(self)@,
                Demand::Wait => old(self)@.need(inode) is Wait && final(self)@ == old(self)@,
                Demand::Fetch(request) => {
                    &&& old(self)@.need(inode) is Fetch
                    &&& request@ == old(self)@.request_for(inode)
                    &&& final(self)@ == old(self)@.with_pending(inode)
                },
            },
    {
        let index = (inode - 1) as usize;
        if self.entries[index].loaded {
            return Demand::Ready;
        }
        match position(&self.pending, inode) {
            Some(_) => Demand::Wait,
            None => {
                let request = FetchRequest {
                    inode,
                    content_ref: self.entries[index].content_ref.clone(),
                    kind: match self.entries[index].kind {
                        InodeKind::Directory => FetchKind::Tree,
                        _ => FetchKind::Blob,
                    },
                };
                self.pending.push(inode);
                proof {
                    lemma_push_to_set(old(self).pending@, inode);
                }
                Demand::Fetch(request)
            },
        }
    }

    /// Resolves a child of `parent` by name. A parent whose listing is not in
    /// the table yet needs a fetch first.
    #[verifier::loop_isolation(false)]
    pub fn lookup(&mut self, parent: u64, name: &str) -> (step: Step<u64>)
        requires
            old(self).wf(),
        ensures
            final(self).wf(),
            inode_step_view(step) == old(self)@.lookup_step(parent, name@),
            final(self)@ == old(self)@.after_step(parent, inode_step_view(step)),
    {
        let is_directory = match self.entry(parent) {
            Some(entry) => match entry.kind {
                InodeKind::Directory => true,
                _ => false,
            },
            None => false,
        };
        if !is_directory {
            return Step::Done(Err(FsError::NotFound));
        }
        match self.demand(parent) {
            Demand::Fetch(request) => Step::Fetch(request),
            Demand::Wait => Step::Wait(parent),
            Demand::Ready => {
                let wanted: String = name.to_owned();
                let directory = &self.entries[(parent - 1) as usize];
                let mut k: usize = 0;
                while k < directory.children.len()
                    invariant
                        self.wf(),
                        self@.is_directory(parent),
                        self@.entry(parent).loaded,
                        *directory == self.entries@[parent - 1],
                        wanted@ == name@,
                        k <= directory.children@.len(),
                        forall|j: int| 0 <= j < k ==> !self@.names_child(parent, name@, j),
                    decreases directory.children@.len() - k,
                {
                    let child = directory.children[k];
                    assert(self@.contains(self@.entry(parent).children[k as int]));
                    if self.entries[(child - 1) as usize].name == wanted {
                        proof {
                            assert(self@.first_named(parent, name@, k as int));
                            let chosen = choose|c: int| self@.first_named(parent, name@, c);
                            assert(chosen == k) by {
                                if chosen < k {
                                    assert(!self@.names_child(parent, name@, chosen));
                                } else if chosen > k {
                                    assert(!self@.names_child(parent, name@, k as int));
                                }
                            }
                        }
                        return Step::Done(Ok(child));
                    }
                    k += 1;
                }
                Step::Done(Err(FsError::NotFound))
            },
        }
    }

    /// The entries of a directory from the `offset`-th on, in the order of
    /// its listing. A directory whose listing is not in the table yet needs a
    /// fetch first.
    #[verifier::loop_isolation(false)]
    pub fn read_directory(&mut self, inode: u64, offset: usize) -> (step: Step<Vec<DirEntry>>)
        requires
            old(self).wf(),
        ensures
            final(self).wf(),
            listing_step_view(step) == old(self)@.read_directory_step(inode, offset),
            final(self)@ == old(self)@.after_step(inode, listing_step_view(step)),
    {
        let is_directory = match self.entry(inode) {
            Some(entry) => match entry.kind {
                InodeKind::Directory => true,
                _ => false,
            },
            None => false,
        };
        if !is_directory {
            return Step::Done(Err(FsError::NotFound));
        }
        match self.demand(inode) {
            Demand::Fetch(request) => Step::Fetch(request),
            Demand::Wait => Step::Wait(inode),
            Demand::Ready => {
                let directory = &self.entries[(inode - 1) as usize];
                let mut listed: Vec<DirEntry> = Vec::new();
                let mut k: usize = offset;
                while k < directory.children.len()
                    invariant
                        self.wf(),
                        self@.is_directory(inode),
                        *directory == self.entries@[inode - 1],
                        offset <= k,
                        offset < directory.children@.len() ==> k <= directory.children@.len(),
                        offset >= directory.children@.len() ==> k == offset,
                        listed@.len() == k - offset,
                        forall|j: int|
                            0 <= j < listed@.len() ==> (#[trigger] listed@[j])@ == self@.listing(
                                inode,
                            )[offset + j],
                    decreases directory.children@.len() - k,
                {
                    let child = directory.children[k];
                    assert(self@.contains(self@.entry(inode).children[k as int]));
                    let entry = &self.entries[(child - 1) as usize];
                    listed.push(DirEntry { name: entry.name.clone(), inode: child, kind: entry.kind });
                    k += 1;
                }
                proof {
                    let shown = dir_entries_view(listed@);
                    let wanted = self@.listing_from(inode, offset);
                    assert(self@.listing(inode).len() == directory.children@.len());
                    assert(shown.len() == listed@.len());
                    if offset < directory.children@.len() {
                        assert(k == directory.children@.len());
                        assert(wanted == self@.listing(inode).skip(offset as int));
                        assert(wanted.len() == directory.children@.len() - offset);
                    } else {
                        assert(wanted.len() == 0);
                        assert(listed@.len() == 0);
                    }
                    assert(shown.len() == wanted.len());
                    assert forall|j: int| 0 <= j < shown.len() implies shown[j] == wanted[j] by {
                        assert(listed@[j]@ == self@.listing(inode)[offset + j]);
                    }
                    assert(shown =~= wanted);
                }
                Step::Done(Ok(listed))
            },
        }
    }

    /// Up to `length` bytes of the content of a file or symbolic link, from
    /// `offset` on. Content that is not in the table yet needs a fetch first.
    #[verifier::loop_isolation(false)]
    pub fn read(&mut self, inode: u64, offset: u64, length: u32) -> (step: Step<Vec<u8>>)
        requires
            old(self).wf(),
        ensures
            final(self).wf(),
            bytes_step_view(step) == old(self)@.read_step(inode, offset, length),
            final(self)@ == old(self)@.after_step(inode, bytes_step_view(step)),
    {
        let has_content = match self.entry(inode) {
            Some(entry) => match entry.kind {
                InodeKind::Directory => false,
                _ => true,
            },
            None => false,
        };
        if !has_content {
            return Step::Done(Err(FsError::NotFound));
        }
        match self.demand(inode) {
            Demand::Fetch(request) => Step::Fetch(request),
            Demand::Wait => Step::Wait(inode),
            Demand::Ready => {
                let content = &self.entries[(inode - 1) as usize].content;
                let mut bytes: Vec<u8> = Vec::new();
                if offset >= content.len() as u64 {
                    return Step::Done(Ok(bytes));
                }
                let start = offset as usize;
                let end = if length as u64 >= content.len() as u64 - offset {
                    content.len()
                } else {
                    start + length as usize
                };
                let mut k: usize = start;
                while k < end
                    invariant
                        start <= k <= end <= content@.len(),
                        bytes@ == content@.subrange(start as int, k as int),
                    decreases end - k,
                {
                    bytes.push(content[k]);
                    assert(bytes@ =~= content@.subrange(start as int, k + 1));
                    k += 1;
                }
                Step::Done(Ok(bytes))
            },
        }
    }

    /// Notes that the fetch for `inode` has ended.
    fn settle(&mut self, inode: u64)
        requires
            old(self).wf(),
        ensures
            final(self).wf(),
            final(self)@ == old(self)@.without_pending(inode),
    {
        match position(&self.pending, inode) {
            Some(at) => {
                self.pending.remove(at);
                proof {
                    lemma_remove_to_set(old(self).pending@, at as int);
                    assert(self@.entries == old(self)@.entries);
                    assert(self@.pending == old(self)@.pending.remove(inode));
                    assert forall|x: u64| #[trigger] self@.pending.contains(x) implies self@.contains(
                        x,
                    ) && !self@.entry(x).loaded by {
                        assert(old(self)@.pending.contains(x));
                    }
                }
            },
            None => {
                proof {
                    assert(old(self)@.pending.remove(inode) =~= old(self)@.pending);
                }
            },
        }
    }

    /// Takes the outcome of the fetch of a directory's listing. A listing
    /// that arrives for a directory not yet listed is installed: each of its
    /// rows becomes a new entry, numbered on from the end of the table. A
    /// failed fetch is reported with the transport's own words, and leaves the
    /// directory to be fetched again.
    pub fn complete_tree_fetch(&mut self, dir: u64, outcome: Result<Vec<StoreItem>, String>) -> (r:
        Result<(), FsError>)
        requires
            old(self).wf(),
        ensures
            final(self).wf(),
            plain_result(r) == old(self)@.tree_fetch_result(dir, listing_outcome_view(outcome)),
            final(self)@ == old(self)@.after_tree_fetch(dir, listing_outcome_view(outcome)),
    {
        let is_directory = match self.entry(dir) {
            Some(entry) => match entry.kind {
                InodeKind::Directory => true,
                _ => false,
            },
            None => false,
        };
        if !is_directory {
            return Err(FsError::NotFound);
        }
        self.settle(dir);
        let items = match outcome {
            Err(transport) => {
                return Err(FsError::BackendFailure(transport));
            },
            Ok(items) => items,
        };
        let index = (dir - 1) as usize;
        if self.entries[index].loaded {
            return Ok(());
        }
        if items.len() > usize::MAX - self.entries.len() {
            return Err(FsError::BackendFailure(String::from_str("inode table is full")));
        }
        let base = self.entries.len();
        let ghost settled = self.entries@;
        let ghost waiting = self.pending@;
        let mut children: Vec<u64> = Vec::new();
        let mut k: usize = 0;
        while k < items.len()
            invariant
                k <= items@.len(),
                base + items@.len() <= usize::MAX,
                base == settled.len(),
                self.entries@.len() == base + k,
                self.pending@ == waiting,
                forall|i: int| 0 <= i < base ==> self.entries@[i] == settled[i],
                forall|j: int|
                    0 <= j < k ==> (#[trigger] self.entries@[base + j])@
                        == InodeEntryView::discovered((base + j + 1) as u64, dir, items@[j]@),
                children@.len() == k,
                forall|j: int| 0 <= j < k ==> #[trigger] children@[j] == (base + j + 1) as u64,
            decreases items@.len() - k,
        {
            let item = &items[k];
            let inode = (base + k + 1) as u64;
            self.entries.push(
                InodeEntry {
                    inode,
                    parent: dir,
                    name: item.name.clone(),
                    kind: item.kind,
                    size: item.size,
                    content_ref: item.content_ref.clone(),
                    loaded: false,
                    children: Vec::new(),
                    content: Vec::new(),
                },
            );
            children.push(inode);
            k += 1;
        }
        self.entries[index].children = children;
        self.entries[index].loaded = true;
        proof {
            let before = old(self)@;
            let rows = items_view(items@);
            let wanted = before.installed(dir, rows);
            assert(self@.entries.len() == wanted.entries.len());
            assert forall|i: int| 0 <= i < self@.entries.len() implies self@.entries[i]
                == wanted.entries[i] by {
                if i == index {
                    assert(self@.entries[i].children =~= wanted.entries[i].children);
                } else if i < base {
                    assert(self.entries@[i] == settled[i]);
                } else {
                    assert(self.entries@[base + (i - base)]@ == InodeEntryView::discovered(
                        (base + (i - base) + 1) as u64,
                        dir,
                        items@[i - base]@,
                    ));
                }
            }
            assert(self@.entries =~= wanted.entries);
            assert(self@ == wanted);
            lemma_installed_wf(before, dir, rows);
        }
        Ok(())
    }

    /// Takes the outcome of the fetch of a file's content or a symbolic
    /// link's target. Content of the listed size that arrives for an entry
    /// that has none yet is cached. A failed fetch is reported with the
    /// transport's own words, and leaves the content to be fetched again.
    pub fn complete_blob_fetch(&mut self, inode: u64, outcome: Result<Vec<u8>, String>) -> (r:
        Result<(), FsError>)
        requires
            old(self).wf(),
        ensures
            final(self).wf(),
            plain_result(r) == old(self)@.blob_fetch_result(inode, blob_outcome_view(outcome)),
            final(self)@ == old(self)@.after_blob_fetch(inode, blob_outcome_view(outcome)),
    {
        let has_content = match self.entry(inode) {
            Some(entry) => match entry.kind {
                InodeKind::Directory => false,
                _ => true,
            },
            None => false,
        };
        if !has_content {
            return Err(FsError::NotFound);
        }
        self.settle(inode);
        let bytes = match outcome {
            Err(transport) => {
                return Err(FsError::BackendFailure(transport));
            },
            Ok(bytes) => bytes,
        };
        let index = (inode - 1) as usize;
        if self.entries[index].loaded {
            return Ok(());
        }
        if bytes.len() as u64 != self.entries[index].size {
            return Err(
                FsError::BackendFailure(
                    String::from_str("blob length differs from the listed size"),
                ),
            );
        }
        self.entries[index].content = bytes;
        self.entries[index].loaded = true;
        proof {
            let before = old(self)@;
            let wanted = before.cached(inode, bytes@);
            assert(self@.entries =~= wanted.entries);
            assert(self@ == wanted);
            lemma_cached_wf(before, inode, bytes@);
        }
        Ok(())
    }

    /// The next fetch of the eager import: the listing of the lowest-numbered
    /// directory that is not listed yet, or `None` once every directory is.
    /// The import is the loop that performs the fetch, hands its outcome to
    /// [`Self::complete_tree_fetch`], and asks again.
    pub fn import_next(&self) -> (next: Option<FetchRequest>)
        requires
            self.wf(),
        ensures
            match next {
                Some(request) => self@.imports_next(request.inode) && request@
                    == self@.request_for(request.inode),
                None => self@.fully_listed(),
            },
    {
        let mut i: usize = 0;
        while i < self.entries.len()
            invariant
                self.wf(),
                i <= self.entries@.len(),
                forall|earlier: u64|
                    earlier <= i && #[trigger] self@.is_directory(earlier) ==> self@.entry(
                        earlier,
                    ).loaded,
            decreases self.entries@.len() - i,
        {
            let entry = &self.entries[i];
            let unlisted = match entry.kind {
                InodeKind::Directory => !entry.loaded,
                _ => false,
            };
            if unlisted {
                return Some(
                    FetchRequest {
                        inode: (i + 1) as u64,
                        content_ref: entry.content_ref.clone(),
                        kind: FetchKind::Tree,
                    },
                );
            }
            i += 1;
        }
        None
    }
}

/// Installing a listing keeps the tree well formed.
pub proof fn lemma_installed_wf(tree: DicfuseView, dir: u64, items: Seq<StoreItemView>)
    requires
        tree.wf(),
        tree.installs(dir, Ok(items)),
    ensures
        tree.installed(dir, items).wf(),
{
    let after = tree.installed(dir, items);
    let base = tree.entries.len();
    assert forall|i: int| 0 <= i < after.entries.len() implies (#[trigger] after.entries[i]).inode
        == i + 1 && after.entry_wf(after.entries[i]) by {
        let entry = after.entries[i];
        if i < base {
            let was = tree.entries[i];
            assert(tree.entry_wf(was));
            assert(entry.inode == was.inode && entry.parent == was.parent);
            assert(tree.entries[was.parent - 1].kind == after.entries[was.parent - 1].kind);
            if i == dir - 1 {
                assert forall|k: int| 0 <= k < entry.children.len() implies after.contains(
                    #[trigger] entry.children[k],
                ) && after.entry(entry.children[k]).parent == entry.inode by {
                    assert(after.entries[base + k] == InodeEntryView::discovered(
                        (base + k + 1) as u64,
                        dir,
                        items[k],
                    ));
                }
            } else {
                assert(entry == was);
                assert forall|k: int| 0 <= k < entry.children.len() implies after.contains(
                    #[trigger] entry.children[k],
                ) && after.entry(entry.children[k]).parent == entry.inode by {
                    assert(tree.contains(was.children[k]));
                    assert(tree.entry(was.children[k]).parent == after.entry(
                        was.children[k],
                    ).parent);
                }
            }
        } else {
            assert(entry == InodeEntryView::discovered((i + 1) as u64, dir, items[i - base]));
            assert(after.entries[dir - 1].kind == InodeKind::Directory);
        }
    }
    assert forall|inode: u64| #[trigger] after.pending.contains(inode) implies after.contains(
        inode,
    ) && !after.entry(inode).loaded by {
        assert(tree.pending.contains(inode));
        assert(after.entries[inode - 1] == tree.entries[inode - 1]);
    }
}

/// Caching a content keeps the tree well formed.
pub proof fn lemma_cached_wf(tree: DicfuseView, inode: u64, bytes: Seq<u8>)
    requires
        tree.wf(),
        tree.caches(inode, Ok(bytes)),
    ensures
        tree.cached(inode, bytes).wf(),
{
    let after = tree.cached(inode, bytes);
    assert forall|i: int| 0 <= i < after.entries.len() implies (#[trigger] after.entries[i]).inode
        == i + 1 && after.entry_wf(after.entries[i]) by {
        let entry = after.entries[i];
        let was = tree.entries[i];
        assert(tree.entry_wf(was));
        assert(tree.entries[was.parent - 1].kind == after.entries[was.parent - 1].kind);
        assert forall|k: int| 0 <= k < entry.children.len() implies after.contains(
            #[trigger] entry.children[k],
        ) && after.entry(entry.children[k]).parent == entry.inode by {
            assert(tree.contains(was.children[k]));
            assert(tree.entry(was.children[k]).parent == after.entry(was.children[k]).parent);
        }
    }
    assert forall|x: u64| #[trigger] after.pending.contains(x) implies after.contains(x)
        && !after.entry(x).loaded by {
        assert(tree.pending.contains(x));
        assert(after.entries[x - 1] == tree.entries[x - 1]);
    }
}

} // verus!
