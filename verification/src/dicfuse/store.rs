//! What the tree asks of the content store, and what the store answers.

use crate::dicfuse::attr::InodeKind;
use crate::fserror::{FsError, FsErrorView};
use vstd::prelude::*;

verus! {

/// One row of a directory listing fetched from the store.
#[derive(Debug)]
pub struct StoreItem {
    pub name: String,
    pub kind: InodeKind,
    pub size: u64,
    pub content_ref: String,
}

/// The mathematical value of a [`StoreItem`].
pub struct StoreItemView {
    pub name: Seq<char>,
    pub kind: InodeKind,
    pub size: u64,
    pub content_ref: Seq<char>,
}

impl View for StoreItem {
    type V = StoreItemView;

    open spec fn view(&self) -> StoreItemView {
        StoreItemView {
            name: self.name@,
            kind: self.kind,
            size: self.size,
            content_ref: self.content_ref@,
        }
    }
}

impl Clone for StoreItem {
    fn clone(&self) -> (r: Self)
        ensures
            r@ == self@,
    {
        StoreItem {
            name: self.name.clone(),
            kind: self.kind,
            size: self.size,
            content_ref: self.content_ref.clone(),
        }
    }
}

/// The rows of a listing, as mathematical values.
pub open spec fn items_view(items: Seq<StoreItem>) -> Seq<StoreItemView> {
    items.map_values(|item: StoreItem| item@)
}

/// One entry of a directory as a reader sees it.
#[derive(Debug)]
pub struct DirEntry {
    pub name: String,
    pub inode: u64,
    pub kind: InodeKind,
}

/// The mathematical value of a [`DirEntry`].
pub struct DirEntryView {
    pub name: Seq<char>,
    pub inode: u64,
    pub kind: InodeKind,
}

impl View for DirEntry {
    type V = DirEntryView;

    open spec fn view(&self) -> DirEntryView {
        DirEntryView { name: self.name@, inode: self.inode, kind: self.kind }
    }
}

impl Clone for DirEntry {
    fn clone(&self) -> (r: Self)
        ensures
            r@ == self@,
    {
        DirEntry { name: self.name.clone(), inode: self.inode, kind: self.kind }
    }
}

/// The entries of a listing, as mathematical values.
pub open spec fn dir_entries_view(entries: Seq<DirEntry>) -> Seq<DirEntryView> {
    entries.map_values(|entry: DirEntry| entry@)
}

/// Which of the store's two operations a request is for.
#[derive(Copy, Clone, Debug, PartialEq, Eq, Structural)]
pub enum FetchKind {
    /// The listing of a directory.
    Tree,
    /// The content of a file or the target of a symbolic link.
    Blob,
}

/// A fetch that the tree needs before it can answer.
#[derive(Debug)]
pub struct FetchRequest {
    /// The inode that the answer belongs to.
    pub inode: u64,
    /// The store's identifier of what to fetch.
    pub content_ref: String,
    pub kind: FetchKind,
}

/// The mathematical value of a [`FetchRequest`].
pub struct FetchRequestView {
    pub inode: u64,
    pub content_ref: Seq<char>,
    pub kind: FetchKind,
}

impl View for FetchRequest {
    type V = FetchRequestView;

    open spec fn view(&self) -> FetchRequestView {
        FetchRequestView { inode: self.inode, content_ref: self.content_ref@, kind: self.kind }
    }
}

/// How a query against the tree ended.
#[derive(Debug)]
pub enum Step<T> {
    /// The answer.
    Done(Result<T, FsError>),
    /// The answer needs this fetch first: perform it, hand the outcome to the
    /// tree, and ask again.
    Fetch(FetchRequest),
    /// Another caller is fetching what the answer needs: ask again when the
    /// fetch for this inode has ended.
    Wait(u64),
}

/// The mathematical value of a [`Step`], over the value `V` of its answer.
pub enum StepView<V> {
    Done(Result<V, FsErrorView>),
    Fetch(FetchRequestView),
    Wait(u64),
}

} // verus!
