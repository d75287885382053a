//! What holds of every virtual tree.

use crate::dicfuse::attr::{kind_of_mode, InodeKind, ATTR_TTL_SECS};
use crate::dicfuse::store::{DirEntryView, StepView, StoreItemView};
use crate::dicfuse::tree::{lemma_cached_wf, lemma_installed_wf, DicfuseView, ROOT_INODE};
use vstd::prelude::*;

verus! {

/// In every tree the root is inode 1 and a directory, and its attributes say
/// so.
pub proof fn root_is_a_directory(tree: DicfuseView, handle: Option<u64>, mapping: bool)
    requires
        tree.wf(),
    ensures
        ROOT_INODE == 1,
        tree.is_directory(ROOT_INODE),
        tree.entry(ROOT_INODE).inode == ROOT_INODE,
        tree.getattr_result(ROOT_INODE, handle, mapping) matches Ok((attrs, _)) && attrs.inode
            == ROOT_INODE && kind_of_mode(attrs.mode) == Some(InodeKind::Directory),
{
    assert(tree.entries[0].inode == 1);
    assert(0o040755u32 & 0o170000u32 == 0o040000u32) by (bit_vector);
}

/// The mapping flag and the file handle are no-ops on the read-only layer:
/// whatever they are, the attributes of an inode come out the same, and so
/// does the failure for an inode that the tree does not hold.
pub proof fn mapping_flag_is_ignored(
    tree: DicfuseView,
    inode: u64,
    handle: Option<u64>,
    other_handle: Option<u64>,
)
    ensures
        tree.getattr_result(inode, handle, true) == tree.getattr_result(inode, other_handle, false),
{
}

/// Attributes of the read-only layer may be cached for exactly two seconds,
/// and they are served for exactly the inodes of the table.
pub proof fn attribute_ttl_is_two_seconds(
    tree: DicfuseView,
    inode: u64,
    handle: Option<u64>,
    mapping: bool,
)
    ensures
        ATTR_TTL_SECS == 2,
        tree.getattr_result(inode, handle, mapping) matches Ok((_, ttl)) ==> ttl == 2,
        tree.getattr_result(inode, handle, mapping) is Ok <==> tree.contains(inode),
        tree.getattr_result(inode, handle, mapping) matches Err(e) ==> e is NotFound,
{
}

/// Dropping an inode from the fetches under way keeps the tree well formed.
pub proof fn lemma_without_pending_wf(tree: DicfuseView, inode: u64)
    requires
        tree.wf(),
    ensures
        tree.without_pending(inode).wf(),
{
    let after = tree.without_pending(inode);
    assert(after.entries == tree.entries);
    assert forall|i: int| 0 <= i < after.entries.len() implies after.entry_wf(
        #[trigger] after.entries[i],
    ) by {
        assert(tree.entry_wf(tree.entries[i]));
    }
    assert forall|x: u64| #[trigger] after.pending.contains(x) implies after.contains(x)
        && !after.entry(x).loaded by {
        assert(tree.pending.contains(x));
    }
}

/// Inode numbers are stable when a listing arrives: every entry that the
/// table held is still there under its number, with its parent, name, kind,
/// size and store reference, and what was loaded stays as it was.
pub proof fn inodes_are_stable_across_tree_fetch(
    tree: DicfuseView,
    dir: u64,
    listing: Result<Seq<StoreItemView>, Seq<char>>,
    known: u64,
)
    requires
        tree.wf(),
        tree.contains(known),
    ensures
        tree.after_tree_fetch(dir, listing).wf(),
        tree.after_tree_fetch(dir, listing).contains(known),
        tree.entry(known).same_identity(tree.after_tree_fetch(dir, listing).entry(known)),
{
    if tree.installs(dir, listing) {
        let items = listing->Ok_0;
        lemma_installed_wf(tree, dir, items);
        let after = tree.installed(dir, items);
        assert(after.entries[known - 1] == tree.entries.update(dir - 1, after.entries[dir - 1])[known
            - 1]);
    } else if tree.is_directory(dir) {
        lemma_without_pending_wf(tree, dir);
    }
}

/// Inode numbers are stable when a content arrives: every entry that the
/// table held is still there under its number, with its parent, name, kind,
/// size and store reference, and what was loaded stays as it was.
pub proof fn inodes_are_stable_across_blob_fetch(
    tree: DicfuseView,
    inode: u64,
    blob: Result<Seq<u8>, Seq<char>>,
    known: u64,
)
    requires
        tree.wf(),
        tree.contains(known),
    ensures
        tree.after_blob_fetch(inode, blob).wf(),
        tree.after_blob_fetch(inode, blob).contains(known),
        tree.entry(known).same_identity(tree.after_blob_fetch(inode, blob).entry(known)),
{
    if tree.caches(inode, blob) {
        lemma_cached_wf(tree, inode, blob->Ok_0);
    } else if tree.has_content(inode) {
        lemma_without_pending_wf(tree, inode);
    }
}

/// A fetch is started once: while the fetch for an inode is under way, a
/// query that needs the inode loaded is told to wait, and the table does not
/// change.
pub proof fn no_duplicate_fetch(tree: DicfuseView, inode: u64, name: Seq<char>, offset: usize)
    requires
        tree.wf(),
        tree.is_directory(inode),
        tree.lookup_step(inode, name) is Fetch,
    ensures
        ({
            let started = tree.after_step(inode, tree.lookup_step(inode, name));
            &&& started.wf()
            &&& started.lookup_step(inode, name) == StepView::<u64>::Wait(inode)
            &&& started.read_directory_step(inode, offset) == StepView::<Seq<DirEntryView>>::Wait(
                inode,
            )
            &&& started.after_step(inode, started.lookup_step(inode, name)) == started
        }),
{
}

/// Once the listing of a directory is installed, queries on it are answered
/// from the table: a lookup finds each row of the listing under its number,
/// and reading the directory gives the rows in the order of the listing.
pub proof fn installed_listing_is_served(
    tree: DicfuseView,
    dir: u64,
    items: Seq<StoreItemView>,
    k: int,
)
    requires
        tree.wf(),
        tree.installs(dir, Ok(items)),
        0 <= k < items.len(),
    ensures
        ({
            let after = tree.after_tree_fetch(dir, Ok(items));
            let listed = after.read_directory_step(dir, 0);
            &&& listed matches StepView::Done(Ok(rows)) && rows.len() == items.len() && rows[k]
                == (DirEntryView {
                name: items[k].name,
                inode: (tree.entries.len() + k + 1) as u64,
                kind: items[k].kind,
            })
            &&& after.lookup_step(dir, items[k].name) matches StepView::Done(Ok(found))
                && after.entry(found).name == items[k].name && after.entry(found).parent == dir
        }),
{
    let after = tree.after_tree_fetch(dir, Ok(items));
    let base = tree.entries.len();
    assert(after == tree.installed(dir, items));
    assert(after.entry(dir).children.len() == items.len());
    assert forall|j: int| 0 <= j < items.len() implies after.entry(
        #[trigger] after.entry(dir).children[j],
    ) == crate::dicfuse::tree::InodeEntryView::discovered((base + j + 1) as u64, dir, items[j]) by {
        assert(after.entry(dir).children[j] == (base + j + 1) as u64);
        assert(after.entries[base + j] == crate::dicfuse::tree::InodeEntryView::discovered(
            (base + j + 1) as u64,
            dir,
            items[j],
        ));
    }
    assert(after.listing(dir).len() == items.len());
    assert(after.listing_from(dir, 0) =~= after.listing(dir));
    assert(after.names_child(dir, items[k].name, k));
    lemma_first_named_exists(after, dir, items[k].name, k);
    let first = choose|c: int| after.first_named(dir, items[k].name, c);
    assert(after.names_child(dir, items[k].name, first));
}

/// Where a child bears a name, a first child bears it.
pub proof fn lemma_first_named_exists(tree: DicfuseView, dir: u64, name: Seq<char>, k: int)
    requires
        tree.names_child(dir, name, k),
    ensures
        exists|c: int| tree.first_named(dir, name, c),
    decreases k,
{
    if forall|j: int| 0 <= j < k ==> !tree.names_child(dir, name, j) {
        assert(tree.first_named(dir, name, k));
    } else {
        let j = choose|j: int| 0 <= j < k && tree.names_child(dir, name, j);
        lemma_first_named_exists(tree, dir, name, j);
    }
}

/// After the eager import, no query on the tree's structure needs the store:
/// every lookup and every directory read is answered at once.
pub proof fn imported_tree_needs_no_fetch(
    tree: DicfuseView,
    inode: u64,
    name: Seq<char>,
    offset: usize,
)
    requires
        tree.wf(),
        tree.fully_listed(),
    ensures
        tree.lookup_step(inode, name) is Done,
        tree.read_directory_step(inode, offset) is Done,
        tree.after_step(inode, tree.lookup_step(inode, name)) == tree,
        tree.after_step(inode, tree.read_directory_step(inode, offset)) == tree,
{
    if tree.is_directory(inode) {
        assert(tree.entry(inode).loaded);
    }
}

} // verus!
