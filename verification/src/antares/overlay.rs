//! Directory composition: one listing out of the upper and the lower one.

use crate::dicfuse::attr::InodeKind;
use crate::dicfuse::store::{dir_entries_view, DirEntry, DirEntryView};
use vstd::prelude::*;

verus! {

/// One entry of a directory of the upper layer.
#[derive(Debug)]
pub struct UpperDirEntry {
    pub name: String,
    pub inode: u64,
    pub kind: InodeKind,
    /// Whether the entry marks the name as deleted.
    pub whiteout: bool,
}

/// The mathematical value of an [`UpperDirEntry`].
pub struct UpperDirEntryView {
    pub name: Seq<char>,
    pub inode: u64,
    pub kind: InodeKind,
    pub whiteout: bool,
}

impl View for UpperDirEntry {
    type V = UpperDirEntryView;

    open spec fn view(&self) -> UpperDirEntryView {
        UpperDirEntryView {
            name: self.name@,
            inode: self.inode,
            kind: self.kind,
            whiteout: self.whiteout,
        }
    }
}

/// The entries of an upper directory, as mathematical values.
pub open spec fn upper_entries_view(entries: Seq<UpperDirEntry>) -> Seq<UpperDirEntryView> {
    entries.map_values(|e: UpperDirEntry| e@)
}

/// Whether the upper directory has `name`, as an entry or as a deletion mark.
pub open spec fn upper_has(upper: Seq<UpperDirEntryView>, name: Seq<char>) -> bool {
    exists|i: int| 0 <= i < upper.len() && (#[trigger] upper[i]).name == name
}

/// An entry of the upper directory as a reader sees it.
pub open spec fn plain(e: UpperDirEntryView) -> DirEntryView {
    DirEntryView { name: e.name, inode: e.inode, kind: e.kind }
}

/// The entries that the upper directory shows: all but its deletion marks.
pub open spec fn shown_upper(upper: Seq<UpperDirEntryView>) -> Seq<DirEntryView> {
    upper.filter(|e: UpperDirEntryView| !e.whiteout).map_values(|e: UpperDirEntryView| plain(e))
}

/// The entries of the lower directory that the upper one neither replaces
/// nor marks deleted.
pub open spec fn shown_lower(upper: Seq<UpperDirEntryView>, lower: Seq<DirEntryView>) -> Seq<
    DirEntryView,
> {
    lower.filter(|e: DirEntryView| !upper_has(upper, e.name))
}

/// The merged listing: the upper entries in their order, then the lower
/// entries that remain visible, in theirs.
pub open spec fn merged(upper: Seq<UpperDirEntryView>, lower: Seq<DirEntryView>) -> Seq<
    DirEntryView,
> {
    shown_upper(upper) + shown_lower(upper, lower)
}

/// What one more upper entry adds to what the upper directory shows.
pub proof fn lemma_shown_upper_push(upper: Seq<UpperDirEntryView>, last: UpperDirEntryView)
    ensures
        shown_upper(upper.push(last)) == if last.whiteout {
            shown_upper(upper)
        } else {
            shown_upper(upper).push(plain(last))
        },
{
    reveal(Seq::filter);
    assert(upper.push(last).drop_last() =~= upper);
    let keep = |e: UpperDirEntryView| !e.whiteout;
    if !last.whiteout {
        assert(upper.filter(keep).push(last).map_values(|e: UpperDirEntryView| plain(e))
            =~= upper.filter(keep).map_values(|e: UpperDirEntryView| plain(e)).push(plain(last)));
    }
}

/// What one more lower entry adds to what the lower directory shows.
pub proof fn lemma_shown_lower_push(
    upper: Seq<UpperDirEntryView>,
    lower: Seq<DirEntryView>,
    last: DirEntryView,
)
    ensures
        shown_lower(upper, lower.push(last)) == if upper_has(upper, last.name) {
            shown_lower(upper, lower)
        } else {
            shown_lower(upper, lower).push(last)
        },
{
    reveal(Seq::filter);
    assert(lower.push(last).drop_last() =~= lower);
}

/// Whether `upper` holds `name`.
fn names(upper: &Vec<UpperDirEntry>, name: &String) -> (found: bool)
    ensures
        found == upper_has(upper_entries_view(upper@), name@),
{
    let mut i: usize = 0;
    while i < upper.len()
        invariant
            i <= upper@.len(),
            forall|j: int| 0 <= j < i ==> (#[trigger] upper@[j]).name@ != name@,
        decreases upper@.len() - i,
    {
        if upper[i].name == *name {
            assert(upper_entries_view(upper@)[i as int].name == name@);
            return true;
        }
        i += 1;
    }
    proof {
        let shown = upper_entries_view(upper@);
        assert forall|j: int| 0 <= j < shown.len() implies (#[trigger] shown[j]).name != name@ by {
            assert(upper@[j].name@ != name@);
        }
    }
    false
}

/// Merges the listing of a directory of the upper layer with that of the same
/// directory of the lower layer. Names are merged with the upper layer
/// taking precedence: a name that the upper layer has shows its upper entry
/// only, and a name that the upper layer marks deleted shows nothing.
pub fn merge_directory(upper: &Vec<UpperDirEntry>, lower: &Vec<DirEntry>) -> (listing: Vec<DirEntry>)
    ensures
        dir_entries_view(listing@) == merged(upper_entries_view(upper@), dir_entries_view(lower@)),
{
    let ghost above = upper_entries_view(upper@);
    let ghost below = dir_entries_view(lower@);
    let mut listing: Vec<DirEntry> = Vec::new();
    let mut i: usize = 0;
    proof {
        reveal(Seq::filter);
        assert(above.take(0) =~= Seq::<UpperDirEntryView>::empty());
        assert(dir_entries_view(listing@) =~= shown_upper(above.take(0)));
    }
    while i < upper.len()
        invariant
            i <= upper@.len(),
            above == upper_entries_view(upper@),
            dir_entries_view(listing@) == shown_upper(above.take(i as int)),
        decreases upper@.len() - i,
    {
        let ghost before = dir_entries_view(listing@);
        if !upper[i].whiteout {
            listing.push(
                DirEntry { name: upper[i].name.clone(), inode: upper[i].inode, kind: upper[i].kind },
            );
        }
        proof {
            assert(above.take(i + 1) =~= above.take(i as int).push(above[i as int]));
            lemma_shown_upper_push(above.take(i as int), above[i as int]);
            if !above[i as int].whiteout {
                assert(dir_entries_view(listing@) =~= before.push(plain(above[i as int])));
            } else {
                assert(dir_entries_view(listing@) =~= before);
            }
        }
        i += 1;
    }
    let ghost top = dir_entries_view(listing@);
    let mut k: usize = 0;
    proof {
        reveal(Seq::filter);
        assert(above.take(upper@.len() as int) =~= above);
        assert(below.take(0) =~= Seq::<DirEntryView>::empty());
        assert(dir_entries_view(listing@) =~= top + shown_lower(above, below.take(0)));
    }
    while k < lower.len()
        invariant
            k <= lower@.len(),
            above == upper_entries_view(upper@),
            below == dir_entries_view(lower@),
            top == shown_upper(above),
            dir_entries_view(listing@) == top + shown_lower(above, below.take(k as int)),
        decreases lower@.len() - k,
    {
        let ghost before = dir_entries_view(listing@);
        let hidden = names(upper, &lower[k].name);
        if !hidden {
            listing.push(
                DirEntry { name: lower[k].name.clone(), inode: lower[k].inode, kind: lower[k].kind },
            );
        }
        proof {
            let head = below.take(k as int);
            assert(below.take(k + 1) =~= head.push(below[k as int]));
            lemma_shown_lower_push(above, head, below[k as int]);
            if !hidden {
                assert(dir_entries_view(listing@) =~= before.push(below[k as int]));
                assert(top + shown_lower(above, head).push(below[k as int]) =~= (top
                    + shown_lower(above, head)).push(below[k as int]));
            } else {
                assert(dir_entries_view(listing@) =~= before);
            }
        }
        k += 1;
    }
    assert(below.take(lower@.len() as int) =~= below);
    listing
}

} // verus!
