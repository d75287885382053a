//! Paths of the merged view, and their resolution in the lower layer.

use crate::fserror::{FsError, FsErrorView};
use vstd::prelude::*;
use vstd::string::StrSliceExecFns;

verus! {

/// The state of reading the first `n` characters of `path` from the left:
/// the components that have ended, and the characters of the one under way.
pub open spec fn scanned(path: Seq<char>, n: nat) -> (Seq<Seq<char>>, Seq<char>)
    decreases n,
{
    if n == 0 {
        (Seq::empty(), Seq::empty())
    } else {
        let (ended, current) = scanned(path, (n - 1) as nat);
        if path[n - 1] == '/' {
            if current.len() > 0 {
                (ended.push(current), Seq::empty())
            } else {
                (ended, Seq::empty())
            }
        } else {
            (ended, current.push(path[n - 1]))
        }
    }
}

/// The components of a path: its longest runs of characters other than `/`,
/// from left to right. Slashes at either end and runs of slashes count for
/// nothing.
pub open spec fn components(path: Seq<char>) -> Seq<Seq<char>> {
    let (ended, current) = scanned(path, path.len());
    if current.len() > 0 {
        ended.push(current)
    } else {
        ended
    }
}

/// No component is empty, and none holds a slash.
pub proof fn components_are_names(path: Seq<char>, k: int)
    requires
        0 <= k < components(path).len(),
    ensures
        components(path)[k].len() > 0,
        !components(path)[k].contains('/'),
{
    lemma_scanned_names(path, path.len());
}

proof fn lemma_scanned_names(path: Seq<char>, n: nat)
    requires
        n <= path.len(),
    ensures
        !scanned(path, n).1.contains('/'),
        forall|k: int|
            0 <= k < scanned(path, n).0.len() ==> (#[trigger] scanned(path, n).0[k]).len() > 0
                && !scanned(path, n).0[k].contains('/'),
    decreases n,
{
    if n > 0 {
        lemma_scanned_names(path, (n - 1) as nat);
        let (ended, current) = scanned(path, (n - 1) as nat);
        if path[n - 1] != '/' {
            let longer = current.push(path[n - 1]);
            if longer.contains('/') {
                let i = choose|i: int| 0 <= i < longer.len() && longer[i] == '/';
                if i < current.len() {
                    assert(current[i] == '/');
                }
            }
        }
    }
}

/// Splits a path into its components.
pub fn path_components(path: &str) -> (names: Vec<String>)
    ensures
        names.deep_view() == components(path@),
{
    let length = path.unicode_len();
    let mut names: Vec<String> = Vec::new();
    let mut start: usize = 0;
    let mut i: usize = 0;
    assert(names.deep_view() =~= scanned(path@, 0).0);
    while i < length
        invariant
            length == path@.len(),
            start <= i <= length,
            names.deep_view() == scanned(path@, i as nat).0,
            path@.subrange(start as int, i as int) == scanned(path@, i as nat).1,
        decreases length - i,
    {
        let ghost before = names.deep_view();
        let ghost current = scanned(path@, i as nat).1;
        if path.get_char(i) == '/' {
            if i > start {
                let name = path.substring_char(start, i).to_owned();
                names.push(name);
                assert(names.deep_view() =~= before.push(current));
            }
            start = i + 1;
            assert(path@.subrange(start as int, i + 1) =~= Seq::<char>::empty());
        } else {
            assert(path@.subrange(start as int, i + 1) =~= current.push(path@[i as int]));
        }
        i += 1;
    }
    let ghost before = names.deep_view();
    if length > start {
        let name = path.substring_char(start, length).to_owned();
        names.push(name);
        assert(names.deep_view() =~= before.push(scanned(path@, length as nat).1));
    }
    names
}

/// What a lookup in the lower layer says of residence: the inode, where the
/// name resolves; nothing, where the lower layer has no such entry. Any other
/// failure of the lower layer stays a failure.
pub open spec fn lower_of(found: Result<u64, FsErrorView>) -> Result<Option<u64>, FsErrorView> {
    match found {
        Ok(inode) => Ok(Some(inode)),
        Err(FsErrorView::NotFound) => Ok(None),
        Err(e) => Err(e),
    }
}

/// Reads the outcome of a lookup in the lower layer as the residence of the
/// name there.
pub fn lower_of_lookup(found: Result<u64, FsError>) -> (r: Result<Option<u64>, FsError>)
    ensures
        match r {
            Ok(lower) => lower_of(crate::dicfuse::tree::plain_result(found)) == Ok::<
                Option<u64>,
                FsErrorView,
            >(lower),
            Err(e) => lower_of(crate::dicfuse::tree::plain_result(found)) == Err::<
                Option<u64>,
                FsErrorView,
            >(e@),
        },
{
    match found {
        Ok(inode) => Ok(Some(inode)),
        Err(FsError::NotFound) => Ok(None),
        Err(e) => Err(e),
    }
}

} // verus!
