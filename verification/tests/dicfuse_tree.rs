use scorpio::dicfuse::attr::{S_IFDIR, S_IFLNK, S_IFMT, S_IFREG};
use scorpio::dicfuse::{
    AttributeSnapshot, Dicfuse, FetchKind, InodeKind, Step, StoreItem, ATTR_TTL_SECS, ROOT_INODE,
};
use scorpio::fserror::FsError;

fn item(name: &str, kind: InodeKind, size: u64, content_ref: &str) -> StoreItem {
    StoreItem { name: name.to_string(), kind, size, content_ref: content_ref.to_string() }
}

fn listed_tree() -> Dicfuse {
    let mut dic = Dicfuse::new("root".to_string());
    let listing = vec![
        item("src", InodeKind::Directory, 0, "t-src"),
        item("README", InodeKind::File, 5, "b-readme"),
        item("link", InodeKind::Symlink, 6, "b-link"),
    ];
    assert!(dic.complete_tree_fetch(ROOT_INODE, Ok(listing)).is_ok());
    dic
}

#[test]
fn test_getattr_with_mapping_directly() {
    let dic = Dicfuse::new("store".to_string());
    let result = dic.getattr_with_mapping(1, None, false);
    if let Ok((stat, ttl)) = result {
        assert_eq!(stat.inode, 1, "Inode number should match");
        assert_ne!(stat.mode & libc::S_IFMT, 0, "File type should be set");
        assert_eq!(ttl, 2, "TTL should be 2 seconds");
        assert_eq!(std::time::Duration::from_secs(ttl), std::time::Duration::from_secs(2));
    } else {
        assert!(result.is_err());
        if let Err(e) = result {
            assert_eq!(e.errno(), libc::ENOENT, "Should return ENOENT for non-existent inode");
        }
    }
    let missing = dic.getattr_with_mapping(99, None, false).unwrap_err();
    assert_eq!(missing.errno(), libc::ENOENT);
}

#[test]
fn test_getattr_with_mapping_call_chain() {
    let dic = Dicfuse::new("root".to_string());
    let root_inode = dic.root_inode();
    assert_eq!(root_inode, 1, "root inode is 1");
    let result = dic.getattr_with_mapping(root_inode, None, false);
    match &result {
        Ok((stat, _ttl)) => {
            assert_eq!(stat.inode, root_inode);
            assert_ne!(stat.mode, 0, "mode is set");
        }
        Err(e) => panic!("getattr_with_mapping failed: {:?}", e),
    }
    let result_mapped = dic.getattr_with_mapping(root_inode, None, true);
    assert!(result_mapped.is_ok(), "mapping=true succeeds");
    let result_unmapped = dic.getattr_with_mapping(root_inode, None, false);
    assert!(result_unmapped.is_ok(), "mapping=false succeeds");
    let (stat_mapped, _) = result_mapped.unwrap();
    let (stat_unmapped, _) = result_unmapped.unwrap();
    assert_eq!(stat_mapped.inode, stat_unmapped.inode);
    assert_eq!(stat_mapped.mode, stat_unmapped.mode);
    assert_eq!(stat_mapped.uid, stat_unmapped.uid);
    assert_eq!(stat_mapped.gid, stat_unmapped.gid);
}

#[test]
fn root_is_inode_one_and_a_directory() {
    let dic = Dicfuse::new("r".to_string());
    assert_eq!(dic.root_inode(), 1);
    assert_eq!(ROOT_INODE, 1);
    let root = dic.entry(1).unwrap();
    assert_eq!(root.kind, InodeKind::Directory);
    assert_eq!(root.parent, 1);
    assert!(!root.loaded);
    let (attrs, _) = dic.getattr_with_mapping(1, None, true).unwrap();
    assert_eq!(attrs.mode & S_IFMT, S_IFDIR);
    assert_eq!(attrs.kind(), Some(InodeKind::Directory));
    assert_eq!(dic.inode_count(), 1);
    let listed = listed_tree();
    assert_eq!(listed.entry(1).unwrap().kind, InodeKind::Directory);
}

#[test]
fn mapping_flag_and_handle_change_nothing() {
    let dic = listed_tree();
    for inode in 0..6u64 {
        let a = dic.getattr_with_mapping(inode, None, true);
        let b = dic.getattr_with_mapping(inode, Some(17), false);
        match (a, b) {
            (Ok((x, tx)), Ok((y, ty))) => {
                assert_eq!(x, y);
                assert_eq!(tx, ty);
            }
            (Err(x), Err(y)) => assert_eq!(x.errno(), y.errno()),
            _ => panic!("the mapping flag changed the outcome"),
        }
    }
}

#[test]
fn attribute_ttl_is_two_seconds() {
    let dic = listed_tree();
    assert_eq!(ATTR_TTL_SECS, 2);
    for inode in 1..=4u64 {
        let (_, ttl) = dic.getattr_with_mapping(inode, None, false).unwrap();
        assert_eq!(ttl, 2);
    }
}

#[test]
fn attributes_are_synthesized_by_kind() {
    let dic = listed_tree();
    let (dir, _) = dic.getattr_with_mapping(2, None, false).unwrap();
    assert_eq!(
        dir,
        AttributeSnapshot {
            inode: 2,
            mode: 0o040755,
            uid: 0,
            gid: 0,
            size: 0,
            atime_secs: 0,
            mtime_secs: 0,
            ctime_secs: 0
        }
    );
    let (file, _) = dic.getattr_with_mapping(3, None, false).unwrap();
    assert_eq!(file.mode, 0o100755);
    assert_eq!(file.mode & S_IFMT, S_IFREG);
    assert_eq!(file.size, 5);
    assert!(file.is_regular_file());
    let (link, _) = dic.getattr_with_mapping(4, None, false).unwrap();
    assert_eq!(link.mode, 0o120777);
    assert_eq!(link.mode & S_IFMT, S_IFLNK);
    assert!(!link.is_regular_file());
    assert_eq!(link.kind(), Some(InodeKind::Symlink));
    assert_eq!(InodeKind::File.mode(), 0o100755);
    let odd = AttributeSnapshot { mode: 0o020666, ..file };
    assert_eq!(odd.kind(), None);
    assert_eq!(S_IFMT as u32, libc::S_IFMT as u32);
    assert_eq!(S_IFDIR as u32, libc::S_IFDIR as u32);
    assert_eq!(S_IFREG as u32, libc::S_IFREG as u32);
    assert_eq!(S_IFLNK as u32, libc::S_IFLNK as u32);
}

#[test]
fn lookup_fetches_the_listing_once() {
    let mut dic = Dicfuse::new("root-ref".to_string());
    match dic.lookup(1, "src") {
        Step::Fetch(request) => {
            assert_eq!(request.inode, 1);
            assert_eq!(request.content_ref, "root-ref");
            assert_eq!(request.kind, FetchKind::Tree);
        }
        other => panic!("unexpected step {:?}", other),
    }
    assert!(matches!(dic.lookup(1, "src"), Step::Wait(1)));
    assert!(matches!(dic.read_directory(1, 0), Step::Wait(1)));
    let listing = vec![
        item("src", InodeKind::Directory, 0, "t-src"),
        item("README", InodeKind::File, 5, "b-readme"),
    ];
    assert!(dic.complete_tree_fetch(1, Ok(listing)).is_ok());
    assert!(matches!(dic.lookup(1, "src"), Step::Done(Ok(2))));
    assert!(matches!(dic.lookup(1, "README"), Step::Done(Ok(3))));
    assert!(matches!(dic.lookup(1, "absent"), Step::Done(Err(FsError::NotFound))));
    assert!(matches!(dic.lookup(3, "x"), Step::Done(Err(FsError::NotFound))));
    assert!(matches!(dic.lookup(77, "x"), Step::Done(Err(FsError::NotFound))));
    assert!(matches!(dic.lookup(0, "x"), Step::Done(Err(FsError::NotFound))));
    match dic.lookup(2, "main.rs") {
        Step::Fetch(request) => {
            assert_eq!(request.inode, 2);
            assert_eq!(request.content_ref, "t-src");
        }
        other => panic!("unexpected step {:?}", other),
    }
}

#[test]
fn first_of_two_equal_names_wins() {
    let mut dic = Dicfuse::new("r".to_string());
    let listing = vec![
        item("a", InodeKind::File, 1, "one"),
        item("a", InodeKind::File, 2, "two"),
    ];
    assert!(dic.complete_tree_fetch(1, Ok(listing)).is_ok());
    assert!(matches!(dic.lookup(1, "a"), Step::Done(Ok(2))));
}

#[test]
fn failed_fetch_is_reported_and_can_be_tried_again() {
    let mut dic = Dicfuse::new("r".to_string());
    assert!(matches!(dic.lookup(1, "x"), Step::Fetch(_)));
    let error = dic.complete_tree_fetch(1, Err("connection reset".to_string())).unwrap_err();
    assert_eq!(error.errno(), libc::EIO);
    assert_eq!(error.message(), "connection reset");
    assert!(matches!(error, FsError::BackendFailure(_)));
    assert!(matches!(dic.lookup(1, "x"), Step::Fetch(_)));
    assert!(dic.complete_tree_fetch(1, Ok(vec![])).is_ok());
    assert!(matches!(dic.lookup(1, "x"), Step::Done(Err(FsError::NotFound))));
    assert!(matches!(dic.read_directory(1, 0), Step::Done(Ok(v)) if v.is_empty()));
}

#[test]
fn a_second_listing_does_not_replace_the_first() {
    let mut dic = listed_tree();
    let count = dic.inode_count();
    assert!(dic.complete_tree_fetch(1, Ok(vec![item("new", InodeKind::File, 1, "n")])).is_ok());
    assert_eq!(dic.inode_count(), count);
    assert!(matches!(dic.lookup(1, "new"), Step::Done(Err(FsError::NotFound))));
    assert!(matches!(dic.complete_tree_fetch(3, Ok(vec![])), Err(FsError::NotFound)));
    assert!(matches!(dic.complete_tree_fetch(50, Ok(vec![])), Err(FsError::NotFound)));
}

#[test]
fn read_directory_lists_in_insertion_order_and_restarts() {
    let mut dic = listed_tree();
    let all = match dic.read_directory(1, 0) {
        Step::Done(Ok(entries)) => entries,
        other => panic!("unexpected step {:?}", other),
    };
    let names: Vec<&str> = all.iter().map(|e| e.name.as_str()).collect();
    assert_eq!(names, vec!["src", "README", "link"]);
    let inodes: Vec<u64> = all.iter().map(|e| e.inode).collect();
    assert_eq!(inodes, vec![2, 3, 4]);
    assert_eq!(all[0].kind, InodeKind::Directory);
    assert_eq!(all[1].kind, InodeKind::File);
    assert_eq!(all[2].kind, InodeKind::Symlink);
    match dic.read_directory(1, 2) {
        Step::Done(Ok(rest)) => {
            assert_eq!(rest.len(), 1);
            assert_eq!(rest[0].name, "link");
        }
        other => panic!("unexpected step {:?}", other),
    }
    assert!(matches!(dic.read_directory(1, 3), Step::Done(Ok(v)) if v.is_empty()));
    assert!(matches!(dic.read_directory(1, 30), Step::Done(Ok(v)) if v.is_empty()));
    assert!(matches!(dic.read_directory(3, 0), Step::Done(Err(FsError::NotFound))));
    assert!(matches!(dic.read_directory(9, 0), Step::Done(Err(FsError::NotFound))));
    assert!(matches!(dic.read_directory(2, 0), Step::Fetch(_)));
}

#[test]
fn read_fetches_content_once_and_serves_windows() {
    let mut dic = listed_tree();
    match dic.read(3, 0, 10) {
        Step::Fetch(request) => {
            assert_eq!(request.inode, 3);
            assert_eq!(request.content_ref, "b-readme");
            assert_eq!(request.kind, FetchKind::Blob);
        }
        other => panic!("unexpected step {:?}", other),
    }
    assert!(matches!(dic.read(3, 0, 10), Step::Wait(3)));
    assert!(dic.complete_blob_fetch(3, Ok(b"hello".to_vec())).is_ok());
    assert!(matches!(dic.read(3, 0, 10), Step::Done(Ok(v)) if v == b"hello"));
    assert!(matches!(dic.read(3, 1, 3), Step::Done(Ok(v)) if v == b"ell"));
    assert!(matches!(dic.read(3, 4, 1), Step::Done(Ok(v)) if v == b"o"));
    assert!(matches!(dic.read(3, 5, 1), Step::Done(Ok(v)) if v.is_empty()));
    assert!(matches!(dic.read(3, 2, 0), Step::Done(Ok(v)) if v.is_empty()));
    assert!(matches!(dic.read(3, u64::MAX, u32::MAX), Step::Done(Ok(v)) if v.is_empty()));
    assert!(matches!(dic.read(3, 3, u32::MAX), Step::Done(Ok(v)) if v == b"lo"));
    assert!(matches!(dic.read(1, 0, 1), Step::Done(Err(FsError::NotFound))));
    assert!(matches!(dic.read(40, 0, 1), Step::Done(Err(FsError::NotFound))));
    assert!(dic.complete_blob_fetch(3, Ok(b"other".to_vec())).is_ok());
    assert!(matches!(dic.read(3, 0, 10), Step::Done(Ok(v)) if v == b"hello"));
}

#[test]
fn blob_of_the_wrong_length_is_refused() {
    let mut dic = listed_tree();
    let error = dic.complete_blob_fetch(3, Ok(b"toolong".to_vec())).unwrap_err();
    assert_eq!(error.message(), "blob length differs from the listed size");
    assert_eq!(error.errno(), libc::EIO);
    assert!(matches!(dic.read(3, 0, 1), Step::Fetch(_)));
    let error = dic.complete_blob_fetch(3, Err("timeout".to_string())).unwrap_err();
    assert_eq!(error.message(), "timeout");
    assert!(matches!(dic.complete_blob_fetch(1, Ok(vec![])), Err(FsError::NotFound)));
    assert!(matches!(dic.complete_blob_fetch(0, Ok(vec![])), Err(FsError::NotFound)));
}

#[test]
fn inodes_keep_their_numbers() {
    let mut dic = listed_tree();
    let before: Vec<(u64, u64, String)> =
        (1..=4).map(|i| dic.entry(i).map(|e| (e.inode, e.parent, e.name.clone())).unwrap()).collect();
    assert!(dic
        .complete_tree_fetch(2, Ok(vec![item("main.rs", InodeKind::File, 3, "b-main")]))
        .is_ok());
    assert!(dic.complete_blob_fetch(3, Ok(b"hello".to_vec())).is_ok());
    let after: Vec<(u64, u64, String)> =
        (1..=4).map(|i| dic.entry(i).map(|e| (e.inode, e.parent, e.name.clone())).unwrap()).collect();
    assert_eq!(before, after);
    let added = dic.entry(5).unwrap();
    assert_eq!(added.name, "main.rs");
    assert_eq!(added.parent, 2);
    assert_eq!(added.inode, 5);
    assert_eq!(dic.entry(2).unwrap().children, vec![5]);
    assert!(dic.entry(6).is_none());
    assert!(dic.entry(0).is_none());
}

#[test]
fn eager_import_lists_every_directory() {
    let mut dic = Dicfuse::new("root".to_string());
    let mut fetched: Vec<String> = Vec::new();
    let mut rounds = 0;
    while let Some(request) = dic.import_next() {
        rounds += 1;
        assert!(rounds < 10);
        assert_eq!(request.kind, FetchKind::Tree);
        fetched.push(request.content_ref.clone());
        let listing = match request.content_ref.as_str() {
            "root" => vec![
                item("a", InodeKind::Directory, 0, "t-a"),
                item("f", InodeKind::File, 1, "b-f"),
                item("b", InodeKind::Directory, 0, "t-b"),
            ],
            "t-a" => vec![item("deep", InodeKind::Directory, 0, "t-deep")],
            _ => vec![],
        };
        assert!(dic.complete_tree_fetch(request.inode, Ok(listing)).is_ok());
    }
    assert_eq!(fetched, vec!["root", "t-a", "t-b", "t-deep"]);
    assert!(dic.import_next().is_none());
    assert!(matches!(dic.lookup(1, "a"), Step::Done(Ok(2))));
    assert!(matches!(dic.lookup(2, "deep"), Step::Done(Ok(5))));
    assert!(matches!(dic.lookup(5, "x"), Step::Done(Err(FsError::NotFound))));
    assert!(matches!(dic.read_directory(4, 0), Step::Done(Ok(v)) if v.is_empty()));
}
