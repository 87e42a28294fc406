use fs_extra::error::FsError;
use fs_extra::fs_tree::FsNode;
use fs_extra::metadata::{metadata, Metadata};
use fs_extra::size::get_dir_size;

fn file(size: u64) -> FsNode {
    FsNode::File { size }
}

fn dir(entries: Vec<FsNode>) -> FsNode {
    FsNode::Dir { entries }
}

#[test]
fn metadata_existing_file() {
    let r = metadata(Some(file(100)));
    assert_eq!(
        r,
        Ok(Metadata { size: 100, is_dir: false, is_file: true, is_exist: true })
    );
}

#[test]
fn metadata_missing_path() {
    let r = metadata(None);
    assert_eq!(
        r,
        Ok(Metadata { size: 0, is_dir: false, is_file: false, is_exist: false })
    );
}

#[test]
fn metadata_nested_directory() {
    // root/ holds a 100-byte file and a subdirectory with a 50-byte file.
    let root = dir(vec![file(100), dir(vec![file(50)])]);
    let r = metadata(Some(root));
    assert_eq!(
        r,
        Ok(Metadata { size: 150, is_dir: true, is_file: false, is_exist: true })
    );
}

#[test]
fn metadata_idempotent() {
    let make = || dir(vec![file(3), dir(vec![file(4), FsNode::Other])]);
    let first = metadata(Some(make()));
    let second = metadata(Some(make()));
    assert_eq!(first, second);
}

#[test]
fn metadata_additive_disjoint_subdirectories() {
    let make_a = || dir(vec![file(30), FsNode::Other]);
    let make_b = || dir(vec![dir(vec![file(12)])]);
    let d = dir(vec![make_a(), make_b()]);
    let rd = metadata(Some(d)).unwrap();
    let ra = metadata(Some(make_a())).unwrap();
    let rb = metadata(Some(make_b())).unwrap();
    assert_eq!(rd.size, ra.size + rb.size);
    assert_eq!(rd.size, 42);
}

#[test]
fn metadata_denied_mid_traversal() {
    // A subdirectory that cannot be listed fails the whole query: no
    // partial or truncated size is reported.
    let root = dir(vec![file(10), dir(vec![FsNode::Denied])]);
    assert_eq!(metadata(Some(root)), Err(FsError::Filesystem));
}

#[test]
fn metadata_denied_at_top() {
    assert_eq!(metadata(Some(FsNode::Denied)), Err(FsError::Filesystem));
}

#[test]
fn metadata_neither_file_nor_directory() {
    assert_eq!(metadata(Some(FsNode::Other)), Err(FsError::Filesystem));
}

#[test]
fn dir_size_empty_directory() {
    assert_eq!(get_dir_size(dir(vec![])), Ok(0));
}

#[test]
fn dir_size_skips_special_entries() {
    let d = dir(vec![FsNode::Other, file(7), FsNode::Other]);
    assert_eq!(get_dir_size(d), Ok(7));
}

#[test]
fn dir_size_deep_nesting() {
    let mut node = file(5);
    for _ in 0..200 {
        node = dir(vec![node]);
    }
    assert_eq!(get_dir_size(node), Ok(5));
}

#[test]
fn dir_size_order_independent() {
    let forward = dir(vec![file(1), file(2), dir(vec![file(3)])]);
    let backward = dir(vec![dir(vec![file(3)]), file(2), file(1)]);
    assert_eq!(get_dir_size(forward), get_dir_size(backward));
}

#[test]
fn dir_size_total_too_large() {
    let d = dir(vec![file(u64::MAX), file(1)]);
    assert_eq!(get_dir_size(d), Err(FsError::Filesystem));
}

#[test]
fn error_kinds_are_distinct() {
    assert_ne!(FsError::Filesystem, FsError::ProcessSpawn);
}
