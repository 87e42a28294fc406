//! Verified core of a small filesystem-metadata service.
//!
//! The library answers two questions about a filesystem entry: how large it
//! is (recursively, for a directory) together with its kind and existence,
//! and which native command reveals or opens it in the platform's file
//! manager.  All reasoning is done over [`fs_tree::FsNode`], an in-memory
//! snapshot of what the operating system reports for a subtree; the caller
//! performs the actual directory listing and metadata reads and hands the
//! snapshot in, so that the aggregation and classification logic here is
//! verified for every snapshot the filesystem could produce.

pub mod error;
pub mod fs_tree;
pub mod launcher;
pub mod metadata;
pub mod size;
