//! Adapters for the filesystem operations.
//!
//! Each adapter stands for one operation of the platform. It takes the path
//! or paths the operation was given and the outcome the platform returned,
//! and reports that outcome with the operation's action label attached to a
//! failure. Operations that go from one path to another attribute a failure
//! to both paths.

use vstd::prelude::*;
use std::path::PathBuf;
use crate::io::attach_path;
use crate::io::attach_paths;
use crate::io::with_path;
use crate::io::with_paths;
use crate::io::Error;
use crate::io::Result;

pub mod dir;
pub mod file;
pub mod metadata;
pub mod open_options;

pub use dir::DirBuilder;
pub use dir::DirEntry;
pub use dir::ReadDir;
pub use dir::Yielded;
pub use file::File;
pub use metadata::Metadata;
pub use open_options::OpenOptions;

verus! {

/// Reports the outcome of resolving `path` to its canonical, absolute form:
/// the resolved path, or the failure.
pub fn canonicalize(
    path: PathBuf,
    outcome: std::result::Result<PathBuf, std::io::Error>,
) -> (reported: Result<PathBuf>)
    ensures
        reported == with_path(outcome, path, "canonicalizing"),
{
    attach_path(outcome, path, "canonicalizing")
}

/// Reports the outcome of copying the file at `from` to `to`: the number of
/// bytes copied, or the failure.
pub fn copy(
    from: PathBuf,
    to: PathBuf,
    outcome: std::result::Result<u64, std::io::Error>,
) -> (reported: Result<u64>)
    ensures
        reported == with_paths(outcome, from, to, "copying file"),
{
    attach_paths(outcome, from, to, "copying file")
}

/// Reports the outcome of creating the directory at `path`.
pub fn create_dir(
    path: PathBuf,
    outcome: std::result::Result<(), std::io::Error>,
) -> (reported: Result<()>)
    ensures
        reported == with_path(outcome, path, "creating directory"),
{
    attach_path(outcome, path, "creating directory")
}

/// Reports the outcome of creating the directory at `path` together with
/// its missing parents.
pub fn create_dir_all(
    path: PathBuf,
    outcome: std::result::Result<(), std::io::Error>,
) -> (reported: Result<()>)
    ensures
        reported == with_path(outcome, path, "recursively creating directory"),
{
    attach_path(outcome, path, "recursively creating directory")
}

/// Reports the outcome of creating the hard link `dst` to the file at `src`.
pub fn hard_link(
    src: PathBuf,
    dst: PathBuf,
    outcome: std::result::Result<(), std::io::Error>,
) -> (reported: Result<()>)
    ensures
        reported == with_paths(outcome, src, dst, "hard linking"),
{
    attach_paths(outcome, src, dst, "hard linking")
}

/// Reports the outcome of reading the metadata of `path`: the metadata
/// wrapped with the path, or the failure.
pub fn metadata<M>(
    path: PathBuf,
    outcome: std::result::Result<M, std::io::Error>,
) -> (reported: Result<Metadata<M>>)
    ensures
        reported == match with_path(outcome, path, "getting metadata from") {
            Ok(data) => Ok(Metadata::wrapping(data, path)),
            Err(err) => Err(err),
        },
{
    match outcome {
        Ok(data) => Ok(Metadata::new(data, path)),
        Err(err) => Err(Error::Filesystem(path, "getting metadata from", err)),
    }
}

/// Reports the outcome of reading the whole file at `path`: its bytes, or the
/// failure.
pub fn read(
    path: PathBuf,
    outcome: std::result::Result<Vec<u8>, std::io::Error>,
) -> (reported: Result<Vec<u8>>)
    ensures
        reported == with_path(outcome, path, "reading"),
{
    attach_path(outcome, path, "reading")
}

/// Reports the outcome of opening the directory at `path` for listing: the
/// listing wrapped with the path, or the failure.
pub fn read_dir<R>(
    path: PathBuf,
    outcome: std::result::Result<R, std::io::Error>,
) -> (reported: Result<ReadDir<R>>)
    ensures
        reported == match with_path(outcome, path, "reading directory") {
            Ok(handle) => Ok(ReadDir::wrapping(handle, path)),
            Err(err) => Err(err),
        },
{
    match outcome {
        Ok(handle) => Ok(ReadDir::new(handle, path)),
        Err(err) => Err(Error::Filesystem(path, "reading directory", err)),
    }
}

/// Reports the outcome of reading the target of the symbolic link at `path`:
/// the target, or the failure.
pub fn read_link(
    path: PathBuf,
    outcome: std::result::Result<PathBuf, std::io::Error>,
) -> (reported: Result<PathBuf>)
    ensures
        reported == with_path(outcome, path, "reading link"),
{
    attach_path(outcome, path, "reading link")
}

/// Reports the outcome of reading the whole file at `path` as text: the
/// text, or the failure.
pub fn read_to_string(
    path: PathBuf,
    outcome: std::result::Result<String, std::io::Error>,
) -> (reported: Result<String>)
    ensures
        reported == with_path(outcome, path, "reading"),
{
    attach_path(outcome, path, "reading")
}

/// Reports the outcome of removing the empty directory at `path`.
pub fn remove_dir(
    path: PathBuf,
    outcome: std::result::Result<(), std::io::Error>,
) -> (reported: Result<()>)
    ensures
        reported == with_path(outcome, path, "removing directory"),
{
    attach_path(outcome, path, "removing directory")
}

/// Reports the outcome of removing the directory at `path` with everything
/// in it.
pub fn remove_dir_all(
    path: PathBuf,
    outcome: std::result::Result<(), std::io::Error>,
) -> (reported: Result<()>)
    ensures
        reported == with_path(outcome, path, "recursively removing directory"),
{
    attach_path(outcome, path, "recursively removing directory")
}

/// Reports the outcome of removing the file at `path`.
pub fn remove_file(
    path: PathBuf,
    outcome: std::result::Result<(), std::io::Error>,
) -> (reported: Result<()>)
    ensures
        reported == with_path(outcome, path, "removing file"),
{
    attach_path(outcome, path, "removing file")
}

/// Reports the outcome of renaming `from` to `to`.
pub fn rename(
    from: PathBuf,
    to: PathBuf,
    outcome: std::result::Result<(), std::io::Error>,
) -> (reported: Result<()>)
    ensures
        reported == with_paths(outcome, from, to, "renaming"),
{
    attach_paths(outcome, from, to, "renaming")
}

/// Reports the outcome of changing the permissions of `path`.
pub fn set_permissions(
    path: PathBuf,
    outcome: std::result::Result<(), std::io::Error>,
) -> (reported: Result<()>)
    ensures
        reported == with_path(outcome, path, "setting permissions for"),
{
    attach_path(outcome, path, "setting permissions for")
}

/// Reports the outcome of creating the symbolic link `dst` that points to
/// `src`.
pub fn soft_link(
    src: PathBuf,
    dst: PathBuf,
    outcome: std::result::Result<(), std::io::Error>,
) -> (reported: Result<()>)
    ensures
        reported == with_paths(outcome, src, dst, "soft linking"),
{
    attach_paths(outcome, src, dst, "soft linking")
}

/// Reports the outcome of reading the metadata of `path` itself, without
/// following it if it is a symbolic link: the metadata wrapped with the path,
/// or the failure.
pub fn symlink_metadata<M>(
    path: PathBuf,
    outcome: std::result::Result<M, std::io::Error>,
) -> (reported: Result<Metadata<M>>)
    ensures
        reported == match with_path(outcome, path, "getting symlink metadata from") {
            Ok(data) => Ok(Metadata::wrapping(data, path)),
            Err(err) => Err(err),
        },
{
    match outcome {
        Ok(data) => Ok(Metadata::new(data, path)),
        Err(err) => Err(Error::Filesystem(path, "getting symlink metadata from", err)),
    }
}

/// Reports the outcome of writing a whole file at `path`.
pub fn write(
    path: PathBuf,
    outcome: std::result::Result<(), std::io::Error>,
) -> (reported: Result<()>)
    ensures
        reported == with_path(outcome, path, "writing"),
{
    attach_path(outcome, path, "writing")
}

} // verus!
