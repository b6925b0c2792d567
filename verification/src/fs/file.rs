//! An open file, with the path it was opened at.

use vstd::prelude::*;
use std::ops::Deref;
use std::ops::DerefMut;
use std::path::PathBuf;
use crate::fs::metadata::Metadata;
use crate::io::attach_path_of;
use crate::io::with_path;
use crate::io::Error;
use crate::io::Result;
use crate::Wrapper;

verus! {

/// The platform's handle of an open file, together with the path the file was
/// opened at, so that a later failure on the handle can still name the path.
pub struct File<H> {
    inner: H,
    path: PathBuf,
}

impl<H> File<H> {
    /// The path the file was opened at.
    pub closed spec fn path(&self) -> PathBuf {
        self.path
    }

    /// The wrapper that holds `inner` and remembers `path`.
    pub closed spec fn wrapping(inner: H, path: PathBuf) -> Self {
        File { inner, path }
    }

    /// Wrapping a handle and unwrapping it again gives the same
    /// handle back, and the wrapper remembers the path it was given.
    pub proof fn lemma_wrapping_round_trip(inner: H, path: PathBuf)
        ensures
            Self::wrapping(inner, path).inner() == inner,
            Self::wrapping(inner, path).path() == path,
    {
    }

    pub(crate) fn new(inner: H, path: PathBuf) -> (wrapped: Self)
        ensures
            wrapped == Self::wrapping(inner, path),
    {
        File { inner, path }
    }

    /// Reports the outcome of creating a file at `path`: the handle wrapped
    /// with the path, or the failure.
    pub fn create(
        path: PathBuf,
        outcome: std::result::Result<H, std::io::Error>,
    ) -> (reported: Result<File<H>>)
        ensures
            reported == match with_path(outcome, path, "creating file") {
                Ok(handle) => Ok(File::wrapping(handle, path)),
                Err(err) => Err(err),
            },
    {
        match outcome {
            Ok(handle) => Ok(File::new(handle, path)),
            Err(err) => Err(Error::Filesystem(path, "creating file", err)),
        }
    }

    /// Reports the outcome of opening the file at `path` for reading: the
    /// handle wrapped with the path, or the failure.
    pub fn open(
        path: PathBuf,
        outcome: std::result::Result<H, std::io::Error>,
    ) -> (reported: Result<File<H>>)
        ensures
            reported == match with_path(outcome, path, "opening file") {
                Ok(handle) => Ok(File::wrapping(handle, path)),
                Err(err) => Err(err),
            },
    {
        match outcome {
            Ok(handle) => Ok(File::new(handle, path)),
            Err(err) => Err(Error::Filesystem(path, "opening file", err)),
        }
    }

    /// Reports the outcome of flushing content and metadata to disk.
    pub fn sync_all(
        &self,
        outcome: std::result::Result<(), std::io::Error>,
    ) -> (reported: Result<()>)
        ensures
            reported == with_path(outcome, self.path(), "synching"),
    {
        attach_path_of(outcome, &self.path, "synching")
    }

    /// Reports the outcome of flushing content to disk.
    pub fn sync_data(
        &self,
        outcome: std::result::Result<(), std::io::Error>,
    ) -> (reported: Result<()>)
        ensures
            reported == with_path(outcome, self.path(), "synching data of"),
    {
        attach_path_of(outcome, &self.path, "synching data of")
    }

    /// Reports the outcome of truncating or extending the file.
    pub fn set_len(
        &self,
        outcome: std::result::Result<(), std::io::Error>,
    ) -> (reported: Result<()>)
        ensures
            reported == with_path(outcome, self.path(), "setting the length of"),
    {
        attach_path_of(outcome, &self.path, "setting the length of")
    }

    /// Reports the outcome of reading the file's metadata through the handle:
    /// the metadata wrapped with this file's path, or the failure.
    pub fn metadata<M>(
        &self,
        outcome: std::result::Result<M, std::io::Error>,
    ) -> (reported: Result<Metadata<M>>)
        ensures
            reported == match with_path(outcome, self.path(), "getting metadata from") {
                Ok(data) => Ok(Metadata::wrapping(data, self.path())),
                Err(err) => Err(err),
            },
    {
        match outcome {
            Ok(data) => Ok(Metadata::new(data, self.path.clone())),
            Err(err) => Err(Error::Filesystem(self.path.clone(), "getting metadata from", err)),
        }
    }

    /// Reports the outcome of duplicating the handle: the second handle
    /// wrapped with this file's path, or the failure.
    pub fn try_clone(
        &self,
        outcome: std::result::Result<H, std::io::Error>,
    ) -> (reported: Result<File<H>>)
        ensures
            reported == match with_path(outcome, self.path(), "cloning handle for") {
                Ok(handle) => Ok(File::wrapping(handle, self.path())),
                Err(err) => Err(err),
            },
    {
        match outcome {
            Ok(handle) => Ok(File::new(handle, self.path.clone())),
            Err(err) => Err(Error::Filesystem(self.path.clone(), "cloning handle for", err)),
        }
    }

    /// Reports the outcome of changing the file's permissions.
    pub fn set_permissions(
        &self,
        outcome: std::result::Result<(), std::io::Error>,
    ) -> (reported: Result<()>)
        ensures
            reported == with_path(outcome, self.path(), "setting permissions for"),
    {
        attach_path_of(outcome, &self.path, "setting permissions for")
    }

    /// Reports the outcome of reading some bytes into a buffer: the number of
    /// bytes read, or the failure.
    pub fn read(
        &self,
        outcome: std::result::Result<usize, std::io::Error>,
    ) -> (reported: Result<usize>)
        ensures
            reported == with_path(outcome, self.path(), "reading"),
    {
        attach_path_of(outcome, &self.path, "reading")
    }

    /// Reports the outcome of reading up to the end of the file: the number
    /// of bytes read, or the failure.
    pub fn read_to_end(
        &self,
        outcome: std::result::Result<usize, std::io::Error>,
    ) -> (reported: Result<usize>)
        ensures
            reported == with_path(outcome, self.path(), "reading"),
    {
        attach_path_of(outcome, &self.path, "reading")
    }

    /// Reports the outcome of reading the rest of the file as text: the
    /// number of bytes read, or the failure.
    pub fn read_to_string(
        &self,
        outcome: std::result::Result<usize, std::io::Error>,
    ) -> (reported: Result<usize>)
        ensures
            reported == with_path(outcome, self.path(), "reading"),
    {
        attach_path_of(outcome, &self.path, "reading")
    }

    /// Reports the outcome of filling a buffer completely.
    pub fn read_exact(
        &self,
        outcome: std::result::Result<(), std::io::Error>,
    ) -> (reported: Result<()>)
        ensures
            reported == with_path(outcome, self.path(), "reading"),
    {
        attach_path_of(outcome, &self.path, "reading")
    }

    /// Reports the outcome of writing some bytes of a buffer: the number of
    /// bytes written, or the failure.
    pub fn write(
        &self,
        outcome: std::result::Result<usize, std::io::Error>,
    ) -> (reported: Result<usize>)
        ensures
            reported == with_path(outcome, self.path(), "writing"),
    {
        attach_path_of(outcome, &self.path, "writing")
    }

    /// Reports the outcome of flushing buffered output.
    pub fn flush(
        &self,
        outcome: std::result::Result<(), std::io::Error>,
    ) -> (reported: Result<()>)
        ensures
            reported == with_path(outcome, self.path(), "flushing"),
    {
        attach_path_of(outcome, &self.path, "flushing")
    }

    /// Reports the outcome of writing a whole buffer.
    pub fn write_all(
        &self,
        outcome: std::result::Result<(), std::io::Error>,
    ) -> (reported: Result<()>)
        ensures
            reported == with_path(outcome, self.path(), "writing"),
    {
        attach_path_of(outcome, &self.path, "writing")
    }

    /// Reports the outcome of writing formatted text.
    pub fn write_fmt(
        &self,
        outcome: std::result::Result<(), std::io::Error>,
    ) -> (reported: Result<()>)
        ensures
            reported == with_path(outcome, self.path(), "writing"),
    {
        attach_path_of(outcome, &self.path, "writing")
    }

    /// Reports the outcome of moving the cursor: the new position, or the
    /// failure.
    pub fn seek(
        &self,
        outcome: std::result::Result<u64, std::io::Error>,
    ) -> (reported: Result<u64>)
        ensures
            reported == with_path(outcome, self.path(), "seeking"),
    {
        attach_path_of(outcome, &self.path, "seeking")
    }
}

impl<H> Deref for File<H> {
    type Target = H;

    fn deref(&self) -> (inner: &H)
        ensures
            *inner == self.inner(),
    {
        &self.inner
    }
}

impl<H> DerefMut for File<H> {
    fn deref_mut(&mut self) -> (inner: &mut H)
        ensures
            *inner == old(self).inner(),
            final(self).inner() == *final(inner),
            final(self).path() == old(self).path(),
    {
        &mut self.inner
    }
}

impl<H> Wrapper<H> for File<H> {
    closed spec fn inner(&self) -> H {
        self.inner
    }

    fn into_inner(self) -> (inner: H) {
        self.inner
    }
}

} // verus!
