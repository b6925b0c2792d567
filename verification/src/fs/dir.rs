//! Directories: the builder, the listing and its entries.

use vstd::prelude::*;
use std::ops::Deref;
use std::ops::DerefMut;
use std::path::PathBuf;
use crate::fs::metadata::Metadata;
use crate::io::attach_path;
use crate::io::attach_path_of;
use crate::io::with_path;
use crate::io::Error;
use crate::io::Result;
use crate::Wrapper;

verus! {

/// How a directory is to be created.
pub struct DirBuilder {
    /// Whether missing parent directories are created as well.
    pub recursive: bool,
}

impl DirBuilder {
    /// A builder that creates one directory and no parents.
    pub fn new() -> (builder: Self)
        ensures
            builder == (DirBuilder { recursive: false }),
    {
        DirBuilder { recursive: false }
    }

    /// Sets whether missing parent directories are created as well.
    pub fn recursive(&mut self, recursive: bool) -> (builder: &mut Self)
        ensures
            *builder == (DirBuilder { recursive }),
            *final(self) == *final(builder),
    {
        self.recursive = recursive;
        self
    }

    /// Reports the outcome of creating the directory at `path` with this
    /// builder's settings. The label is the same whatever the settings are.
    pub fn create(
        &self,
        path: PathBuf,
        outcome: std::result::Result<(), std::io::Error>,
    ) -> (reported: Result<()>)
        ensures
            reported == with_path(outcome, path, "creating directory"),
    {
        attach_path(outcome, path, "creating directory")
    }
}

/// One entry of a directory listing: the platform's entry together with the
/// entry's own path.
pub struct DirEntry<D> {
    inner: D,
    path: PathBuf,
}

impl<D> DirEntry<D> {
    /// The path of the entry.
    pub closed spec fn path(&self) -> PathBuf {
        self.path
    }

    /// The wrapper that holds `inner` and remembers `path`.
    pub closed spec fn wrapping(inner: D, path: PathBuf) -> Self {
        DirEntry { inner, path }
    }

    /// Wrapping the platform's entry and unwrapping it again gives the same
    /// entry back, and the wrapper remembers the path it was given.
    pub proof fn lemma_wrapping_round_trip(inner: D, path: PathBuf)
        ensures
            Self::wrapping(inner, path).inner() == inner,
            Self::wrapping(inner, path).path() == path,
    {
    }

    pub(crate) fn new(inner: D, path: PathBuf) -> (wrapped: Self)
        ensures
            wrapped == Self::wrapping(inner, path),
    {
        DirEntry { inner, path }
    }

    /// Reports the outcome of reading the entry's metadata: the metadata
    /// wrapped with the entry's path, or the failure.
    pub fn metadata<M>(
        &self,
        outcome: std::result::Result<M, std::io::Error>,
    ) -> (reported: Result<Metadata<M>>)
        ensures
            reported == match with_path(outcome, self.path(), "getting metadata from") {
                Ok(data) => Ok(Metadata::wrapping(data, self.path())),
                Err(err) => Err(err),
            },
    {
        match outcome {
            Ok(data) => Ok(Metadata::new(data, self.path.clone())),
            Err(err) => Err(Error::Filesystem(self.path.clone(), "getting metadata from", err)),
        }
    }

    /// Reports the outcome of asking for the entry's file type.
    pub fn file_type<T>(
        &self,
        outcome: std::result::Result<T, std::io::Error>,
    ) -> (reported: Result<T>)
        ensures
            reported == with_path(outcome, self.path(), "getting the file type of"),
    {
        attach_path_of(outcome, &self.path, "getting the file type of")
    }
}

impl<D> Deref for DirEntry<D> {
    type Target = D;

    fn deref(&self) -> (inner: &D)
        ensures
            *inner == self.inner(),
    {
        &self.inner
    }
}

impl<D> DerefMut for DirEntry<D> {
    fn deref_mut(&mut self) -> (inner: &mut D)
        ensures
            *inner == old(self).inner(),
            final(self).inner() == *final(inner),
            final(self).path() == old(self).path(),
    {
        &mut self.inner
    }
}

impl<D> Wrapper<D> for DirEntry<D> {
    closed spec fn inner(&self) -> D {
        self.inner
    }

    fn into_inner(self) -> (inner: D) {
        self.inner
    }
}

/// The platform's listing of a directory, together with the directory's path.
pub struct ReadDir<R> {
    inner: R,
    path: PathBuf,
}

/// What the platform yields for one step of a listing: an entry with its
/// path, or the failure to read one.
pub type Yielded<D> = std::result::Result<(D, PathBuf), std::io::Error>;

impl<R> ReadDir<R> {
    /// The path of the directory being listed.
    pub closed spec fn path(&self) -> PathBuf {
        self.path
    }

    /// The wrapper that holds `inner` and remembers `path`.
    pub closed spec fn wrapping(inner: R, path: PathBuf) -> Self {
        ReadDir { inner, path }
    }

    /// Wrapping the platform's listing and unwrapping it again gives the same
    /// listing back, and the wrapper remembers the path it was given.
    pub proof fn lemma_wrapping_round_trip(inner: R, path: PathBuf)
        ensures
            Self::wrapping(inner, path).inner() == inner,
            Self::wrapping(inner, path).path() == path,
    {
    }

    pub(crate) fn new(inner: R, path: PathBuf) -> (wrapped: Self)
        ensures
            wrapped == Self::wrapping(inner, path),
    {
        ReadDir { inner, path }
    }

    /// What this listing reports for one step that yielded something: the
    /// entry wrapped with its own path, or the failure attributed to the
    /// directory, not to the entry.
    pub open spec fn report<D>(&self, yielded: Yielded<D>) -> Result<DirEntry<D>> {
        match with_path(yielded, self.path(), "iterating through directory") {
            Ok((found, at)) => Ok(DirEntry::wrapping(found, at)),
            Err(err) => Err(err),
        }
    }

    /// Reports one step of the listing. The end of the listing stays the end;
    /// an entry is wrapped with its own path; a failure to read an entry is
    /// attributed to the directory.
    pub fn next<D>(&self, yielded: Option<Yielded<D>>) -> (entry: Option<Result<DirEntry<D>>>)
        ensures
            entry == match yielded {
                None => None,
                Some(step) => Some(self.report(step)),
            },
    {
        match yielded {
            None => None,
            Some(Ok((found, at))) => Some(Ok(DirEntry::new(found, at))),
            Some(Err(err)) => Some(
                Err(Error::Filesystem(self.path.clone(), "iterating through directory", err)),
            ),
        }
    }

    /// Reports a whole listing, given everything the platform yielded for it
    /// in order. Where every step yielded an entry, the result holds as many
    /// entries, in the same order. Otherwise the result is the first failure,
    /// attributed to the directory, and nothing after it is looked at.
    pub fn collect<D>(&self, yielded: Vec<Yielded<D>>) -> (listed: Result<Vec<DirEntry<D>>>)
        ensures
            match listed {
                Ok(entries) => {
                    &&& entries@.len() == yielded@.len()
                    &&& forall|i: int|
                        0 <= i < yielded@.len() ==> self.report(#[trigger] yielded@[i]) == Ok::<
                            DirEntry<D>,
                            Error,
                        >(entries@[i])
                },
                Err(err) => exists|k: int|
                    {
                        &&& 0 <= k < yielded@.len()
                        &&& forall|i: int| 0 <= i < k ==> (#[trigger] yielded@[i]) is Ok
                        &&& self.report(#[trigger] yielded@[k]) == Err::<DirEntry<D>, Error>(err)
                    },
            },
    {
        let ghost all = yielded@;
        let mut entries: Vec<DirEntry<D>> = Vec::new();
        for step in it: yielded
            invariant
                it.seq() == all,
                entries@.len() == it.index(),
                forall|i: int|
                    0 <= i < it.index() ==> self.report(#[trigger] all[i]) == Ok::<
                        DirEntry<D>,
                        Error,
                    >(entries@[i]),
        {
            match step {
                Ok((found, at)) => {
                    entries.push(DirEntry::new(found, at));
                },
                Err(err) => {
                    return Err(
                        Error::Filesystem(self.path.clone(), "iterating through directory", err),
                    );
                },
            }
        }
        Ok(entries)
    }
}

impl<R> Deref for ReadDir<R> {
    type Target = R;

    fn deref(&self) -> (inner: &R)
        ensures
            *inner == self.inner(),
    {
        &self.inner
    }
}

impl<R> DerefMut for ReadDir<R> {
    fn deref_mut(&mut self) -> (inner: &mut R)
        ensures
            *inner == old(self).inner(),
            final(self).inner() == *final(inner),
            final(self).path() == old(self).path(),
    {
        &mut self.inner
    }
}

impl<R> Wrapper<R> for ReadDir<R> {
    closed spec fn inner(&self) -> R {
        self.inner
    }

    fn into_inner(self) -> (inner: R) {
        self.inner
    }
}

} // verus!
