//! Metadata of a file, with the path it was read from.

use vstd::prelude::*;
use std::ops::Deref;
use std::ops::DerefMut;
use std::path::PathBuf;
use std::time::SystemTime;
use crate::io::attach_path_of;
use crate::io::with_path;
use crate::io::Result;
use crate::Wrapper;

verus! {

/// The platform's metadata for a file, together with the path it belongs to.
pub struct Metadata<M> {
    inner: M,
    path: PathBuf,
}

impl<M> Metadata<M> {
    /// The path the metadata was read from.
    pub closed spec fn path(&self) -> PathBuf {
        self.path
    }

    /// The wrapper that holds `inner` and remembers `path`.
    pub closed spec fn wrapping(inner: M, path: PathBuf) -> Self {
        Metadata { inner, path }
    }

    /// Wrapping the platform's metadata and unwrapping it again gives the same
    /// metadata back, and the wrapper remembers the path it was given.
    pub proof fn lemma_wrapping_round_trip(inner: M, path: PathBuf)
        ensures
            Self::wrapping(inner, path).inner() == inner,
            Self::wrapping(inner, path).path() == path,
    {
    }

    pub(crate) fn new(inner: M, path: PathBuf) -> (wrapped: Self)
        ensures
            wrapped == Self::wrapping(inner, path),
    {
        Metadata { inner, path }
    }

    /// Reports the outcome of asking the platform for the modification time.
    pub fn modified(
        &self,
        outcome: std::result::Result<SystemTime, std::io::Error>,
    ) -> (reported: Result<SystemTime>)
        ensures
            reported == with_path(outcome, self.path(), "getting the modification time of"),
    {
        attach_path_of(outcome, &self.path, "getting the modification time of")
    }

    /// Reports the outcome of asking the platform for the access time.
    pub fn accessed(
        &self,
        outcome: std::result::Result<SystemTime, std::io::Error>,
    ) -> (reported: Result<SystemTime>)
        ensures
            reported == with_path(outcome, self.path(), "getting the access time of"),
    {
        attach_path_of(outcome, &self.path, "getting the access time of")
    }

    /// Reports the outcome of asking the platform for the creation time.
    pub fn created(
        &self,
        outcome: std::result::Result<SystemTime, std::io::Error>,
    ) -> (reported: Result<SystemTime>)
        ensures
            reported == with_path(outcome, self.path(), "getting the creation time of"),
    {
        attach_path_of(outcome, &self.path, "getting the creation time of")
    }
}

impl<M> Deref for Metadata<M> {
    type Target = M;

    fn deref(&self) -> (inner: &M)
        ensures
            *inner == self.inner(),
    {
        &self.inner
    }
}

impl<M> DerefMut for Metadata<M> {
    fn deref_mut(&mut self) -> (inner: &mut M)
        ensures
            *inner == old(self).inner(),
            final(self).inner() == *final(inner),
            final(self).path() == old(self).path(),
    {
        &mut self.inner
    }
}

impl<M> Wrapper<M> for Metadata<M> {
    closed spec fn inner(&self) -> M {
        self.inner
    }

    fn into_inner(self) -> (inner: M) {
        self.inner
    }
}

} // verus!
