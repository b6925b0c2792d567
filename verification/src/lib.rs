//! Filesystem results that say what was being done, and to which path.
//!
//! A bare [`std::io::Error`] says what went wrong but not where. This crate
//! holds the part of a filesystem layer that decides how a failure is
//! reported: which action label and which path or paths are attached to the
//! platform's error, and how the whole is rendered for a reader. It performs
//! no I/O itself. Every adapter takes the path or paths of an operation
//! together with the outcome the platform returned for it, hands a success
//! through untouched and wraps a failure in an [`io::Error`].

use vstd::prelude::*;
use std::ops::Deref;
use std::ops::DerefMut;

pub mod fs;
pub mod io;
pub mod platform;

verus! {

/// A value that stands in front of a platform object of type `T`.
///
/// `Deref` and `DerefMut` give read and write access to the object while it
/// stays wrapped; `into_inner` hands it back and drops the wrapper.
pub trait Wrapper<T>: Deref<Target = T> + DerefMut<Target = T> {
    /// The wrapped object.
    spec fn inner(&self) -> T;

    /// Gives up the wrapper and returns the object it held.
    fn into_inner(self) -> (inner: T)
        ensures
            inner == self.inner(),
    ;
}

} // verus!
