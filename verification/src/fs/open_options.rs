//! The options a file is opened with.

use vstd::prelude::*;
use std::path::PathBuf;
use crate::fs::file::File;
use crate::io::with_path;
use crate::io::Error;
use crate::io::Result;

verus! {

/// How a file is to be opened. Every option starts out switched off.
pub struct OpenOptions {
    /// Open for reading.
    pub read: bool,
    /// Open for writing.
    pub write: bool,
    /// Write at the end of the file, whatever the cursor says.
    pub append: bool,
    /// Cut the file to length zero when it is opened.
    pub truncate: bool,
    /// Create the file if it does not exist.
    pub create: bool,
    /// Create the file and fail if it exists already.
    pub create_new: bool,
}

impl OpenOptions {
    /// Options with everything switched off.
    pub fn new() -> (options: Self)
        ensures
            options == (OpenOptions {
                read: false,
                write: false,
                append: false,
                truncate: false,
                create: false,
                create_new: false,
            }),
    {
        OpenOptions {
            read: false,
            write: false,
            append: false,
            truncate: false,
            create: false,
            create_new: false,
        }
    }

    /// Sets the option for read access and leaves the others as they are.
    pub fn read(&mut self, read: bool) -> (options: &mut Self)
        ensures
            *options == (OpenOptions { read, ..*old(self) }),
            *final(self) == *final(options),
    {
        self.read = read;
        self
    }

    /// Sets the option for write access and leaves the others as they are.
    pub fn write(&mut self, write: bool) -> (options: &mut Self)
        ensures
            *options == (OpenOptions { write, ..*old(self) }),
            *final(self) == *final(options),
    {
        self.write = write;
        self
    }

    /// Sets the option for append mode and leaves the others as they are.
    pub fn append(&mut self, append: bool) -> (options: &mut Self)
        ensures
            *options == (OpenOptions { append, ..*old(self) }),
            *final(self) == *final(options),
    {
        self.append = append;
        self
    }

    /// Sets the option for truncating the file and leaves the others as they
    /// are.
    pub fn truncate(&mut self, truncate: bool) -> (options: &mut Self)
        ensures
            *options == (OpenOptions { truncate, ..*old(self) }),
            *final(self) == *final(options),
    {
        self.truncate = truncate;
        self
    }

    /// Sets the option for creating a missing file and leaves the others as
    /// they are.
    pub fn create(&mut self, create: bool) -> (options: &mut Self)
        ensures
            *options == (OpenOptions { create, ..*old(self) }),
            *final(self) == *final(options),
    {
        self.create = create;
        self
    }

    /// Sets the option for creating a file that must not exist yet and leaves
    /// the others as they are.
    pub fn create_new(&mut self, create_new: bool) -> (options: &mut Self)
        ensures
            *options == (OpenOptions { create_new, ..*old(self) }),
            *final(self) == *final(options),
    {
        self.create_new = create_new;
        self
    }

    /// Reports the outcome of opening the file at `path` with these options:
    /// the handle wrapped with the path, or the failure.
    pub fn open<H>(
        &self,
        path: PathBuf,
        outcome: std::result::Result<H, std::io::Error>,
    ) -> (reported: Result<File<H>>)
        ensures
            reported == match with_path(outcome, path, "opening file") {
                Ok(handle) => Ok(File::wrapping(handle, path)),
                Err(err) => Err(err),
            },
    {
        match outcome {
            Ok(handle) => Ok(File::new(handle, path)),
            Err(err) => Err(Error::Filesystem(path, "opening file", err)),
        }
    }
}

} // verus!
