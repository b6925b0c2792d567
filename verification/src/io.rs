//! The contextual error, the rule that builds it, and its rendering.

use vstd::prelude::*;
use std::ops::Deref;
use std::ops::DerefMut;
use std::path::PathBuf;
use crate::platform::path_display;
use crate::platform::path_text;
use crate::Wrapper;

verus! {

/// A platform error together with what was being attempted and where.
#[derive(Debug)]
pub enum Error {
    /// A failure of an operation on one path: the path, the action label and
    /// the platform's error.
    Filesystem(PathBuf, &'static str, std::io::Error),
    /// A failure of an operation from one path to another: source,
    /// destination, the action label and the platform's error.
    Filesystem2(PathBuf, PathBuf, &'static str, std::io::Error),
}

pub type Result<T> = std::result::Result<T, Error>;

/// What an operation on one path reports: a success as it is, a failure
/// wrapped together with the path and the action label.
pub open spec fn with_path<T>(
    outcome: std::result::Result<T, std::io::Error>,
    path: PathBuf,
    action: &'static str,
) -> Result<T> {
    match outcome {
        Ok(value) => Ok(value),
        Err(err) => Err(Error::Filesystem(path, action, err)),
    }
}

/// What an operation from one path to another reports: a success as it is, a
/// failure wrapped together with both paths and the action label.
pub open spec fn with_paths<T>(
    outcome: std::result::Result<T, std::io::Error>,
    src: PathBuf,
    dst: PathBuf,
    action: &'static str,
) -> Result<T> {
    match outcome {
        Ok(value) => Ok(value),
        Err(err) => Err(Error::Filesystem2(src, dst, action, err)),
    }
}

/// The message for a failure on one path.
pub open spec fn single_path_message(action: Seq<char>, path: Seq<char>, cause: Seq<char>) -> Seq<
    char,
> {
    "error "@ + action + " \""@ + path + "\": "@ + cause
}

/// The message for a failure between two paths.
pub open spec fn dual_path_message(
    action: Seq<char>,
    src: Seq<char>,
    dst: Seq<char>,
    cause: Seq<char>,
) -> Seq<char> {
    "error "@ + action + " \""@ + src + "\" to \""@ + dst + "\": "@ + cause
}

impl Error {
    /// The platform error that this error wraps.
    pub open spec fn cause(self) -> std::io::Error {
        match self {
            Error::Filesystem(_, _, err) => err,
            Error::Filesystem2(_, _, _, err) => err,
        }
    }

    /// The label of the action that failed.
    pub open spec fn action(self) -> Seq<char> {
        match self {
            Error::Filesystem(_, action, _) => action@,
            Error::Filesystem2(_, _, action, _) => action@,
        }
    }

    /// The paths the failure is attributed to, in the order they were given.
    pub open spec fn paths(self) -> Seq<PathBuf> {
        match self {
            Error::Filesystem(path, _, _) => seq![path],
            Error::Filesystem2(src, dst, _, _) => seq![src, dst],
        }
    }

    /// The message of this error, given the text the platform shows for its
    /// cause.
    pub open spec fn message(self, cause: Seq<char>) -> Seq<char> {
        match self {
            Error::Filesystem(path, action, _) => single_path_message(
                action@,
                path_display(path),
                cause,
            ),
            Error::Filesystem2(src, dst, action, _) => dual_path_message(
                action@,
                path_display(src),
                path_display(dst),
                cause,
            ),
        }
    }

    /// This error with another platform error in place of its cause.
    pub open spec fn with_cause(self, cause: std::io::Error) -> Error {
        match self {
            Error::Filesystem(path, action, _) => Error::Filesystem(path, action, cause),
            Error::Filesystem2(src, dst, action, _) => Error::Filesystem2(src, dst, action, cause),
        }
    }

    /// Whether `message` is a rendering of this error: its message around
    /// some text that the platform prints for its cause.
    pub open spec fn is_rendered_as(self, message: Seq<char>) -> bool {
        exists|printed: String| #[trigger]
            vstd::string::to_string_from_display_ensures::<std::io::Error>(&self.cause(), printed)
                && message == self.message(printed@)
    }

    /// Renders the error for a reader: the action, the path or paths in
    /// double quotes, then the platform's own description of the cause.
    ///
    /// The description is whatever the platform prints for its error, so the
    /// contract fixes everything around it and leaves the description to the
    /// platform.
    pub fn to_string(&self) -> (message: String)
        ensures
            self.is_rendered_as(message@),
    {
        match self {
            Error::Filesystem(path, action, err) => {
                let shown = path_text(path);
                let printed = err.to_string();
                let message = render_single_path(action, shown.as_str(), printed.as_str());
                assert(vstd::string::to_string_from_display_ensures::<std::io::Error>(
                    &self.cause(),
                    printed,
                ) && message@ == self.message(printed@));
                message
            },
            Error::Filesystem2(src, dst, action, err) => {
                let shown_src = path_text(src);
                let shown_dst = path_text(dst);
                let printed = err.to_string();
                let message = render_dual_path(
                    action,
                    shown_src.as_str(),
                    shown_dst.as_str(),
                    printed.as_str(),
                );
                assert(vstd::string::to_string_from_display_ensures::<std::io::Error>(
                    &self.cause(),
                    printed,
                ) && message@ == self.message(printed@));
                message
            },
        }
    }
}

/// Builds the message for a failure on one path from its three parts.
pub fn render_single_path(action: &str, path: &str, cause: &str) -> (message: String)
    ensures
        message@ == single_path_message(action@, path@, cause@),
{
    let mut message = String::from_str("error ");
    message.append(action);
    message.append(" \"");
    message.append(path);
    message.append("\": ");
    message.append(cause);
    message
}

/// Builds the message for a failure between two paths from its four parts.
pub fn render_dual_path(action: &str, src: &str, dst: &str, cause: &str) -> (message: String)
    ensures
        message@ == dual_path_message(action@, src@, dst@, cause@),
{
    let mut message = String::from_str("error ");
    message.append(action);
    message.append(" \"");
    message.append(src);
    message.append("\" to \"");
    message.append(dst);
    message.append("\": ");
    message.append(cause);
    message
}

/// Attaches one path and an action label to the outcome of a platform call.
pub(crate) fn attach_path<T>(
    outcome: std::result::Result<T, std::io::Error>,
    path: PathBuf,
    action: &'static str,
) -> (reported: Result<T>)
    ensures
        reported == with_path(outcome, path, action),
{
    match outcome {
        Ok(value) => Ok(value),
        Err(err) => Err(Error::Filesystem(path, action, err)),
    }
}

/// Attaches a borrowed path and an action label to the outcome of a platform
/// call. The path is copied only when the call failed.
pub(crate) fn attach_path_of<T>(
    outcome: std::result::Result<T, std::io::Error>,
    path: &PathBuf,
    action: &'static str,
) -> (reported: Result<T>)
    ensures
        reported == with_path(outcome, *path, action),
{
    match outcome {
        Ok(value) => Ok(value),
        Err(err) => Err(Error::Filesystem(path.clone(), action, err)),
    }
}

/// Attaches both paths and an action label to the outcome of a platform call.
pub(crate) fn attach_paths<T>(
    outcome: std::result::Result<T, std::io::Error>,
    src: PathBuf,
    dst: PathBuf,
    action: &'static str,
) -> (reported: Result<T>)
    ensures
        reported == with_paths(outcome, src, dst, action),
{
    match outcome {
        Ok(value) => Ok(value),
        Err(err) => Err(Error::Filesystem2(src, dst, action, err)),
    }
}

/// Every error names at least one path, and at most two.
pub proof fn lemma_error_names_a_path(error: Error)
    ensures
        1 <= error.paths().len() <= 2,
{
}

/// A success of the platform is reported as that same success, whether the
/// operation has one path or two.
pub proof fn lemma_success_is_handed_through<T>(
    value: T,
    path: PathBuf,
    src: PathBuf,
    dst: PathBuf,
    action: &'static str,
)
    ensures
        with_path(Ok(value), path, action) == Ok::<T, Error>(value),
        with_paths(Ok(value), src, dst, action) == Ok::<T, Error>(value),
{
}

/// A failure of an operation on one path is reported as an error that names
/// exactly that path and the operation's action, and that wraps the
/// platform's error itself.
pub proof fn lemma_failure_keeps_path_and_cause<T>(
    err: std::io::Error,
    path: PathBuf,
    action: &'static str,
)
    ensures
        with_path::<T>(Err(err), path, action) matches Err(error) && {
            &&& error.paths() =~= seq![path]
            &&& error.action() == action@
            &&& error.cause() == err
        },
{
}

/// A failure of an operation from one path to another is reported as an error
/// that names exactly the source and the destination, in that order, and the
/// operation's action, and that wraps the platform's error itself.
pub proof fn lemma_failure_keeps_both_paths_and_cause<T>(
    err: std::io::Error,
    src: PathBuf,
    dst: PathBuf,
    action: &'static str,
)
    ensures
        with_paths::<T>(Err(err), src, dst, action) matches Err(error) && {
            &&& error.paths() =~= seq![src, dst]
            &&& error.action() == action@
            &&& error.cause() == err
        },
{
}

/// Whatever the platform returned, an operation from one path to another
/// never reports an error of the one-path kind.
pub proof fn lemma_two_paths_never_one<T>(
    outcome: std::result::Result<T, std::io::Error>,
    src: PathBuf,
    dst: PathBuf,
    action: &'static str,
)
    ensures
        with_paths(outcome, src, dst, action) matches Err(error) ==> error is Filesystem2
            && error.paths().len() == 2,
{
}

impl Deref for Error {
    type Target = std::io::Error;

    fn deref(&self) -> (cause: &std::io::Error)
        ensures
            *cause == self.cause(),
    {
        match self {
            Error::Filesystem(_, _, err) => err,
            Error::Filesystem2(_, _, _, err) => err,
        }
    }
}

impl DerefMut for Error {
    fn deref_mut(&mut self) -> (cause: &mut std::io::Error)
        ensures
            *cause == old(self).cause(),
            *final(self) == old(self).with_cause(*final(cause)),
    {
        match self {
            Error::Filesystem(_, _, err) => err,
            Error::Filesystem2(_, _, _, err) => err,
        }
    }
}

impl Wrapper<std::io::Error> for Error {
    open spec fn inner(&self) -> std::io::Error {
        self.cause()
    }

    fn into_inner(self) -> (cause: std::io::Error) {
        match self {
            Error::Filesystem(_, _, err) => err,
            Error::Filesystem2(_, _, _, err) => err,
        }
    }
}

} // verus!
