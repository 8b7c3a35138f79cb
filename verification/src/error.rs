use vstd::prelude::*;
use crate::uri::UriParseError;

verus! {

/// How a subprocess ended: with the exit code it returned, or with none where
/// a signal ended it.
#[derive(Debug, Clone, Copy, PartialEq, Eq, Structural)]
pub struct ExitStatus {
    pub code: Option<i32>,
}

impl ExitStatus {
    /// The subprocess ran to its end and returned the code zero.
    pub open spec fn succeeded(self) -> bool {
        self.code == Some(0i32)
    }

    /// Whether the subprocess ran to its end and returned the code zero.
    pub fn success(&self) -> (b: bool)
        ensures
            b == self.succeeded(),
    {
        match self.code {
            Some(code) => code == 0,
            None => false,
        }
    }
}

/// Every way in which a clone can fail. Each of them ends the run: nothing is
/// tried again, and what was done before the failure is left in place.
#[derive(Debug, Clone, PartialEq, Eq)]
pub enum CloneError {
    /// The URI is in neither accepted form.
    UriParse(UriParseError),
    /// No home directory is known for the current user.
    HomeDirectoryUnavailable,
    /// A directory of the layout is absent and could not be created.
    DirectoryCreationFailed,
    /// The directory that the clone would go to exists already.
    AlreadyExists,
    /// A subprocess could not be launched, or could not be waited for.
    SpawnError,
    /// The clone subprocess ended otherwise than with the code zero.
    SubprocessFailed { status: ExitStatus },
    /// A path of the layout has no text form to print.
    NonUtf8Path,
    /// The link subprocess ended otherwise than with the code zero.
    LinkCreationFailed { status: ExitStatus },
}

/// The mathematical value of a [`CloneError`].
pub enum ErrorView {
    UriParse { input: Seq<char> },
    HomeDirectoryUnavailable,
    DirectoryCreationFailed,
    AlreadyExists,
    SpawnError,
    SubprocessFailed { status: ExitStatus },
    NonUtf8Path,
    LinkCreationFailed { status: ExitStatus },
}

impl View for CloneError {
    type V = ErrorView;

    open spec fn view(&self) -> ErrorView {
        match self {
            CloneError::UriParse(e) => ErrorView::UriParse { input: e.input@ },
            CloneError::HomeDirectoryUnavailable => ErrorView::HomeDirectoryUnavailable,
            CloneError::DirectoryCreationFailed => ErrorView::DirectoryCreationFailed,
            CloneError::AlreadyExists => ErrorView::AlreadyExists,
            CloneError::SpawnError => ErrorView::SpawnError,
            CloneError::SubprocessFailed { status } => ErrorView::SubprocessFailed {
                status: *status,
            },
            CloneError::NonUtf8Path => ErrorView::NonUtf8Path,
            CloneError::LinkCreationFailed { status } => ErrorView::LinkCreationFailed {
                status: *status,
            },
        }
    }
}

} // verus!
