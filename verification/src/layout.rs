use vstd::prelude::*;
use std::path::PathBuf;
use crate::error::{CloneError, ErrorView};
use crate::uri::{LocationView, RepositoryLocation};

verus! {

/// The standard library's owned path. Verus sees nothing inside one: the
/// library carries the home directory through as such a value and never reads
/// it.
#[verifier::external_type_specification]
#[verifier::external_body]
pub struct ExPathBuf(PathBuf);

/// `PathBuf::clone` of the standard library returns a path equal to the one it
/// was given.
pub assume_specification[ <PathBuf as Clone>::clone ](path: &PathBuf) -> (copy: PathBuf)
    ensures
        copy == *path,
;

/// Asks `dirs::home_dir` for the home directory of the current user. What it
/// answers depends on the user and the machine, so nothing is claimed of the
/// result: it may be any path, or `None` where no home directory is known.
#[verifier::external_body]
pub(crate) fn home_directory() -> (home: Option<PathBuf>) {
    dirs::home_dir()
}

/// A directory or link below the home directory: the home directory itself
/// and the names of the components that lead from it to the path, outermost
/// first.
#[derive(Debug, Clone, PartialEq, Eq)]
pub struct AbsolutePath {
    pub base: PathBuf,
    pub segments: Vec<String>,
}

/// The mathematical value of an [`AbsolutePath`].
pub struct PathView {
    pub base: PathBuf,
    pub segments: Seq<Seq<char>>,
}

impl PathView {
    /// The path one component below `self`.
    pub open spec fn join(self, segment: Seq<char>) -> PathView {
        PathView { base: self.base, segments: self.segments.push(segment) }
    }
}

impl View for AbsolutePath {
    type V = PathView;

    open spec fn view(&self) -> PathView {
        PathView { base: self.base, segments: self.segments.deep_view() }
    }
}

/// The two directories under the home directory that the layout rests on:
/// the one below which clones are kept by host and user, and the flat one
/// that holds a link to each clone.
#[derive(Debug, Clone, Copy, PartialEq, Eq, Structural)]
pub enum Root {
    Repositories,
    Projects,
}

impl Root {
    /// The name of the root's directory under the home directory.
    pub open spec fn subdirectory(self) -> Seq<char> {
        match self {
            Root::Repositories => "repos"@,
            Root::Projects => "projects"@,
        }
    }

    /// The name of the root's directory under the home directory.
    pub fn name(self) -> (name: &'static str)
        ensures
            name@ == self.subdirectory(),
    {
        match self {
            Root::Repositories => "repos",
            Root::Projects => "projects",
        }
    }
}

/// The directory `subdirectory` directly under `home`.
pub open spec fn root_of(home: PathBuf, subdirectory: Seq<char>) -> PathView {
    PathView { base: home, segments: seq![subdirectory] }
}

/// The directory shared by all clones of one user on one host:
/// `root/host/user`.
pub open spec fn user_directory_of(root: PathView, location: LocationView) -> PathView {
    root.join(location.host).join(location.user)
}

/// The directory that holds the clone: `root/host/user/repo`.
pub open spec fn target_directory_of(root: PathView, location: LocationView) -> PathView {
    user_directory_of(root, location).join(location.repo)
}

/// The link that makes the clone discoverable: `root/repo`.
pub open spec fn link_path_of(root: PathView, location: LocationView) -> PathView {
    root.join(location.repo)
}

impl AbsolutePath {
    /// A copy of the path.
    pub fn duplicate(&self) -> (copy: AbsolutePath)
        ensures
            copy@ == self@,
    {
        let mut segments: Vec<String> = Vec::new();
        let mut i: usize = 0;
        while i < self.segments.len()
            invariant
                i <= self.segments.len(),
                segments.len() == i,
                forall|k: int| 0 <= k < i ==> segments@[k]@ == self.segments@[k]@,
            decreases self.segments.len() - i,
        {
            segments.push(self.segments[i].clone());
            i += 1;
        }
        assert(segments.deep_view() =~= self.segments.deep_view());
        AbsolutePath { base: self.base.clone(), segments }
    }

    /// The path one component below this one.
    pub fn join(self, segment: &str) -> (joined: AbsolutePath)
        ensures
            joined@ == self@.join(segment@),
    {
        let mut path = self;
        let ghost before = path.segments.deep_view();
        path.segments.push(segment.to_owned());
        assert(path.segments.deep_view() =~= before.push(segment@));
        path
    }
}

/// The directory `subdirectory` directly under `home`.
pub fn root_under(home: PathBuf, subdirectory: &str) -> (root: AbsolutePath)
    ensures
        root@ == root_of(home, subdirectory@),
{
    let mut segments: Vec<String> = Vec::new();
    segments.push(subdirectory.to_owned());
    assert(segments.deep_view() =~= seq![subdirectory@]);
    AbsolutePath { base: home, segments }
}

/// The root directory `subdirectory` under a home directory that was looked up
/// before, or the error that is due where the lookup found none.
pub fn root_in(home: Option<PathBuf>, subdirectory: &str) -> (r: Result<
    AbsolutePath,
    CloneError,
>)
    ensures
        match home {
            Some(home) => r is Ok && r->Ok_0@ == root_of(home, subdirectory@),
            None => r is Err && r->Err_0@ == ErrorView::HomeDirectoryUnavailable,
        },
{
    match home {
        Some(home) => Ok(root_under(home, subdirectory)),
        None => Err(CloneError::HomeDirectoryUnavailable),
    }
}

/// Looks up the home directory of the current user and returns the root
/// directory `subdirectory` under it. Whether a home directory is found is
/// not for this function to decide; where one is found the root is that
/// subdirectory of it, and where none is found the error says so.
pub fn locate_root(subdirectory: &str) -> (r: Result<AbsolutePath, CloneError>)
    ensures
        match r {
            Ok(root) => root@.segments == seq![subdirectory@],
            Err(e) => e@ == ErrorView::HomeDirectoryUnavailable,
        },
{
    root_in(home_directory(), subdirectory)
}

/// The directory shared by all clones of one user on one host.
pub fn derive_user_directory(root: &AbsolutePath, location: &RepositoryLocation) -> (path:
    AbsolutePath)
    ensures
        path@ == user_directory_of(root@, location@),
{
    root.duplicate().join(location.host.as_str()).join(location.user.as_str())
}

/// The directory that holds the clone of the repository at `location`.
pub fn derive_target_directory(root: &AbsolutePath, location: &RepositoryLocation) -> (path:
    AbsolutePath)
    ensures
        path@ == target_directory_of(root@, location@),
{
    derive_user_directory(root, location).join(location.repo.as_str())
}

/// The link under the projects root that points to the clone of the
/// repository at `location`.
pub fn derive_link_path(root: &AbsolutePath, location: &RepositoryLocation) -> (path:
    AbsolutePath)
    ensures
        path@ == link_path_of(root@, location@),
{
    root.duplicate().join(location.repo.as_str())
}

} // verus!
