use repo::{
    derive_link_path, derive_target_directory, derive_user_directory, locate_root, root_in,
    root_under, AbsolutePath, CloneError, RepositoryLocation, Root,
};
use std::path::PathBuf;

fn home() -> PathBuf {
    PathBuf::from("/home/alice")
}

fn path(segments: &[&str]) -> AbsolutePath {
    AbsolutePath {
        base: home(),
        segments: segments.iter().map(|s| s.to_string()).collect(),
    }
}

fn rust() -> RepositoryLocation {
    RepositoryLocation {
        host: "github.com".to_string(),
        user: "rust-lang".to_string(),
        repo: "rust".to_string(),
    }
}

#[test]
fn roots_are_named_repos_and_projects() {
    assert_eq!(Root::Repositories.name(), "repos");
    assert_eq!(Root::Projects.name(), "projects");
}

#[test]
fn root_is_one_level_under_home() {
    assert_eq!(root_under(home(), "repos"), path(&["repos"]));
    assert_eq!(root_in(Some(home()), "projects"), Ok(path(&["projects"])));
}

#[test]
fn root_in_is_the_same_on_every_call() {
    let first = root_in(Some(home()), "repos");
    let second = root_in(Some(home()), "repos");
    assert_eq!(first, second);
    assert_eq!(second, Ok(path(&["repos"])));
}

#[test]
fn root_without_home_is_unavailable() {
    assert_eq!(root_in(None, "repos"), Err(CloneError::HomeDirectoryUnavailable));
}

#[test]
fn located_root_is_the_subdirectory_of_some_home() {
    match locate_root("repos") {
        Ok(root) => assert_eq!(root.segments, vec!["repos".to_string()]),
        Err(e) => assert_eq!(e, CloneError::HomeDirectoryUnavailable),
    }
}

#[test]
fn located_root_is_the_same_on_every_call() {
    assert_eq!(locate_root("projects"), locate_root("projects"));
}

#[test]
fn target_is_root_host_user_repo() {
    let root = path(&["repos"]);
    assert_eq!(
        derive_user_directory(&root, &rust()),
        path(&["repos", "github.com", "rust-lang"])
    );
    assert_eq!(
        derive_target_directory(&root, &rust()),
        path(&["repos", "github.com", "rust-lang", "rust"])
    );
    assert_eq!(root, path(&["repos"]));
}

#[test]
fn link_is_root_repo() {
    let root = path(&["projects"]);
    assert_eq!(derive_link_path(&root, &rust()), path(&["projects", "rust"]));
}

#[test]
fn join_and_duplicate() {
    let root = path(&["repos"]);
    let copy = root.duplicate();
    assert_eq!(copy, root);
    assert_eq!(copy.join("x").join(""), path(&["repos", "x", ""]));
    assert_eq!(root, path(&["repos"]));
}
