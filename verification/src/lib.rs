pub mod error;
pub mod layout;
pub mod pipeline;
pub mod text;
pub mod uri;

pub use error::{CloneError, ExitStatus};
pub use layout::{
    derive_link_path, derive_target_directory, derive_user_directory, locate_root, root_in,
    root_under, AbsolutePath, Root,
};
pub use pipeline::{Action, Event, Job, Pipeline, Stage};
pub use uri::{parse_uri, RepositoryLocation, UriParseError};
