//! What the tool asks of a git repository, and what it decides about the answers.

pub mod error;
pub mod order;
pub mod paths;
pub mod provider;

pub use error::GitError;
pub use paths::{DeltaEntry, DeltaStatus};
pub use provider::{
    init, BlobLookup, BranchLookup, DeltaLookup, Git, GitProvider, HeadLookup, SourceKind,
};
