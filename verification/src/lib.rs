pub mod allocator;
pub mod artifact_claims;
pub mod artifacts;
pub mod claims;
pub mod cleanup;
pub mod cli;
pub mod config;
pub mod confirmation;
pub mod contracts;
pub mod download;
pub mod failpoint;
pub mod journal;
pub mod locks;
pub mod model_selection;
pub mod text;
