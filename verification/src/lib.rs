//! Verified core of a desktop tool that assembles package manifests, publishes
//! them through pull requests and keeps itself up to date.
//!
//! Nothing here touches the network, the file system or another process. What
//! needs one of them is written as a state machine: it says what the caller
//! has to do next, takes in what came of it, and decides how to go on.

// Texts, numbers and encodings.
pub mod chars;
pub mod codec;
pub mod decimal;
pub mod digest;
pub mod text;

// Requests to the code-hosting service.
pub mod api_error;
pub mod auth;
pub mod existing_manifest;
pub mod http;
pub mod package_id;
pub mod pr_status;
pub mod publish;
pub mod repo_metadata;
pub mod search;

// Manifests.
pub mod hash;
pub mod manifest;
pub mod yaml_generator;
pub mod yaml_reader;
pub mod yaml_scalar;

// Updates of the application itself.
pub mod release;
pub mod silent_update;
pub mod update_error;
pub mod updater;
pub mod updater_args;
pub mod version;
