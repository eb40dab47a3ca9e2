//! Bring-up logic for a local keystore service and runtime conductor: the
//! per-profile directory layout, the keystore configuration rewrite for
//! over-long socket paths, the bounded admin-connect retry, the application
//! installation reconciler and the launch sequence that ties them together.
//! Everything here is a pure decision procedure; the caller performs the
//! process spawning, network and filesystem work that the decisions ask for.

pub mod config;
pub mod errors;
pub mod filesystem;
pub mod install;
pub mod keystore_config;
pub mod launch;
pub mod paths;
pub mod retry;
pub mod secret;
pub mod text;
pub mod version;
