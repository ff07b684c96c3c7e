//! Verified core of the P5136 launcher: the launcher authentication wire
//! format, and the decisions that the launcher makes around it (form
//! validation, the order of a connector run, run states and display labels).
use vstd::prelude::*;

pub mod auth_client;
pub mod auth_protocol;
pub mod content_labels;
pub mod execution;
pub mod i18n;
pub mod labels;
pub mod lan;
pub mod launcher_inputs;
pub mod local_files;
pub mod run_state;
pub mod server_inputs;
pub mod server_lifecycle;
pub mod text;

verus! {

/// The package version shown in the launcher's footer.
pub const BUILD_VERSION: &'static str = "0.1.0";

} // verus!
