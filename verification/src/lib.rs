//! Verified core of a game-server provisioning tool.
//!
//! The library holds the decision logic of the provisioning workflow:
//! version parsing and minimum-version gating, resolution of a requested
//! version against a catalog, artifact naming, workspace-name sanitizing,
//! line-indexed configuration patching, launch-command and launch-script
//! construction, and the first-boot plan.  All I/O (prompts, network,
//! subprocesses, the file system) lives outside the library and hands it
//! plain values.

pub mod artifact;
pub mod catalog;
pub mod environment;
pub mod errors;
pub mod firstrun;
pub mod loader;
pub mod patch;
pub mod prompts;
pub mod scripts;
pub mod strutil;
pub mod version;
pub mod workspace;
