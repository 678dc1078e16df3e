//! A verified core for a local manager of a game engine's binary releases.
//!
//! The library models version identities, the platform-dependent naming
//! scheme for installed binaries and release archives, the on-disk layout
//! of the install and cache directories, and the decision logic of the
//! install, uninstall and cache commands.  All filesystem and network work
//! is left to an unverified shell that consults these functions.

pub mod cache;
pub mod config;
pub mod dirs;
pub mod error;
pub mod install;
pub mod launch;
pub mod platform;
pub mod text;
pub mod uninstall;
pub mod version;
