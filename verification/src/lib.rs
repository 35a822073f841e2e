//! The decisions of a NixOS installer.

pub mod command_helpers;
pub mod config;
pub mod disk_helpers;
pub mod disk_laws;
pub mod evaluation;
pub mod failure_laws;
pub mod file_systems;
pub mod flake;
pub mod install_laws;
pub mod installer;
pub mod journal;
pub mod lookup_laws;
pub mod options;
pub mod paths;
pub mod replay;
pub mod safety;
pub mod session;
pub mod text;
pub mod transcript;
