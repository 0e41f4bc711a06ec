//! Decision logic of an unattended operating-system installer: the wizard's
//! step machine, the partition planner, the clone and install pipelines and
//! the text they generate, each with a machine-checked contract.

pub mod app;
pub mod cli;
pub mod clone;
pub mod config;
pub mod devices;
pub mod disk;
pub mod install;
pub mod lists;
pub mod nix;
pub mod process;
pub mod text;
pub mod theme;
