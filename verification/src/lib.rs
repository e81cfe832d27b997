//! Verified core of the kryx command-line tool for KryonixOS.
pub mod text;
pub mod passthrough;
pub mod help;
pub mod ui;
pub mod cleanup;
pub mod diagnostics;
pub mod update;
pub mod status;
pub mod modules;
pub mod node;
pub mod nix_extra;
pub mod cli;
pub mod client;
