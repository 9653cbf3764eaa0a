//! A proto plugin for PHP: which files pin a PHP version, which releases can
//! be installed, where prebuilt binaries are downloaded from, and how PHP is
//! built from source. The plugin's I/O with proto's host stands outside this
//! library; everything here is verified against its contract.
use vstd::prelude::*;

pub mod build_plan;
pub mod config;
pub mod download;
pub mod laws;
pub mod outside;
pub mod platform;
pub mod text;
pub mod tool;
pub mod version_files;
pub mod versions;

pub use build_plan::build_instructions;
pub use config::PhpPluginConfig;
pub use download::download_prebuilt;
pub use tool::{locate_executables, register_tool, sync_shell_profile};
pub use version_files::{detect_version_files, parse_version_file};
pub use versions::{load_versions, resolve_version};

verus! {

} // verus!
