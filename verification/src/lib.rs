//! Locating a Steam game, planning the installation of the BepInEx mod-loader
//! runtime into it, and selecting community plugins from a repository catalog.
//!
//! The library touches neither the disk nor the network nor the console. Work
//! of that kind is described by a request value, carried out by the caller,
//! and its outcome handed back as an answer value; what is done next is
//! decided here. The one thing the library asks of the machine itself is the
//! user's home directory, when it starts the search for Steam.

pub mod config;
pub mod decimal;
pub mod driver;
pub mod installer;
pub mod locate;
pub mod paths;
pub mod plugin;
pub mod plugins;
pub mod scan;
pub mod selection;
pub mod setup;
pub mod steam;
pub mod text;
pub mod vdf;
