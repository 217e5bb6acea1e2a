//! Backend logic of a game launcher: the persisted launcher configuration,
//! the hardware and disk requirement checks, installed-version bookkeeping,
//! and the step machine that installs a tooling release from an archive.

pub mod bookkeeping;
pub mod config;
pub mod disks;
pub mod error;
pub mod games;
pub mod install_model;
pub mod installer;
pub mod requirements;
pub mod settings;
pub mod text;
pub mod tooling;
