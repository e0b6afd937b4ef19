//! The decision core of the audio dotfiles manager: the installer's state
//! machine, the plans of each deployment step, the path and text rules they
//! rest on, and what the terminal screen shows for a given state.
//!
//! Everything that touches the file system, the clock, processes or the
//! terminal lives with the caller; it hands this library plain observations
//! and carries out the actions the library returns.

pub mod text;
pub mod paths;
pub mod state;
pub mod steps;
pub mod disk;
pub mod dry_run;
pub mod screen;
pub mod laws;
