//! Extracts an archive into a sibling directory named after it, then shows
//! that directory in the desktop file browser.
//!
//! The library holds the logic: where the output goes, what the archiver is
//! told, and what the run does after each answer from the system. The program
//! around it performs the actions and reports back.


pub mod path;
pub mod wide;
pub mod launch;
pub mod runs;

pub use path::output_dir;
pub use wide::to_wide;
pub use launch::{Action, Event, Launcher, extract_command_args};
