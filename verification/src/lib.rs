//! Decision logic of a development server for a static site: the state
//! machine that restarts the site builder when its sources change, the
//! start-up outputs, the server's address, and the drivers' pure parts.

pub mod foreign;
pub mod error;
pub mod event;
pub mod state;
pub mod laws;
pub mod startup;
pub mod driver;
pub mod graphic_file_specs;
