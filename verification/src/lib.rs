//! Core engine of an interactive viewer for an append-only text log file.
//!
//! The library holds the verified pipeline that turns raw file lines into the
//! slice of lines shown on screen: a category filter, an optional fuzzy
//! search, and viewport windowing over a scroll offset, together with the
//! input state machine that drives them.  Reading the file, capturing key
//! events and drawing the screen are collaborators that live outside this
//! crate; they hand plain values in and take plain values back.

use vstd::prelude::*;

pub mod fuzzy;
pub mod messages;
pub mod model;
pub mod pipeline;
pub mod view;

verus! {

/// Startup configuration: the path of the log file to follow.
pub struct Config {
    pub file_path: String,
}

impl Config {
    /// Builds the configuration from the process arguments; the first real
    /// argument (after the program name) is the log file path.
    pub fn new(args: &Vec<String>) -> (r: Result<Config, &'static str>)
        ensures
            match r {
                Ok(c) => args@.len() >= 2 && c.file_path@ == args@[1]@,
                Err(e) => args@.len() < 2 && e@ == "Must provide a file path."@,
            },
    {
        if args.len() < 2 {
            return Err("Must provide a file path.");
        }
        let file_path = args[1].clone();
        Ok(Config { file_path })
    }
}

} // verus!
