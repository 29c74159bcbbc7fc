//! The thin command-line surface: one positional argument, the path to
//! the script source file. Argument parsing itself happens in the
//! surrounding application; this type carries the result.

use vstd::prelude::*;

verus! {

/// The parsed command line.
pub struct Cli {
    pub path: String,
}

impl Cli {
    pub fn new(path: String) -> (r: Cli)
        ensures
            r.path == path,
    {
        Cli { path }
    }

    /// The script file's path.
    pub fn get_path(&self) -> (r: &String)
        ensures
            r == self.path,
    {
        &self.path
    }
}

/// The state behind the windowing shim of the surrounding application;
/// the core itself keeps nothing there.
pub struct Application {}

impl Application {
    pub fn new() -> Application {
        Application {  }
    }
}

} // verus!
