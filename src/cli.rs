use vstd::prelude::*;

verus! {

/// Command-line arguments: the workspace to load, either a path to a
/// configuration file or the name of a workspace file.
#[derive(Debug, Default)]
pub struct Args {
    /// Config file to load.
    pub file: String,
}

} // verus!
