use vstd::prelude::*;

verus! {

/// The options the tool runs with: the directory to scan, whether to emit
/// tracking output, and whether to narrate the scan. Parsing them from the
/// command line belongs to the surrounding program.
pub struct Opt {
    pub directory: String,
    pub track: bool,
    pub verbose: bool,
}

} // verus!
