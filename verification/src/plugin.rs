use vstd::prelude::*;

verus! {

/// State of one ignore-file plugin: the ignore file it reads and the glob
/// lines taken from it.
pub struct Plugin {
    pub path: String,
    pub globs: Vec<String>,
}

/// An ignore-file plugin reads glob lines from its file and says which
/// paths they exclude. Implementations live with the surrounding tool,
/// next to the file reading they need.
pub trait Ignorable {
    fn read_globs(plugin: &mut Plugin, path: &String);

    fn ignore_path(glob: &String, path: &String) -> bool;

    fn new() -> Plugin;
}

} // verus!
