use vstd::prelude::*;

verus! {

/// The byte sequence `/.git/`: a path holding it passes through
/// version-control metadata, which the scanner must skip.
pub open spec fn git_dir_bytes() -> Seq<u8> {
    seq![47u8, 46u8, 103u8, 105u8, 116u8, 47u8]
}

/// `needle` occurs in `hay` starting at position `at`.
pub open spec fn occurs_at(hay: Seq<u8>, needle: Seq<u8>, at: int) -> bool {
    &&& 0 <= at
    &&& at + needle.len() <= hay.len()
    &&& forall|i: int| 0 <= i < needle.len() ==> hay[at + i] == needle[i]
}

/// `needle` occurs somewhere in `hay`.
pub open spec fn contains_bytes(hay: Seq<u8>, needle: Seq<u8>) -> bool {
    exists|at: int| occurs_at(hay, needle, at)
}

/// The path, given as bytes, holds a `/.git/` segment.
pub open spec fn has_git_segment(path: Seq<u8>) -> bool {
    contains_bytes(path, git_dir_bytes())
}

/// Relies on std::path::Path::is_file: whether the path names an existing
/// regular file. The answer depends on the file system at the moment of
/// the call, so nothing is promised of it.
#[verifier::external_body]
pub fn is_file(path: &String) -> bool {
    std::path::Path::new(path).is_file()
}

/// Whether the path holds a `/.git/` segment; the scanner drops every
/// path for which this holds, so version-control metadata is never
/// classified.
pub fn contains_git_segment(path: &[u8]) -> (r: bool)
    ensures
        r == has_git_segment(path@),
{
    if path.len() < 6 {
        return false;
    }
    let mut at: usize = 0;
    while at < path.len() - 5
        invariant
            6 <= path@.len(),
            0 <= at <= path@.len(),
            forall|a: int| 0 <= a < at ==> !occurs_at(path@, git_dir_bytes(), a),
        decreases path@.len() - at,
    {
        if path[at] == 47 && path[at + 1] == 46 && path[at + 2] == 103 && path[at + 3] == 105
            && path[at + 4] == 116 && path[at + 5] == 47 {
            proof {
                assert(occurs_at(path@, git_dir_bytes(), at as int));
            }
            return true;
        }
        at = at + 1;
    }
    proof {
        assert forall|a: int| 0 <= a implies !occurs_at(path@, git_dir_bytes(), a) by {
            if a < at {
            } else {
                assert(a + git_dir_bytes().len() > path@.len());
            }
        }
    }
    false
}

} // verus!
