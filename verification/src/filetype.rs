use vstd::prelude::*;

verus! {

/// The four-way outcome of classifying one file.
///
/// Exactly one variant holds for a given file at a given instant:
/// `Absent` when the path does not resolve to a regular file,
/// `EncodedText` when the leading bytes equal some signature's pattern,
/// `Binary` when no signature matched and a null byte was found,
/// and `PlainText` otherwise.
#[derive(Clone, Copy, Debug, PartialEq, Eq, Structural)]
pub enum FileType {
    Absent,
    PlainText,
    EncodedText,
    Binary,
}

} // verus!
