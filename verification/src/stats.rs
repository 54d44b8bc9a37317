use vstd::prelude::*;

use crate::filetype::FileType;

verus! {

/// Running totals over a batch of classified files: one monotonically
/// increasing counter per classification variant.
pub struct Stats {
    pub none_files: u64,
    pub text_files: u64,
    pub encoded_text_files: u64,
    pub binary_files: u64,
}

/// The counter of `s` that tallies classification `t`.
pub open spec fn count_of(s: Stats, t: FileType) -> u64 {
    match t {
        FileType::Absent => s.none_files,
        FileType::PlainText => s.text_files,
        FileType::EncodedText => s.encoded_text_files,
        FileType::Binary => s.binary_files,
    }
}

impl Stats {
    /// Fresh statistics: every counter at zero.
    pub fn new() -> (r: Stats)
        ensures
            r.none_files == 0,
            r.text_files == 0,
            r.encoded_text_files == 0,
            r.binary_files == 0,
    {
        Stats { none_files: 0, text_files: 0, encoded_text_files: 0, binary_files: 0 }
    }

    /// The number of files tallied so far, over all four counters.
    pub fn total(&self) -> (r: u64)
        requires
            self.none_files + self.text_files + self.encoded_text_files + self.binary_files
                <= u64::MAX,
        ensures
            r == self.none_files + self.text_files + self.encoded_text_files + self.binary_files,
    {
        self.none_files + self.text_files + self.encoded_text_files + self.binary_files
    }
}

} // verus!
