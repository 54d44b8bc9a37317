use vstd::prelude::*;

use crate::bom::{Bom, Boms, LOOKAHEAD_LEN, boms_wf, is_standard_table};
use crate::filetype::FileType;
use crate::stats::{Stats, count_of};

verus! {

/// What the glob crate decides for a pattern and a path: whether the
/// pattern compiles and matches the path. It depends on the two strings
/// alone.
pub uninterp spec fn glob_match_of(pattern: Seq<char>, path: Seq<char>) -> bool;

/// Relies on glob::Pattern: `new` compiles a Unix-shell-style pattern and
/// `matches` tests a path against it, both functions of the two strings
/// alone. A pattern that does not compile matches nothing.
#[verifier::external_body]
fn glob_match(pattern: &str, path: &str) -> (r: bool)
    ensures
        r == glob_match_of(pattern@, path@),
{
    match glob::Pattern::new(pattern) {
        Ok(p) => p.matches(path),
        Err(_) => false,
    }
}

/// Chunk size for the streaming null-byte scan. Any chunk size yields the
/// same classification; this is the size the scan uses.
pub const CHUNK_LEN: usize = 1024;

/// A pattern matches content when the content is at least as long as the
/// pattern and starts with it, byte for byte.
pub open spec fn pattern_matches(pat: Seq<u8>, content: Seq<u8>) -> bool {
    pat.len() <= content.len() && (forall|i: int| 0 <= i < pat.len() ==> content[i] == pat[i])
}

/// Index of the first table entry at or after `i` whose pattern matches
/// the content, if any.
pub open spec fn first_match_from(boms: Seq<Bom>, content: Seq<u8>, i: int) -> Option<int>
    decreases boms.len() - i,
{
    if i < 0 || i >= boms.len() {
        None
    } else if pattern_matches(boms[i].value@, content) {
        Some(i)
    } else {
        first_match_from(boms, content, i + 1)
    }
}

/// Index of the first table entry whose pattern matches the content.
pub open spec fn first_match(boms: Seq<Bom>, content: Seq<u8>) -> Option<int> {
    first_match_from(boms, content, 0)
}

/// Some entry of the table matches the content; order plays no role here.
pub open spec fn some_match(boms: Seq<Bom>, content: Seq<u8>) -> bool {
    exists|k: int| 0 <= k < boms.len() && #[trigger] pattern_matches(boms[k].value@, content)
}

/// The content holds a null byte somewhere.
pub open spec fn has_null(content: Seq<u8>) -> bool {
    exists|i: int| 0 <= i < content.len() && content[i] == 0u8
}

/// What the classifier returns for existing file content: the first
/// matching signature decides `EncodedText`; otherwise a null byte
/// anywhere means `Binary`, and its absence means `PlainText`.
pub open spec fn classify_spec(boms: Seq<Bom>, content: Seq<u8>) -> FileType {
    if some_match(boms, content) {
        FileType::EncodedText
    } else if has_null(content) {
        FileType::Binary
    } else {
        FileType::PlainText
    }
}

/// The name reported with `EncodedText`: the key of the first matching
/// table entry, or nothing when no entry matches.
pub open spec fn matched_name(boms: Seq<Bom>, content: Seq<u8>) -> Option<Seq<char>> {
    match first_match(boms, content) {
        Some(k) => Some(boms[k].key@),
        None => None,
    }
}

/// What `first_match_from` returns is a genuine first match: the entry it
/// names matches, every entry before it (at or after `i`) does not, and
/// `None` means no entry at or after `i` matches at all.
pub proof fn lemma_first_match_from_props(boms: Seq<Bom>, content: Seq<u8>, i: int)
    requires
        0 <= i <= boms.len(),
    ensures
        (match first_match_from(boms, content, i) {
            Some(k) => i <= k < boms.len() && pattern_matches(boms[k].value@, content)
                && (forall|j: int| i <= j < k ==> !pattern_matches(#[trigger] boms[j].value@, content)),
            None => forall|j: int| i <= j < boms.len() ==> !pattern_matches(#[trigger] boms[j].value@, content),
        }),
    decreases boms.len() - i,
{
    if i < boms.len() && !pattern_matches(boms[i].value@, content) {
        lemma_first_match_from_props(boms, content, i + 1);
    }
}

/// An entry that matches, with no match before it, is exactly what
/// `first_match_from` returns.
pub proof fn lemma_first_match_from_at(boms: Seq<Bom>, content: Seq<u8>, i: int, k: int)
    requires
        0 <= i <= k < boms.len(),
        pattern_matches(boms[k].value@, content),
        forall|j: int| i <= j < k ==> !pattern_matches(#[trigger] boms[j].value@, content),
    ensures
        first_match_from(boms, content, i) == Some(k),
    decreases k - i,
{
    if i < k {
        lemma_first_match_from_at(boms, content, i + 1, k);
    }
}

/// With no matching entry at all, `first_match_from` finds nothing.
pub proof fn lemma_first_match_from_none(boms: Seq<Bom>, content: Seq<u8>, i: int)
    requires
        0 <= i <= boms.len(),
        forall|j: int| i <= j < boms.len() ==> !pattern_matches(#[trigger] boms[j].value@, content),
    ensures
        first_match_from(boms, content, i) is None,
    decreases boms.len() - i,
{
    if i < boms.len() {
        lemma_first_match_from_none(boms, content, i + 1);
    }
}

/// `first_match` succeeds exactly when some entry matches, and what it
/// names is a first match.
pub proof fn lemma_first_match_props(boms: Seq<Bom>, content: Seq<u8>)
    ensures
        (first_match(boms, content) is Some) <==> some_match(boms, content),
        (match first_match(boms, content) {
            Some(k) => 0 <= k < boms.len() && pattern_matches(boms[k].value@, content)
                && (forall|j: int| 0 <= j < k ==> !pattern_matches(#[trigger] boms[j].value@, content)),
            None => forall|j: int| 0 <= j < boms.len() ==> !pattern_matches(#[trigger] boms[j].value@, content),
        }),
{
    lemma_first_match_from_props(boms, content, 0);
}

/// A lookahead that copies the leading bytes of the content, and is as
/// long as the lookahead buffer or as the content itself if shorter,
/// preserves matching for every pattern that fits in the lookahead buffer.
pub proof fn lemma_pattern_matches_lookahead(pat: Seq<u8>, content: Seq<u8>, la: Seq<u8>)
    requires
        pat.len() <= LOOKAHEAD_LEN,
        la.len() == (if content.len() < LOOKAHEAD_LEN { content.len() as int } else { LOOKAHEAD_LEN as int }),
        forall|i: int| 0 <= i < la.len() ==> la[i] == content[i],
    ensures
        pattern_matches(pat, la) == pattern_matches(pat, content),
{
}

/// Signature testing needs only the lookahead: scanning the table against
/// the lookahead and against the whole content give the same first match.
pub proof fn lemma_first_match_lookahead(boms: Seq<Bom>, content: Seq<u8>, la: Seq<u8>, i: int)
    requires
        boms_wf(boms),
        0 <= i <= boms.len(),
        la.len() == (if content.len() < LOOKAHEAD_LEN { content.len() as int } else { LOOKAHEAD_LEN as int }),
        forall|j: int| 0 <= j < la.len() ==> la[j] == content[j],
    ensures
        first_match_from(boms, content, i) == first_match_from(boms, la, i),
    decreases boms.len() - i,
{
    if i < boms.len() {
        lemma_pattern_matches_lookahead(boms[i].value@, content, la);
        if !pattern_matches(boms[i].value@, content) {
            lemma_first_match_lookahead(boms, content, la, i + 1);
        }
    }
}

/// What reading a file produced: nothing, because the path names no
/// regular file, or else the bytes it holds. An open or read failure on a
/// path that does exist is an error of its own; the caller reports it
/// distinctly and it never becomes a classification.
pub enum FileContent {
    Missing,
    Bytes(Vec<u8>),
}

/// The classification owed for what reading a file produced: a missing
/// file is `Absent`; existing content is classified by signature and by
/// the null-byte heuristic.
pub open spec fn file_type_of(boms: Seq<Bom>, content: FileContent) -> FileType {
    match content {
        FileContent::Missing => FileType::Absent,
        FileContent::Bytes(b) => classify_spec(boms, b@),
    }
}

/// One classification record: a path, its classification once computed,
/// and the matched signature's name when one matched.
pub struct File {
    pub matching_glob: String,
    pub matching_bom: String,
    pub path: String,
    pub file_type: FileType,
}

impl File {
    /// A fresh record for a path: nothing matched yet, not classified yet.
    pub fn new(full_path: String) -> (r: File)
        ensures
            r.matching_glob@ == Seq::<char>::empty(),
            r.matching_bom@ == Seq::<char>::empty(),
            r.path@ == full_path@,
            r.file_type == FileType::Absent,
    {
        File {
            matching_glob: String::new(),
            matching_bom: String::new(),
            path: full_path,
            file_type: FileType::Absent,
        }
    }

    /// Whether a pattern matches the leading bytes of a buffer. A pattern
    /// longer than the buffer never matches; no byte past the buffer's end
    /// is examined.
    pub fn matches_bom(bytes: &[u8], bom: &Vec<u8>) -> (r: bool)
        ensures
            r == pattern_matches(bom@, bytes@),
    {
        if bom.len() > bytes.len() {
            return false;
        }
        let mut i: usize = 0;
        while i < bom.len()
            invariant
                0 <= i <= bom@.len() <= bytes@.len(),
                forall|j: int| 0 <= j < i ==> bytes@[j] == bom@[j],
            decreases bom@.len() - i,
        {
            if bytes[i] != bom[i] {
                return false;
            }
            i = i + 1;
        }
        true
    }

    /// Whether the buffer holds a 0x00 byte anywhere.
    pub fn contains_null_byte(array: &[u8]) -> (r: bool)
        ensures
            r == has_null(array@),
    {
        let mut i: usize = 0;
        while i < array.len()
            invariant
                0 <= i <= array@.len(),
                forall|j: int| 0 <= j < i ==> array@[j] != 0u8,
            decreases array@.len() - i,
        {
            if array[i] == 0u8 {
                return true;
            }
            i = i + 1;
        }
        false
    }

    /// The index of the first table entry whose pattern matches the
    /// buffer's leading bytes, scanning in table order.
    pub fn first_matching_bom(bytes: &[u8], boms: &Boms) -> (r: Option<usize>)
        ensures
            (match r {
                Some(k) => first_match(boms.list@, bytes@) == Some(k as int),
                None => first_match(boms.list@, bytes@) is None,
            }),
    {
        let mut i: usize = 0;
        while i < boms.list.len()
            invariant
                0 <= i <= boms.list@.len(),
                forall|j: int| 0 <= j < i ==> !pattern_matches(#[trigger] boms.list@[j].value@, bytes@),
            decreases boms.list@.len() - i,
        {
            if Self::matches_bom(bytes, &boms.list[i].value) {
                proof {
                    lemma_first_match_from_at(boms.list@, bytes@, 0, i as int);
                }
                return Some(i);
            }
            i = i + 1;
        }
        proof {
            lemma_first_match_from_none(boms.list@, bytes@, 0);
        }
        None
    }

    /// Whether some signature of the table matches the buffer's leading
    /// bytes.
    pub fn is_encoded_text_file(bytes: &[u8], boms: &Boms) -> (r: bool)
        ensures
            r == some_match(boms.list@, bytes@),
    {
        let m = Self::first_matching_bom(bytes, boms);
        proof {
            lemma_first_match_props(boms.list@, bytes@);
        }
        m.is_some()
    }

    /// Classifies the content of an existing regular file.
    ///
    /// First the leading bytes — at most the lookahead length — are tested
    /// against the table in order; the first matching signature decides
    /// `EncodedText` and names the encoding, and no further byte is
    /// examined. Otherwise the content is scanned chunk by chunk for a
    /// null byte: one found anywhere means `Binary`, reaching the end
    /// without one means `PlainText`.
    pub fn classify_content(content: &[u8], boms: &Boms) -> (r: (FileType, Option<String>))
        requires
            boms_wf(boms.list@),
        ensures
            r.0 == classify_spec(boms.list@, content@),
            (match first_match(boms.list@, content@) {
                Some(k) => (match r.1 {
                    Some(name) => name@ == boms.list@[k].key@,
                    None => false,
                }),
                None => r.1 is None,
            }),
    {
        let la_end: usize = if content.len() < LOOKAHEAD_LEN {
            content.len()
        } else {
            LOOKAHEAD_LEN
        };
        let lookahead: &[u8] = vstd::slice::slice_subrange(content, 0, la_end);
        proof {
            lemma_first_match_lookahead(boms.list@, content@, lookahead@, 0);
            lemma_first_match_props(boms.list@, content@);
        }
        match Self::first_matching_bom(lookahead, boms) {
            Some(k) => {
                let name = boms.list[k].key.clone();
                (FileType::EncodedText, Some(name))
            },
            None => {
                let mut start: usize = 0;
                while start < content.len()
                    invariant
                        0 <= start <= content@.len(),
                        forall|j: int| 0 <= j < start ==> content@[j] != 0u8,
                        first_match(boms.list@, content@) is None,
                        !some_match(boms.list@, content@),
                    decreases content@.len() - start,
                {
                    let end: usize = if content.len() - start < CHUNK_LEN {
                        content.len()
                    } else {
                        start + CHUNK_LEN
                    };
                    let chunk: &[u8] = vstd::slice::slice_subrange(content, start, end);
                    if Self::contains_null_byte(chunk) {
                        proof {
                            let i = choose|i: int| 0 <= i < chunk@.len() && chunk@[i] == 0u8;
                            assert(content@[start + i] == 0u8);
                        }
                        return (FileType::Binary, None);
                    }
                    proof {
                        assert forall|j: int| start <= j < end implies content@[j] != 0u8 by {
                            assert(chunk@[j - start] != 0u8);
                        }
                    }
                    start = end;
                }
                (FileType::PlainText, None)
            },
        }
    }

    /// Whether the record's path names an existing regular file. The
    /// answer depends on the file system at the moment of the call, so
    /// nothing is promised of it.
    pub fn is_file(&self) -> bool {
        crate::filesystem::is_file(&self.path)
    }

    /// The glob that selected the file. This scanner applies no glob, so
    /// every record carries the fixed placeholder.
    pub fn get_matching_glob() -> (r: String)
        ensures
            r@ == "<none>"@,
    {
        "<none>".to_owned()
    }

    /// Whether the record's path matches the given glob pattern.
    pub fn is_match(&self, glob: &String) -> (r: bool)
        ensures
            r == glob_match_of(glob@, self.path@),
    {
        glob_match(glob.as_str(), self.path.as_str())
    }

    /// Fills an empty table with the fixed signature list, in the order
    /// the classifier tests them.
    pub fn init_boms(boms: &mut Boms)
        requires
            old(boms).list@.len() == 0,
        ensures
            is_standard_table(final(boms).list@),
    {
        boms.list.push(Bom { key: "BOCU-1".to_owned(), value: vec![0xFBu8, 0xEEu8, 0x28u8] });
        boms.list.push(
            Bom { key: "GB18030".to_owned(), value: vec![0x84u8, 0x31u8, 0x95u8, 0x33u8] },
        );
        boms.list.push(Bom { key: "SCSU".to_owned(), value: vec![0x0Eu8, 0xFEu8, 0xFFu8] });
        boms.list.push(Bom { key: "UTF-1".to_owned(), value: vec![0xF7u8, 0x64u8, 0x4Cu8] });
        boms.list.push(Bom { key: "UTF-16BE".to_owned(), value: vec![0xFEu8, 0xFFu8] });
        boms.list.push(Bom { key: "UTF-16LE".to_owned(), value: vec![0xFFu8, 0xFEu8] });
        boms.list.push(
            Bom { key: "UTF-32LE".to_owned(), value: vec![0x00u8, 0x00u8, 0xFEu8, 0xFFu8] },
        );
        boms.list.push(
            Bom { key: "UTF-7".to_owned(), value: vec![0xFFu8, 0xFEu8, 0x00u8, 0x00u8] },
        );
        boms.list.push(
            Bom { key: "UTF-7".to_owned(), value: vec![0x38u8, 0x39u8, 0x2Bu8, 0x2Fu8] },
        );
        boms.list.push(Bom { key: "UTF-8".to_owned(), value: vec![0xEFu8, 0xBBu8, 0xBFu8] });
        boms.list.push(
            Bom { key: "UTF-EBCDIC".to_owned(), value: vec![0xDDu8, 0x73u8, 0x66u8, 0x73u8] },
        );
    }

    /// Classifies one file from what reading it produced and records the
    /// result: the classification itself, and the matched signature's name
    /// when one matched. A missing file is `Absent` — a normal outcome,
    /// not an error.
    pub fn get_file_type(&mut self, content: &FileContent, boms: &Boms) -> (t: FileType)
        requires
            boms_wf(boms.list@),
        ensures
            t == file_type_of(boms.list@, *content),
            final(self).file_type == t,
            final(self).path@ == old(self).path@,
            final(self).matching_glob@ == "<none>"@,
            (match *content {
                FileContent::Bytes(b) => (match first_match(boms.list@, b@) {
                    Some(k) => final(self).matching_bom@ == boms.list@[k].key@,
                    None => final(self).matching_bom@ == Seq::<char>::empty(),
                }),
                FileContent::Missing => final(self).matching_bom@ == Seq::<char>::empty(),
            }),
    {
        self.matching_glob = Self::get_matching_glob();
        match content {
            FileContent::Missing => {
                self.matching_bom = String::new();
                self.file_type = FileType::Absent;
                FileType::Absent
            },
            FileContent::Bytes(b) => {
                let (t, name) = Self::classify_content(b.as_slice(), boms);
                match name {
                    Some(n) => {
                        self.matching_bom = n;
                    },
                    None => {
                        self.matching_bom = String::new();
                    },
                }
                self.file_type = t;
                t
            },
        }
    }

    /// Tallies one classified file into the running statistics — the
    /// counter of its classification grows by one, the others stand — and
    /// names the classification.
    pub fn get_updated_file_type(&self, file: &File, stats: &mut Stats) -> (r: String)
        requires
            count_of(*old(stats), file.file_type) < u64::MAX,
        ensures
            count_of(*final(stats), file.file_type) == count_of(*old(stats), file.file_type)
                + 1,
            forall|t: FileType|
                t != file.file_type ==> #[trigger] count_of(*final(stats), t) == count_of(
                    *old(stats),
                    t,
                ),
            (match file.file_type {
                FileType::Absent => r@ == "none"@,
                FileType::PlainText => r@ == "text"@,
                FileType::EncodedText => r@ == "encoded text"@,
                FileType::Binary => r@ == "binary"@,
            }),
    {
        let result: String;
        match file.file_type {
            FileType::Absent => {
                stats.none_files = stats.none_files + 1;
                result = "none".to_owned();
            },
            FileType::PlainText => {
                stats.text_files = stats.text_files + 1;
                result = "text".to_owned();
            },
            FileType::EncodedText => {
                stats.encoded_text_files = stats.encoded_text_files + 1;
                result = "encoded text".to_owned();
            },
            FileType::Binary => {
                stats.binary_files = stats.binary_files + 1;
                result = "binary".to_owned();
            },
        }
        result
    }
}

} // verus!
