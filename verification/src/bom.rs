use vstd::prelude::*;

verus! {

/// The number of bytes the classifier reads ahead for signature testing.
/// Every pattern in a well-formed table fits inside this lookahead.
pub const LOOKAHEAD_LEN: usize = 10;

/// One signature-table entry: an encoding name and the leading byte
/// pattern that identifies it. Names need not be unique; two entries
/// may share a name.
pub struct Bom {
    pub key: String,
    pub value: Vec<u8>,
}

/// The ordered signature table. Order is significant: entries are tested
/// in sequence and the first matching pattern wins.
pub struct Boms {
    pub list: Vec<Bom>,
}

/// A table is well formed when every pattern is non-empty and fits in the
/// lookahead buffer, so that signature testing never needs more bytes than
/// the lookahead holds.
pub open spec fn boms_wf(boms: Seq<Bom>) -> bool {
    forall|k: int|
        0 <= k < boms.len() ==> 1 <= (#[trigger] boms[k].value@.len()) <= LOOKAHEAD_LEN
}

/// The fixed signature table this tool ships with, entry by entry.
pub open spec fn is_standard_table(s: Seq<Bom>) -> bool {
    &&& s.len() == 11
    &&& s[0].key@ == "BOCU-1"@ && s[0].value@ == seq![0xFBu8, 0xEEu8, 0x28u8]
    &&& s[1].key@ == "GB18030"@ && s[1].value@ == seq![0x84u8, 0x31u8, 0x95u8, 0x33u8]
    &&& s[2].key@ == "SCSU"@ && s[2].value@ == seq![0x0Eu8, 0xFEu8, 0xFFu8]
    &&& s[3].key@ == "UTF-1"@ && s[3].value@ == seq![0xF7u8, 0x64u8, 0x4Cu8]
    &&& s[4].key@ == "UTF-16BE"@ && s[4].value@ == seq![0xFEu8, 0xFFu8]
    &&& s[5].key@ == "UTF-16LE"@ && s[5].value@ == seq![0xFFu8, 0xFEu8]
    &&& s[6].key@ == "UTF-32LE"@ && s[6].value@ == seq![0x00u8, 0x00u8, 0xFEu8, 0xFFu8]
    &&& s[7].key@ == "UTF-7"@ && s[7].value@ == seq![0xFFu8, 0xFEu8, 0x00u8, 0x00u8]
    &&& s[8].key@ == "UTF-7"@ && s[8].value@ == seq![0x38u8, 0x39u8, 0x2Bu8, 0x2Fu8]
    &&& s[9].key@ == "UTF-8"@ && s[9].value@ == seq![0xEFu8, 0xBBu8, 0xBFu8]
    &&& s[10].key@ == "UTF-EBCDIC"@ && s[10].value@ == seq![0xDDu8, 0x73u8, 0x66u8, 0x73u8]
}

/// The standard table is well formed: every pattern holds 2 to 4 bytes,
/// well inside the lookahead. A pattern longer than the lookahead would be
/// a configuration error; this rules it out once and for all at startup.
pub proof fn lemma_standard_table_wf(s: Seq<Bom>)
    requires
        is_standard_table(s),
    ensures
        boms_wf(s),
{
}

impl Boms {
    /// Creates an empty table; entries are added once at startup.
    pub fn new() -> (r: Boms)
        ensures
            r.list@.len() == 0,
    {
        Boms { list: Vec::new() }
    }
}

} // verus!
