use vstd::prelude::*;

use crate::bom::{Bom, boms_wf};
use crate::file::{
    classify_spec, first_match, lemma_first_match_from_at, lemma_first_match_props, matched_name,
    pattern_matches, some_match,
};
use crate::filetype::FileType;

verus! {

/// A file whose entire content is exactly some table entry's pattern
/// classifies as `EncodedText`: every pattern matches itself.
pub proof fn lemma_exact_pattern_is_encoded(boms: Seq<Bom>, k: int)
    requires
        0 <= k < boms.len(),
    ensures
        classify_spec(boms, boms[k].value@) == FileType::EncodedText,
{
    assert(pattern_matches(boms[k].value@, boms[k].value@));
}

/// When, moreover, no earlier entry's pattern matches that content, the
/// reported name is the entry's own. The proviso is needed: an earlier
/// entry whose pattern is a prefix of this one wins the scan and lends
/// the file its name instead.
pub proof fn lemma_exact_pattern_names_entry(boms: Seq<Bom>, k: int)
    requires
        0 <= k < boms.len(),
        forall|j: int|
            0 <= j < k ==> !pattern_matches(#[trigger] boms[j].value@, boms[k].value@),
    ensures
        matched_name(boms, boms[k].value@) == Some(boms[k].key@),
{
    assert(pattern_matches(boms[k].value@, boms[k].value@));
    lemma_first_match_from_at(boms, boms[k].value@, 0, k);
}

/// A zero-length file classifies as `PlainText`: no pattern of a
/// well-formed table matches an empty buffer, and no null byte is ever
/// found in one.
pub proof fn lemma_empty_is_plain_text(boms: Seq<Bom>)
    requires
        boms_wf(boms),
    ensures
        classify_spec(boms, Seq::<u8>::empty()) == FileType::PlainText,
{
    assert forall|k: int| 0 <= k < boms.len() implies !pattern_matches(
        #[trigger] boms[k].value@,
        Seq::<u8>::empty(),
    ) by {
        assert(boms[k].value@.len() >= 1);
    }
}

/// Content holding a null byte somewhere, with no matching signature,
/// classifies as `Binary` — wherever the null byte stands.
pub proof fn lemma_null_without_match_is_binary(boms: Seq<Bom>, content: Seq<u8>, i: int)
    requires
        !some_match(boms, content),
        0 <= i < content.len(),
        content[i] == 0u8,
    ensures
        classify_spec(boms, content) == FileType::Binary,
{
}

/// `EncodedText` certifies its cause: it holds exactly when the content's
/// leading bytes equal some entry's pattern, and content with a matching
/// signature is never `Binary` — the signature scan comes first and
/// short-circuits the null-byte heuristic.
pub proof fn lemma_encoded_iff_signature(boms: Seq<Bom>, content: Seq<u8>)
    ensures
        (classify_spec(boms, content) == FileType::EncodedText) == some_match(boms, content),
        some_match(boms, content) ==> classify_spec(boms, content) != FileType::Binary,
{
}

/// Classification is repeatable: the same table and the same unmodified
/// content yield the same classification and the same name, every time.
pub proof fn lemma_classify_repeatable(boms: Seq<Bom>, c1: Seq<u8>, c2: Seq<u8>)
    requires
        c1 == c2,
    ensures
        classify_spec(boms, c1) == classify_spec(boms, c2),
        matched_name(boms, c1) == matched_name(boms, c2),
{
}

/// Whether some signature matches does not depend on table order: two
/// tables holding the same entries, however arranged, agree on it.
pub proof fn lemma_some_match_order_independent(b1: Seq<Bom>, b2: Seq<Bom>, content: Seq<u8>)
    requires
        b1.to_multiset() == b2.to_multiset(),
    ensures
        some_match(b1, content) == some_match(b2, content),
{
    broadcast use vstd::seq_lib::group_to_multiset_ensures;

    if some_match(b1, content) {
        let k = choose|k: int|
            0 <= k < b1.len() && #[trigger] pattern_matches(b1[k].value@, content);
        assert(b1.contains(b1[k]));
        assert(b1.to_multiset().count(b1[k]) > 0);
        assert(b2.to_multiset().count(b1[k]) > 0);
        assert(b2.contains(b1[k]));
        let j = choose|j: int| 0 <= j < b2.len() && b2[j] == b1[k];
        assert(pattern_matches(b2[j].value@, content));
    }
    if some_match(b2, content) {
        let k = choose|k: int|
            0 <= k < b2.len() && #[trigger] pattern_matches(b2[k].value@, content);
        assert(b2.contains(b2[k]));
        assert(b2.to_multiset().count(b2[k]) > 0);
        assert(b1.to_multiset().count(b2[k]) > 0);
        assert(b1.contains(b2[k]));
        let j = choose|j: int| 0 <= j < b1.len() && b1[j] == b2[k];
        assert(pattern_matches(b1[j].value@, content));
    }
}

/// Classification does not depend on table order: two tables holding the
/// same entries, however arranged, classify every content alike.
pub proof fn lemma_classify_order_independent(b1: Seq<Bom>, b2: Seq<Bom>, content: Seq<u8>)
    requires
        b1.to_multiset() == b2.to_multiset(),
    ensures
        classify_spec(b1, content) == classify_spec(b2, content),
{
    lemma_some_match_order_independent(b1, b2, content);
}

/// Among non-overlapping patterns — at most one name's patterns match the
/// content — even the reported name does not depend on table order.
pub proof fn lemma_matched_name_order_independent(b1: Seq<Bom>, b2: Seq<Bom>, content: Seq<u8>)
    requires
        b1.to_multiset() == b2.to_multiset(),
        forall|j: int, k: int|
            0 <= j < b1.len() && 0 <= k < b1.len() && #[trigger] pattern_matches(
                b1[j].value@,
                content,
            ) && #[trigger] pattern_matches(b1[k].value@, content) ==> b1[j].key@ == b1[k].key@,
    ensures
        matched_name(b1, content) == matched_name(b2, content),
{
    broadcast use vstd::seq_lib::group_to_multiset_ensures;

    lemma_some_match_order_independent(b1, b2, content);
    lemma_first_match_props(b1, content);
    lemma_first_match_props(b2, content);
    match first_match(b1, content) {
        Some(k1) => {
            let k2 = first_match(b2, content)->Some_0;
            assert(b2.contains(b2[k2]));
            assert(b2.to_multiset().count(b2[k2]) > 0);
            assert(b1.to_multiset().count(b2[k2]) > 0);
            assert(b1.contains(b2[k2]));
            let j = choose|j: int| 0 <= j < b1.len() && b1[j] == b2[k2];
            assert(pattern_matches(b1[j].value@, content));
            assert(b1[k1].key@ == b1[j].key@);
        },
        None => {
        },
    }
}

} // verus!
