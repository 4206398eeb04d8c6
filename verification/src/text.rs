//! Exact comparison and substring search on text.
//!
//! Both run over the UTF-8 bytes of their arguments; the lemmas below carry
//! the answer over to the characters, which is what the contracts speak of.

use vstd::assert_seqs_equal;
use vstd::prelude::*;
use vstd::utf8::*;

verus! {

/// The characters of a text that may be absent.
pub open spec fn text_of(text: Option<&str>) -> Option<Seq<char>> {
    match text {
        Some(text) => Some(text@),
        None => None,
    }
}

/// `needle` stands in `haystack` at position `at`.
pub open spec fn occurs_at<T>(needle: Seq<T>, haystack: Seq<T>, at: int) -> bool {
    &&& 0 <= at
    &&& at + needle.len() <= haystack.len()
    &&& haystack.subrange(at, at + needle.len()) == needle
}

/// `needle` is a contiguous part of `haystack`.
pub open spec fn occurs_in<T>(needle: Seq<T>, haystack: Seq<T>) -> bool {
    exists|at: int| occurs_at(needle, haystack, at)
}

/// Encoding distributes over concatenation.
proof fn lemma_encode_concat(a: Seq<char>, b: Seq<char>)
    ensures
        encode_utf8(a + b) == encode_utf8(a) + encode_utf8(b),
    decreases a.len(),
{
    if a.len() == 0 {
        assert(a + b =~= b);
        assert(encode_utf8(a) + encode_utf8(b) =~= encode_utf8(b));
    } else {
        assert((a + b).drop_first() =~= a.drop_first() + b);
        assert((a + b)[0] == a[0]);
        lemma_encode_concat(a.drop_first(), b);
        assert(encode_utf8(a + b) =~= encode_utf8(a) + encode_utf8(b));
    }
}

/// Where well-formed bytes open with a well-formed block, the block ends on
/// a character boundary.
proof fn lemma_prefix_ends_on_boundary(block: Seq<u8>, bytes: Seq<u8>)
    requires
        valid_utf8(block),
        valid_utf8(bytes),
        block.len() <= bytes.len(),
        bytes.subrange(0, block.len() as int) == block,
    ensures
        is_char_boundary(bytes, block.len() as int),
    decreases block.len(),
{
    if block.len() > 0 {
        let width = length_of_first_scalar(block);
        assert(bytes[0] == bytes.subrange(0, block.len() as int)[0]);
        assert(length_of_first_scalar(bytes) == width);
        let block_rest = pop_first_scalar(block);
        let bytes_rest = pop_first_scalar(bytes);
        assert(width <= block.len());
        assert_seqs_equal!(bytes_rest.subrange(0, block_rest.len() as int) == block_rest, k => {
            assert(bytes.subrange(0, block.len() as int)[k + width] == block[k + width]);
        });
        lemma_prefix_ends_on_boundary(block_rest, bytes_rest);
    }
}

/// A text occurs in another exactly when its encoding occurs in the
/// encoding of the other.
pub proof fn lemma_occurrence_in_utf8(needle: Seq<char>, haystack: Seq<char>)
    ensures
        occurs_in(needle, haystack) <==> occurs_in(encode_utf8(needle), encode_utf8(haystack)),
{
    let coded_needle = encode_utf8(needle);
    let coded = encode_utf8(haystack);
    encode_utf8_valid_utf8(needle);
    encode_utf8_valid_utf8(haystack);
    encode_utf8_decode_utf8(needle);
    encode_utf8_decode_utf8(haystack);
    if occurs_in(needle, haystack) {
        let at = choose|at: int| occurs_at(needle, haystack, at);
        let before = haystack.subrange(0, at);
        let after = haystack.subrange(at + needle.len(), haystack.len() as int);
        assert(haystack =~= (before + needle) + after);
        lemma_encode_concat(before + needle, after);
        lemma_encode_concat(before, needle);
        let start = encode_utf8(before).len() as int;
        assert(coded =~= (encode_utf8(before) + coded_needle) + encode_utf8(after));
        assert(coded.subrange(start, start + coded_needle.len()) =~= coded_needle);
        assert(occurs_at(coded_needle, coded, start));
    }
    if occurs_in(coded_needle, coded) {
        let start = choose|start: int| occurs_at(coded_needle, coded, start);
        if needle.len() == 0 {
            assert(haystack.subrange(0, 0) =~= needle);
            assert(occurs_at(needle, haystack, 0));
        } else {
            assert(coded_needle.len() > 0) by {
                encode_utf8_first_scalar(needle);
            }
            // The occurrence opens on a character boundary of the haystack.
            is_char_boundary_start_end_of_seq(coded_needle);
            is_char_boundary_iff_not_is_continuation_byte(coded_needle, 0);
            assert(coded[start] == coded.subrange(start, start + coded_needle.len())[0]);
            is_char_boundary_iff_not_is_continuation_byte(coded, start);
            valid_utf8_split(coded, start);
            decode_utf8_split(coded, start);
            let head = coded.subrange(0, start);
            let tail = coded.subrange(start, coded.len() as int);
            // It closes on one as well.
            assert(tail.subrange(0, coded_needle.len() as int) =~= coded_needle);
            lemma_prefix_ends_on_boundary(coded_needle, tail);
            valid_utf8_split(tail, coded_needle.len() as int);
            decode_utf8_split(tail, coded_needle.len() as int);
            let rest = tail.subrange(coded_needle.len() as int, tail.len() as int);
            let before = decode_utf8(head);
            let at = before.len() as int;
            assert(haystack =~= before + (needle + decode_utf8(rest)));
            assert(haystack.subrange(at, at + needle.len()) =~= needle);
            assert(occurs_at(needle, haystack, at));
        }
    }
}

/// Two texts are equal exactly when their encodings are.
pub proof fn lemma_equality_in_utf8(a: Seq<char>, b: Seq<char>)
    ensures
        a == b <==> encode_utf8(a) == encode_utf8(b),
{
    encode_utf8_decode_utf8(a);
    encode_utf8_decode_utf8(b);
}

/// Tells whether `needle` stands in `haystack` at byte offset `at`.
fn bytes_match_at(haystack: &[u8], needle: &[u8], at: usize) -> (matched: bool)
    requires
        at + needle.len() <= haystack.len(),
    ensures
        matched == occurs_at(needle@, haystack@, at as int),
{
    let mut k: usize = 0;
    while k < needle.len()
        invariant
            k <= needle.len(),
            at + needle.len() <= haystack.len(),
            forall|j: int| 0 <= j < k ==> haystack@[at + j] == needle@[j],
        decreases needle.len() - k,
    {
        if haystack[at + k] != needle[k] {
            assert(haystack@.subrange(at as int, at + needle@.len())[k as int] != needle@[k as int]);
            return false;
        }
        k += 1;
    }
    assert(haystack@.subrange(at as int, at + needle@.len()) =~= needle@);
    true
}

/// Tells whether the bytes of `needle` are a contiguous part of `haystack`.
fn bytes_contain(haystack: &[u8], needle: &[u8]) -> (found: bool)
    ensures
        found == occurs_in(needle@, haystack@),
{
    if needle.len() > haystack.len() {
        return false;
    }
    if needle.len() == 0 {
        assert(occurs_at(needle@, haystack@, 0)) by {
            assert(haystack@.subrange(0, 0) =~= needle@);
        }
        return true;
    }
    let last: usize = haystack.len() - needle.len();
    let mut at: usize = 0;
    while at <= last
        invariant
            0 < needle.len() <= haystack.len(),
            last == haystack.len() - needle.len(),
            at <= last + 1,
            forall|p: int| 0 <= p < at ==> !occurs_at(needle@, haystack@, p),
        decreases last + 1 - at,
    {
        if bytes_match_at(haystack, needle, at) {
            return true;
        }
        at += 1;
    }
    false
}

/// Tells whether `needle` is a contiguous part of `haystack`.
///
/// The match is exact: no case folding, no trimming, no normalisation.
pub fn contains(haystack: &str, needle: &str) -> (found: bool)
    ensures
        found == occurs_in(needle@, haystack@),
{
    let found = bytes_contain(haystack.as_bytes(), needle.as_bytes());
    proof {
        lemma_occurrence_in_utf8(needle@, haystack@);
    }
    found
}

/// Tells whether two byte strings are the same.
fn bytes_equal(left: &[u8], right: &[u8]) -> (same: bool)
    ensures
        same == (left@ == right@),
{
    if left.len() != right.len() {
        return false;
    }
    let mut k: usize = 0;
    while k < left.len()
        invariant
            k <= left.len(),
            left.len() == right.len(),
            forall|j: int| 0 <= j < k ==> left@[j] == right@[j],
        decreases left.len() - k,
    {
        if left[k] != right[k] {
            assert(left@[k as int] != right@[k as int]);
            return false;
        }
        k += 1;
    }
    assert(left@ =~= right@);
    true
}

/// Tells whether two texts are the same, character for character.
///
/// The comparison is exact: case matters and nothing is trimmed.
pub fn same_text(a: &str, b: &str) -> (same: bool)
    ensures
        same == (a@ == b@),
{
    let same = bytes_equal(a.as_bytes(), b.as_bytes());
    proof {
        lemma_equality_in_utf8(a@, b@);
    }
    same
}

} // verus!
