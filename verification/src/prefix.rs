//! Matching a target name against a configured prefix.
//!
//! A target matches a prefix when the bytes of the prefix open the bytes of
//! the target. Both are text, so this is the same as the characters of the
//! prefix opening the characters of the target; the module proves that.

use vstd::prelude::*;
use vstd::utf8::*;

verus! {

/// `target` starts with `prefix`: the UTF-8 bytes of `prefix` are the first
/// bytes of the UTF-8 encoding of `target`. The comparison is exact, so it
/// is case-sensitive.
pub open spec fn starts_with(target: Seq<char>, prefix: Seq<char>) -> bool {
    encode_utf8(prefix).is_prefix_of(encode_utf8(target))
}

/// Whether `target` starts with `prefix`, byte by byte.
pub fn target_starts_with(target: &str, prefix: &str) -> (matched: bool)
    ensures
        matched == starts_with(target@, prefix@),
{
    let subject = target.as_bytes();
    let wanted = prefix.as_bytes();
    if wanted.len() > subject.len() {
        return false;
    }
    let mut at: usize = 0;
    while at < wanted.len()
        invariant
            at <= wanted@.len() <= subject@.len(),
            wanted@ == encode_utf8(prefix@),
            subject@ == encode_utf8(target@),
            forall|k: int| 0 <= k < at ==> wanted@[k] == subject@[k],
        decreases wanted@.len() - at,
    {
        if wanted[at] != subject[at] {
            assert(subject@.subrange(0, wanted@.len() as int)[at as int] != wanted@[at as int]);
            return false;
        }
        at = at + 1;
    }
    assert(wanted@ =~= subject@.subrange(0, wanted@.len() as int));
    true
}

/// The encoding of a concatenation is the concatenation of the encodings.
pub proof fn lemma_encode_concat(left: Seq<char>, right: Seq<char>)
    ensures
        encode_utf8(left + right) == encode_utf8(left) + encode_utf8(right),
    decreases left.len(),
{
    if left.len() == 0 {
        assert(left + right =~= right);
        assert(encode_utf8(left) + encode_utf8(right) =~= encode_utf8(right));
    } else {
        lemma_encode_concat(left.drop_first(), right);
        assert((left + right).drop_first() =~= left.drop_first() + right);
        assert(encode_utf8(left + right) =~= encode_utf8(left) + encode_utf8(right));
    }
}

/// Every target starts with the empty prefix.
pub proof fn lemma_empty_prefix_matches(target: Seq<char>)
    ensures
        starts_with(target, Seq::<char>::empty()),
{
    assert(encode_utf8(Seq::<char>::empty()) =~= Seq::<u8>::empty());
}

/// Matching byte by byte and matching character by character are the same
/// relation.
pub proof fn lemma_starts_with_by_characters(target: Seq<char>, prefix: Seq<char>)
    ensures
        starts_with(target, prefix) <==> prefix.is_prefix_of(target),
    decreases prefix.len(),
{
    let wanted = encode_utf8(prefix);
    let subject = encode_utf8(target);
    if prefix.is_prefix_of(target) {
        let rest = target.subrange(prefix.len() as int, target.len() as int);
        assert(target =~= prefix + rest);
        lemma_encode_concat(prefix, rest);
        assert(wanted =~= (wanted + encode_utf8(rest)).subrange(0, wanted.len() as int));
    }
    if starts_with(target, prefix) && prefix.len() > 0 {
        let head = encode_scalar(prefix[0] as u32);
        assert(head.len() >= 1);
        assert(wanted.len() >= head.len());
        assert(target.len() > 0);
        encode_utf8_first_scalar(prefix);
        encode_utf8_first_scalar(target);
        assert forall|k: int| 0 <= k < wanted.len() implies wanted[k] == subject[k] by {
            assert(subject.subrange(0, wanted.len() as int)[k] == subject[k]);
        }
        assert(decode_first_scalar(wanted) == decode_first_scalar(subject));
        assert(prefix[0] as u32 == target[0] as u32);
        char_u32_cast(prefix[0], prefix[0] as u32);
        char_u32_cast(target[0], target[0] as u32);
        assert(prefix[0] == target[0]);
        let wanted_tail = encode_utf8(prefix.drop_first());
        let subject_tail = encode_utf8(target.drop_first());
        assert(wanted =~= head + wanted_tail);
        assert(subject =~= head + subject_tail);
        assert forall|k: int| 0 <= k < wanted_tail.len() implies wanted_tail[k] == subject_tail[k] by {
            assert(wanted[head.len() + k] == wanted_tail[k]);
            assert(subject[head.len() + k] == subject_tail[k]);
        }
        assert(wanted_tail =~= subject_tail.subrange(0, wanted_tail.len() as int));
        lemma_starts_with_by_characters(target.drop_first(), prefix.drop_first());
        assert(prefix.drop_first().is_prefix_of(target.drop_first()));
        assert forall|k: int| 0 <= k < prefix.len() implies prefix[k] == target[k] by {
            if k > 0 {
                assert(prefix.drop_first()[k - 1] == prefix[k]);
                assert(target.drop_first().subrange(0, prefix.len() - 1)[k - 1] == target[k]);
            }
        }
        assert(prefix =~= target.subrange(0, prefix.len() as int));
    }
}

} // verus!
