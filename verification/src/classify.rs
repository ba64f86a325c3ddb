use vstd::prelude::*;

verus! {

/// The whitelisted "public operation" signature: the hex text of the call
/// selector (with its padded argument head) that any caller may have signed.
pub open spec fn public_method_signature() -> Seq<char> {
    "6a627842000000000000000000000000"@
}

/// `needle` occurs in `hay` starting at position `i`.
pub open spec fn matches_at(hay: Seq<u8>, needle: Seq<u8>, i: int) -> bool {
    &&& 0 <= i
    &&& i + needle.len() <= hay.len()
    &&& hay.subrange(i, i + needle.len()) == needle
}

/// `needle` occurs somewhere in `hay` as a contiguous run.
pub open spec fn contains_seq(hay: Seq<u8>, needle: Seq<u8>) -> bool {
    exists|i: int| matches_at(hay, needle, i)
}

/// The payload text invokes a whitelisted public operation: the public
/// signature appears somewhere in its bytes. A conservative, signature-based
/// classification; it does not parse the payload's structure.
pub open spec fn spec_is_public_payload(payload: Seq<char>) -> bool {
    contains_seq(
        vstd::utf8::encode_utf8(payload),
        vstd::utf8::encode_utf8(public_method_signature()),
    )
}

/// Decide whether `needle` occurs in `hay` at position `i`.
fn slice_matches_at(hay: &[u8], needle: &[u8], i: usize) -> (r: bool)
    requires
        i + needle@.len() <= hay@.len(),
    ensures
        r == matches_at(hay@, needle@, i as int),
{
    let n = needle.len();
    let hlen = hay.len();
    let mut j: usize = 0;
    while j < n
        invariant
            n == needle@.len(),
            hlen == hay@.len(),
            i + n <= hlen,
            j <= n,
            forall|k: int| 0 <= k < j ==> hay@[i + k] == needle@[k],
        decreases n - j,
    {
        if hay[i + j] != needle[j] {
            assert(hay@.subrange(i as int, i + needle@.len())[j as int] != needle@[j as int]);
            return false;
        }
        j += 1;
    }
    assert(hay@.subrange(i as int, i + needle@.len()) =~= needle@);
    true
}

/// Decide whether `needle` occurs anywhere in `hay` as a contiguous run.
pub fn contains_subslice(hay: &[u8], needle: &[u8]) -> (r: bool)
    ensures
        r == contains_seq(hay@, needle@),
{
    if needle.len() > hay.len() {
        return false;
    }
    let end = hay.len() - needle.len();
    let mut i: usize = 0;
    loop
        invariant
            needle@.len() <= hay@.len(),
            end == hay@.len() - needle@.len(),
            i <= end,
            forall|k: int| 0 <= k < i ==> !matches_at(hay@, needle@, k),
        decreases end - i,
    {
        if slice_matches_at(hay, needle, i) {
            return true;
        }
        if i == end {
            assert(forall|k: int| matches_at(hay@, needle@, k) ==> 0 <= k <= end);
            return false;
        }
        i += 1;
    }
}

/// Classify the payload text: true exactly when the whitelisted public
/// signature appears somewhere in it, so the request is exempt from the
/// owner-only restriction.
pub fn is_public_payload(rlp_payload: &str) -> (r: bool)
    ensures
        r == spec_is_public_payload(rlp_payload@),
{
    let signature: &str = "6a627842000000000000000000000000";
    contains_subslice(rlp_payload.as_bytes(), signature.as_bytes())
}

} // verus!
