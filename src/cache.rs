use vstd::prelude::*;
use vstd::string::StringSliceAdditionalSpecFns;
use vstd::utf8::{
    encode_utf8, encode_utf8_valid_utf8, is_char_boundary, length_of_first_scalar,
    pop_first_scalar, valid_utf8,
};

verus! {

/// True when `url` begins with `base`, byte for byte.
pub open spec fn in_scope(url: Seq<u8>, base: Seq<u8>) -> bool {
    base.len() <= url.len() && url.subrange(0, base.len() as int) == base
}

/// Tests whether `url` lies under the base origin `base`.
pub fn is_in_scope(url: &str, base: &str) -> (r: bool)
    ensures
        r == in_scope(url.spec_bytes(), base.spec_bytes()),
{
    let u = url.as_bytes();
    let b = base.as_bytes();
    if u.len() < b.len() {
        return false;
    }
    let mut i: usize = 0;
    while i < b.len()
        invariant
            u@ == url.spec_bytes(),
            b@ == base.spec_bytes(),
            b.len() <= u.len(),
            i <= b.len(),
            u@.subrange(0, i as int) == b@.subrange(0, i as int),
        decreases b.len() - i,
    {
        if u[i] != b[i] {
            assert(u@.subrange(0, b.len() as int)[i as int] != b@[i as int]);
            return false;
        }
        assert(u@.subrange(0, i + 1) =~= u@.subrange(0, i as int).push(u@[i as int]));
        assert(b@.subrange(0, i + 1) =~= b@.subrange(0, i as int).push(b@[i as int]));
        i = i + 1;
    }
    assert(b@.subrange(0, b.len() as int) =~= b@);
    true
}

/// The bytes that name a URL's entry in the cache: the URL with the base
/// origin taken off its front.
pub open spec fn key_bytes(url: Seq<u8>, base: Seq<u8>) -> Seq<u8> {
    url.subrange(base.len() as int, url.len() as int)
}

/// A valid UTF-8 prefix ends on a character boundary of any valid text that
/// it begins.
proof fn lemma_prefix_is_boundary(pre: Seq<u8>, rest: Seq<u8>)
    requires
        valid_utf8(pre),
        valid_utf8(pre + rest),
    ensures
        is_char_boundary(pre + rest, pre.len() as int),
    decreases pre.len(),
{
    if pre.len() > 0 {
        let whole = pre + rest;
        let n = length_of_first_scalar(pre);
        assert(whole.subrange(0, pre.len() as int) =~= pre);
        assert(length_of_first_scalar(whole) == n);
        assert(pop_first_scalar(whole) =~= pop_first_scalar(pre) + rest);
        lemma_prefix_is_boundary(pop_first_scalar(pre), rest);
    }
}

/// The name of the cache entry for `url`: the URL with `base` taken off its
/// front, or `None` where the URL lies outside the base origin.
pub fn cache_key(url: &str, base: &str) -> (r: Option<String>)
    ensures
        r is Some <==> in_scope(url.spec_bytes(), base.spec_bytes()),
        r matches Some(k) ==> encode_utf8(k@) == key_bytes(url.spec_bytes(), base.spec_bytes()),
{
    if !is_in_scope(url, base) {
        return None;
    }
    proof {
        let u = url.spec_bytes();
        let b = base.spec_bytes();
        encode_utf8_valid_utf8(url@);
        encode_utf8_valid_utf8(base@);
        assert(u =~= b + key_bytes(u, b));
        lemma_prefix_is_boundary(b, key_bytes(u, b));
    }
    let n = base.as_bytes().len();
    let (_, tail) = url.split_at(n);
    let k = tail.to_owned();
    assert(encode_utf8(k@) == tail.spec_bytes());
    Some(k)
}

} // verus!
