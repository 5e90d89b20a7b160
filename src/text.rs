//! Small text helpers shared by the other modules.

use vstd::prelude::*;
use vstd::string::StringSliceAdditionalSpecFns;
use vstd::utf8::{decode_utf8, encode_utf8, encode_utf8_decode_utf8, is_char_boundary};

verus! {

/// Character-wise comparison of two string slices.
pub fn same_text(a: &str, b: &str) -> (r: bool)
    ensures
        r == (a@ == b@),
{
    let n = a.unicode_len();
    if n != b.unicode_len() {
        return false;
    }
    let mut i: usize = 0;
    while i < n
        invariant
            n == a@.len(),
            n == b@.len(),
            i <= n,
            forall|j: int| 0 <= j < i ==> a@[j] == b@[j],
        decreases n - i,
    {
        if a.get_char(i) != b.get_char(i) {
            return false;
        }
        i = i + 1;
    }
    proof {
        assert(a@ =~= b@);
    }
    true
}

/// Shortens `s` to its first `max_len` bytes, marking a cut with `...`.
/// A cut must fall on a character boundary.
pub fn truncate_string(s: &str, max_len: usize) -> (r: String)
    requires
        s.spec_bytes().len() <= max_len || is_char_boundary(s.spec_bytes(), max_len as int),
    ensures
        s.spec_bytes().len() <= max_len ==> r@ == s@,
        s.spec_bytes().len() > max_len ==> r@ == decode_utf8(s.spec_bytes().subrange(0, max_len as int)) + "..."@,
{
    let bytes = s.as_bytes();
    if bytes.len() <= max_len {
        s.to_owned()
    } else {
        let (head, _tail) = s.split_at(max_len);
        proof {
            let cut = s.spec_bytes().subrange(0, max_len as int);
            assert(head.spec_bytes() =~= cut);
            assert(head.spec_bytes() == encode_utf8(head@));
            encode_utf8_decode_utf8(head@);
            assert(decode_utf8(cut) == head@);
        }
        let r = String::from_str(head).concat("...");
        r
    }
}

/// Hands its argument back unchanged; used to pin a type at a call site.
pub fn specify_type<T>(value: T) -> (r: T)
    ensures
        r == value,
{
    value
}

} // verus!
