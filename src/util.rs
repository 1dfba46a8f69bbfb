//! Small helpers of the pipeline framework.
use vstd::prelude::*;
use crate::text::chars_of;

verus! {

/// `::` starts at position `i` of `s`.
pub open spec fn separator_at(s: Seq<char>, i: int) -> bool {
    0 <= i && i + 1 < s.len() && s[i] == ':' && s[i + 1] == ':'
}

/// The last component of a `::`-separated path: what follows the last `::`,
/// or the whole path when it has none.
pub open spec fn spec_short_name(s: Seq<char>) -> Seq<char> {
    if exists|i: int| separator_at(s, i) {
        let i = choose|i: int| separator_at(s, i) && forall|j: int| separator_at(s, j) ==> j <= i;
        s.subrange(i + 2, s.len() as int)
    } else {
        s
    }
}

/// Relies on `String::from_iter` over characters: the text made of `chars`,
/// in order.
#[verifier::external_body]
fn string_of(chars: &[char]) -> (r: String)
    ensures
        r@ == chars@,
{
    chars.iter().collect()
}

/// A short name for a type: the last component of its path.
pub fn short_type_name(full_name: &str) -> (r: String)
    ensures
        r@ == spec_short_name(full_name@),
{
    let chars = chars_of(full_name);
    let n = chars.len();
    let mut i: usize = n;
    while i >= 2
        invariant
            chars@ == full_name@,
            n == chars@.len(),
            i <= n,
            forall|j: int| i - 1 <= j < n ==> !separator_at(chars@, j),
        decreases i,
    {
        if chars[i - 2] == ':' && chars[i - 1] == ':' {
            let ghost at = i - 2;
            assert(separator_at(chars@, at));
            assert forall|j: int| separator_at(chars@, j) implies j <= at by {
                if j > at {
                    assert(i - 1 <= j);
                }
            }
            let ghost found = choose|k: int| separator_at(chars@, k) && forall|j: int| separator_at(chars@, j) ==> j <= k;
            assert(found == at) by {
                assert(separator_at(chars@, found));
                assert(found <= at);
                assert(at <= found);
            }
            return string_of(&chars.as_slice()[i..n]);
        }
        i = i - 1;
    }
    assert forall|j: int| !separator_at(chars@, j) by {
        if 0 <= j && j + 1 < n {
            assert(i - 1 <= j);
        }
    }
    string_of(chars.as_slice())
}

/// Room for further helpers of the pipeline framework; does nothing.
pub fn placeholder() {
}

} // verus!
