use vstd::prelude::*;
use vstd::std_specs::iter::IteratorSpec;

verus! {

/// Whether `c` has the Unicode `White_Space` property.
pub open spec fn is_space(c: char) -> bool {
    let n = c as u32;
    ||| 0x9 <= n <= 0xd
    ||| n == 0x20
    ||| n == 0x85
    ||| n == 0xa0
    ||| n == 0x1680
    ||| 0x2000 <= n <= 0x200a
    ||| n == 0x2028
    ||| n == 0x2029
    ||| n == 0x202f
    ||| n == 0x205f
    ||| n == 0x3000
}

/// Whether `s` is empty once surrounding whitespace is trimmed, that is,
/// whether every character of `s` is whitespace.
pub open spec fn is_blank(s: Seq<char>) -> bool {
    forall|i: int| 0 <= i < s.len() ==> is_space(#[trigger] s[i])
}

/// Relies on `char::is_whitespace`, which is true exactly of the characters
/// with the Unicode `White_Space` property.
#[verifier::external_body]
fn is_whitespace(c: char) -> (r: bool)
    ensures
        r == is_space(c),
{
    c.is_whitespace()
}

/// Whether `s` holds nothing but whitespace (the empty string included).
pub fn is_blank_str(s: &str) -> (r: bool)
    ensures
        r == is_blank(s@),
{
    let mut chars = s.chars();
    let ghost k: int = 0;
    loop
        invariant
            0 <= k <= s@.len(),
            chars.remaining() == s@.subrange(k, s@.len() as int),
            forall|i: int| 0 <= i < k ==> is_space(#[trigger] s@[i]),
        decreases s@.len() - k,
    {
        match chars.next() {
            Some(c) => {
                assert(s@[k] == c);
                if !is_whitespace(c) {
                    return false;
                }
                proof {
                    k = k + 1;
                }
            },
            None => {
                assert(k == s@.len());
                return true;
            },
        }
    }
}

} // verus!
