//! Text helpers: blank detection, shared by credential validation and the
//! diff check, and the decoding of line content.

use vstd::prelude::*;
use vstd::std_specs::iter::IteratorSpec;
use vstd::string::StringSliceAdditionalSpecFns;
use vstd::utf8::valid_utf8;

verus! {

/// The characters that trimming removes: the Unicode `White_Space` set.
pub open spec fn spec_is_whitespace(c: char) -> bool {
    let n = c as u32;
    ||| 0x09 <= n <= 0x0D
    ||| n == 0x20
    ||| n == 0x85
    ||| n == 0xA0
    ||| n == 0x1680
    ||| 0x2000 <= n <= 0x200A
    ||| n == 0x2028
    ||| n == 0x2029
    ||| n == 0x202F
    ||| n == 0x205F
    ||| n == 0x3000
}

/// A text is blank when nothing would be left of it after trimming.
pub open spec fn spec_is_blank(s: Seq<char>) -> bool {
    forall|i: int| 0 <= i < s.len() ==> spec_is_whitespace(#[trigger] s[i])
}

/// Whether `c` is a white-space character.
pub fn is_whitespace(c: char) -> (b: bool)
    ensures
        b == spec_is_whitespace(c),
{
    let n: u32 = c as u32;
    (0x09 <= n && n <= 0x0D) || n == 0x20 || n == 0x85 || n == 0xA0 || n == 0x1680 || (0x2000 <= n
        && n <= 0x200A) || n == 0x2028 || n == 0x2029 || n == 0x202F || n == 0x205F || n == 0x3000
}

/// Whether `s` is empty or consists of white space only.
pub fn is_blank(s: &str) -> (b: bool)
    ensures
        b == spec_is_blank(s@),
{
    broadcast use vstd::string::group_string_axioms;

    let mut chars = s.chars();
    let ghost mut seen: int = 0;
    loop
        invariant
            chars.obeys_prophetic_iter_laws(),
            0 <= seen <= s@.len(),
            chars.remaining() == s@.skip(seen),
            forall|i: int| 0 <= i < seen ==> spec_is_whitespace(#[trigger] s@[i]),
        decreases s@.len() - seen,
    {
        match chars.next() {
            None => {
                return true;
            },
            Some(c) => {
                assert(c == s@[seen]);
                if !is_whitespace(c) {
                    return false;
                }
                proof {
                    assert(s@.skip(seen).drop_first() == s@.skip(seen + 1));
                    seen = seen + 1;
                }
            },
        }
    }
}

/// `std::str::from_utf8`: the text that `bytes` encode. The standard library
/// accepts exactly the well-formed UTF-8 sequences and hands back the same
/// bytes, seen as text; the contract says so and nothing was proved of it.
#[verifier::external_body]
pub(crate) fn decode(bytes: &[u8]) -> (r: Option<&str>)
    ensures
        r is Some <==> valid_utf8(bytes@),
        r matches Some(s) ==> s.spec_bytes() == bytes@,
{
    std::str::from_utf8(bytes).ok()
}

} // verus!
