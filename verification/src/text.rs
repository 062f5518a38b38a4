//! Small string helpers shared by the other modules.

use vstd::prelude::*;
use vstd::utf8::encode_utf8;

verus! {

/// Compares two string slices by their characters.
///
/// The comparison runs over the UTF-8 bytes; since decoding inverts encoding,
/// equal bytes mean equal characters.
pub fn str_eq(a: &str, b: &str) -> (r: bool)
    ensures
        r == (a@ == b@),
{
    let x = a.as_bytes();
    let y = b.as_bytes();
    proof {
        vstd::utf8::encode_utf8_decode_utf8(a@);
        vstd::utf8::encode_utf8_decode_utf8(b@);
    }
    if x.len() != y.len() {
        return false;
    }
    let mut i: usize = 0;
    while i < x.len()
        invariant
            x@ == encode_utf8(a@),
            y@ == encode_utf8(b@),
            x@.len() == y@.len(),
            i <= x@.len(),
            forall|j: int| 0 <= j < i ==> x@[j] == y@[j],
        decreases x@.len() - i,
    {
        if x[i] != y[i] {
            return false;
        }
        i = i + 1;
    }
    assert(x@ =~= y@);
    true
}

/// The text `head`, a dot, and the text `tail`: the path of `tail` below `head`.
pub open spec fn dotted(head: Seq<char>, tail: Seq<char>) -> Seq<char> {
    head + seq!['.'] + tail
}

/// Joins two path segments with a dot.
pub fn join_dotted(head: &str, tail: &str) -> (r: String)
    ensures
        r@ == dotted(head@, tail@),
{
    let mut out = head.to_owned();
    proof {
        reveal_strlit(".");
    }
    out.append(".");
    out.append(tail);
    out
}

} // verus!
