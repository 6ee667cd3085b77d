//! The written form of a vector: its components in order, separated by a
//! comma and a space, inside round brackets.

use vstd::prelude::*;
use vstd::string::*;

verus! {

/// The written form of a vector with three components, over the text of
/// each component: `(x, y, z)`.
pub open spec fn triple(x: Seq<char>, y: Seq<char>, z: Seq<char>) -> Seq<char> {
    seq!['('] + x + seq![',', ' '] + y + seq![',', ' '] + z + seq![')']
}

/// Writes a vector with three components from the text of each of them.
///
/// The caller renders the components; this function sets them in order
/// between the brackets and the separators, and adds nothing else.
pub fn write_triple(x: &str, y: &str, z: &str) -> (out: String)
    ensures
        out@ == triple(x@, y@, z@),
{
    proof {
        reveal_strlit("(");
        reveal_strlit(", ");
        reveal_strlit(")");
    }
    let mut out = String::from_str("(");
    out.append(x);
    out.append(", ");
    out.append(y);
    out.append(", ");
    out.append(z);
    out.append(")");
    assert(out@ =~= triple(x@, y@, z@));
    out
}

} // verus!
